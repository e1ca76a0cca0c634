//! A grid of input fields with two states: browsing, where arrow keys move
//! a 2D selector over the grid, and editing, where one field has exclusive
//! input focus.  Enter activates the selected field, Escape returns to
//! browsing; while editing, every other key is swallowed by the focused
//! field.

use vstd::prelude::*;
use crate::action::Action;
use crate::components::selector::{cyclic_next, cyclic_prev};
use crate::event::Key;
use crate::models::time::time_chars;
use crate::ui_components::selector_2d::{Selector2D, clamp_col};
use crate::ui_fields::base::{BorderStyle, handler_key_transition, handler_value};
use crate::ui_fields::carousel::{CarouselInputField, carousel_key_transition};
use crate::ui_fields::int_field::IntInputField;
use crate::ui_fields::string::StrInputField;
use crate::ui_fields::time::{TimeInputField, spec_hours, spec_minutes, time_key_transition};

verus! {

/// One cell of a form: any of the four input leaves.
#[derive(Debug)]
pub enum FormField {
    Str(StrInputField),
    Int(IntInputField),
    Time(TimeInputField),
    Carousel(CarouselInputField),
}

/// The text a field reports as its value.
pub open spec fn field_value(f: FormField) -> Seq<char> {
    match f {
        FormField::Str(s) => handler_value(s.0.input_handler),
        FormField::Int(i) => handler_value(i.0.input_handler),
        FormField::Time(t) => time_chars(spec_hours(t), spec_minutes(t)),
        FormField::Carousel(c) => c.spec_value(),
    }
}

/// The border role a field currently carries.
pub open spec fn field_border(f: FormField) -> BorderStyle {
    match f {
        FormField::Str(s) => s.0.border_style,
        FormField::Int(i) => i.0.border_style,
        FormField::Time(t) => t.border_style,
        FormField::Carousel(c) => c.border_style,
    }
}

/// Whether a field paints its cursor.  A carousel has no cursor and
/// never paints one.
pub open spec fn field_cursor_visible(f: FormField) -> bool {
    match f {
        FormField::Str(s) => s.0.is_cursor_visible,
        FormField::Int(i) => i.0.is_cursor_visible,
        FormField::Time(t) => t.is_cursor_visible,
        FormField::Carousel(_) => false,
    }
}

/// Whether two fields are the same kind of leaf.
pub open spec fn same_kind(a: FormField, b: FormField) -> bool {
    match (a, b) {
        (FormField::Str(_), FormField::Str(_)) => true,
        (FormField::Int(_), FormField::Int(_)) => true,
        (FormField::Time(_), FormField::Time(_)) => true,
        (FormField::Carousel(_), FormField::Carousel(_)) => true,
        _ => false,
    }
}

/// How one key press transforms a form field: the field keeps its kind
/// and its box, and its inner editor follows its own keystroke rules.
pub open spec fn field_key_transition(pre: FormField, post: FormField, key: Key) -> bool {
    match (pre, post) {
        (FormField::Str(a), FormField::Str(b)) => {
            &&& handler_key_transition(a.0.input_handler, b.0.input_handler, key)
            &&& b.0.title == a.0.title
            &&& b.0.border_style == a.0.border_style
            &&& b.0.is_cursor_visible == a.0.is_cursor_visible
            &&& b.0.left_padding == a.0.left_padding
        },
        (FormField::Int(a), FormField::Int(b)) => {
            &&& handler_key_transition(a.0.input_handler, b.0.input_handler, key)
            &&& b.0.title == a.0.title
            &&& b.0.border_style == a.0.border_style
            &&& b.0.is_cursor_visible == a.0.is_cursor_visible
            &&& b.0.left_padding == a.0.left_padding
        },
        (FormField::Time(a), FormField::Time(b)) => time_key_transition(a, b, key),
        (FormField::Carousel(a), FormField::Carousel(b)) => carousel_key_transition(a, b, key),
        _ => false,
    }
}

/// Where the 2D selection lands after a key while browsing: vertical
/// arrows cycle over the rows and clamp the column, horizontal arrows
/// cycle within the row, and any other key leaves the cursor alone.
pub open spec fn selection_after(pre: Selector2D, post: Selector2D, key: Key) -> bool {
    &&& post.row_lengths@ == pre.row_lengths@
    &&& match key {
        Key::Up => post.selected_row == crate::components::selector::cyclic_prev(
            pre.selected_row as int,
            pre.row_lengths@.len() as int,
        ) && post.selected_col == clamp_col(
            pre.selected_col as int,
            pre.row_lengths@[post.selected_row as int] as int,
        ),
        Key::Down => post.selected_row == crate::components::selector::cyclic_next(
            pre.selected_row as int,
            pre.row_lengths@.len() as int,
        ) && post.selected_col == clamp_col(
            pre.selected_col as int,
            pre.row_lengths@[post.selected_row as int] as int,
        ),
        Key::Left => post.selected_row == pre.selected_row && post.selected_col
            == crate::components::selector::cyclic_prev(
            pre.selected_col as int,
            pre.row_lengths@[pre.selected_row as int] as int,
        ),
        Key::Right => post.selected_row == pre.selected_row && post.selected_col
            == crate::components::selector::cyclic_next(
            pre.selected_col as int,
            pre.row_lengths@[pre.selected_row as int] as int,
        ),
        _ => post == pre,
    }
}

/// The form's whole keystroke behaviour, spelled out state by state.
///
/// Always: the three style roles, the grid's shape, every cell's kind and
/// width are kept.  While editing, Escape returns to browsing, re-styles
/// the focused field as selected and hides its cursor, touching no value;
/// any other key reaches exactly the focused field, which transitions by
/// its own keystroke rules while every other cell is untouched.  While
/// browsing, Enter hands the selected field the focus, paints it active
/// and shows its cursor; any other key moves the selection per
/// [`selection_after`] and keeps the selection painted as selected; no
/// value changes while browsing.
pub open spec fn form_key_transition(pre: Form, post: Form, key: Key) -> bool {
    &&& post.field_style == pre.field_style
    &&& post.selected_field_style == pre.selected_field_style
    &&& post.active_field_style == pre.active_field_style
    &&& post.layout@.len() == pre.layout@.len()
    &&& forall|a: int|
        0 <= a < pre.layout@.len() ==> (#[trigger] post.layout@[a])@.len() == pre.layout@[a]@.len()
    &&& forall|a: int, b: int|
        0 <= a < pre.layout@.len() && 0 <= b < pre.layout@[a]@.len() ==> same_kind(
            (#[trigger] post.layout@[a]@[b]).0,
            pre.layout@[a]@[b].0,
        ) && post.layout@[a]@[b].1 == pre.layout@[a]@[b].1
    &&& if pre.is_selected_field_active {
        &&& post.selector == pre.selector
        &&& if key == Key::Esc {
            &&& !post.is_selected_field_active
            &&& ({
                let f =
                    post.layout@[pre.selector.selected_row as int]@[pre.selector.selected_col as int].0;
                field_border(f) == pre.selected_field_style && !field_cursor_visible(f)
            })
            &&& forall|a: int, b: int|
                0 <= a < pre.layout@.len() && 0 <= b < pre.layout@[a]@.len() ==> field_value(
                    (#[trigger] post.layout@[a]@[b]).0,
                ) == field_value(pre.layout@[a]@[b].0)
        } else {
            &&& post.is_selected_field_active
            &&& field_key_transition(
                pre.layout@[pre.selector.selected_row as int]@[pre.selector.selected_col as int].0,
                post.layout@[pre.selector.selected_row as int]@[pre.selector.selected_col as int].0,
                key,
            )
            &&& forall|a: int, b: int|
                0 <= a < pre.layout@.len() && 0 <= b < pre.layout@[a]@.len() && !(a
                    == pre.selector.selected_row && b == pre.selector.selected_col) ==> (
                #[trigger] post.layout@[a]@[b]) == pre.layout@[a]@[b]
        }
    } else {
        &&& if key == Key::Enter {
            &&& post.is_selected_field_active
            &&& post.selector == pre.selector
            &&& ({
                let f =
                    post.layout@[pre.selector.selected_row as int]@[pre.selector.selected_col as int].0;
                field_border(f) == pre.active_field_style && (!(f matches FormField::Carousel(
                    _,
                )) ==> field_cursor_visible(f))
            })
        } else {
            &&& !post.is_selected_field_active
            &&& selection_after(pre.selector, post.selector, key)
            &&& field_border(
                post.layout@[post.selector.selected_row as int]@[post.selector.selected_col as int].0,
            ) == pre.selected_field_style
        }
        &&& forall|a: int, b: int|
            0 <= a < pre.layout@.len() && 0 <= b < pre.layout@[a]@.len() ==> field_value(
                (#[trigger] post.layout@[a]@[b]).0,
            ) == field_value(pre.layout@[a]@[b].0)
    }
}

/// What a queued action leaves of a form: since no input leaf reacts to
/// actions, everything -- flags, selection, styles and every cell --
/// stays exactly as it was.
pub open spec fn form_update_frame(pre: Form, post: Form) -> bool {
    &&& post.is_selected_field_active == pre.is_selected_field_active
    &&& post.selector == pre.selector
    &&& post.field_style == pre.field_style
    &&& post.selected_field_style == pre.selected_field_style
    &&& post.active_field_style == pre.active_field_style
    &&& post.layout@.len() == pre.layout@.len()
    &&& forall|a: int|
        0 <= a < pre.layout@.len() ==> (#[trigger] post.layout@[a])@.len() == pre.layout@[a]@.len()
    &&& forall|a: int, b: int|
        0 <= a < pre.layout@.len() && 0 <= b < pre.layout@[a]@.len() ==> (
        #[trigger] post.layout@[a]@[b]) == pre.layout@[a]@[b]
}

impl FormField {
    pub open spec fn wf(&self) -> bool {
        match self {
            FormField::Str(s) => s.wf(),
            FormField::Int(i) => i.wf(),
            FormField::Time(t) => t.wf(),
            FormField::Carousel(c) => c.wf(),
        }
    }

    pub fn get_value(&self) -> (r: String)
        requires
            self.wf(),
        ensures
            r@ == field_value(*self),
    {
        match self {
            FormField::Str(s) => s.get_value(),
            FormField::Int(i) => i.get_value(),
            FormField::Time(t) => t.get_value(),
            FormField::Carousel(c) => c.get_value(),
        }
    }

    /// Re-styles the field's border; its value is untouched.
    pub fn borders(&mut self, border_style: BorderStyle)
        requires
            old(self).wf(),
        ensures
            final(self).wf(),
            same_kind(*final(self), *old(self)),
            field_value(*final(self)) == field_value(*old(self)),
            field_border(*final(self)) == border_style,
            field_cursor_visible(*final(self)) == field_cursor_visible(*old(self)),
    {
        match self {
            FormField::Str(s) => s.borders(border_style),
            FormField::Int(i) => i.borders(border_style),
            FormField::Time(t) => t.borders(border_style),
            FormField::Carousel(c) => c.borders(border_style),
        }
    }

    /// Shows or hides the field's cursor; its value is untouched.
    pub fn set_cursor_visibility(&mut self, visible: bool)
        requires
            old(self).wf(),
        ensures
            final(self).wf(),
            same_kind(*final(self), *old(self)),
            field_value(*final(self)) == field_value(*old(self)),
            field_border(*final(self)) == field_border(*old(self)),
            (*final(self)) matches FormField::Carousel(_) ==> !field_cursor_visible(
                *final(self),
            ),
            !((*final(self)) matches FormField::Carousel(_)) ==> field_cursor_visible(
                *final(self),
            ) == visible,
    {
        match self {
            FormField::Str(s) => s.set_cursor_visibility(visible),
            FormField::Int(i) => i.set_cursor_visibility(visible),
            FormField::Time(t) => t.set_cursor_visibility(visible),
            FormField::Carousel(c) => c.set_cursor_visibility(visible),
        }
    }

    /// Hands one key press to the field.
    pub fn handle_key_event(&mut self, key: Key) -> (r: Option<Action>)
        requires
            old(self).wf(),
        ensures
            final(self).wf(),
            same_kind(*final(self), *old(self)),
            r is None,
            field_key_transition(*old(self), *final(self), key),
    {
        match self {
            FormField::Str(s) => s.handle_key_event(key),
            FormField::Int(i) => i.handle_key_event(key),
            FormField::Time(t) => t.handle_key_event(key),
            FormField::Carousel(c) => c.handle_key_event(key),
        }
    }

    /// The input leaves carry no animation of their own: every queued
    /// action is accepted and ignored.
    pub fn update(&mut self, action: Action) -> (r: Option<Action>)
        ensures
            *final(self) == *old(self),
            r is None,
    {
        let _ = action;
        None
    }
}

/// The form: a non-empty ragged grid of fields with their column widths,
/// a 2D selector over the grid, the browsing/editing flag, and the three
/// border roles handed out to fields as the selection moves.
#[derive(Debug)]
pub struct Form {
    pub is_selected_field_active: bool,
    pub selector: Selector2D,
    pub layout: Vec<Vec<(FormField, u16)>>,
    pub field_style: BorderStyle,
    pub selected_field_style: BorderStyle,
    pub active_field_style: BorderStyle,
}

impl Form {
    /// The selector mirrors the grid's shape, the grid is non-empty with
    /// non-empty rows, and every field is well formed.
    pub open spec fn wf(&self) -> bool {
        &&& self.layout@.len() > 0
        &&& forall|r: int| 0 <= r < self.layout@.len() ==> #[trigger] self.layout@[r]@.len() > 0
        &&& self.selector.row_lengths@.len() == self.layout@.len()
        &&& forall|r: int|
            0 <= r < self.layout@.len() ==> #[trigger] self.selector.row_lengths@[r]
                == self.layout@[r]@.len()
        &&& self.selector.wf()
        &&& forall|r: int, c: int|
            0 <= r < self.layout@.len() && 0 <= c < self.layout@[r]@.len()
                ==> (#[trigger] self.layout@[r]@[c].0).wf()
    }

    /// The grid position the selector rests on.
    pub open spec fn spec_selected(&self) -> (int, int) {
        (self.selector.selected_row as int, self.selector.selected_col as int)
    }

    /// A fresh form in browsing state, selection at the top-left field.
    pub fn new(layout: Vec<Vec<(FormField, u16)>>) -> (f: Form)
        requires
            layout@.len() > 0,
            forall|r: int| 0 <= r < layout@.len() ==> #[trigger] layout@[r]@.len() > 0,
            forall|r: int, c: int|
                0 <= r < layout@.len() && 0 <= c < layout@[r]@.len() ==> (#[trigger] layout@[r]@[c].0).wf(),
        ensures
            f.wf(),
            !f.is_selected_field_active,
            f.spec_selected() == (0int, 0int),
            f.layout@ == layout@,
            f.field_style == BorderStyle::Plain,
            f.selected_field_style == BorderStyle::Plain,
            f.active_field_style == BorderStyle::Plain,
    {
        let mut row_lengths: Vec<usize> = Vec::new();
        let mut r: usize = 0;
        while r < layout.len()
            invariant
                0 <= r <= layout@.len(),
                row_lengths@.len() == r,
                forall|k: int| 0 <= k < r ==> #[trigger] row_lengths@[k] == layout@[k]@.len(),
            decreases layout@.len() - r,
        {
            row_lengths.push(layout[r].len());
            r += 1;
        }
        Form {
            is_selected_field_active: false,
            selector: Selector2D::new(row_lengths),
            layout,
            field_style: BorderStyle::Plain,
            selected_field_style: BorderStyle::Plain,
            active_field_style: BorderStyle::Plain,
        }
    }

    /// Sets the border role of ordinary fields.
    pub fn with_field_style(self, style: BorderStyle) -> (f: Form)
        ensures
            f == (Form { field_style: style, ..self }),
    {
        Form { field_style: style, ..self }
    }

    /// Sets the border role of the selected field.
    pub fn with_selected_field_style(self, style: BorderStyle) -> (f: Form)
        ensures
            f == (Form { selected_field_style: style, ..self }),
    {
        Form { selected_field_style: style, ..self }
    }

    /// Sets the border role of the field being edited.
    pub fn with_active_field_style(self, style: BorderStyle) -> (f: Form)
        ensures
            f == (Form { active_field_style: style, ..self }),
    {
        Form { active_field_style: style, ..self }
    }

    /// A snapshot of every field's current value, in grid shape.
    pub fn get_input(&self) -> (r: Vec<Vec<String>>)
        requires
            self.wf(),
        ensures
            r@.len() == self.layout@.len(),
            forall|i: int|
                0 <= i < self.layout@.len() ==> (#[trigger] r@[i])@.len()
                    == self.layout@[i]@.len(),
            forall|i: int, j: int|
                0 <= i < self.layout@.len() && 0 <= j < self.layout@[i]@.len() ==> (
                #[trigger] r@[i]@[j])@ == field_value(self.layout@[i]@[j].0),
    {
        let mut out: Vec<Vec<String>> = Vec::new();
        let mut i: usize = 0;
        while i < self.layout.len()
            invariant
                0 <= i <= self.layout@.len(),
                self.wf(),
                out@.len() == i,
                forall|a: int|
                    0 <= a < i ==> (#[trigger] out@[a])@.len() == self.layout@[a]@.len(),
                forall|a: int, b: int|
                    0 <= a < i && 0 <= b < self.layout@[a]@.len() ==> (#[trigger] out@[a]@[b])@
                        == field_value(self.layout@[a]@[b].0),
            decreases self.layout@.len() - i,
        {
            let row = &self.layout[i];
            let mut out_row: Vec<String> = Vec::new();
            let mut j: usize = 0;
            while j < row.len()
                invariant
                    0 <= j <= row@.len(),
                    self.wf(),
                    0 <= i < self.layout@.len(),
                    row@ == self.layout@[i as int]@,
                    out_row@.len() == j,
                    forall|b: int|
                        0 <= b < j ==> (#[trigger] out_row@[b])@ == field_value(row@[b].0),
                decreases row@.len() - j,
            {
                out_row.push(row[j].0.get_value());
                j += 1;
            }
            out.push(out_row);
            i += 1;
        }
        out
    }

    /// Re-styles the selected field with the given role.
    fn style_selected(&mut self, style: BorderStyle)
        requires
            old(self).wf(),
        ensures
            final(self).wf(),
            field_border(
                final(self).layout@[old(self).selector.selected_row as int]@[old(self).selector.selected_col as int].0,
            ) == style,
            forall|a: int, b: int|
                0 <= a < old(self).layout@.len() && 0 <= b < old(self).layout@[a]@.len() && !(a
                    == old(self).selector.selected_row && b == old(self).selector.selected_col)
                    ==> (#[trigger] final(self).layout@[a]@[b]) == old(self).layout@[a]@[b],
            forall|a: int, b: int|
                0 <= a < old(self).layout@.len() && 0 <= b < old(self).layout@[a]@.len()
                    ==> field_cursor_visible((#[trigger] final(self).layout@[a]@[b]).0)
                    == field_cursor_visible(old(self).layout@[a]@[b].0),
            final(self).is_selected_field_active == old(self).is_selected_field_active,
            final(self).selector == old(self).selector,
            final(self).field_style == old(self).field_style,
            final(self).selected_field_style == old(self).selected_field_style,
            final(self).active_field_style == old(self).active_field_style,
            final(self).layout@.len() == old(self).layout@.len(),
            forall|a: int|
                0 <= a < old(self).layout@.len() ==> (#[trigger] final(self).layout@[a])@.len()
                    == old(self).layout@[a]@.len(),
            forall|a: int, b: int|
                0 <= a < old(self).layout@.len() && 0 <= b < old(self).layout@[a]@.len()
                    ==> field_value((#[trigger] final(self).layout@[a]@[b]).0) == field_value(
                    old(self).layout@[a]@[b].0,
                ) && same_kind(
                    final(self).layout@[a]@[b].0,
                    old(self).layout@[a]@[b].0,
                ) && final(self).layout@[a]@[b].1 == old(self).layout@[a]@[b].1,
    {
        let (row, col) = self.selector.selected();
        self.layout[row][col].0.borders(style);
    }

    /// Makes the selected field's cursor visible or not.  A carousel in
    /// the selected cell keeps its cursor hidden.
    fn cursor_selected(&mut self, visible: bool)
        requires
            old(self).wf(),
        ensures
            final(self).wf(),
            ({
                let f = final(self).layout@[old(self).selector.selected_row as int]@[old(self).selector.selected_col as int].0;
                if f matches FormField::Carousel(_) {
                    !field_cursor_visible(f)
                } else {
                    field_cursor_visible(f) == visible
                }
            }),
            forall|a: int, b: int|
                0 <= a < old(self).layout@.len() && 0 <= b < old(self).layout@[a]@.len() && !(a
                    == old(self).selector.selected_row && b == old(self).selector.selected_col)
                    ==> (#[trigger] final(self).layout@[a]@[b]) == old(self).layout@[a]@[b],
            forall|a: int, b: int|
                0 <= a < old(self).layout@.len() && 0 <= b < old(self).layout@[a]@.len()
                    ==> field_border((#[trigger] final(self).layout@[a]@[b]).0) == field_border(
                    old(self).layout@[a]@[b].0,
                ),
            final(self).is_selected_field_active == old(self).is_selected_field_active,
            final(self).selector == old(self).selector,
            final(self).field_style == old(self).field_style,
            final(self).selected_field_style == old(self).selected_field_style,
            final(self).active_field_style == old(self).active_field_style,
            final(self).layout@.len() == old(self).layout@.len(),
            forall|a: int|
                0 <= a < old(self).layout@.len() ==> (#[trigger] final(self).layout@[a])@.len()
                    == old(self).layout@[a]@.len(),
            forall|a: int, b: int|
                0 <= a < old(self).layout@.len() && 0 <= b < old(self).layout@[a]@.len()
                    ==> field_value((#[trigger] final(self).layout@[a]@[b]).0) == field_value(
                    old(self).layout@[a]@[b].0,
                ) && same_kind(
                    final(self).layout@[a]@[b].0,
                    old(self).layout@[a]@[b].0,
                ) && final(self).layout@[a]@[b].1 == old(self).layout@[a]@[b].1,
    {
        let (row, col) = self.selector.selected();
        self.layout[row][col].0.set_cursor_visibility(visible);
    }

    /// Browsing-state navigation: re-style the old selection as ordinary,
    /// move per the arrow key, re-style the new selection.
    fn handle_field_selection(&mut self, key: Key)
        requires
            old(self).wf(),
        ensures
            final(self).wf(),
            final(self).is_selected_field_active == old(self).is_selected_field_active,
            final(self).field_style == old(self).field_style,
            final(self).selected_field_style == old(self).selected_field_style,
            final(self).active_field_style == old(self).active_field_style,
            final(self).layout@.len() == old(self).layout@.len(),
            field_border(
                final(self).layout@[final(self).selector.selected_row as int]@[final(self).selector.selected_col as int].0,
            ) == old(self).selected_field_style,
            selection_after(old(self).selector, final(self).selector, key),
            forall|a: int|
                0 <= a < old(self).layout@.len() ==> (#[trigger] final(self).layout@[a])@.len()
                    == old(self).layout@[a]@.len(),
            forall|a: int, b: int|
                0 <= a < old(self).layout@.len() && 0 <= b < old(self).layout@[a]@.len()
                    ==> field_value((#[trigger] final(self).layout@[a]@[b]).0) == field_value(
                    old(self).layout@[a]@[b].0,
                ) && same_kind(final(self).layout@[a]@[b].0, old(self).layout@[a]@[b].0)
                    && final(self).layout@[a]@[b].1 == old(self).layout@[a]@[b].1,
    {
        let field_style = self.field_style;
        self.style_selected(field_style);
        match key {
            Key::Up => self.selector.move_up(),
            Key::Down => self.selector.move_down(),
            Key::Left => self.selector.move_left(),
            Key::Right => self.selector.move_right(),
            _ => {},
        }
        let selected_field_style = self.selected_field_style;
        self.style_selected(selected_field_style);
    }

    /// The form state machine.  While browsing, Enter hands the selected
    /// field the focus and any arrow moves the selection.  While editing,
    /// Escape gives the focus back and any other key goes to the focused
    /// field alone.  The whole transition is [`form_key_transition`].
    pub fn handle_key_event(&mut self, key: Key) -> (r: Option<Action>)
        requires
            old(self).wf(),
        ensures
            final(self).wf(),
            r is None,
            form_key_transition(*old(self), *final(self), key),
    {
        if self.is_selected_field_active {
            if key == Key::Esc {
                self.is_selected_field_active = false;
                let selected_field_style = self.selected_field_style;
                self.style_selected(selected_field_style);
                self.cursor_selected(false);
            } else {
                let (row, col) = self.selector.selected();
                self.layout[row][col].0.handle_key_event(key);
            }
        } else {
            if key == Key::Enter {
                self.is_selected_field_active = true;
                let active_field_style = self.active_field_style;
                self.style_selected(active_field_style);
                self.cursor_selected(true);
            } else {
                self.handle_field_selection(key);
            }
        }
        None
    }

    /// Forwards a queued action to the focused field, if any; the input
    /// leaves ignore them all, so the form is unchanged either way.
    pub fn update(&mut self, action: Action) -> (r: Option<Action>)
        requires
            old(self).wf(),
        ensures
            final(self).wf(),
            r is None,
            form_update_frame(*old(self), *final(self)),
    {
        if self.is_selected_field_active {
            let (row, col) = self.selector.selected();
            self.layout[row][col].0.update(action);
        }
        None
    }
}

} // verus!
