//! The common body of the text-editing fields: a titled, bordered box
//! around an input handler, with a cursor-visibility flag and a horizontal
//! scroll offset for texts wider than the box.

use vstd::prelude::*;
use crate::action::Action;
use crate::event::Key;
use crate::ui_fields::handler::{BaseInputHandler, buffer_key_transition};
use crate::ui_fields::int_field::IntInputHandler;

verus! {

/// How a field's border is to be painted.  The drawing collaborator maps
/// each role to its theme style.
#[derive(Clone, Copy, Debug, PartialEq, Eq, Structural)]
pub enum BorderStyle {
    /// No particular emphasis.
    Plain,
    /// An ordinary form field.
    Field,
    /// The field the selector rests on.
    Selected,
    /// The field being edited.
    Active,
}

/// The handler behind a field: the plain buffer, or the numeric buffer
/// that reads an empty text as zero.
#[derive(Debug)]
pub enum FieldHandler {
    Base(BaseInputHandler),
    Int(IntInputHandler),
}

/// How one key press transforms a field's handler: the handler keeps its
/// kind and its buffer follows [`buffer_key_transition`].
pub open spec fn handler_key_transition(pre: FieldHandler, post: FieldHandler, key: Key) -> bool {
    match (pre, post) {
        (FieldHandler::Base(a), FieldHandler::Base(b)) => buffer_key_transition(a, b, key),
        (FieldHandler::Int(a), FieldHandler::Int(b)) => buffer_key_transition(a.0, b.0, key),
        _ => false,
    }
}

/// The text a handler reports as its value.
pub open spec fn handler_value(h: FieldHandler) -> Seq<char> {
    match h {
        FieldHandler::Base(b) => b.text@,
        FieldHandler::Int(i) => crate::ui_fields::int_field::int_value(i),
    }
}

impl FieldHandler {
    /// The buffer's cursor position.
    pub open spec fn cursor_spec(&self) -> int {
        match *self {
            FieldHandler::Base(b) => b.cursor as int,
            FieldHandler::Int(i) => i.0.cursor as int,
        }
    }

    /// The buffer's text length.
    pub open spec fn len_spec(&self) -> int {
        match *self {
            FieldHandler::Base(b) => b.text@.len() as int,
            FieldHandler::Int(i) => i.0.text@.len() as int,
        }
    }

    pub open spec fn wf(&self) -> bool {
        match self {
            FieldHandler::Base(b) => b.wf(),
            FieldHandler::Int(i) => i.wf(),
        }
    }

    pub fn value(&self) -> (r: String)
        ensures
            r@ == handler_value(*self),
    {
        match self {
            FieldHandler::Base(b) => b.value(),
            FieldHandler::Int(i) => i.value(),
        }
    }

    pub fn cursor_position(&self) -> (r: usize)
        ensures
            r == match *self {
                FieldHandler::Base(b) => b.cursor as int,
                FieldHandler::Int(i) => i.0.cursor as int,
            },
    {
        match self {
            FieldHandler::Base(b) => b.cursor_position(),
            FieldHandler::Int(i) => i.cursor_position(),
        }
    }

    pub fn len(&self) -> (r: usize)
        ensures
            r == match *self {
                FieldHandler::Base(b) => b.text@.len(),
                FieldHandler::Int(i) => i.0.text@.len(),
            },
    {
        match self {
            FieldHandler::Base(b) => b.len(),
            FieldHandler::Int(i) => i.len(),
        }
    }

    pub fn handle_key_event(&mut self, key: Key) -> (r: Option<Action>)
        requires
            old(self).wf(),
        ensures
            final(self).wf(),
            r is None,
            (*final(self)) is Base <==> (*old(self)) is Base,
            handler_key_transition(*old(self), *final(self), key),
    {
        match self {
            FieldHandler::Base(b) => b.handle_key_event(key),
            FieldHandler::Int(i) => i.handle_key_event(key),
        }
    }
}

/// Where the scroll offset lands after the box is `width` wide: the cursor
/// is pulled back into view, then the offset gives up any empty space on
/// the right.
pub open spec fn padding_after(lp: int, width: int, cursor: int, text_len: int) -> int {
    let pulled = if cursor < lp || cursor >= lp + width {
        let floor = if cursor - width > lp {
            cursor - width
        } else {
            lp
        };
        if floor < cursor {
            floor
        } else {
            cursor
        }
    } else {
        lp
    };
    if pulled < text_len - width {
        pulled
    } else if text_len - width > 0 {
        text_len - width
    } else {
        0
    }
}

/// A titled, bordered editable text box.
#[derive(Debug)]
pub struct BaseInputField {
    pub title: String,
    pub is_cursor_visible: bool,
    pub border_style: BorderStyle,
    pub input_handler: FieldHandler,
    pub left_padding: u16,
}

impl BaseInputField {
    pub open spec fn wf(&self) -> bool {
        self.input_handler.wf()
    }

    pub fn new(title: Option<String>, input_handler: FieldHandler) -> (f: BaseInputField)
        requires
            input_handler.wf(),
        ensures
            f.wf(),
            f.input_handler == input_handler,
            !f.is_cursor_visible,
            f.border_style == BorderStyle::Plain,
            f.left_padding == 0,
            title matches Some(t) ==> f.title@ == t@,
            title is None ==> f.title@.len() == 0,
    {
        BaseInputField {
            title: match title {
                Some(t) => t,
                None => String::new(),
            },
            border_style: BorderStyle::Plain,
            is_cursor_visible: false,
            input_handler,
            left_padding: 0,
        }
    }

    pub fn get_value(&self) -> (r: String)
        ensures
            r@ == handler_value(self.input_handler),
    {
        self.input_handler.value()
    }

    pub fn borders(&mut self, border_style: BorderStyle)
        ensures
            *final(self) == (BaseInputField { border_style, ..*old(self) }),
    {
        self.border_style = border_style;
    }

    pub fn set_cursor_visibility(&mut self, visible: bool)
        ensures
            *final(self) == (BaseInputField { is_cursor_visible: visible, ..*old(self) }),
    {
        self.is_cursor_visible = visible;
    }

    pub fn handle_key_event(&mut self, key: Key) -> (r: Option<Action>)
        requires
            old(self).wf(),
        ensures
            final(self).wf(),
            r is None,
            final(self).title == old(self).title,
            final(self).border_style == old(self).border_style,
            final(self).is_cursor_visible == old(self).is_cursor_visible,
            final(self).left_padding == old(self).left_padding,
            final(self).input_handler is Base <==> old(self).input_handler is Base,
            handler_key_transition(old(self).input_handler, final(self).input_handler, key),
    {
        self.input_handler.handle_key_event(key)
    }

    /// Recomputes the scroll offset before a draw into a box `width`
    /// characters wide.  The text and cursor are untouched.
    pub fn recalculate_padding(&mut self, width: u16)
        requires
            old(self).input_handler.cursor_spec() <= old(self).input_handler.len_spec(),
            old(self).input_handler.len_spec() < 0x10000,
        ensures
            *final(self) == (BaseInputField {
                left_padding: padding_after(
                    old(self).left_padding as int,
                    width as int,
                    old(self).input_handler.cursor_spec(),
                    old(self).input_handler.len_spec(),
                ) as u16,
                ..*old(self)
            }),
    {
        let text_len = self.input_handler.len() as u16;
        let cursor_pos = self.input_handler.cursor_position() as u16;

        let in_window = self.left_padding <= cursor_pos && (cursor_pos as u32) < (
        self.left_padding as u32) + (width as u32);
        if !in_window {
            let low = cursor_pos.saturating_sub(width);
            let floor = if self.left_padding > low {
                self.left_padding
            } else {
                low
            };
            self.left_padding = if floor < cursor_pos {
                floor
            } else {
                cursor_pos
            };
        }
        let cap = text_len.saturating_sub(width);
        if self.left_padding > cap {
            self.left_padding = cap;
        }
    }
}

} // verus!
