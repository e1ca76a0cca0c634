//! The enumerated-choice input leaf: a cyclic pick from a fixed list of
//! spellings, with no text cursor at all.

use vstd::prelude::*;
use crate::action::Action;
use crate::components::selector::{cyclic_next, cyclic_prev};
use crate::event::Key;
use crate::ui_components::selector::Selector;
use crate::ui_fields::base::BorderStyle;

verus! {

/// How one key press transforms the carousel: up or right steps forward
/// through the options, down or left backward, wrapping around; any other
/// key changes nothing.  The options themselves and the box never change.
pub open spec fn carousel_key_transition(
    pre: CarouselInputField,
    post: CarouselInputField,
    key: Key,
) -> bool {
    &&& post.title == pre.title
    &&& post.options@ == pre.options@
    &&& post.border_style == pre.border_style
    &&& post.selector.length == pre.selector.length
    &&& if key == Key::Up || key == Key::Right {
        post.selector.index == cyclic_next(pre.selector.index as int, pre.options@.len() as int)
    } else if key == Key::Down || key == Key::Left {
        post.selector.index == cyclic_prev(pre.selector.index as int, pre.options@.len() as int)
    } else {
        post == pre
    }
}

/// A cyclic selection over a fixed list of options.
#[derive(Debug)]
pub struct CarouselInputField {
    pub title: String,
    pub options: Vec<String>,
    pub selector: Selector,
    pub border_style: BorderStyle,
}

impl CarouselInputField {
    /// The cursor always rests on one of the options.
    pub open spec fn wf(&self) -> bool {
        self.selector.length == self.options@.len() && self.selector.wf()
    }

    /// The option currently picked.
    pub open spec fn spec_value(&self) -> Seq<char> {
        self.options@[self.selector.index as int]@
    }

    pub fn new(title: Option<String>, options: Vec<String>, initial_option: usize) -> (f:
        CarouselInputField)
        requires
            initial_option < options@.len(),
        ensures
            f.wf(),
            f.options@ == options@,
            f.selector.index == initial_option,
            f.border_style == BorderStyle::Plain,
            title matches Some(t) ==> f.title@ == t@,
            title is None ==> f.title@.len() == 0,
    {
        let length = options.len();
        CarouselInputField {
            selector: Selector::new(length, initial_option),
            title: match title {
                Some(t) => t,
                None => String::new(),
            },
            options,
            border_style: BorderStyle::Plain,
        }
    }

    /// An up or right key moves forward through the options, a down or
    /// left key backward; the list wraps around.
    pub fn handle_key_event(&mut self, key: Key) -> (r: Option<Action>)
        requires
            old(self).wf(),
        ensures
            final(self).wf(),
            r is None,
            carousel_key_transition(*old(self), *final(self), key),
    {
        match key {
            Key::Up | Key::Right => self.selector.next(),
            Key::Down | Key::Left => self.selector.prev(),
            _ => (),
        }
        None
    }

    /// The spelling of the option currently picked.
    pub fn get_value(&self) -> (r: String)
        requires
            self.wf(),
        ensures
            r@ == self.spec_value(),
    {
        self.options[self.selector.index].clone()
    }

    pub fn borders(&mut self, border_style: BorderStyle)
        ensures
            *final(self) == (CarouselInputField { border_style, ..*old(self) }),
    {
        self.border_style = border_style;
    }

    /// A carousel has no cursor; the request is accepted and ignored.
    pub fn set_cursor_visibility(&mut self, visible: bool)
        ensures
            *final(self) == *old(self),
    {
        let _ = visible;
    }
}

} // verus!
