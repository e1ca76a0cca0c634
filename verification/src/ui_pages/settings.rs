//! The settings page: a cyclic cursor over the settings entries.

use vstd::prelude::*;
use crate::action::Action;
use crate::components::selector::{cyclic_next, cyclic_prev};
use crate::event::Key;
use crate::models::settings::Settings;
use crate::ui_components::selector::Selector;

verus! {

/// The page's whole keystroke behaviour: up and down cycle the cursor
/// over the three entries, anything else changes nothing, and the
/// settings themselves are never touched by a key.
pub open spec fn settings_key_transition(pre: SettingsPage, post: SettingsPage, key: Key) -> bool {
    &&& post.settings == pre.settings
    &&& post.selector.length == pre.selector.length
    &&& if key == Key::Up {
        post.selector.index == cyclic_prev(pre.selector.index as int, 3)
    } else if key == Key::Down {
        post.selector.index == cyclic_next(pre.selector.index as int, 3)
    } else {
        post == pre
    }
}

/// The settings page: the session settings and a cursor over the three
/// entries shown.
#[derive(Debug)]
pub struct SettingsPage {
    pub selector: Selector,
    pub settings: Settings,
}

impl SettingsPage {
    pub open spec fn wf(&self) -> bool {
        self.selector.length == 3 && self.selector.wf()
    }

    pub fn new(settings: Settings) -> (p: SettingsPage)
        ensures
            p.wf(),
            p.selector.index == 0,
            p.settings == settings,
    {
        SettingsPage { selector: Selector::new(3, 0), settings }
    }

    /// Up and down move the cursor over the entries, wrapping around.
    pub fn handle_key_event(&mut self, key: Key) -> (r: Option<Action>)
        requires
            old(self).wf(),
        ensures
            final(self).wf(),
            r is None,
            settings_key_transition(*old(self), *final(self), key),
    {
        match key {
            Key::Up => self.selector.prev(),
            Key::Down => self.selector.next(),
            _ => {},
        }
        None
    }

    /// The page keeps no animation state: queued actions are accepted and
    /// ignored.
    pub fn update(&mut self, action: Action) -> (r: Option<Action>)
        requires
            old(self).wf(),
        ensures
            final(self).wf(),
            *final(self) == *old(self),
            r is None,
    {
        let _ = action;
        None
    }
}

} // verus!
