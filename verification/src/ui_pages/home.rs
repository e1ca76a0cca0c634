//! The home page: owns the schedule and settings pages and switches
//! between them as the application mode changes.

use vstd::prelude::*;
use crate::action::{Action, Mode};
use crate::entities::schedule::Schedule;
use crate::event::Key;
use crate::models::settings::Settings;
use crate::ui_pages::schedule::{SchedulePage, page_key_transition};
use crate::ui_pages::settings::{SettingsPage, settings_key_transition};

verus! {

/// Which page is on screen and receives key events.
#[derive(Clone, Copy, Debug, PartialEq, Eq, Structural)]
pub enum ActivePage {
    Schedule,
    Settings,
}

/// How one key press moves through the tree: it reaches the active page
/// alone, which transitions by its own keystroke rules and owns the
/// returned action; the inactive page never sees it, and which page is
/// active never changes on a key.
pub open spec fn home_key_transition(pre: Home, post: Home, key: Key, r: Option<Action>) -> bool {
    &&& post.active_page == pre.active_page
    &&& match pre.active_page {
        ActivePage::Schedule => post.settings == pre.settings && page_key_transition(
            pre.schedule,
            post.schedule,
            key,
            r,
        ),
        ActivePage::Settings => post.schedule == pre.schedule && r is None
            && settings_key_transition(pre.settings, post.settings, key),
    }
}

/// The component tree root: both pages, and the one currently active.
#[derive(Debug)]
pub struct Home {
    pub schedule: SchedulePage,
    pub settings: SettingsPage,
    pub active_page: ActivePage,
}

impl Home {
    pub open spec fn wf(&self) -> bool {
        self.schedule.wf() && self.settings.wf()
    }

    pub fn new(schedule: Schedule, settings: Settings) -> (h: Home)
        requires
            schedule.wf(),
        ensures
            h.wf(),
            h.active_page == ActivePage::Schedule,
            h.schedule.schedule == schedule,
            h.settings.settings == settings,
    {
        Home {
            schedule: SchedulePage::new(schedule),
            settings: SettingsPage::new(settings),
            active_page: ActivePage::Schedule,
        }
    }

    /// A key press goes to the active page alone; the other page never
    /// sees it.  The whole transition is [`home_key_transition`].
    pub fn handle_key_event(&mut self, key: Key) -> (r: Option<Action>)
        requires
            old(self).wf(),
        ensures
            final(self).wf(),
            home_key_transition(*old(self), *final(self), key, r),
    {
        match self.active_page {
            ActivePage::Settings => self.settings.handle_key_event(key),
            ActivePage::Schedule => self.schedule.handle_key_event(key),
        }
    }

    /// Every queued action reaches both pages, visible or not; a mode
    /// change then switches the page shown.
    pub fn update(&mut self, action: Action) -> (r: Option<Action>)
        requires
            old(self).wf(),
        ensures
            final(self).wf(),
            r is None,
            final(self).schedule == old(self).schedule,
            final(self).settings == old(self).settings,
            action == Action::ChangeMode(Mode::Settings) ==> final(self).active_page
                == ActivePage::Settings,
            action == Action::ChangeMode(Mode::Schedule) ==> final(self).active_page
                == ActivePage::Schedule,
            !(action == Action::ChangeMode(Mode::Settings) || action == Action::ChangeMode(
                Mode::Schedule,
            )) ==> final(self).active_page == old(self).active_page,
    {
        let cloned = action.clone();
        self.schedule.update(cloned);
        let cloned2 = action.clone();
        self.settings.update(cloned2);
        if let Action::ChangeMode(mode) = action {
            match mode {
                Mode::Settings => {
                    self.active_page = ActivePage::Settings;
                },
                Mode::Schedule => {
                    self.active_page = ActivePage::Schedule;
                },
                _ => {},
            }
        }
        None
    }
}

} // verus!
