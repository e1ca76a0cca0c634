//! The schedule page: a 2D cursor over day x conference, and a mode that
//! is either browsing the week or editing one conference in a form.
//!
//! The page owns the schedule entity outright; other pages see only what
//! it chooses to show.  Whenever the schedule's shape changes, the page
//! rebuilds its selector from the fresh day counts.

use vstd::prelude::*;
use crate::action::{Action, Mode as AppMode};
use crate::components::selector::{cyclic_next, cyclic_prev};
use crate::entities::schedule::Schedule;
use crate::event::Key;
use crate::models::conference::Conference;
use crate::ui_components::selector_2d::{Selector2D, clamp_col};
use crate::ui_forms::conference_edit::{ConferenceEditForm, edit_form_shows, fresh_form_shows, read_back};
use crate::ui_forms::form::form_key_transition;

verus! {

/// What the page is doing: browsing, or editing an existing or fresh
/// conference in a form.
#[derive(Debug)]
pub enum Mode {
    View,
    Edit(ConferenceEditForm),
    Add(ConferenceEditForm),
}

/// The schedule page.
#[derive(Debug)]
pub struct SchedulePage {
    pub schedule: Schedule,
    pub selector: Selector2D,
    pub mode: Mode,
}

/// The page's whole keystroke behaviour.
///
/// Browsing: `e` on an existing conference opens it in an edit form and
/// asks for edit mode; `e` on an empty day does nothing; `+` opens a
/// fresh conference in an add form; the arrows move the cursor -- up and
/// down through the day's conferences (wrapping), left and right across
/// the seven days (wrapping, with the conference index clamped into the
/// day reached); the schedule itself never changes while browsing.
///
/// With a form open: Escape commits it -- the edit form replaces the
/// selected conference, the add form appends its record, the day
/// re-sorted either way -- and asks for schedule mode; any other key goes
/// into the form, which transitions by the form state machine, leaving
/// the schedule and the cursor alone.
pub open spec fn page_key_transition(
    pre: SchedulePage,
    post: SchedulePage,
    key: Key,
    r: Option<Action>,
) -> bool {
    &&& (pre.mode is View ==> post.schedule == pre.schedule)
    &&& (pre.mode is View && key == Key::Char('e') && pre.schedule.spec_day(
        pre.selector.selected_row + 1,
    ).len() > 0 ==> post.mode is Edit && r == Some(Action::ChangeMode(AppMode::Edit))
        && post.selector == pre.selector && edit_form_shows(
        post.mode->Edit_0,
        pre.schedule.spec_day(pre.selector.selected_row + 1)[pre.selector.selected_col as int],
    ))
    &&& (pre.mode is View && key == Key::Char('e') && pre.schedule.spec_day(
        pre.selector.selected_row + 1,
    ).len() == 0 ==> post.mode is View && r is None && post.selector == pre.selector)
    &&& (pre.mode is View && key == Key::Char('+') ==> post.mode is Add && r == Some(
        Action::ChangeMode(AppMode::Edit),
    ) && post.selector == pre.selector && fresh_form_shows(post.mode->Add_0))
    &&& (pre.mode is View && !(key == Key::Char('e') || key == Key::Char('+')) ==> post.mode
        is View && r is None)
    &&& (pre.mode is View && key == Key::Up ==> post.selector.selected_col == cyclic_prev(
        pre.selector.selected_col as int,
        pre.selector.row_lengths@[pre.selector.selected_row as int] as int,
    ) && post.selector.selected_row == pre.selector.selected_row)
    &&& (pre.mode is View && key == Key::Down ==> post.selector.selected_col == cyclic_next(
        pre.selector.selected_col as int,
        pre.selector.row_lengths@[pre.selector.selected_row as int] as int,
    ) && post.selector.selected_row == pre.selector.selected_row)
    &&& (pre.mode is View && key == Key::Left ==> post.selector.selected_row == cyclic_prev(
        pre.selector.selected_row as int,
        7,
    ) && post.selector.selected_col == clamp_col(
        pre.selector.selected_col as int,
        pre.selector.row_lengths@[post.selector.selected_row as int] as int,
    ))
    &&& (pre.mode is View && key == Key::Right ==> post.selector.selected_row == cyclic_next(
        pre.selector.selected_row as int,
        7,
    ) && post.selector.selected_col == clamp_col(
        pre.selector.selected_col as int,
        pre.selector.row_lengths@[post.selector.selected_row as int] as int,
    ))
    &&& (pre.mode is View && !(key == Key::Char('e') || key == Key::Char('+') || key == Key::Up
        || key == Key::Down || key == Key::Left || key == Key::Right) ==> post.selector
        == pre.selector)
    &&& (pre.mode is Edit && key == Key::Esc ==> post.mode is View && r == Some(
        Action::ChangeMode(AppMode::Schedule),
    ) && post.selector == pre.selector && post.schedule.spec_day(
        pre.selector.selected_row + 1,
    ).len() == pre.schedule.spec_day(pre.selector.selected_row + 1).len())
    &&& (pre.mode is Edit && key == Key::Esc ==> exists|c: Conference|
        #[trigger] read_back(c, pre.mode->Edit_0) && post.schedule.spec_day(
            pre.selector.selected_row + 1,
        ).to_multiset() == pre.schedule.spec_day(pre.selector.selected_row + 1).update(
            pre.selector.selected_col as int,
            c,
        ).to_multiset())
    &&& (pre.mode is Add && key == Key::Esc ==> post.mode is View && r == Some(
        Action::ChangeMode(AppMode::Schedule),
    ) && post.schedule.spec_day(pre.selector.selected_row + 1).len() == pre.schedule.spec_day(
        pre.selector.selected_row + 1,
    ).len() + 1 && post.selector.selected_row == 0 && post.selector.selected_col == 0)
    &&& (pre.mode is Add && key == Key::Esc ==> exists|c: Conference|
        #[trigger] read_back(c, pre.mode->Add_0) && post.schedule.spec_day(
            pre.selector.selected_row + 1,
        ).to_multiset() == pre.schedule.spec_day(pre.selector.selected_row + 1).push(
            c,
        ).to_multiset())
    &&& (pre.mode is Edit && key != Key::Esc ==> post.schedule == pre.schedule && r is None
        && post.selector == pre.selector && post.mode is Edit && form_key_transition(
        pre.mode->Edit_0.0,
        post.mode->Edit_0.0,
        key,
    ))
    &&& (pre.mode is Add && key != Key::Esc ==> post.schedule == pre.schedule && r is None
        && post.selector == pre.selector && post.mode is Add && form_key_transition(
        pre.mode->Add_0.0,
        post.mode->Add_0.0,
        key,
    ))
    &&& ((pre.mode is Edit || pre.mode is Add) ==> post.schedule.name == pre.schedule.name)
}

impl SchedulePage {
    /// The selector always mirrors the seven day counts; an open edit form
    /// is well formed and edits a conference that exists.
    pub open spec fn wf(&self) -> bool {
        &&& self.schedule.wf()
        &&& self.selector.row_lengths@.len() == 7
        &&& forall|d: int|
            0 <= d < 7 ==> #[trigger] self.selector.row_lengths@[d]
                == self.schedule.schedule@[d]@.len()
        &&& self.selector.wf()
        &&& match self.mode {
            Mode::View => true,
            Mode::Edit(form) => form.wf() && self.schedule.spec_day(
                self.selector.selected_row + 1,
            ).len() > 0,
            Mode::Add(form) => form.wf(),
        }
    }

    pub fn new(schedule: Schedule) -> (p: SchedulePage)
        requires
            schedule.wf(),
        ensures
            p.wf(),
            p.mode is View,
            p.selector.selected_row == 0,
            p.selector.selected_col == 0,
            p.schedule == schedule,
    {
        let day_lengths = schedule.get_conference_count_by_day();
        SchedulePage { selector: Selector2D::new(day_lengths), schedule, mode: Mode::View }
    }

    /// Browsing keys: `e` opens the selected conference in an edit form
    /// (ignored while the selected day is empty), `+` opens a fresh
    /// conference in an add form, and the arrows move the cursor -- up and
    /// down through the day's conferences, left and right across the days.
    fn handle_view_key_event(&mut self, key: Key) -> (r: Option<Action>)
        requires
            old(self).wf(),
            old(self).mode is View,
        ensures
            final(self).wf(),
            page_key_transition(*old(self), *final(self), key, r),
    {
        if key == Key::Char('e') {
            let (day, conf) = self.selector.selected();
            if conf < self.schedule.get_day(day + 1).len() {
                let conference = self.schedule.get_day(day + 1)[conf].clone();
                self.mode = Mode::Edit(ConferenceEditForm::new(conference));
                return Some(Action::ChangeMode(AppMode::Edit));
            }
            Option::<Action>::None
        } else if key == Key::Char('+') {
            self.mode = Mode::Add(ConferenceEditForm::new(Conference::default()));
            Some(Action::ChangeMode(AppMode::Edit))
        } else {
            match key {
                Key::Up => self.selector.move_left(),
                Key::Down => self.selector.move_right(),
                Key::Left => self.selector.move_up(),
                Key::Right => self.selector.move_down(),
                _ => {},
            }
            None
        }
    }

    /// The page's key handling: the whole transition is
    /// [`page_key_transition`].
    pub fn handle_key_event(&mut self, key: Key) -> (r: Option<Action>)
        requires
            old(self).wf(),
        ensures
            final(self).wf(),
            page_key_transition(*old(self), *final(self), key, r),
    {
        match &mut self.mode {
            Mode::View => self.handle_view_key_event(key),
            Mode::Edit(form) => {
                if key == Key::Esc {
                    let conference = form.get_conference();
                    let (day, conf) = self.selector.selected();
                    let updated = self.schedule.update_conference(day + 1, conf, conference);
                    proof {
                        assert(updated is Ok);
                        assert forall|dd: int|
                            0 <= dd < 7 implies #[trigger] self.schedule.schedule@[dd]@.len()
                                == old(self).schedule.schedule@[dd]@.len() by {
                            if dd + 1 != day + 1 {
                                assert(self.schedule.spec_day(dd + 1) == old(
                                    self,
                                ).schedule.spec_day(dd + 1));
                            }
                        }
                    }
                    self.mode = Mode::View;
                    Some(Action::ChangeMode(AppMode::Schedule))
                } else {
                    form.handle_key_event(key)
                }
            },
            Mode::Add(form) => {
                if key == Key::Esc {
                    let conference = form.get_conference();
                    let (day, _conf) = self.selector.selected();
                    self.schedule.add_conference(day + 1, conference);
                    self.mode = Mode::View;
                    let day_lengths = self.schedule.get_conference_count_by_day();
                    self.selector = Selector2D::new(day_lengths);
                    Some(Action::ChangeMode(AppMode::Schedule))
                } else {
                    form.handle_key_event(key)
                }
            },
        }
    }

    /// The link of the conference the browsing cursor rests on: `Some`
    /// exactly while the page is browsing and the selected day has a
    /// conference under the cursor.  The caller opens it; the page only
    /// says which.
    pub fn selected_link(&self) -> (r: Option<String>)
        requires
            self.wf(),
        ensures
            ({
                let day = self.schedule.spec_day(self.selector.selected_row + 1);
                if self.mode is View && day.len() > 0 {
                    r matches Some(link) && link@ == day[self.selector.selected_col as int].link@
                } else {
                    r is None
                }
            }),
    {
        match &self.mode {
            Mode::View => {
                let (day, conf) = self.selector.selected();
                let conferences = self.schedule.get_day(day + 1);
                if conf < conferences.len() {
                    Some(conferences[conf].link.clone())
                } else {
                    None
                }
            },
            _ => None,
        }
    }

    /// The page keeps no animation state: queued actions are accepted and
    /// ignored.
    pub fn update(&mut self, action: Action) -> (r: Option<Action>)
        requires
            old(self).wf(),
        ensures
            final(self).wf(),
            *final(self) == *old(self),
            r is None,
    {
        let _ = action;
        None
    }
}

} // verus!
