//! The dispatch loop's state and decisions: the key-binding tables, the
//! action queue, the chord buffer for multi-key sequences, and the global
//! flags.  The terminal collaborator feeds events in and performs the
//! effects handed back; everything between those two edges is decided
//! here.

use vstd::prelude::*;
use crate::action::{Action, Mode};
use crate::entities::schedule::Schedule;
use crate::event::{Event, Key};
use crate::models::settings::Settings;
use crate::ui_pages::home::{ActivePage, Home, home_key_transition};

verus! {

/// One binding: in this mode, this exact key sequence triggers this
/// action.
#[derive(Clone, Debug)]
pub struct KeyBinding {
    pub mode: Mode,
    pub sequence: Vec<Key>,
    pub action: Action,
}

/// What a sequence of keys is bound to in a mode: the first matching
/// binding wins.
pub open spec fn lookup_spec(bindings: Seq<KeyBinding>, mode: Mode, keys: Seq<Key>) -> Option<
    Action,
>
    decreases bindings.len(),
{
    if bindings.len() == 0 {
        None
    } else if bindings[0].mode == mode && bindings[0].sequence@ == keys {
        Some(bindings[0].action)
    } else {
        lookup_spec(bindings.drop_first(), mode, keys)
    }
}

/// The resolved key-binding configuration: a list of bindings, searched
/// front to back.
#[derive(Clone, Debug)]
pub struct KeyBindings {
    pub bindings: Vec<KeyBinding>,
}

impl KeyBindings {
    pub fn new() -> (k: KeyBindings)
        ensures
            k.bindings@.len() == 0,
    {
        KeyBindings { bindings: Vec::new() }
    }

    /// Appends a binding; earlier bindings keep priority.
    pub fn bind(&mut self, mode: Mode, sequence: Vec<Key>, action: Action)
        ensures
            final(self).bindings@ == old(self).bindings@.push(
                KeyBinding { mode, sequence, action },
            ),
    {
        self.bindings.push(KeyBinding { mode, sequence, action });
    }

    /// Looks a key sequence up in the table for `mode`.
    pub fn get(&self, mode: Mode, keys: &Vec<Key>) -> (r: Option<Action>)
        ensures
            r == lookup_spec(self.bindings@, mode, keys@),
    {
        proof {
            assert(self.bindings@.skip(0) =~= self.bindings@);
        }
        let mut i: usize = 0;
        while i < self.bindings.len()
            invariant
                0 <= i <= self.bindings@.len(),
                lookup_spec(self.bindings@, mode, keys@) == lookup_spec(
                    self.bindings@.skip(i as int),
                    mode,
                    keys@,
                ),
            decreases self.bindings@.len() - i,
        {
            proof {
                assert(self.bindings@.skip(i as int).drop_first() =~= self.bindings@.skip(
                    i + 1,
                ));
                assert(self.bindings@.skip(i as int)[0] == self.bindings@[i as int]);
            }
            let binding = &self.bindings[i];
            if binding.mode == mode && keys_eq(&binding.sequence, keys) {
                return Some(binding.action.clone());
            }
            i += 1;
        }
        proof {
            assert(self.bindings@.skip(self.bindings@.len() as int).len() == 0);
        }
        None
    }
}

/// Whether two key sequences are the same, key for key.
fn keys_eq(a: &Vec<Key>, b: &Vec<Key>) -> (r: bool)
    ensures
        r == (a@ == b@),
{
    if a.len() != b.len() {
        return false;
    }
    let mut i: usize = 0;
    while i < a.len()
        invariant
            0 <= i <= a@.len(),
            a@.len() == b@.len(),
            forall|j: int| 0 <= j < i ==> a@[j] == b@[j],
        decreases a@.len() - i,
    {
        if a[i] != b[i] {
            return false;
        }
        i += 1;
    }
    proof {
        assert(a@ =~= b@);
    }
    true
}

/// Outside work the dispatch loop asks its terminal collaborator to do
/// after a drain: repaint, resize the viewport, or clear the screen.
#[derive(Clone, Copy, Debug, PartialEq, Eq, Structural)]
pub enum Effect {
    ClearScreen,
    Resize(u16, u16),
    Render,
}

/// The effects a run of actions asks of the terminal, in order: each
/// clear-screen, resize and render request, and nothing else.
pub open spec fn effects_of(actions: Seq<Action>) -> Seq<Effect>
    decreases actions.len(),
{
    if actions.len() == 0 {
        Seq::empty()
    } else {
        let rest = effects_of(actions.drop_first());
        match actions[0] {
            Action::ClearScreen => seq![Effect::ClearScreen] + rest,
            Action::Resize(w, h) => seq![Effect::Resize(w, h)] + rest,
            Action::Render => seq![Effect::Render] + rest,
            _ => rest,
        }
    }
}

/// The mode the loop is left in after draining `actions` from `mode0`:
/// each `ChangeMode` takes effect in turn, so the last one queued wins.
pub open spec fn mode_after(actions: Seq<Action>, mode0: Mode) -> Mode
    decreases actions.len(),
{
    if actions.len() == 0 {
        mode0
    } else {
        let next = match actions[0] {
            Action::ChangeMode(m) => m,
            _ => mode0,
        };
        mode_after(actions.drop_first(), next)
    }
}

/// The page left on screen after draining `actions`: mode changes to the
/// schedule or settings pages switch it in turn; every other action,
/// including a change to edit mode, leaves it alone.
pub open spec fn active_page_after(actions: Seq<Action>, page0: ActivePage) -> ActivePage
    decreases actions.len(),
{
    if actions.len() == 0 {
        page0
    } else {
        let next = match actions[0] {
            Action::ChangeMode(Mode::Settings) => ActivePage::Settings,
            Action::ChangeMode(Mode::Schedule) => ActivePage::Schedule,
            _ => page0,
        };
        active_page_after(actions.drop_first(), next)
    }
}

/// The dispatch loop's state: the component tree root, the current mode,
/// the FIFO action queue, the buffered run of unmatched key presses, and
/// the quit/suspend flags.
#[derive(Debug)]
pub struct App {
    pub keybindings: KeyBindings,
    pub home: Home,
    pub mode: Mode,
    pub should_quit: bool,
    pub should_suspend: bool,
    pub last_tick_key_events: Vec<Key>,
    pub action_queue: Vec<Action>,
}

impl App {
    pub open spec fn wf(&self) -> bool {
        self.home.wf()
    }

    pub fn new(keybindings: KeyBindings, schedule: Schedule, settings: Settings) -> (app: App)
        requires
            schedule.wf(),
        ensures
            app.wf(),
            app.mode == Mode::Schedule,
            !app.should_quit,
            !app.should_suspend,
            app.last_tick_key_events@.len() == 0,
            app.action_queue@.len() == 0,
            app.keybindings == keybindings,
    {
        App {
            keybindings,
            home: Home::new(schedule, settings),
            mode: Mode::Schedule,
            should_quit: false,
            should_suspend: false,
            last_tick_key_events: Vec::new(),
            action_queue: Vec::new(),
        }
    }

    /// Puts one action at the back of the queue.  The terminal
    /// collaborator uses this for the signals it originates itself, such
    /// as a resume after a suspension or an error raised while drawing.
    pub fn push_action(&mut self, action: Action)
        ensures
            final(self).action_queue@ == old(self).action_queue@.push(action),
            final(self).home == old(self).home,
            final(self).mode == old(self).mode,
            final(self).should_quit == old(self).should_quit,
            final(self).should_suspend == old(self).should_suspend,
            final(self).last_tick_key_events == old(self).last_tick_key_events,
            final(self).keybindings == old(self).keybindings,
    {
        self.action_queue.push(action);
    }

    /// Translates one key press: a single-key binding
    /// for the current mode fires at once; otherwise the key joins the
    /// pending sequence, and if the grown sequence is bound, the bound
    /// action fires and the pending sequence is cleared.
    pub fn handle_key_event(&mut self, key: Key)
        requires
            old(self).wf(),
        ensures
            final(self).wf(),
            final(self).home == old(self).home,
            final(self).mode == old(self).mode,
            final(self).should_quit == old(self).should_quit,
            final(self).should_suspend == old(self).should_suspend,
            final(self).keybindings == old(self).keybindings,
            ({
                let single = lookup_spec(old(self).keybindings.bindings@, old(self).mode, seq![key]);
                let grown = old(self).last_tick_key_events@.push(key);
                let multi = lookup_spec(old(self).keybindings.bindings@, old(self).mode, grown);
                if single is Some {
                    final(self).action_queue@ == old(self).action_queue@.push(single.unwrap())
                        && final(self).last_tick_key_events@ == old(self).last_tick_key_events@
                } else if multi is Some {
                    final(self).action_queue@ == old(self).action_queue@.push(multi.unwrap())
                        && final(self).last_tick_key_events@.len() == 0
                } else {
                    final(self).action_queue@ == old(self).action_queue@ && final(self).last_tick_key_events@ == grown
                }
            }),
    {
        let mut single_key: Vec<Key> = Vec::new();
        single_key.push(key);
        proof {
            assert(single_key@ =~= seq![key]);
        }
        match self.keybindings.get(self.mode, &single_key) {
            Some(action) => {
                self.action_queue.push(action);
            },
            None => {
                // Not a single-key action: consider it as part of a
                // multi-key sequence.
                self.last_tick_key_events.push(key);
                match self.keybindings.get(self.mode, &self.last_tick_key_events) {
                    Some(action) => {
                        self.action_queue.push(action);
                        self.last_tick_key_events.clear();
                    },
                    None => {},
                }
            },
        }
    }

    /// Translates one input event: system
    /// events become queued actions, a key press goes through the binding
    /// tables and then to the component tree, whose emitted action joins
    /// the queue.
    pub fn handle_events(&mut self, event: Event)
        requires
            old(self).wf(),
        ensures
            final(self).wf(),
            final(self).mode == old(self).mode,
            final(self).should_quit == old(self).should_quit,
            final(self).should_suspend == old(self).should_suspend,
            final(self).keybindings == old(self).keybindings,
            // The queue only ever grows at the back: what was queued
            // before the event is still queued, in order.
            final(self).action_queue@.len() >= old(self).action_queue@.len(),
            final(self).action_queue@.take(old(self).action_queue@.len() as int) == old(self).action_queue@,
            event == Event::Quit ==> final(self).action_queue@ == old(self).action_queue@.push(
                Action::Quit,
            ),
            event == Event::Tick ==> final(self).action_queue@ == old(self).action_queue@.push(
                Action::Tick,
            ),
            event == Event::Render ==> final(self).action_queue@ == old(self).action_queue@.push(Action::Render),
            event matches Event::Resize(x, y) ==> final(self).action_queue@ == old(self).action_queue@.push(Action::Resize(x, y)),
            !(event matches Event::Key(_)) ==> final(self).home == old(self).home && final(self).last_tick_key_events == old(self).last_tick_key_events,
            event == Event::Other ==> final(self).action_queue@ == old(self).action_queue@,
            // A key press first goes through the binding tables, exactly
            // as key handling says, and then to the component tree, whose
            // emitted action joins the back of the queue.
            event matches Event::Key(k) ==> ({
                let single = lookup_spec(old(self).keybindings.bindings@, old(self).mode, seq![k]);
                let grown = old(self).last_tick_key_events@.push(k);
                let multi = lookup_spec(old(self).keybindings.bindings@, old(self).mode, grown);
                let mid = if single is Some {
                    old(self).action_queue@.push(single.unwrap())
                } else if multi is Some {
                    old(self).action_queue@.push(multi.unwrap())
                } else {
                    old(self).action_queue@
                };
                let emitted: Option<Action> = if final(self).action_queue@.len() == mid.len() {
                    None
                } else {
                    Some(final(self).action_queue@.last())
                };
                &&& (single is Some ==> final(self).last_tick_key_events@ == old(self).last_tick_key_events@)
                &&& (single is None && multi is Some ==> final(self).last_tick_key_events@.len() == 0)
                &&& (single is None && multi is None ==> final(self).last_tick_key_events@ == grown)
                &&& home_key_transition(old(self).home, final(self).home, k, emitted)
                &&& (emitted matches Some(a) ==> final(self).action_queue@ == mid.push(a))
                &&& (emitted is None ==> final(self).action_queue@ == mid)
            }),
    {
        match event {
            Event::Quit => self.action_queue.push(Action::Quit),
            Event::Tick => self.action_queue.push(Action::Tick),
            Event::Render => self.action_queue.push(Action::Render),
            Event::Resize(x, y) => self.action_queue.push(Action::Resize(x, y)),
            Event::Key(key) => {
                self.handle_key_event(key);
                // The raw key press reaches the component tree whether or
                // not a binding matched.
                match self.home.handle_key_event(key) {
                    Some(action) => self.action_queue.push(action),
                    None => {},
                }
            },
            Event::Other => {},
        }
    }

    /// Drains the action queue to completion: applies
    /// each global action to the loop's own state, collects the effects
    /// the terminal collaborator must perform, and forwards every drained
    /// action to the component tree.  An action emitted during the drain
    /// joins the same drain.
    pub fn handle_actions(&mut self) -> (effects: Vec<Effect>)
        requires
            old(self).wf(),
        ensures
            final(self).wf(),
            final(self).keybindings == old(self).keybindings,
            final(self).action_queue@.len() == 0,
            effects@ == effects_of(old(self).action_queue@),
            final(self).should_quit == (old(self).should_quit || old(self).action_queue@.contains(Action::Quit)),
            old(self).action_queue@.contains(Action::Tick) ==> final(self).last_tick_key_events@.len() == 0,
            !old(self).action_queue@.contains(Action::Tick) ==> final(self).last_tick_key_events@ == old(self).last_tick_key_events@,
            (forall|i: int|
                0 <= i < old(self).action_queue@.len() ==> !(#[trigger] old(self).action_queue@[i] is ChangeMode)) ==> final(self).mode == old(self).mode,
            final(self).mode == mode_after(old(self).action_queue@, old(self).mode),
            final(self).home.active_page == active_page_after(
                old(self).action_queue@,
                old(self).home.active_page,
            ),
            final(self).home.schedule == old(self).home.schedule,
            final(self).home.settings == old(self).home.settings,
            !(old(self).action_queue@.contains(Action::Suspend) || old(self).action_queue@.contains(Action::Resume)) ==> final(self).should_suspend == old(self).should_suspend,
    {
        let mut effects: Vec<Effect> = Vec::new();
        let ghost queue0 = old(self).action_queue@;
        let ghost mut processed: int = 0;
        proof {
            assert(queue0.skip(0) =~= queue0);
            assert(effects@ =~= Seq::<Effect>::empty());
            assert(effects@ + effects_of(queue0) =~= effects_of(queue0));
            assert(queue0.subrange(0, 0) =~= Seq::<Action>::empty());
        }
        while self.action_queue.len() > 0
            invariant
                self.wf(),
                self.keybindings == old(self).keybindings,
                0 <= processed <= queue0.len(),
                queue0 == old(self).action_queue@,
                self.action_queue@ == queue0.skip(processed),
                effects_of(queue0) == effects@ + effects_of(queue0.skip(processed)),
                mode_after(queue0, old(self).mode) == mode_after(
                    queue0.skip(processed),
                    self.mode,
                ),
                active_page_after(queue0, old(self).home.active_page) == active_page_after(
                    queue0.skip(processed),
                    self.home.active_page,
                ),
                self.home.schedule == old(self).home.schedule,
                self.home.settings == old(self).home.settings,
                !(queue0.subrange(0, processed).contains(Action::Suspend) || queue0.subrange(
                    0,
                    processed,
                ).contains(Action::Resume)) ==> self.should_suspend == old(self).should_suspend,
                self.should_quit == (old(self).should_quit || queue0.subrange(
                    0,
                    processed,
                ).contains(Action::Quit)),
                queue0.subrange(0, processed).contains(Action::Tick) ==> self.last_tick_key_events@.len() == 0,
                !queue0.subrange(0, processed).contains(Action::Tick)
                    ==> self.last_tick_key_events@ == old(self).last_tick_key_events@,
                (forall|i: int| 0 <= i < processed ==> !(#[trigger] queue0[i] is ChangeMode))
                    ==> self.mode == old(self).mode,
            decreases self.action_queue@.len(),
        {
            proof {
                assert(queue0.skip(processed).drop_first() =~= queue0.skip(processed + 1));
                assert(queue0.skip(processed)[0] == queue0[processed]);
                assert(queue0.subrange(0, processed + 1) =~= queue0.subrange(
                    0,
                    processed,
                ).push(queue0[processed]));
                assert(self.action_queue@[0] == queue0[processed]);
                let s = queue0.subrange(0, processed);
                let t = queue0.subrange(0, processed + 1);
                assert forall|x: Action| #![auto] t.contains(x) <==> (s.contains(x)
                    || queue0[processed] == x) by {
                    if t.contains(x) {
                        let idx = choose|idx: int| 0 <= idx < t.len() && t[idx] == x;
                        if idx < processed {
                            assert(s[idx] == x);
                        }
                    }
                    if s.contains(x) {
                        let idx = choose|idx: int| 0 <= idx < s.len() && s[idx] == x;
                        assert(t[idx] == x);
                    }
                    if queue0[processed] == x {
                        assert(t[processed] == x);
                    }
                }
            }
            let action = self.action_queue.remove(0);
            proof {
                assert(self.action_queue@ =~= queue0.skip(processed + 1));
            }
            match &action {
                Action::Tick => {
                    self.last_tick_key_events.clear();
                },
                Action::Quit => {
                    self.should_quit = true;
                },
                Action::Suspend => {
                    self.should_suspend = true;
                },
                Action::Resume => {
                    self.should_suspend = false;
                },
                Action::ClearScreen => {
                    effects.push(Effect::ClearScreen);
                },
                Action::Resize(w, h) => {
                    effects.push(Effect::Resize(*w, *h));
                },
                Action::Render => {
                    effects.push(Effect::Render);
                },
                Action::ChangeMode(mode) => {
                    self.mode = *mode;
                },
                _ => {},
            }
            self.home.update(action);
            proof {
                processed = processed + 1;
            }
        }
        proof {
            assert(queue0.skip(processed).len() == 0);
            assert(processed == queue0.len());
            assert(queue0.subrange(0, processed) =~= queue0);
            assert(effects_of(queue0.skip(processed)) =~= Seq::<Effect>::empty());
            assert(effects@ =~= effects@ + Seq::<Effect>::empty());
        }
        effects
    }
}

} // verus!
