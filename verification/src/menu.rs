//! A text menu: a titled list of options, each carrying a command for the
//! caller to run, a nested submenu, or an exit.  The console loop around
//! it -- printing the options, reading a number -- is the caller's
//! outside work; [`Menu::select`] is the decision it consults.

use vstd::prelude::*;

verus! {

/// What choosing an option means.  The command payload is whatever the
/// caller wants to run; the menu only stores and hands it back.
#[derive(Debug)]
pub enum MenuOptionAction<A> {
    Action(A),
    SubMenu(Menu<A>),
    Exit,
}

/// One menu entry: its label and what choosing it does.
#[derive(Debug)]
pub struct MenuOption<A> {
    pub text: String,
    pub action: MenuOptionAction<A>,
}

/// A titled list of options.
#[derive(Debug)]
pub struct Menu<A> {
    pub title: String,
    pub options: Vec<MenuOption<A>>,
}

/// What the caller should do with the number the user typed.
#[derive(Clone, Copy, Debug, PartialEq, Eq, Structural)]
pub enum MenuSelection {
    /// Leave this menu: zero was typed, or an exit option chosen.
    Close,
    /// Run the command of the option at this index.
    Run(usize),
    /// Open the submenu of the option at this index.
    Descend(usize),
    /// No such option; ask again.
    Invalid,
}

impl<A> Menu<A> {
    pub fn new(title: &str) -> (m: Menu<A>)
        ensures
            m.title@ == title@,
            m.options@.len() == 0,
    {
        Menu { title: title.to_owned(), options: Vec::new() }
    }

    pub fn add_option(&mut self, text: &str, action: MenuOptionAction<A>)
        ensures
            final(self).title == old(self).title,
            final(self).options@.len() == old(self).options@.len() + 1,
            final(self).options@.last().text@ == text@,
            final(self).options@.last().action == action,
            forall|i: int|
                0 <= i < old(self).options@.len() ==> final(self).options@[i] == old(
                    self,
                ).options@[i],
    {
        self.options.push(MenuOption { text: text.to_owned(), action });
    }

    /// Decides what the typed number means: zero closes the menu, a
    /// number naming an option follows that option, anything else is
    /// invalid and should be asked again.
    pub fn select(&self, selected_option: usize) -> (r: MenuSelection)
        ensures
            selected_option == 0 ==> r == MenuSelection::Close,
            1 <= selected_option <= self.options@.len() ==> match self.options@[selected_option
                - 1].action {
                MenuOptionAction::Action(_) => r == MenuSelection::Run(
                    (selected_option - 1) as usize,
                ),
                MenuOptionAction::SubMenu(_) => r == MenuSelection::Descend(
                    (selected_option - 1) as usize,
                ),
                MenuOptionAction::Exit => r == MenuSelection::Close,
            },
            selected_option > self.options@.len() ==> r == MenuSelection::Invalid,
    {
        if selected_option == 0 {
            return MenuSelection::Close;
        }
        if selected_option > self.options.len() {
            return MenuSelection::Invalid;
        }
        match &self.options[selected_option - 1].action {
            MenuOptionAction::Action(_) => MenuSelection::Run(selected_option - 1),
            MenuOptionAction::SubMenu(_) => MenuSelection::Descend(selected_option - 1),
            MenuOptionAction::Exit => MenuSelection::Close,
        }
    }

    /// The command stored at `index`, for the caller to run after a
    /// [`MenuSelection::Run`].
    pub fn command(&self, index: usize) -> (r: Option<&A>)
        ensures
            index < self.options@.len() && self.options@[index as int].action is Action <==> r
                is Some,
            r matches Some(a) ==> (self.options@[index as int].action matches
                MenuOptionAction::Action(b) && *a == b),
    {
        if index < self.options.len() {
            match &self.options[index].action {
                MenuOptionAction::Action(a) => Some(a),
                _ => None,
            }
        } else {
            None
        }
    }

    /// The submenu stored at `index`, for the caller to open after a
    /// [`MenuSelection::Descend`].
    pub fn submenu(&self, index: usize) -> (r: Option<&Menu<A>>)
        ensures
            index < self.options@.len() && self.options@[index as int].action is SubMenu <==> r
                is Some,
            r matches Some(m) ==> (self.options@[index as int].action matches
                MenuOptionAction::SubMenu(s) && *m == s),
    {
        if index < self.options.len() {
            match &self.options[index].action {
                MenuOptionAction::SubMenu(m) => Some(m),
                _ => None,
            }
        } else {
            None
        }
    }
}

} // verus!
