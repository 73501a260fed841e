use vstd::prelude::*;

verus! {

/// What the start screen offers.
#[derive(Clone, Copy, Debug, PartialEq, Eq, Structural)]
pub enum MenuAction {
    BigBang,
    TimeLog,
    BlackHole,
    Nothing,
}

/// The start screen, which answers with what is chosen on it.
pub struct StartMenu {
    selected_action: MenuAction,
}

impl StartMenu {
    /// What is chosen.
    pub closed spec fn chosen(&self) -> MenuAction {
        self.selected_action
    }

    pub fn new() -> (menu: Self)
        ensures
            menu.chosen() == MenuAction::Nothing,
    {
        Self { selected_action: MenuAction::Nothing }
    }

    /// What is chosen on the screen.
    pub fn show(&mut self) -> (action: MenuAction)
        ensures
            action == old(self).chosen(),
            final(self).chosen() == old(self).chosen(),
    {
        self.selected_action
    }
}

} // verus!
