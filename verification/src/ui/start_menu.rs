use vstd::prelude::*;

verus! {

/// What the start menu offers.
#[derive(Clone, Copy, Debug, PartialEq, Eq, Structural)]
pub enum MenuAction {
    BigBang,
    TimeLog,
    BlackHole,
    Nothing,
}

/// The start menu, and what was last chosen in it.
pub struct StartMenu {
    selected_action: MenuAction,
}

impl StartMenu {
    /// What was last chosen.
    pub closed spec fn chosen(&self) -> MenuAction {
        self.selected_action
    }

    pub fn new() -> (menu: Self)
        ensures
            menu.chosen() == MenuAction::Nothing,
    {
        Self { selected_action: MenuAction::Nothing }
    }
}

} // verus!
