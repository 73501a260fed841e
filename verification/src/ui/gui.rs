use vstd::prelude::*;
use crate::ui::start_menu::MenuAction;

verus! {

/// The screen that the application shows.
#[derive(Clone, Copy, Debug, PartialEq, Eq, Structural)]
pub enum AppState {
    StartMenu,
    Cosmos,
    TimeLog,
}

/// What the application does next: show a screen, or end.
#[derive(Clone, Copy, Debug, PartialEq, Eq, Structural)]
pub enum Step {
    Show(AppState),
    Quit,
}

impl AppState {
    /// What follows a choice in the start menu: the big bang leads to the
    /// cosmos, the time log to the time log, the black hole ends the
    /// application, and no choice keeps the screen. On another screen the
    /// start menu is not shown and its choice counts for nothing.
    pub open spec fn after_choice(self, action: MenuAction) -> Step {
        match self {
            AppState::StartMenu => match action {
                MenuAction::BigBang => Step::Show(AppState::Cosmos),
                MenuAction::TimeLog => Step::Show(AppState::TimeLog),
                MenuAction::BlackHole => Step::Quit,
                MenuAction::Nothing => Step::Show(AppState::StartMenu),
            },
            other => Step::Show(other),
        }
    }

    /// The next step after a choice in the start menu.
    pub fn on_menu(self, action: MenuAction) -> (step: Step)
        ensures
            step == self.after_choice(action),
    {
        match self {
            AppState::StartMenu => match action {
                MenuAction::BigBang => Step::Show(AppState::Cosmos),
                MenuAction::TimeLog => Step::Show(AppState::TimeLog),
                MenuAction::BlackHole => Step::Quit,
                MenuAction::Nothing => Step::Show(AppState::StartMenu),
            },
            other => Step::Show(other),
        }
    }

    /// The screen after the way back was taken: from the cosmos it leads to
    /// the start menu, and nowhere from another screen.
    pub fn on_back(self) -> (next: AppState)
        ensures
            next == if self == AppState::Cosmos {
                AppState::StartMenu
            } else {
                self
            },
    {
        match self {
            AppState::Cosmos => AppState::StartMenu,
            other => other,
        }
    }
}

} // verus!
