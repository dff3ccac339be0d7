//! The choices of the two menus that lead to everything else.

use vstd::prelude::*;

verus! {

/// What the main menu offers.
#[derive(Clone, Copy, Debug, PartialEq, Eq, Structural)]
pub enum Action {
    New,
    Manage,
    Quit,
}

impl Action {
    /// The choice as it is shown in the menu.
    pub open spec fn label_spec(self) -> Seq<char> {
        match self {
            Action::New => "New"@,
            Action::Manage => "Manage"@,
            Action::Quit => "Quit"@,
        }
    }

    /// Every choice of the main menu, in the order in which it offers them.
    pub fn all() -> (v: Vec<Action>)
        ensures
            v@ == seq![Action::New, Action::Manage, Action::Quit],
    {
        let mut v: Vec<Action> = Vec::new();
        v.push(Action::New);
        v.push(Action::Manage);
        v.push(Action::Quit);
        v
    }

    /// The choice as it is shown in the menu.
    pub fn label(&self) -> (s: &'static str)
        ensures
            s@ == self.label_spec(),
    {
        match self {
            Action::New => "New",
            Action::Manage => "Manage",
            Action::Quit => "Quit",
        }
    }
}

/// What the manage menu offers to do with the events of the session.
#[derive(Clone, Copy, Debug, PartialEq, Eq, Structural)]
pub enum ManageAction {
    Edit,
    Save,
    Load,
    Delete,
}

impl ManageAction {
    /// The choice as it is shown in the menu.
    pub open spec fn label_spec(self) -> Seq<char> {
        match self {
            ManageAction::Edit => "edit"@,
            ManageAction::Save => "save"@,
            ManageAction::Load => "load"@,
            ManageAction::Delete => "delete"@,
        }
    }

    /// Every choice of the manage menu, in the order in which it offers them.
    pub fn all() -> (v: Vec<ManageAction>)
        ensures
            v@ == seq![
                ManageAction::Edit,
                ManageAction::Save,
                ManageAction::Load,
                ManageAction::Delete,
            ],
    {
        let mut v: Vec<ManageAction> = Vec::new();
        v.push(ManageAction::Edit);
        v.push(ManageAction::Save);
        v.push(ManageAction::Load);
        v.push(ManageAction::Delete);
        v
    }

    /// The choice as it is shown in the menu.
    pub fn label(&self) -> (s: &'static str)
        ensures
            s@ == self.label_spec(),
    {
        match self {
            ManageAction::Edit => "edit",
            ManageAction::Save => "save",
            ManageAction::Load => "load",
            ManageAction::Delete => "delete",
        }
    }
}

} // verus!
