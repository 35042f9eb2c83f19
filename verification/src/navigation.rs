//! The views of the program and the password that guards three of them.

use vstd::prelude::*;
use vstd::string::StringExecFns;
use crate::utils::{encrypt, spec_encrypt};

verus! {

/// The views of the program, in the order of their tabs.
#[derive(Debug, Clone, Copy, PartialEq, Eq, Structural)]
pub enum ViewIndex {
    Transactions,
    Inventory,
    ItemCreation,
    Settings,
}

impl ViewIndex {
    /// The number of the view's tab.
    pub open spec fn spec_to_usize(self) -> usize {
        match self {
            ViewIndex::Transactions => 0,
            ViewIndex::Inventory => 1,
            ViewIndex::ItemCreation => 2,
            ViewIndex::Settings => 3,
        }
    }

    /// Whether the view is open only to those who know the password: every
    /// view but the transactions.
    pub open spec fn spec_is_protected(self) -> bool {
        !(self is Transactions)
    }

    /// The number of the view's tab.
    pub fn to_usize(&self) -> (index: usize)
        ensures
            index == self.spec_to_usize(),
            index < 4,
    {
        match self {
            ViewIndex::Transactions => 0,
            ViewIndex::Inventory => 1,
            ViewIndex::ItemCreation => 2,
            ViewIndex::Settings => 3,
        }
    }

    /// The view with the given tab number. There are four tabs.
    pub fn from_usize(index: usize) -> (view: ViewIndex)
        requires
            index < 4,
        ensures
            view == spec_from_usize(index),
    {
        if index == 0 {
            ViewIndex::Transactions
        } else if index == 1 {
            ViewIndex::Inventory
        } else if index == 2 {
            ViewIndex::ItemCreation
        } else {
            ViewIndex::Settings
        }
    }

    /// Whether the view is open only to those who know the password.
    pub fn is_protected(&self) -> (protected: bool)
        ensures
            protected == self.spec_is_protected(),
    {
        match self {
            ViewIndex::Transactions => false,
            _ => true,
        }
    }
}

/// The view of a tab number, for the four numbers that are tabs.
pub open spec fn spec_from_usize(index: usize) -> ViewIndex
    recommends
        index < 4,
{
    if index == 0 {
        ViewIndex::Transactions
    } else if index == 1 {
        ViewIndex::Inventory
    } else if index == 2 {
        ViewIndex::ItemCreation
    } else {
        ViewIndex::Settings
    }
}

/// Views and the four tab numbers stand for each other: the view of a
/// view's number is that view, and the number of a number's view is that
/// number.
pub proof fn lemma_view_index_round_trip(view: ViewIndex, index: usize)
    ensures
        view.spec_to_usize() < 4,
        spec_from_usize(view.spec_to_usize()) == view,
        index < 4 ==> spec_from_usize(index).spec_to_usize() == index,
{
}

/// What became of a password that was submitted.
#[derive(Debug, Clone, Copy, PartialEq, Eq, Structural)]
pub enum GateOutcome {
    /// The password is right: the view that was asked for is open.
    Granted,
    /// The password is wrong: the view stays as it was.
    Denied,
    /// No view was waiting for a password.
    NotAsked,
}

/// Which view is open, which view waits for the password, and what has been
/// typed of the password.
#[derive(Debug, PartialEq, Eq)]
pub struct Navigation {
    active_view: ViewIndex,
    desired_view: Option<ViewIndex>,
    password_input: String,
}

/// The navigation as a mathematical value.
pub struct NavigationModel {
    /// The view that is open.
    pub active: ViewIndex,
    /// The view that waits for the password, if one does.
    pub desired: Option<ViewIndex>,
    /// What has been typed of the password.
    pub password: Seq<char>,
}

impl NavigationModel {
    /// Whether going to `view` from here takes the password: the view is
    /// protected and the open one is not.
    pub open spec fn asks_password(self, view: ViewIndex) -> bool {
        view.spec_is_protected() && !self.active.spec_is_protected()
    }

    /// The navigation after the operator has asked for `view`.
    pub open spec fn set_active_view(self, view: ViewIndex) -> NavigationModel {
        if self.asks_password(view) {
            NavigationModel { desired: Some(view), ..self }
        } else {
            NavigationModel { active: view, ..self }
        }
    }

    /// What becomes of the password that has been typed, when `stored` is
    /// the password on file, obscured as `encrypt` obscures it.
    pub open spec fn gate_outcome(self, stored: Seq<char>) -> GateOutcome {
        if self.desired is None {
            GateOutcome::NotAsked
        } else if spec_encrypt(self.password) == stored {
            GateOutcome::Granted
        } else {
            GateOutcome::Denied
        }
    }

    /// The navigation after the password has been submitted: the view that
    /// waited is open if the password is right, no view waits any more, and
    /// the password field is empty.
    pub open spec fn close_password_modal(self, stored: Seq<char>) -> NavigationModel {
        NavigationModel {
            active: match (self.gate_outcome(stored), self.desired) {
                (GateOutcome::Granted, Some(view)) => view,
                _ => self.active,
            },
            desired: None,
            password: Seq::empty(),
        }
    }
}

impl View for Navigation {
    type V = NavigationModel;

    closed spec fn view(&self) -> NavigationModel {
        NavigationModel {
            active: self.active_view,
            desired: self.desired_view,
            password: self.password_input@,
        }
    }
}

impl Default for Navigation {
    /// The navigation at start: the transactions are open.
    fn default() -> (navigation: Navigation)
        ensures
            navigation@ == (NavigationModel {
                active: ViewIndex::Transactions,
                desired: None,
                password: Seq::empty(),
            }),
    {
        Navigation::new()
    }
}

impl Navigation {
    /// The navigation at start: the transactions are open.
    pub fn new() -> (navigation: Navigation)
        ensures
            navigation@ == (NavigationModel {
                active: ViewIndex::Transactions,
                desired: None,
                password: Seq::empty(),
            }),
    {
        Navigation {
            active_view: ViewIndex::Transactions,
            desired_view: None,
            password_input: String::new(),
        }
    }

    /// The view that is open.
    pub fn active_view(&self) -> (view: ViewIndex)
        ensures
            view == self@.active,
    {
        self.active_view
    }

    /// The view that waits for the password, if one does. While one waits,
    /// the password prompt is shown.
    pub fn desired_view(&self) -> (view: Option<ViewIndex>)
        ensures
            view == self@.desired,
    {
        self.desired_view
    }

    /// What has been typed of the password.
    pub fn password_input(&self) -> (text: &str)
        ensures
            text@ == self@.password,
    {
        self.password_input.as_str()
    }

    /// Goes to `view`, or asks for the password first: a protected view
    /// that is asked for from an unprotected one waits until the password
    /// has been given. Returns whether the password is asked for.
    pub fn set_active_view(&mut self, view: ViewIndex) -> (asked: bool)
        ensures
            final(self)@ == old(self)@.set_active_view(view),
            asked == old(self)@.asks_password(view),
    {
        if view.is_protected() && !self.active_view.is_protected() {
            self.desired_view = Some(view);
            true
        } else {
            self.active_view = view;
            false
        }
    }

    /// Opens `view` without asking: for a step that starts in a protected
    /// view and stays among them.
    pub fn open_view(&mut self, view: ViewIndex)
        ensures
            final(self)@ == (NavigationModel { active: view, ..old(self)@ }),
    {
        self.active_view = view;
    }

    /// Takes the new text of the password field.
    pub fn password_changed(&mut self, text: String)
        ensures
            final(self)@ == (NavigationModel { password: text@, ..old(self)@ }),
    {
        self.password_input = text;
    }

    /// Submits the password that has been typed. `stored` is the password on
    /// file, obscured as `encrypt` obscures it. If what was typed is the
    /// same once obscured, the view that waited is opened. Either way no
    /// view waits any more and the password field is emptied.
    pub fn close_password_modal(&mut self, stored: &str) -> (outcome: GateOutcome)
        ensures
            final(self)@ == old(self)@.close_password_modal(stored@),
            outcome == old(self)@.gate_outcome(stored@),
    {
        let outcome = match self.desired_view {
            None => GateOutcome::NotAsked,
            Some(view) => {
                let typed = encrypt(self.password_input.as_str());
                let on_file = String::from_str(stored);
                if typed == on_file {
                    self.active_view = view;
                    GateOutcome::Granted
                } else {
                    GateOutcome::Denied
                }
            },
        };
        self.desired_view = None;
        self.password_input = String::new();
        outcome
    }
}

} // verus!
