//! The payment flow that settles a transaction, as a table of states and
//! events.

use vstd::prelude::*;

verus! {

/// Where the till stands in the payment flow.
#[derive(Debug, Clone, Copy, PartialEq, Eq, Structural)]
pub enum SettlementState {
    /// No payment is under way.
    Idle,
    /// The operator has to choose between cash and card.
    MethodSelection,
    /// The operator enters the cash that was handed over.
    CashEntry,
    /// The operator confirms what the card terminal said.
    CardConfirmation,
    /// The payment was accepted. The flow ends here.
    Completed,
    /// The payment was called off. The flow ends here.
    Cancelled,
}

/// What the operator can do to the payment flow.
#[derive(Debug, Clone, Copy, PartialEq, Eq, Structural)]
pub enum SettlementEvent {
    /// Finish the transaction: begin to take payment.
    FinishRequested,
    /// Pay in cash.
    CashChosen,
    /// Pay by card.
    CardChosen,
    /// The payment is accepted.
    Accept,
    /// The payment is declined.
    Decline,
}

impl SettlementState {
    /// Whether a payment is under way: the flow has begun and has not
    /// ended.
    pub open spec fn in_flow(self) -> bool {
        self is MethodSelection || self is CashEntry || self is CardConfirmation
    }

    /// The state in which the till rests after it has reached this one: a
    /// flow that has ended leaves the till idle.
    pub open spec fn spec_rest(self) -> SettlementState {
        if self.in_flow() {
            self
        } else {
            SettlementState::Idle
        }
    }

    /// The state that `event` leads to.
    ///
    /// `cart_empty` says whether the transaction has no lines, and
    /// `cash_covers` whether the cash that was entered is an amount and is
    /// at least the total. An event that the table has no arrow for leaves
    /// the state as it is. A flow that has ended counts as idle.
    pub open spec fn spec_next(
        self,
        event: SettlementEvent,
        cart_empty: bool,
        cash_covers: bool,
    ) -> SettlementState {
        match self {
            SettlementState::MethodSelection => match event {
                SettlementEvent::CashChosen => SettlementState::CashEntry,
                SettlementEvent::CardChosen => SettlementState::CardConfirmation,
                SettlementEvent::Decline => SettlementState::Cancelled,
                _ => SettlementState::MethodSelection,
            },
            SettlementState::CashEntry => match event {
                SettlementEvent::Accept => if cash_covers {
                    SettlementState::Completed
                } else {
                    SettlementState::CashEntry
                },
                SettlementEvent::Decline => SettlementState::Cancelled,
                _ => SettlementState::CashEntry,
            },
            SettlementState::CardConfirmation => match event {
                SettlementEvent::Accept => SettlementState::Completed,
                SettlementEvent::Decline => SettlementState::Cancelled,
                _ => SettlementState::CardConfirmation,
            },
            _ => match event {
                SettlementEvent::FinishRequested => if cart_empty {
                    SettlementState::Idle
                } else {
                    SettlementState::MethodSelection
                },
                _ => SettlementState::Idle,
            },
        }
    }

    /// Whether a payment is under way.
    pub fn is_in_flow(&self) -> (under_way: bool)
        ensures
            under_way == self.in_flow(),
    {
        match self {
            SettlementState::MethodSelection => true,
            SettlementState::CashEntry => true,
            SettlementState::CardConfirmation => true,
            _ => false,
        }
    }

    /// The state in which the till rests after it has reached this one.
    pub fn rest(self) -> (state: SettlementState)
        ensures
            state == self.spec_rest(),
    {
        if self.is_in_flow() {
            self
        } else {
            SettlementState::Idle
        }
    }

    /// The state that `event` leads to: see `spec_next`.
    pub fn next(self, event: SettlementEvent, cart_empty: bool, cash_covers: bool) -> (state:
        SettlementState)
        ensures
            state == self.spec_next(event, cart_empty, cash_covers),
    {
        match self {
            SettlementState::MethodSelection => match event {
                SettlementEvent::CashChosen => SettlementState::CashEntry,
                SettlementEvent::CardChosen => SettlementState::CardConfirmation,
                SettlementEvent::Decline => SettlementState::Cancelled,
                _ => SettlementState::MethodSelection,
            },
            SettlementState::CashEntry => match event {
                SettlementEvent::Accept => if cash_covers {
                    SettlementState::Completed
                } else {
                    SettlementState::CashEntry
                },
                SettlementEvent::Decline => SettlementState::Cancelled,
                _ => SettlementState::CashEntry,
            },
            SettlementState::CardConfirmation => match event {
                SettlementEvent::Accept => SettlementState::Completed,
                SettlementEvent::Decline => SettlementState::Cancelled,
                _ => SettlementState::CardConfirmation,
            },
            _ => match event {
                SettlementEvent::FinishRequested => if cart_empty {
                    SettlementState::Idle
                } else {
                    SettlementState::MethodSelection
                },
                _ => SettlementState::Idle,
            },
        }
    }
}

} // verus!
