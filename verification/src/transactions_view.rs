//! The till: the transaction that is being rung up, the line that is
//! selected in it, the code that is being typed and the payment flow, moved
//! on by the operator's messages.

use vstd::prelude::*;
use vstd::string::StringExecFns;
use crate::codes::{first_index, lemma_first_index_meaning};
use crate::error::PosError;
use crate::item::{Item, ItemData};
use crate::item_db::{
    lemma_settle_takes_what_was_sold, spec_lookup, spec_missing, spec_settle,
    spec_stock_after_sale, ItemDB,
};
use crate::receipt::spec_receipt;
use crate::settlement::{SettlementEvent, SettlementState};
use crate::transaction::{
    lemma_add_item_wf, lemma_change_line_wf, line_codes, lines_wf, spec_add_item,
    spec_change_line, spec_total, LineData, Transaction, TransactionItem,
};
use crate::text::{all_digits, is_digit, parse_number, spec_parse_number};
use crate::utils::{format_price, parse_price, spec_format_price, spec_parse_price};

verus! {

/// What the keyboard, or a barcode scanner that types, sends to the till.
#[derive(Debug, Clone, Copy, PartialEq, Eq, Structural)]
pub enum InputEvent {
    /// A character was typed.
    CharacterReceived(char),
    /// The enter key was pressed.
    EnterPressed,
    /// Anything else: the till takes no notice.
    Other,
}

/// What the operator can ask of the till.
#[derive(Debug, PartialEq, Eq)]
pub enum TransactionsMessage {
    /// A key was pressed.
    EventOccured(InputEvent),
    /// Add one of this item to the transaction.
    AddItem(Item),
    /// Finish the transaction: begin to take payment.
    FinishTransaction,
    /// Change the quantity of the selected line by this much.
    ModifySelectedItemQuantity(i32),
    /// Select the line of this item.
    SelectItem(Item),
    /// Pay in cash.
    CashSelected,
    /// Pay by card.
    CardSelected,
    /// The payment is accepted.
    PaymentAccepted,
    /// The payment is declined.
    PaymentDeclined,
    /// The text of the cash field has changed to this.
    CashGivenChanged(String),
}

impl Clone for TransactionsMessage {
    /// A copy that is equal to what it was made from.
    fn clone(&self) -> (copy: TransactionsMessage)
        ensures
            copy == *self,
    {
        match self {
            TransactionsMessage::EventOccured(key) => TransactionsMessage::EventOccured(*key),
            TransactionsMessage::AddItem(item) => TransactionsMessage::AddItem(item.clone()),
            TransactionsMessage::FinishTransaction => TransactionsMessage::FinishTransaction,
            TransactionsMessage::ModifySelectedItemQuantity(delta) => {
                TransactionsMessage::ModifySelectedItemQuantity(*delta)
            },
            TransactionsMessage::SelectItem(item) => TransactionsMessage::SelectItem(item.clone()),
            TransactionsMessage::CashSelected => TransactionsMessage::CashSelected,
            TransactionsMessage::CardSelected => TransactionsMessage::CardSelected,
            TransactionsMessage::PaymentAccepted => TransactionsMessage::PaymentAccepted,
            TransactionsMessage::PaymentDeclined => TransactionsMessage::PaymentDeclined,
            TransactionsMessage::CashGivenChanged(text) => TransactionsMessage::CashGivenChanged(
                text.clone(),
            ),
        }
    }
}

/// What a completed payment hands to the caller.
#[derive(Debug, PartialEq, Eq)]
pub struct Completion {
    /// The receipt, to be printed.
    pub receipt: String,
    /// The change to hand out, for a payment in cash.
    pub change: Option<u32>,
    /// The codes of the lines whose item was no longer in the catalog, so
    /// that no stock could be taken for them.
    pub skipped: Vec<u64>,
}

/// What a message did.
#[derive(Debug, PartialEq, Eq)]
pub enum Effect {
    /// The message does not apply in the state the till is in. Nothing has
    /// changed.
    Ignored,
    /// The till did what the message asks.
    Applied,
    /// The payment was accepted: the stock is taken, the transaction is
    /// empty again and the till is idle.
    Completed(Completion),
    /// The payment was called off: the transaction and the catalog are as
    /// they were, and the till is idle.
    Cancelled,
}

/// What the cash field says while cash is being entered.
#[derive(Debug, Clone, Copy, PartialEq, Eq, Structural)]
pub enum CashStatus {
    /// The text is no amount.
    Invalid,
    /// The amount is less than the total by this much.
    Short(u128),
    /// The amount covers the total, and this much change is due.
    Change(u32),
}

/// What the cash field says, as the text that the operator reads: that the
/// input is invalid, how much more is needed, or the change.
pub open spec fn spec_cash_status_text(status: CashStatus) -> Seq<char> {
    match status {
        CashStatus::Invalid => "Invalid input"@,
        CashStatus::Short(missing) => spec_format_price(missing as nat) + " more needed"@,
        CashStatus::Change(change) => "Change: "@ + spec_format_price(change as nat),
    }
}

impl CashStatus {
    /// The status as the text that the operator reads.
    pub fn text(&self) -> (text: String)
        ensures
            text@ == spec_cash_status_text(*self),
    {
        match self {
            CashStatus::Invalid => String::from_str("Invalid input"),
            CashStatus::Short(missing) => {
                let mut text = format_price(*missing);
                text.append(" more needed");
                text
            },
            CashStatus::Change(change) => {
                let mut text = String::from_str("Change: ");
                let price = format_price(*change as u128);
                text.append(price.as_str());
                text
            },
        }
    }
}

/// The till as a mathematical value.
pub struct TillModel {
    /// The lines of the transaction.
    pub lines: Seq<LineData>,
    /// The place of the selected line.
    pub selected: usize,
    /// The item code that has been typed so far.
    pub code_input: Seq<char>,
    /// The text of the cash field.
    pub cash_input: Seq<char>,
    /// The state in which the payment flow rests.
    pub state: SettlementState,
}

/// In short, what a message did: an `Effect` without what comes with it, or
/// the failure.
pub enum Reply {
    Ignored,
    Applied,
    Completed,
    Cancelled,
    Refused(PosError),
}

/// The selected place after the line at place `removed` has left the
/// transaction and `len` lines remain.
///
/// The selection stays on the line it was on. If that line is the one that
/// left, the selection goes to the line that took its place, or to the last
/// line if it was the last. With no line left it is 0.
pub open spec fn spec_selection_after_removal(selected: usize, removed: usize, len: usize) -> usize {
    if len == 0 {
        0
    } else if removed < selected {
        (selected - 1) as usize
    } else if selected >= len {
        (len - 1) as usize
    } else {
        selected
    }
}

impl TillModel {
    /// The validity of a till: the lines are valid; with lines, one of them
    /// is selected; what has been typed of a code is digits; the payment
    /// flow does not rest in a state that ends it; and no payment is under
    /// way for a transaction without lines.
    pub open spec fn wf(self) -> bool {
        &&& lines_wf(self.lines)
        &&& self.lines.len() > 0 ==> self.selected < self.lines.len()
        &&& all_digits(self.code_input)
        &&& self.state == self.state.spec_rest()
        &&& self.state.in_flow() ==> self.lines.len() > 0
    }

    /// Whether the cash field holds an amount that is at least the total.
    pub open spec fn cash_covers(self) -> bool {
        match spec_parse_price(self.cash_input) {
            Some(pence) => spec_total(self.lines) <= pence <= u32::MAX,
            None => false,
        }
    }

    /// What the cash field says: see `CashStatus`.
    pub open spec fn cash_status(self) -> CashStatus {
        match spec_parse_price(self.cash_input) {
            Some(pence) => if pence > u32::MAX {
                CashStatus::Invalid
            } else if pence < spec_total(self.lines) {
                CashStatus::Short((spec_total(self.lines) - pence) as u128)
            } else {
                CashStatus::Change((pence - spec_total(self.lines)) as u32)
            },
            None => CashStatus::Invalid,
        }
    }

    /// The state that `event` leads to from here.
    pub open spec fn reached(self, event: SettlementEvent) -> SettlementState {
        self.state.spec_next(event, self.lines.len() == 0, self.cash_covers())
    }

    /// The change that is due when the payment is accepted: the cash that
    /// was entered less the total, for a payment in cash.
    pub open spec fn change_due(self) -> Option<u32> {
        match (self.state, self.cash_status()) {
            (SettlementState::CashEntry, CashStatus::Change(change)) => Some(change),
            _ => None,
        }
    }

    /// The till after one more `item` has been added, if no payment is
    /// under way. A line that is new is selected.
    pub open spec fn add_item(self, item: ItemData) -> TillModel {
        if self.state.in_flow() {
            self
        } else {
            let lines = spec_add_item(self.lines, item);
            let selected = match first_index(line_codes(self.lines), item.code) {
                None => (lines.len() - 1) as usize,
                Some(i) => if lines.len() < self.lines.len() {
                    spec_selection_after_removal(self.selected, i as usize, lines.len() as usize)
                } else {
                    self.selected
                },
            };
            TillModel { lines, selected, ..self }
        }
    }

    /// Whether a line is selected that the quantity buttons can change.
    pub open spec fn can_modify_selected(self) -> bool {
        !self.state.in_flow() && self.selected < self.lines.len()
    }

    /// The till after the quantity of the selected line has changed by
    /// `delta`.
    pub open spec fn modify_selected(self, delta: int) -> TillModel {
        if self.can_modify_selected() {
            let lines = spec_change_line(self.lines, self.selected as int, delta);
            let selected = if lines.len() < self.lines.len() {
                spec_selection_after_removal(self.selected, self.selected, lines.len() as usize)
            } else {
                self.selected
            };
            TillModel { lines, selected, ..self }
        } else {
            self
        }
    }

    /// The till after the line for `code` has been selected.
    pub open spec fn select(self, code: u64) -> TillModel {
        match first_index(line_codes(self.lines), code) {
            Some(i) if !self.state.in_flow() => TillModel { selected: i as usize, ..self },
            _ => self,
        }
    }

    /// The item that the code which has been typed stands for.
    pub open spec fn typed_item(self, catalog: Seq<ItemData>) -> Option<ItemData> {
        match spec_parse_number(self.code_input) {
            Some(code) => spec_lookup(catalog, code),
            None => None,
        }
    }

    /// The till after a key was pressed. A digit is added to the code that
    /// is being typed. Enter ends a code that is not empty: the code is
    /// wiped, and the item that it stands for is added. Nothing else does
    /// anything, and no key does anything while a payment is under way.
    pub open spec fn key(self, catalog: Seq<ItemData>, key: InputEvent) -> TillModel {
        if self.state.in_flow() {
            self
        } else {
            match key {
                InputEvent::CharacterReceived(c) => if is_digit(c) {
                    TillModel { code_input: self.code_input.push(c), ..self }
                } else {
                    self
                },
                InputEvent::EnterPressed => if self.code_input.len() == 0 {
                    self
                } else {
                    let wiped = TillModel { code_input: Seq::empty(), ..self };
                    match self.typed_item(catalog) {
                        Some(item) => wiped.add_item(item),
                        None => wiped,
                    }
                },
                InputEvent::Other => self,
            }
        }
    }

    /// The till after the text of the cash field has changed, which it can
    /// only while cash is being entered.
    pub open spec fn cash_changed(self, text: Seq<char>) -> TillModel {
        if self.state is CashEntry {
            TillModel { cash_input: text, ..self }
        } else {
            self
        }
    }

    /// The till after `event` of the payment flow. A payment that is
    /// accepted empties the transaction; one that is called off leaves it as
    /// it is; either way the till rests idle and the cash field is wiped.
    pub open spec fn settle(self, event: SettlementEvent) -> TillModel {
        match self.reached(event) {
            SettlementState::Completed => TillModel {
                lines: Seq::empty(),
                selected: 0,
                cash_input: Seq::empty(),
                state: SettlementState::Idle,
                ..self
            },
            SettlementState::Cancelled => TillModel {
                cash_input: Seq::empty(),
                state: SettlementState::Idle,
                ..self
            },
            reached => TillModel { state: reached, ..self },
        }
    }

    /// The catalog after `event` of the payment flow: what was sold is taken
    /// from the stock when the payment is accepted, and at no other time.
    pub open spec fn settle_catalog(self, catalog: Seq<ItemData>, event: SettlementEvent) -> Seq<ItemData> {
        if self.reached(event) is Completed {
            spec_settle(catalog, self.lines)
        } else {
            catalog
        }
    }

    /// What `event` of the payment flow did.
    pub open spec fn settle_reply(self, event: SettlementEvent) -> Reply {
        let reached = self.reached(event);
        if reached is Completed {
            Reply::Completed
        } else if reached is Cancelled {
            Reply::Cancelled
        } else if reached.in_flow() && reached != self.state {
            Reply::Applied
        } else if self.state is CashEntry && event is Accept {
            Reply::Refused(PosError::InvalidCashInput)
        } else {
            Reply::Ignored
        }
    }
}

/// The event of the payment flow that `message` stands for, if it stands
/// for one.
pub open spec fn spec_settlement_event(message: TransactionsMessage) -> Option<SettlementEvent> {
    match message {
        TransactionsMessage::FinishTransaction => Some(SettlementEvent::FinishRequested),
        TransactionsMessage::CashSelected => Some(SettlementEvent::CashChosen),
        TransactionsMessage::CardSelected => Some(SettlementEvent::CardChosen),
        TransactionsMessage::PaymentAccepted => Some(SettlementEvent::Accept),
        TransactionsMessage::PaymentDeclined => Some(SettlementEvent::Decline),
        _ => None,
    }
}

/// The till after `message`.
pub open spec fn spec_update(till: TillModel, catalog: Seq<ItemData>, message: TransactionsMessage) -> TillModel {
    match message {
        TransactionsMessage::EventOccured(key) => till.key(catalog, key),
        TransactionsMessage::AddItem(item) => till.add_item(item@),
        TransactionsMessage::ModifySelectedItemQuantity(delta) => till.modify_selected(
            delta as int,
        ),
        TransactionsMessage::SelectItem(item) => till.select(item.code),
        TransactionsMessage::CashGivenChanged(text) => till.cash_changed(text@),
        TransactionsMessage::FinishTransaction => till.settle(SettlementEvent::FinishRequested),
        TransactionsMessage::CashSelected => till.settle(SettlementEvent::CashChosen),
        TransactionsMessage::CardSelected => till.settle(SettlementEvent::CardChosen),
        TransactionsMessage::PaymentAccepted => till.settle(SettlementEvent::Accept),
        TransactionsMessage::PaymentDeclined => till.settle(SettlementEvent::Decline),
    }
}

/// The catalog after `message`: only a payment that is accepted changes it.
pub open spec fn spec_update_catalog(
    till: TillModel,
    catalog: Seq<ItemData>,
    message: TransactionsMessage,
) -> Seq<ItemData> {
    match spec_settlement_event(message) {
        Some(event) => till.settle_catalog(catalog, event),
        None => catalog,
    }
}

/// What `message` did.
pub open spec fn spec_reply(till: TillModel, catalog: Seq<ItemData>, message: TransactionsMessage) -> Reply {
    match message {
        TransactionsMessage::EventOccured(key) => if till.state.in_flow() {
            Reply::Ignored
        } else {
            match key {
                InputEvent::CharacterReceived(c) => if is_digit(c) {
                    Reply::Applied
                } else {
                    Reply::Ignored
                },
                InputEvent::EnterPressed => if till.code_input.len() == 0 {
                    Reply::Ignored
                } else if till.typed_item(catalog) is Some {
                    Reply::Applied
                } else {
                    Reply::Refused(PosError::ItemNotFound)
                },
                InputEvent::Other => Reply::Ignored,
            }
        },
        TransactionsMessage::AddItem(_) => if till.state.in_flow() {
            Reply::Ignored
        } else {
            Reply::Applied
        },
        TransactionsMessage::ModifySelectedItemQuantity(_) => if till.state.in_flow() {
            Reply::Ignored
        } else if till.selected < till.lines.len() {
            Reply::Applied
        } else {
            Reply::Refused(PosError::LineNotFound)
        },
        TransactionsMessage::SelectItem(item) => if till.state.in_flow() {
            Reply::Ignored
        } else if first_index(line_codes(till.lines), item.code) is Some {
            Reply::Applied
        } else {
            Reply::Refused(PosError::LineNotFound)
        },
        TransactionsMessage::CashGivenChanged(_) => if till.state is CashEntry {
            Reply::Applied
        } else {
            Reply::Ignored
        },
        TransactionsMessage::FinishTransaction => till.settle_reply(
            SettlementEvent::FinishRequested,
        ),
        TransactionsMessage::CashSelected => till.settle_reply(SettlementEvent::CashChosen),
        TransactionsMessage::CardSelected => till.settle_reply(SettlementEvent::CardChosen),
        TransactionsMessage::PaymentAccepted => till.settle_reply(SettlementEvent::Accept),
        TransactionsMessage::PaymentDeclined => till.settle_reply(SettlementEvent::Decline),
    }
}

/// `result` in short.
pub open spec fn reply_of(result: Result<Effect, PosError>) -> Reply {
    match result {
        Ok(Effect::Ignored) => Reply::Ignored,
        Ok(Effect::Applied) => Reply::Applied,
        Ok(Effect::Completed(_)) => Reply::Completed,
        Ok(Effect::Cancelled) => Reply::Cancelled,
        Err(error) => Reply::Refused(error),
    }
}

/// Whether `done` is what the payment that `till` accepted hands over: the
/// receipt of the transaction as it was, with some time stamp, the change
/// that was due, and the codes that the catalog had no item for.
pub open spec fn completion_of(done: Completion, till: TillModel, catalog: Seq<ItemData>) -> bool {
    &&& exists|stamp: Seq<char>| done.receipt@ == spec_receipt(till.lines, stamp)
    &&& done.change == till.change_due()
    &&& done.skipped@ == spec_missing(catalog, line_codes(till.lines))
}

/// Whether `result` is an answer to a message that did on `till` what
/// `reply` says.
pub open spec fn answers(
    result: Result<Effect, PosError>,
    reply: Reply,
    till: TillModel,
    catalog: Seq<ItemData>,
) -> bool {
    &&& reply_of(result) == reply
    &&& result matches Ok(Effect::Completed(done)) ==> completion_of(done, till, catalog)
}

/// The till.
#[derive(Debug, PartialEq, Eq)]
pub struct TransactionsView {
    current_transaction: Transaction,
    selected_index: usize,
    input_code: String,
    input_cash_given: String,
    state: SettlementState,
}

impl View for TransactionsView {
    type V = TillModel;

    closed spec fn view(&self) -> TillModel {
        TillModel {
            lines: self.current_transaction@,
            selected: self.selected_index,
            code_input: self.input_code@,
            cash_input: self.input_cash_given@,
            state: self.state,
        }
    }
}

/// The selected place after a line has left: see
/// `spec_selection_after_removal`.
pub fn selection_after_removal(selected: usize, removed: usize, len: usize) -> (place: usize)
    ensures
        place == spec_selection_after_removal(selected, removed, len),
{
    if len == 0 {
        0
    } else if removed < selected {
        selected - 1
    } else if selected >= len {
        len - 1
    } else {
        selected
    }
}

impl Default for TransactionsView {
    /// An idle till with an empty transaction and empty fields.
    fn default() -> (till: TransactionsView)
        ensures
            till@ == (TillModel {
                lines: Seq::empty(),
                selected: 0,
                code_input: Seq::empty(),
                cash_input: Seq::empty(),
                state: SettlementState::Idle,
            }),
            till@.wf(),
    {
        TransactionsView::new()
    }
}

impl TransactionsView {
    /// An idle till with an empty transaction and empty fields.
    pub fn new() -> (till: TransactionsView)
        ensures
            till@ == (TillModel {
                lines: Seq::empty(),
                selected: 0,
                code_input: Seq::empty(),
                cash_input: Seq::empty(),
                state: SettlementState::Idle,
            }),
            till@.wf(),
    {
        TransactionsView {
            current_transaction: Transaction::new(),
            selected_index: 0,
            input_code: String::new(),
            input_cash_given: String::new(),
            state: SettlementState::Idle,
        }
    }

    /// The transaction that is being rung up.
    pub fn current_transaction(&self) -> (transaction: &Transaction)
        ensures
            transaction@ == self@.lines,
    {
        &self.current_transaction
    }

    /// The place of the selected line. It is the place of a line if the till
    /// is valid and the transaction has lines.
    pub fn selected_index(&self) -> (place: usize)
        ensures
            place == self@.selected,
    {
        self.selected_index
    }

    /// The selected line, if the transaction has one at the selected place.
    pub fn selected_line(&self) -> (line: Option<&TransactionItem>)
        ensures
            match line {
                Some(line) => self@.selected < self@.lines.len() && line@
                    == self@.lines[self@.selected as int],
                None => self@.selected >= self@.lines.len(),
            },
    {
        if self.selected_index < self.current_transaction.items.len() {
            Some(&self.current_transaction.items[self.selected_index])
        } else {
            None
        }
    }

    /// The item code that has been typed so far.
    pub fn input_code(&self) -> (text: &str)
        ensures
            text@ == self@.code_input,
    {
        self.input_code.as_str()
    }

    /// The text of the cash field.
    pub fn input_cash_given(&self) -> (text: &str)
        ensures
            text@ == self@.cash_input,
    {
        self.input_cash_given.as_str()
    }

    /// The state in which the payment flow rests.
    pub fn state(&self) -> (state: SettlementState)
        ensures
            state == self@.state,
    {
        self.state
    }

    /// What the cash field says: whether the text is an amount, and how
    /// much is missing or how much change is due.
    pub fn cash_status(&self) -> (status: CashStatus)
        ensures
            status == self@.cash_status(),
    {
        match parse_price(self.input_cash_given.as_str()) {
            Ok(pence) => {
                let total = self.current_transaction.total_price();
                if (pence as u128) < total {
                    CashStatus::Short(total - pence as u128)
                } else {
                    CashStatus::Change((pence as u128 - total) as u32)
                }
            },
            Err(_) => CashStatus::Invalid,
        }
    }

    /// Adds one `item` to the transaction and, if that makes a new line,
    /// selects it. Ignored while a payment is under way.
    pub fn add_item(&mut self, item: &Item) -> (r: Result<Effect, PosError>)
        ensures
            final(self)@ == old(self)@.add_item(item@),
            reply_of(r) == if old(self)@.state.in_flow() {
                Reply::Ignored
            } else {
                Reply::Applied
            },
            old(self)@.wf() ==> final(self)@.wf(),
    {
        if self.state.is_in_flow() {
            return Ok(Effect::Ignored);
        }
        proof {
            lemma_first_index_meaning(line_codes(self@.lines), item.code);
            if lines_wf(self@.lines) {
                lemma_add_item_wf(self@.lines, item@);
            }
        }
        let place = self.current_transaction.position(item.code);
        let before = self.current_transaction.items.len();
        self.current_transaction.add_item(item);
        let after = self.current_transaction.items.len();
        match place {
            None => {
                self.selected_index = after - 1;
            },
            Some(i) => {
                if after < before {
                    self.selected_index = selection_after_removal(self.selected_index, i, after);
                }
            },
        }
        Ok(Effect::Applied)
    }

    /// Changes the quantity of the selected line by `delta`. A line whose
    /// quantity would leave the range from 1 to `u32::MAX` is removed, and
    /// the selection moves as `spec_selection_after_removal` says. Reports
    /// `LineNotFound` where no line is selected. Ignored while a payment is
    /// under way.
    pub fn modify_selected_quantity(&mut self, delta: i32) -> (r: Result<Effect, PosError>)
        ensures
            final(self)@ == old(self)@.modify_selected(delta as int),
            reply_of(r) == if old(self)@.state.in_flow() {
                Reply::Ignored
            } else if old(self)@.selected < old(self)@.lines.len() {
                Reply::Applied
            } else {
                Reply::Refused(PosError::LineNotFound)
            },
            old(self)@.wf() ==> final(self)@.wf(),
    {
        if self.state.is_in_flow() {
            return Ok(Effect::Ignored);
        }
        let before = self.current_transaction.items.len();
        if self.selected_index >= before {
            return Err(PosError::LineNotFound);
        }
        proof {
            if lines_wf(self@.lines) {
                lemma_change_line_wf(self@.lines, self@.selected as int, delta as int);
            }
        }
        self.current_transaction.change_line(self.selected_index, delta);
        let after = self.current_transaction.items.len();
        if after < before {
            self.selected_index = selection_after_removal(
                self.selected_index,
                self.selected_index,
                after,
            );
        }
        Ok(Effect::Applied)
    }

    /// Selects the line for `code`. Reports `LineNotFound`, and leaves the
    /// selection as it is, where the transaction has no such line. Ignored
    /// while a payment is under way.
    pub fn select_item(&mut self, code: u64) -> (r: Result<Effect, PosError>)
        ensures
            final(self)@ == old(self)@.select(code),
            reply_of(r) == if old(self)@.state.in_flow() {
                Reply::Ignored
            } else if first_index(line_codes(old(self)@.lines), code) is Some {
                Reply::Applied
            } else {
                Reply::Refused(PosError::LineNotFound)
            },
            old(self)@.wf() ==> final(self)@.wf(),
    {
        if self.state.is_in_flow() {
            return Ok(Effect::Ignored);
        }
        proof {
            lemma_first_index_meaning(line_codes(self@.lines), code);
        }
        match self.current_transaction.position(code) {
            Some(i) => {
                self.selected_index = i;
                Ok(Effect::Applied)
            },
            None => Err(PosError::LineNotFound),
        }
    }

    /// Takes a key press. A digit is added to the code that is being typed.
    /// Enter ends a code that is not empty: the code is wiped, and the item
    /// of the catalog that it stands for is added as `add_item` adds it. If
    /// it stands for no item, `ItemNotFound` is reported and the transaction
    /// stays as it is. Ignored while a payment is under way.
    pub fn key_pressed(&mut self, key: InputEvent, item_db: &ItemDB) -> (r: Result<
        Effect,
        PosError,
    >)
        ensures
            final(self)@ == old(self)@.key(item_db@, key),
            reply_of(r) == spec_reply(
                old(self)@,
                item_db@,
                TransactionsMessage::EventOccured(key),
            ),
            old(self)@.wf() ==> final(self)@.wf(),
    {
        if self.state.is_in_flow() {
            return Ok(Effect::Ignored);
        }
        match key {
            InputEvent::CharacterReceived(c) => {
                if '0' <= c && c <= '9' {
                    self.input_code.push(c);
                    Ok(Effect::Applied)
                } else {
                    Ok(Effect::Ignored)
                }
            },
            InputEvent::EnterPressed => {
                if self.input_code.as_str().is_empty() {
                    return Ok(Effect::Ignored);
                }
                let typed = parse_number(self.input_code.as_str());
                self.input_code = String::new();
                let found = match typed {
                    Some(code) => item_db.get_item(code),
                    None => None,
                };
                match found {
                    Some(item) => {
                        self.add_item(item);
                        Ok(Effect::Applied)
                    },
                    None => Err(PosError::ItemNotFound),
                }
            },
            InputEvent::Other => Ok(Effect::Ignored),
        }
    }

    /// Takes the new text of the cash field. Ignored unless cash is being
    /// entered.
    pub fn cash_amount_changed(&mut self, text: String) -> (r: Result<Effect, PosError>)
        ensures
            final(self)@ == old(self)@.cash_changed(text@),
            reply_of(r) == if old(self)@.state is CashEntry {
                Reply::Applied
            } else {
                Reply::Ignored
            },
            old(self)@.wf() ==> final(self)@.wf(),
    {
        match self.state {
            SettlementState::CashEntry => {
                self.input_cash_given = text;
                Ok(Effect::Applied)
            },
            _ => Ok(Effect::Ignored),
        }
    }

    /// Moves the payment flow on by `event`, short of completing it: where
    /// `event` completes the payment, the state that is reached is returned
    /// and nothing has changed yet.
    fn advance(&mut self, event: SettlementEvent) -> (reached: SettlementState)
        ensures
            reached == old(self)@.reached(event),
            final(self)@ == if reached is Completed {
                old(self)@
            } else {
                old(self)@.settle(event)
            },
    {
        let cart_empty = self.current_transaction.is_empty();
        let cash_covers = match (self.state, event) {
            (SettlementState::CashEntry, SettlementEvent::Accept) => match self.cash_status() {
                CashStatus::Change(_) => true,
                _ => false,
            },
            _ => false,
        };
        let reached = self.state.next(event, cart_empty, cash_covers);
        match reached {
            SettlementState::Completed => {},
            SettlementState::Cancelled => {
                self.input_cash_given = String::new();
                self.state = SettlementState::Idle;
            },
            _ => {
                self.state = reached;
            },
        }
        reached
    }

    /// What `advance` reached, as the result of a message that does not
    /// complete the payment.
    fn effect_of(before: SettlementState, event: SettlementEvent, reached: SettlementState) -> (r:
        Result<Effect, PosError>)
        requires
            !(reached is Completed),
        ensures
            reply_of(r) == if reached is Cancelled {
                Reply::Cancelled
            } else if reached.in_flow() && reached != before {
                Reply::Applied
            } else if before is CashEntry && event is Accept {
                Reply::Refused(PosError::InvalidCashInput)
            } else {
                Reply::Ignored
            },
    {
        match reached {
            SettlementState::Cancelled => Ok(Effect::Cancelled),
            _ => {
                if reached.is_in_flow() && reached != before {
                    Ok(Effect::Applied)
                } else {
                    match (before, event) {
                        (SettlementState::CashEntry, SettlementEvent::Accept) => Err(
                            PosError::InvalidCashInput,
                        ),
                        _ => Ok(Effect::Ignored),
                    }
                }
            },
        }
    }

    /// Moves the payment flow on by an event that cannot complete it.
    fn step(&mut self, event: SettlementEvent) -> (r: Result<Effect, PosError>)
        requires
            !(event is Accept),
        ensures
            final(self)@ == old(self)@.settle(event),
            reply_of(r) == old(self)@.settle_reply(event),
            old(self)@.wf() ==> final(self)@.wf(),
    {
        let before = self.state;
        let reached = self.advance(event);
        Self::effect_of(before, event, reached)
    }

    /// Begins to take payment: the operator has to choose between cash and
    /// card next. Ignored for a transaction without lines, and while a
    /// payment is under way.
    pub fn request_finish(&mut self) -> (r: Result<Effect, PosError>)
        ensures
            final(self)@ == old(self)@.settle(SettlementEvent::FinishRequested),
            reply_of(r) == old(self)@.settle_reply(SettlementEvent::FinishRequested),
            old(self)@.wf() ==> final(self)@.wf(),
    {
        self.step(SettlementEvent::FinishRequested)
    }

    /// Chooses payment in cash. Ignored unless the operator is asked to
    /// choose.
    pub fn choose_cash(&mut self) -> (r: Result<Effect, PosError>)
        ensures
            final(self)@ == old(self)@.settle(SettlementEvent::CashChosen),
            reply_of(r) == old(self)@.settle_reply(SettlementEvent::CashChosen),
            old(self)@.wf() ==> final(self)@.wf(),
    {
        self.step(SettlementEvent::CashChosen)
    }

    /// Chooses payment by card. Ignored unless the operator is asked to
    /// choose.
    pub fn choose_card(&mut self) -> (r: Result<Effect, PosError>)
        ensures
            final(self)@ == old(self)@.settle(SettlementEvent::CardChosen),
            reply_of(r) == old(self)@.settle_reply(SettlementEvent::CardChosen),
            old(self)@.wf() ==> final(self)@.wf(),
    {
        self.step(SettlementEvent::CardChosen)
    }

    /// Calls the payment off. The transaction stays as it is and the till
    /// is idle again. Ignored while no payment is under way.
    pub fn decline_payment(&mut self) -> (r: Result<Effect, PosError>)
        ensures
            final(self)@ == old(self)@.settle(SettlementEvent::Decline),
            reply_of(r) == old(self)@.settle_reply(SettlementEvent::Decline),
            old(self)@.wf() ==> final(self)@.wf(),
    {
        self.step(SettlementEvent::Decline)
    }

    /// Ends a payment that was accepted: takes what was sold from the stock,
    /// empties the transaction and leaves the till idle.
    fn complete(&mut self, item_db: &mut ItemDB, receipt: String) -> (done: Completion)
        requires
            old(self)@.reached(SettlementEvent::Accept) is Completed,
        ensures
            final(self)@ == old(self)@.settle(SettlementEvent::Accept),
            final(item_db)@ == spec_settle(old(item_db)@, old(self)@.lines),
            done.receipt == receipt,
            done.change == old(self)@.change_due(),
            done.skipped@ == spec_missing(old(item_db)@, line_codes(old(self)@.lines)),
            old(item_db).wf() ==> final(item_db).wf(),
    {
        let change = match (self.state, self.cash_status()) {
            (SettlementState::CashEntry, CashStatus::Change(change)) => Some(change),
            _ => None,
        };
        let skipped = item_db.update_quantities_from_transaction(&self.current_transaction);
        self.current_transaction.clear();
        self.selected_index = 0;
        self.input_cash_given = String::new();
        self.state = SettlementState::Idle;
        Completion { receipt, change, skipped }
    }

    /// Accepts the payment, with `stamp` as the time stamp of the receipt.
    ///
    /// While cash is being entered, the payment is accepted only if the
    /// cash field holds an amount that is at least the total; if not,
    /// `InvalidCashInput` is reported and nothing changes. While a card
    /// payment waits to be confirmed, it is accepted. Then the receipt is
    /// made, every line's quantity is taken from its item's stock, the
    /// transaction is emptied and the till is idle. Ignored in every other
    /// state.
    pub fn accept_payment_stamped(&mut self, item_db: &mut ItemDB, stamp: &str) -> (r: Result<
        Effect,
        PosError,
    >)
        ensures
            final(self)@ == old(self)@.settle(SettlementEvent::Accept),
            final(item_db)@ == old(self)@.settle_catalog(old(item_db)@, SettlementEvent::Accept),
            answers(
                r,
                old(self)@.settle_reply(SettlementEvent::Accept),
                old(self)@,
                old(item_db)@,
            ),
            r matches Ok(Effect::Completed(done)) ==> done.receipt@ == spec_receipt(
                old(self)@.lines,
                stamp@,
            ),
            old(self)@.wf() ==> final(self)@.wf(),
            old(item_db).wf() ==> final(item_db).wf(),
    {
        let before = self.state;
        let reached = self.advance(SettlementEvent::Accept);
        match reached {
            SettlementState::Completed => {
                let receipt = self.current_transaction.render_receipt(stamp);
                Ok(Effect::Completed(self.complete(item_db, receipt)))
            },
            _ => Self::effect_of(before, SettlementEvent::Accept, reached),
        }
    }

    /// Accepts the payment as `accept_payment_stamped` does, with the time
    /// at which it is accepted on the receipt.
    pub fn accept_payment(&mut self, item_db: &mut ItemDB) -> (r: Result<Effect, PosError>)
        ensures
            final(self)@ == old(self)@.settle(SettlementEvent::Accept),
            final(item_db)@ == old(self)@.settle_catalog(old(item_db)@, SettlementEvent::Accept),
            answers(
                r,
                old(self)@.settle_reply(SettlementEvent::Accept),
                old(self)@,
                old(item_db)@,
            ),
            old(self)@.wf() ==> final(self)@.wf(),
            old(item_db).wf() ==> final(item_db).wf(),
    {
        let before = self.state;
        let reached = self.advance(SettlementEvent::Accept);
        match reached {
            SettlementState::Completed => {
                let receipt = self.current_transaction.generate_receipt();
                Ok(Effect::Completed(self.complete(item_db, receipt)))
            },
            _ => Self::effect_of(before, SettlementEvent::Accept, reached),
        }
    }

    /// Does what `message` asks: see `spec_update` for the till,
    /// `spec_update_catalog` for the catalog and `spec_reply` for the
    /// result. Only a payment that is accepted changes the catalog.
    pub fn update(&mut self, message: TransactionsMessage, item_db: &mut ItemDB) -> (r: Result<
        Effect,
        PosError,
    >)
        ensures
            final(self)@ == spec_update(old(self)@, old(item_db)@, message),
            final(item_db)@ == spec_update_catalog(old(self)@, old(item_db)@, message),
            answers(r, spec_reply(old(self)@, old(item_db)@, message), old(self)@, old(item_db)@),
            old(self)@.wf() ==> final(self)@.wf(),
            old(item_db).wf() ==> final(item_db).wf(),
    {
        match message {
            TransactionsMessage::EventOccured(key) => self.key_pressed(key, item_db),
            TransactionsMessage::AddItem(item) => self.add_item(&item),
            TransactionsMessage::FinishTransaction => self.request_finish(),
            TransactionsMessage::ModifySelectedItemQuantity(delta) => self.modify_selected_quantity(
                delta,
            ),
            TransactionsMessage::SelectItem(item) => self.select_item(item.code),
            TransactionsMessage::CashSelected => self.choose_cash(),
            TransactionsMessage::CardSelected => self.choose_card(),
            TransactionsMessage::PaymentAccepted => self.accept_payment(item_db),
            TransactionsMessage::PaymentDeclined => self.decline_payment(),
            TransactionsMessage::CashGivenChanged(text) => self.cash_amount_changed(text),
        }
    }
}

/// The till and the catalog after the messages of `messages`, one after the
/// other.
pub open spec fn spec_run(
    till: TillModel,
    catalog: Seq<ItemData>,
    messages: Seq<TransactionsMessage>,
) -> (TillModel, Seq<ItemData>)
    decreases messages.len(),
{
    if messages.len() == 0 {
        (till, catalog)
    } else {
        spec_run(
            spec_update(till, catalog, messages.first()),
            spec_update_catalog(till, catalog, messages.first()),
            messages.drop_first(),
        )
    }
}

/// Whether a payment is under way at `till` and `messages` lead it to be
/// called off: the last of them cancels it, and it has not ended before.
pub open spec fn spec_leads_to_cancel(
    till: TillModel,
    catalog: Seq<ItemData>,
    messages: Seq<TransactionsMessage>,
) -> bool
    decreases messages.len(),
{
    &&& till.state.in_flow()
    &&& messages.len() >= 1
    &&& if messages.len() == 1 {
        spec_reply(till, catalog, messages.first()) is Cancelled
    } else {
        &&& spec_update(till, catalog, messages.first()).state.in_flow()
        &&& spec_leads_to_cancel(
            spec_update(till, catalog, messages.first()),
            spec_update_catalog(till, catalog, messages.first()),
            messages.drop_first(),
        )
    }
}

/// A message keeps a valid till valid.
pub proof fn lemma_update_keeps_valid(
    till: TillModel,
    catalog: Seq<ItemData>,
    message: TransactionsMessage,
)
    requires
        till.wf(),
    ensures
        spec_update(till, catalog, message).wf(),
{
    match message {
        TransactionsMessage::EventOccured(key) => {
            lemma_key_keeps_valid(till, catalog, key);
        },
        TransactionsMessage::AddItem(item) => {
            lemma_add_keeps_valid(till, item@);
        },
        TransactionsMessage::ModifySelectedItemQuantity(delta) => {
            if till.can_modify_selected() {
                lemma_change_line_wf(till.lines, till.selected as int, delta as int);
            }
        },
        TransactionsMessage::SelectItem(item) => {
            lemma_first_index_meaning(line_codes(till.lines), item.code);
        },
        _ => {},
    }
}

/// Adding an item keeps a valid till valid.
proof fn lemma_add_keeps_valid(till: TillModel, item: ItemData)
    requires
        till.wf(),
    ensures
        till.add_item(item).wf(),
{
    lemma_add_item_wf(till.lines, item);
    lemma_first_index_meaning(line_codes(till.lines), item.code);
}

/// A key press keeps a valid till valid.
proof fn lemma_key_keeps_valid(till: TillModel, catalog: Seq<ItemData>, key: InputEvent)
    requires
        till.wf(),
    ensures
        till.key(catalog, key).wf(),
{
    if !till.state.in_flow() {
        match key {
            InputEvent::CharacterReceived(_) => {},
            InputEvent::EnterPressed => {
                let wiped = TillModel { code_input: Seq::empty(), ..till };
                match till.typed_item(catalog) {
                    Some(item) => {
                        lemma_add_keeps_valid(wiped, item);
                    },
                    None => {},
                }
            },
            InputEvent::Other => {},
        }
    }
}

/// The catalog changes only when a payment is completed, and while a
/// payment is under way the lines of the transaction change only when it
/// is completed. A message of the payment flow that does not complete a
/// payment changes neither, whatever the state.
pub proof fn lemma_only_completion_changes(
    till: TillModel,
    catalog: Seq<ItemData>,
    message: TransactionsMessage,
)
    requires
        !(spec_reply(till, catalog, message) is Completed),
    ensures
        spec_update_catalog(till, catalog, message) == catalog,
        till.state.in_flow() || spec_settlement_event(message) is Some ==> spec_update(
            till,
            catalog,
            message,
        ).lines == till.lines,
{
}

/// A payment that is called off changes neither the transaction nor the
/// catalog: whatever messages arrive between the request to finish and the
/// message that cancels the payment, the lines and the catalog are
/// afterwards what they were when the payment began, and the till is idle.
pub proof fn lemma_cancelled_payment_changes_nothing(
    till: TillModel,
    catalog: Seq<ItemData>,
    messages: Seq<TransactionsMessage>,
)
    requires
        spec_leads_to_cancel(till, catalog, messages),
    ensures
        spec_run(till, catalog, messages).0.lines == till.lines,
        spec_run(till, catalog, messages).0.state is Idle,
        spec_run(till, catalog, messages).1 == catalog,
    decreases messages.len(),
{
    let first = messages.first();
    let next = spec_update(till, catalog, first);
    let next_catalog = spec_update_catalog(till, catalog, first);
    if messages.len() == 1 {
        lemma_only_completion_changes(till, catalog, first);
        reveal_with_fuel(spec_run, 2);
    } else {
        lemma_only_completion_changes(till, catalog, first);
        lemma_cancelled_payment_changes_nothing(next, next_catalog, messages.drop_first());
    }
}

/// A payment that is completed leaves the transaction empty and the till
/// idle, and takes from the stock of each item that was sold exactly the
/// quantity of the item's line, stopping at zero. Every other item of the
/// catalog is as it was.
pub proof fn lemma_completed_payment_settles(
    till: TillModel,
    catalog: Seq<ItemData>,
    message: TransactionsMessage,
)
    requires
        lines_wf(till.lines),
        spec_reply(till, catalog, message) is Completed,
    ensures
        spec_update(till, catalog, message).lines.len() == 0,
        spec_update(till, catalog, message).state is Idle,
        spec_update_catalog(till, catalog, message) == spec_settle(catalog, till.lines),
        forall|code: u64|
            #[trigger] spec_lookup(spec_update_catalog(till, catalog, message), code) == match (
                spec_lookup(catalog, code),
                first_index(line_codes(till.lines), code),
            ) {
                (Some(item), Some(k)) => Some(
                    item.with_stock(
                        spec_stock_after_sale(item.amount_in_stock, till.lines[k].quantity),
                    ),
                ),
                (found, _) => found,
            },
{
    assert forall|code: u64|
        #[trigger] spec_lookup(spec_update_catalog(till, catalog, message), code) == match (
            spec_lookup(catalog, code),
            first_index(line_codes(till.lines), code),
        ) {
            (Some(item), Some(k)) => Some(
                item.with_stock(
                    spec_stock_after_sale(item.amount_in_stock, till.lines[k].quantity),
                ),
            ),
            (found, _) => found,
        } by {
        lemma_settle_takes_what_was_sold(catalog, till.lines, code);
    }
}

} // verus!
