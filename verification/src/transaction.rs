//! The transaction that is being rung up: its lines and their total.

use vstd::prelude::*;
use crate::codes::{
    distinct, first_index, is_first_at, lemma_distinct_remove, lemma_first_index_is,
    lemma_first_index_meaning, lemma_first_index_none,
};
use crate::error::PosError;
use crate::item::{Item, ItemData};

verus! {

/// One line of a transaction: an item as it was when it was first added, and
/// how many of it are bought.
#[derive(Debug, PartialEq, Eq)]
pub struct TransactionItem {
    pub item: Item,
    pub quantity: u32,
}

/// The lines of the transaction in the order in which their items were first
/// added.
#[derive(Debug, PartialEq, Eq)]
pub struct Transaction {
    pub items: Vec<TransactionItem>,
}

/// A line as a mathematical value.
pub struct LineData {
    pub item: ItemData,
    pub quantity: u32,
}

impl View for TransactionItem {
    type V = LineData;

    open spec fn view(&self) -> LineData {
        LineData { item: self.item@, quantity: self.quantity }
    }
}

/// The item codes of `lines`, line by line.
pub open spec fn line_codes(lines: Seq<LineData>) -> Seq<u64> {
    lines.map_values(|line: LineData| line.item.code)
}

/// The validity of a transaction's lines: no two lines are for the same item
/// code, and no line has quantity zero.
pub open spec fn lines_wf(lines: Seq<LineData>) -> bool {
    &&& distinct(line_codes(lines))
    &&& forall|i: int| 0 <= i < lines.len() ==> (#[trigger] lines[i]).quantity >= 1
}

/// The most that a line can cost: the largest price times the largest
/// quantity.
pub const LINE_TOTAL_MAX: u64 = 0xFFFF_FFFE_0000_0001;

/// What a line costs: its unit price times its quantity.
pub open spec fn spec_line_total(line: LineData) -> nat {
    (line.item.price * line.quantity) as nat
}

/// The sum of what the lines cost.
pub open spec fn spec_total(lines: Seq<LineData>) -> nat
    decreases lines.len(),
{
    if lines.len() == 0 {
        0
    } else {
        spec_total(lines.drop_last()) + spec_line_total(lines.last())
    }
}

/// The lines after the quantity of line `i` has changed by `delta`: where
/// the new quantity is at least 1 and fits the quantity's type, the line has
/// it; otherwise the line is gone.
pub open spec fn spec_change_line(lines: Seq<LineData>, i: int, delta: int) -> Seq<LineData>
    recommends
        0 <= i < lines.len(),
{
    let quantity = lines[i].quantity + delta;
    if 1 <= quantity <= u32::MAX {
        lines.update(i, LineData { item: lines[i].item, quantity: quantity as u32 })
    } else {
        lines.remove(i)
    }
}

/// The lines after one more `item` has been added: one more on its line if
/// it has one, else a new last line with quantity 1.
pub open spec fn spec_add_item(lines: Seq<LineData>, item: ItemData) -> Seq<LineData> {
    match first_index(line_codes(lines), item.code) {
        Some(i) => spec_change_line(lines, i, 1),
        None => lines.push(LineData { item, quantity: 1 }),
    }
}

/// The lines after the quantity of the line for `code` has changed by
/// `delta`; the same lines where no line is for `code`.
pub open spec fn spec_modify_quantity(lines: Seq<LineData>, code: u64, delta: int) -> Seq<LineData> {
    match first_index(line_codes(lines), code) {
        Some(i) => spec_change_line(lines, i, delta),
        None => lines,
    }
}

impl TransactionItem {
    /// A line for one `item`.
    pub fn new(item: &Item) -> (line: TransactionItem)
        ensures
            line@ == (LineData { item: item@, quantity: 1 }),
    {
        TransactionItem { item: item.clone(), quantity: 1 }
    }

    /// What the line costs: unit price times quantity.
    pub fn line_total(&self) -> (total: u64)
        ensures
            total == spec_line_total(self@),
            total <= LINE_TOTAL_MAX,
    {
        assert(self.item.price * self.quantity <= u32::MAX * u32::MAX) by (nonlinear_arith)
            requires
                self.item.price <= u32::MAX,
                self.quantity <= u32::MAX,
        ;
        self.item.price as u64 * self.quantity as u64
    }
}

impl View for Transaction {
    type V = Seq<LineData>;

    open spec fn view(&self) -> Seq<LineData> {
        self.items@.map_values(|line: TransactionItem| line@)
    }
}

impl Clone for TransactionItem {
    /// A copy that is equal to what it was made from.
    fn clone(&self) -> (copy: TransactionItem)
        ensures
            copy == *self,
    {
        TransactionItem { item: self.item.clone(), quantity: self.quantity }
    }
}

impl Clone for Transaction {
    /// A copy with the same lines.
    fn clone(&self) -> (copy: Transaction)
        ensures
            copy@ == self@,
    {
        let mut items: Vec<TransactionItem> = Vec::new();
        let mut i: usize = 0;
        while i < self.items.len()
            invariant
                i <= self.items.len(),
                items@ == self.items@.take(i as int),
            decreases self.items.len() - i,
        {
            items.push(self.items[i].clone());
            i = i + 1;
        }
        Transaction { items }
    }
}

impl Default for Transaction {
    /// A transaction without lines.
    fn default() -> (transaction: Transaction)
        ensures
            transaction@ == Seq::<LineData>::empty(),
    {
        Transaction::new()
    }
}

impl Transaction {
    /// Whether the transaction is valid: see `lines_wf`.
    pub open spec fn wf(&self) -> bool {
        lines_wf(self@)
    }

    /// A transaction without lines.
    pub fn new() -> (transaction: Transaction)
        ensures
            transaction@ == Seq::<LineData>::empty(),
            transaction.wf(),
    {
        Transaction { items: Vec::new() }
    }

    /// Whether the transaction has no lines.
    pub fn is_empty(&self) -> (empty: bool)
        ensures
            empty == (self@.len() == 0),
    {
        self.items.len() == 0
    }

    /// Removes every line.
    pub fn clear(&mut self)
        ensures
            final(self)@ == Seq::<LineData>::empty(),
            final(self).wf(),
    {
        self.items.clear();
    }

    /// The place of the line for `code`: the first line with that item code.
    pub fn position(&self, code: u64) -> (place: Option<usize>)
        ensures
            first_index(line_codes(self@), code) == match place {
                Some(i) => Some(i as int),
                None => None::<int>,
            },
    {
        let ghost codes = line_codes(self@);
        let mut i: usize = 0;
        while i < self.items.len()
            invariant
                i <= self.items.len(),
                codes == line_codes(self@),
                forall|j: int| 0 <= j < i ==> codes[j] != code,
            decreases self.items.len() - i,
        {
            if self.items[i].item.code == code {
                proof {
                    lemma_first_index_is(codes, code, i as int);
                }
                return Some(i);
            }
            i = i + 1;
        }
        proof {
            lemma_first_index_none(codes, code);
        }
        None
    }

    /// Changes the quantity of line `i` by `delta`. Where the new quantity
    /// would be zero, or below, or more than a quantity can hold, the line is
    /// removed instead.
    pub fn change_line(&mut self, i: usize, delta: i32)
        requires
            i < old(self)@.len(),
        ensures
            final(self)@ == spec_change_line(old(self)@, i as int, delta as int),
            old(self).wf() ==> final(self).wf(),
    {
        proof {
            if self.wf() {
                lemma_change_line_wf(self@, i as int, delta as int);
            }
        }
        let quantity: i64 = self.items[i].quantity as i64 + delta as i64;
        if quantity < 1 || quantity > u32::MAX as i64 {
            self.items.remove(i);
        } else {
            self.items[i].quantity = quantity as u32;
        }
    }

    /// The sum over all lines of unit price times quantity, in pence. The
    /// result is wide enough for every transaction that fits in memory.
    pub fn total_price(&self) -> (total: u128)
        ensures
            total == spec_total(self@),
    {
        let mut total: u128 = 0;
        let mut i: usize = 0;
        while i < self.items.len()
            invariant
                i <= self.items.len(),
                total == spec_total(self@.take(i as int)),
                total <= i * LINE_TOTAL_MAX,
            decreases self.items.len() - i,
        {
            let line_total = self.items[i].line_total();
            assert(self@.take(i + 1).drop_last() =~= self@.take(i as int));
            total = total + line_total as u128;
            i = i + 1;
        }
        assert(self@.take(i as int) =~= self@);
        total
    }

    /// Adds one `item`. Returns whether the transaction already had a line
    /// for the item's code; if it had none, the new line is the last one.
    ///
    /// A line keeps the item as it was when the line was made. A line whose
    /// quantity cannot grow any more is removed, as for every change of a
    /// quantity that leaves its range.
    pub fn add_item(&mut self, item: &Item) -> (existed: bool)
        ensures
            final(self)@ == spec_add_item(old(self)@, item@),
            existed == first_index(line_codes(old(self)@), item.code).is_some(),
            old(self).wf() ==> final(self).wf(),
    {
        proof {
            if self.wf() {
                lemma_add_item_wf(self@, item@);
            }
        }
        match self.position(item.code) {
            Some(i) => {
                self.change_line(i, 1);
                true
            },
            None => {
                self.items.push(TransactionItem::new(item));
                false
            },
        }
    }

    /// Changes the quantity of the line for `code` by `delta`, and removes
    /// the line where its quantity would leave the range from 1 to
    /// `u32::MAX`. Reports `LineNotFound`, and changes nothing, where no line
    /// is for `code`.
    pub fn modify_quantity(&mut self, code: u64, delta: i32) -> (r: Result<(), PosError>)
        ensures
            final(self)@ == spec_modify_quantity(old(self)@, code, delta as int),
            r == if first_index(line_codes(old(self)@), code).is_some() {
                Ok::<(), PosError>(())
            } else {
                Err::<(), PosError>(PosError::LineNotFound)
            },
            old(self).wf() ==> final(self).wf(),
    {
        match self.position(code) {
            Some(i) => {
                self.change_line(i, delta);
                Ok(())
            },
            None => Err(PosError::LineNotFound),
        }
    }
}

/// The lines after the items of `items` have been added one by one, in
/// order.
pub open spec fn spec_add_all(lines: Seq<LineData>, items: Seq<ItemData>) -> Seq<LineData>
    decreases items.len(),
{
    if items.len() == 0 {
        lines
    } else {
        spec_add_item(spec_add_all(lines, items.drop_last()), items.last())
    }
}

/// The codes of the lines after line `i` has changed are the codes before,
/// without the `i`th where the line is gone.
pub proof fn lemma_change_line_codes(lines: Seq<LineData>, i: int, delta: int)
    requires
        0 <= i < lines.len(),
    ensures
        line_codes(spec_change_line(lines, i, delta)) == if 1 <= lines[i].quantity + delta
            <= u32::MAX {
            line_codes(lines)
        } else {
            line_codes(lines).remove(i)
        },
{
    if 1 <= lines[i].quantity + delta <= u32::MAX {
        assert(line_codes(spec_change_line(lines, i, delta)) =~= line_codes(lines));
    } else {
        assert(line_codes(spec_change_line(lines, i, delta)) =~= line_codes(lines).remove(i));
    }
}

/// A change of one line's quantity keeps valid lines valid.
pub proof fn lemma_change_line_wf(lines: Seq<LineData>, i: int, delta: int)
    requires
        lines_wf(lines),
        0 <= i < lines.len(),
    ensures
        lines_wf(spec_change_line(lines, i, delta)),
{
    lemma_change_line_codes(lines, i, delta);
    if !(1 <= lines[i].quantity + delta <= u32::MAX) {
        lemma_distinct_remove(line_codes(lines), i);
    }
}

/// Adding an item keeps valid lines valid.
pub proof fn lemma_add_item_wf(lines: Seq<LineData>, item: ItemData)
    requires
        lines_wf(lines),
    ensures
        lines_wf(spec_add_item(lines, item)),
{
    let codes = line_codes(lines);
    lemma_first_index_meaning(codes, item.code);
    match first_index(codes, item.code) {
        Some(i) => {
            lemma_change_line_wf(lines, i, 1);
        },
        None => {
            let after = lines.push(LineData { item, quantity: 1 });
            assert(line_codes(after) =~= codes.push(item.code));
        },
    }
}

/// A change of a quantity keeps valid lines valid, whether or not a line is
/// for `code`.
pub proof fn lemma_modify_quantity_wf(lines: Seq<LineData>, code: u64, delta: int)
    requires
        lines_wf(lines),
    ensures
        lines_wf(spec_modify_quantity(lines, code, delta)),
{
    lemma_first_index_meaning(line_codes(lines), code);
    match first_index(line_codes(lines), code) {
        Some(i) => {
            lemma_change_line_wf(lines, i, delta);
        },
        None => {},
    }
}

/// However often items with one code are added to lines that have no line
/// for that code, there is exactly one line for it afterwards: a new last
/// line, which holds the first of the items that were added, and whose
/// quantity is the number of additions. The lines that were there are as
/// they were.
///
/// The number of additions is at most `u32::MAX`, the largest quantity a
/// line can have.
pub proof fn lemma_repeated_add_makes_one_line(
    lines: Seq<LineData>,
    items: Seq<ItemData>,
    code: u64,
)
    requires
        first_index(line_codes(lines), code) is None,
        forall|k: int| 0 <= k < items.len() ==> (#[trigger] items[k]).code == code,
        1 <= items.len() <= u32::MAX,
    ensures
        spec_add_all(lines, items) == lines.push(
            LineData { item: items[0], quantity: items.len() as u32 },
        ),
        first_index(line_codes(spec_add_all(lines, items)), code) == Some(lines.len() as int),
        forall|j: int|
            0 <= j < spec_add_all(lines, items).len() && j != lines.len() ==> (
            #[trigger] spec_add_all(lines, items)[j]).item.code != code,
    decreases items.len(),
{
    let codes = line_codes(lines);
    let n = lines.len() as int;
    lemma_first_index_meaning(codes, code);
    let line = LineData { item: items[0], quantity: items.len() as u32 };
    let target = lines.push(line);
    if items.len() == 1 {
        reveal_with_fuel(spec_add_all, 2);
    } else {
        let before = items.drop_last();
        assert forall|k: int| 0 <= k < before.len() implies (#[trigger] before[k]).code
            == code by {
            assert(before[k] == items[k]);
        }
        lemma_repeated_add_makes_one_line(lines, before, code);
        let mid = lines.push(LineData { item: items[0], quantity: before.len() as u32 });
        assert(is_first_at(line_codes(mid), code, n)) by {
            assert(line_codes(mid) =~= codes.push(code));
        }
        lemma_first_index_is(line_codes(mid), code, n);
    }
    assert(line_codes(target) =~= codes.push(code));
    lemma_first_index_is(line_codes(target), code, n);
    assert forall|j: int| 0 <= j < target.len() && j != n implies (#[trigger] target[j]).item.code
        != code by {
        assert(codes[j] == lines[j].item.code);
    }
}

/// A change that would leave the line for `code` with quantity zero, or
/// below, or above `u32::MAX`, removes that line and no other: there is one
/// line less, and among valid lines none is for `code` any more.
pub proof fn lemma_modify_quantity_removes(lines: Seq<LineData>, code: u64, delta: int)
    requires
        first_index(line_codes(lines), code) is Some,
        !(1 <= lines[first_index(line_codes(lines), code).unwrap()].quantity + delta <= u32::MAX),
    ensures
        spec_modify_quantity(lines, code, delta) == lines.remove(
            first_index(line_codes(lines), code).unwrap(),
        ),
        spec_modify_quantity(lines, code, delta).len() == lines.len() - 1,
        lines_wf(lines) ==> first_index(
            line_codes(spec_modify_quantity(lines, code, delta)),
            code,
        ) is None,
{
    let codes = line_codes(lines);
    let i = first_index(codes, code).unwrap();
    lemma_first_index_meaning(codes, code);
    lemma_change_line_codes(lines, i, delta);
    if lines_wf(lines) {
        lemma_distinct_remove(codes, i);
        lemma_first_index_none(codes.remove(i), code);
    }
}

/// The total without line `i` is the total less what that line costs.
pub proof fn lemma_total_remove(lines: Seq<LineData>, i: int)
    requires
        0 <= i < lines.len(),
    ensures
        spec_total(lines.remove(i)) == spec_total(lines) - spec_line_total(lines[i]),
    decreases lines.len(),
{
    if i == lines.len() - 1 {
        assert(lines.remove(i) =~= lines.drop_last());
    } else {
        lemma_total_remove(lines.drop_last(), i);
        assert(lines.remove(i).drop_last() =~= lines.drop_last().remove(i));
    }
}

/// With another line in place of line `i`, the total is less by what the
/// line cost and more by what the other costs.
pub proof fn lemma_total_update(lines: Seq<LineData>, i: int, line: LineData)
    requires
        0 <= i < lines.len(),
    ensures
        spec_total(lines.update(i, line)) == spec_total(lines) - spec_line_total(lines[i])
            + spec_line_total(line),
    decreases lines.len(),
{
    if i == lines.len() - 1 {
        assert(lines.update(i, line).drop_last() =~= lines.drop_last());
    } else {
        lemma_total_update(lines.drop_last(), i, line);
        assert(lines.update(i, line).drop_last() =~= lines.drop_last().update(i, line));
    }
}

/// One more of an item raises the total by the price at which the item
/// stands in the transaction: its own price if its line is new, else the
/// price on its line. Only where the line was full, and has gone, the total
/// falls by what the line cost.
pub proof fn lemma_total_after_add(lines: Seq<LineData>, item: ItemData)
    ensures
        spec_total(spec_add_item(lines, item)) == match first_index(line_codes(lines), item.code) {
            None => spec_total(lines) + item.price,
            Some(i) => if lines[i].quantity < u32::MAX {
                spec_total(lines) + lines[i].item.price
            } else {
                spec_total(lines) - spec_line_total(lines[i])
            },
        },
{
    lemma_first_index_meaning(line_codes(lines), item.code);
    match first_index(line_codes(lines), item.code) {
        None => {
            let line = LineData { item, quantity: 1 };
            assert(lines.push(line).drop_last() =~= lines);
        },
        Some(i) => {
            if lines[i].quantity < u32::MAX {
                let line = LineData { item: lines[i].item, quantity: (lines[i].quantity + 1) as u32 };
                lemma_total_update(lines, i, line);
                assert(spec_line_total(line) == spec_line_total(lines[i]) + lines[i].item.price)
                    by (nonlinear_arith)
                    requires
                        line.item.price == lines[i].item.price,
                        line.quantity == lines[i].quantity + 1,
                ;
            } else {
                lemma_total_remove(lines, i);
            }
        },
    }
}

} // verus!
