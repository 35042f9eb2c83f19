//! The catalog: the items on sale and their stock.

use vstd::prelude::*;
use crate::codes::{
    distinct, first_index, has_code, lemma_distinct_first, lemma_distinct_remove,
    lemma_first_index_is, lemma_first_index_meaning, lemma_first_index_none,
    lemma_first_index_push_other,
};
use crate::error::PosError;
use crate::item::{Item, ItemData};
use crate::transaction::{line_codes, LineData, Transaction};

verus! {

/// A database of all items, in the order in which they are kept on file.
///
/// An item is found by its code. Where two entries have the same code, the
/// first one is the item and the other is never looked at.
#[derive(Debug, PartialEq, Eq)]
pub struct ItemDB {
    pub items: Vec<Item>,
}

/// The codes of `items`, entry by entry.
pub open spec fn item_codes(items: Seq<ItemData>) -> Seq<u64> {
    items.map_values(|item: ItemData| item.code)
}

/// The validity of a catalog: no two entries have the same code.
pub open spec fn items_wf(items: Seq<ItemData>) -> bool {
    distinct(item_codes(items))
}

/// The item with the given code, if the catalog has one.
pub open spec fn spec_lookup(items: Seq<ItemData>, code: u64) -> Option<ItemData> {
    match first_index(item_codes(items), code) {
        Some(i) => Some(items[i]),
        None => None,
    }
}

/// A stock count after a change by `delta`: their sum, but no less than 0
/// and no more than `u32::MAX`.
pub open spec fn spec_adjusted_stock(stock: u32, delta: int) -> u32 {
    if stock + delta < 0 {
        0
    } else if stock + delta > u32::MAX {
        u32::MAX
    } else {
        (stock + delta) as u32
    }
}

/// The catalog after the stock of the item with the given code has changed
/// by `delta`; the same catalog where it has no such item.
pub open spec fn spec_adjust_stock(items: Seq<ItemData>, code: u64, delta: int) -> Seq<ItemData> {
    match first_index(item_codes(items), code) {
        Some(i) => items.update(
            i,
            items[i].with_stock(spec_adjusted_stock(items[i].amount_in_stock, delta)),
        ),
        None => items,
    }
}

/// The catalog after the lines of a finished transaction have been taken
/// from the stock, one line after the other. A line whose item the catalog
/// does not have changes nothing.
pub open spec fn spec_settle(items: Seq<ItemData>, lines: Seq<LineData>) -> Seq<ItemData>
    decreases lines.len(),
{
    if lines.len() == 0 {
        items
    } else {
        spec_adjust_stock(
            spec_settle(items, lines.drop_last()),
            lines.last().item.code,
            -(lines.last().quantity as int),
        )
    }
}

/// The codes among `codes` that the catalog has no item for, in the order
/// of `codes`, a code as often as it occurs there.
pub open spec fn spec_missing(items: Seq<ItemData>, codes: Seq<u64>) -> Seq<u64>
    decreases codes.len(),
{
    if codes.len() == 0 {
        codes
    } else if has_code(item_codes(items), codes.last()) {
        spec_missing(items, codes.drop_last())
    } else {
        spec_missing(items, codes.drop_last()).push(codes.last())
    }
}

/// Whether an entry other than the one at place `place` has the given code.
pub open spec fn code_taken(items: Seq<ItemData>, code: u64, place: Option<int>) -> bool {
    exists|j: int| 0 <= j < items.len() && Some(j) != place && #[trigger] items[j].code == code
}

/// The place of the entry that a save replaces: that of the item that was
/// being edited, if one was and the catalog still has it.
pub open spec fn spec_save_place(items: Seq<ItemData>, editing: Option<u64>) -> Option<int> {
    match editing {
        Some(code) => first_index(item_codes(items), code),
        None => None,
    }
}

/// The catalog after `item` has been saved: in the place of the item that
/// was being edited, or as a new last entry. Nothing is saved where another
/// entry has the item's code already.
pub open spec fn spec_save_item(items: Seq<ItemData>, editing: Option<u64>, item: ItemData) -> Option<
    Seq<ItemData>,
> {
    let place = spec_save_place(items, editing);
    if code_taken(items, item.code, place) {
        None
    } else {
        match place {
            Some(i) => Some(items.update(i, item)),
            None => Some(items.push(item)),
        }
    }
}

/// The catalog without the item that has the given code.
pub open spec fn spec_delete_item(items: Seq<ItemData>, code: u64) -> Seq<ItemData> {
    match first_index(item_codes(items), code) {
        Some(i) => items.remove(i),
        None => items,
    }
}

impl View for ItemDB {
    type V = Seq<ItemData>;

    open spec fn view(&self) -> Seq<ItemData> {
        self.items@.map_values(|item: Item| item@)
    }
}

impl Clone for ItemDB {
    /// A copy with the same items.
    fn clone(&self) -> (copy: ItemDB)
        ensures
            copy@ == self@,
    {
        let mut items: Vec<Item> = Vec::new();
        let mut i: usize = 0;
        while i < self.items.len()
            invariant
                i <= self.items.len(),
                items@ == self.items@.take(i as int),
            decreases self.items.len() - i,
        {
            items.push(self.items[i].clone());
            i = i + 1;
        }
        ItemDB { items }
    }
}

impl Default for ItemDB {
    /// A catalog without items.
    fn default() -> (db: ItemDB)
        ensures
            db@ == Seq::<ItemData>::empty(),
    {
        ItemDB::new()
    }
}

impl ItemDB {
    /// Whether the catalog is valid: see `items_wf`.
    pub open spec fn wf(&self) -> bool {
        items_wf(self@)
    }

    /// A catalog without items.
    pub fn new() -> (db: ItemDB)
        ensures
            db@ == Seq::<ItemData>::empty(),
            db.wf(),
    {
        ItemDB { items: Vec::new() }
    }

    /// The place of the item with the given code: the first entry that has
    /// it.
    pub fn position(&self, code: u64) -> (place: Option<usize>)
        ensures
            first_index(item_codes(self@), code) == match place {
                Some(i) => Some(i as int),
                None => None::<int>,
            },
    {
        let ghost codes = item_codes(self@);
        let mut i: usize = 0;
        while i < self.items.len()
            invariant
                i <= self.items.len(),
                codes == item_codes(self@),
                forall|j: int| 0 <= j < i ==> codes[j] != code,
            decreases self.items.len() - i,
        {
            if self.items[i].code == code {
                proof {
                    lemma_first_index_is(codes, code, i as int);
                }
                return Some(i);
            }
            i = i + 1;
        }
        proof {
            lemma_first_index_none(codes, code);
        }
        None
    }

    /// Gets an item from the database given a code, or nothing if no item
    /// has that code.
    pub fn get_item(&self, code: u64) -> (found: Option<&Item>)
        ensures
            spec_lookup(self@, code) == match found {
                Some(item) => Some(item@),
                None => None::<ItemData>,
            },
    {
        match self.position(code) {
            Some(i) => Some(&self.items[i]),
            None => None,
        }
    }

    /// Whether an entry other than the one at `place` has the given code.
    fn is_code_taken(&self, code: u64, place: Option<usize>) -> (taken: bool)
        ensures
            taken == code_taken(
                self@,
                code,
                match place {
                    Some(i) => Some(i as int),
                    None => None,
                },
            ),
    {
        let ghost skip: Option<int> = match place {
            Some(i) => Some(i as int),
            None => None,
        };
        let mut j: usize = 0;
        while j < self.items.len()
            invariant
                j <= self.items.len(),
                skip == match place {
                    Some(i) => Some(i as int),
                    None => None::<int>,
                },
                forall|k: int| 0 <= k < j && Some(k) != skip ==> (#[trigger] self@[k]).code != code,
            decreases self.items.len() - j,
        {
            let skipped = match place {
                Some(i) => i == j,
                None => false,
            };
            if !skipped && self.items[j].code == code {
                assert(self@[j as int].code == code);
                return true;
            }
            j = j + 1;
        }
        false
    }

    /// Whether the catalog is valid: no two entries have the same code.
    pub fn is_valid(&self) -> (valid: bool)
        ensures
            valid == self.wf(),
    {
        let ghost codes = item_codes(self@);
        let mut i: usize = 0;
        while i < self.items.len()
            invariant
                i <= self.items.len(),
                codes == item_codes(self@),
                forall|a: int, b: int|
                    0 <= a < i && 0 <= b < codes.len() && a != b ==> codes[a] != codes[b],
            decreases self.items.len() - i,
        {
            if self.is_code_taken(self.items[i].code, Some(i)) {
                proof {
                    let j = choose|j: int|
                        0 <= j < self@.len() && Some(j) != Some(i as int) && (
                        #[trigger] self@[j]).code == self@[i as int].code;
                    assert(codes[j] == codes[i as int]);
                }
                return false;
            }
            assert forall|b: int| 0 <= b < codes.len() && b != i implies codes[i as int]
                != codes[b] by {
                assert(self@[b].code == codes[b]);
            }
            i = i + 1;
        }
        true
    }

    /// Saves `item`: in the place of the item with code `editing`, if there
    /// is such an item, else as a new last entry. Where another entry has
    /// the item's code already, nothing is saved. Returns whether the item
    /// was saved.
    pub fn save_item(&mut self, editing: Option<u64>, item: Item) -> (saved: bool)
        ensures
            match spec_save_item(old(self)@, editing, item@) {
                Some(items) => saved && final(self)@ == items,
                None => !saved && final(self)@ == old(self)@,
            },
            old(self).wf() ==> final(self).wf(),
    {
        let place = match editing {
            Some(code) => self.position(code),
            None => None,
        };
        if self.is_code_taken(item.code, place) {
            return false;
        }
        let ghost codes = item_codes(self@);
        match place {
            Some(i) => {
                self.items[i] = item;
                proof {
                    if old(self).wf() {
                        assert forall|a: int, b: int|
                            0 <= a < b < item_codes(self@).len() implies item_codes(self@)[a]
                            != item_codes(self@)[b] by {
                            assert(old(self)@[a].code == codes[a]);
                            assert(old(self)@[b].code == codes[b]);
                        }
                    }
                }
            },
            None => {
                self.items.push(item);
                proof {
                    if old(self).wf() {
                        assert forall|a: int, b: int|
                            0 <= a < b < item_codes(self@).len() implies item_codes(self@)[a]
                            != item_codes(self@)[b] by {
                            assert(old(self)@[a].code == codes[a]);
                            if b < codes.len() {
                                assert(old(self)@[b].code == codes[b]);
                            }
                        }
                    }
                }
            },
        }
        true
    }

    /// Deletes the item with the given code. Returns whether the catalog had
    /// such an item.
    pub fn delete_item(&mut self, code: u64) -> (deleted: bool)
        ensures
            final(self)@ == spec_delete_item(old(self)@, code),
            deleted == first_index(item_codes(old(self)@), code).is_some(),
            old(self).wf() ==> final(self).wf(),
    {
        match self.position(code) {
            Some(i) => {
                self.items.remove(i);
                proof {
                    let codes = item_codes(old(self)@);
                    assert(item_codes(self@) =~= codes.remove(i as int));
                    if old(self).wf() {
                        lemma_distinct_remove(codes, i as int);
                    }
                }
                true
            },
            None => false,
        }
    }

    /// Changes the stock of entry `i` by `delta`, stopping at 0 and at
    /// `u32::MAX`.
    fn adjust_entry(&mut self, i: usize, delta: i64)
        requires
            i < old(self)@.len(),
        ensures
            final(self)@ == old(self)@.update(
                i as int,
                old(self)@[i as int].with_stock(
                    spec_adjusted_stock(old(self)@[i as int].amount_in_stock, delta as int),
                ),
            ),
    {
        let sum: i128 = self.items[i].amount_in_stock as i128 + delta as i128;
        let stock: u32 = if sum < 0 {
            0
        } else if sum > u32::MAX as i128 {
            u32::MAX
        } else {
            sum as u32
        };
        self.items[i].amount_in_stock = stock;
        assert(self@ =~= old(self)@.update(
            i as int,
            old(self)@[i as int].with_stock(
                spec_adjusted_stock(old(self)@[i as int].amount_in_stock, delta as int),
            ),
        ));
    }

    /// Changes the stock of the item with the given code by `count`. The
    /// stock stops at 0 and at `u32::MAX`: it never wraps. Reports
    /// `CatalogInconsistency`, and changes nothing, where the catalog has no
    /// item with that code.
    pub fn modify_quantity(&mut self, code: u64, count: i32) -> (r: Result<(), PosError>)
        ensures
            final(self)@ == spec_adjust_stock(old(self)@, code, count as int),
            r == if first_index(item_codes(old(self)@), code).is_some() {
                Ok::<(), PosError>(())
            } else {
                Err::<(), PosError>(PosError::CatalogInconsistency)
            },
            old(self).wf() ==> final(self).wf(),
    {
        proof {
            lemma_adjust_stock_codes(self@, code, count as int);
        }
        match self.position(code) {
            Some(i) => {
                self.adjust_entry(i, count as i64);
                Ok(())
            },
            None => Err(PosError::CatalogInconsistency),
        }
    }

    /// Takes what a finished transaction sold from the stock: for every line,
    /// the stock of the line's item goes down by the line's quantity, and
    /// stops at 0. A line whose item is no longer in the catalog is skipped
    /// and the others are still applied; the codes of the skipped lines are
    /// returned, in the order of the lines.
    pub fn update_quantities_from_transaction(&mut self, transaction: &Transaction) -> (skipped:
        Vec<u64>)
        ensures
            final(self)@ == spec_settle(old(self)@, transaction@),
            skipped@ == spec_missing(old(self)@, line_codes(transaction@)),
            old(self).wf() ==> final(self).wf(),
    {
        let ghost lines = transaction@;
        let ghost codes = line_codes(lines);
        let mut skipped: Vec<u64> = Vec::new();
        let mut k: usize = 0;
        while k < transaction.items.len()
            invariant
                k <= transaction.items.len(),
                lines == transaction@,
                codes == line_codes(lines),
                self@ == spec_settle(old(self)@, lines.take(k as int)),
                skipped@ == spec_missing(old(self)@, codes.take(k as int)),
                item_codes(self@) == item_codes(old(self)@),
            decreases transaction.items.len() - k,
        {
            let code = transaction.items[k].item.code;
            let quantity = transaction.items[k].quantity;
            proof {
                assert(lines.take(k + 1).drop_last() =~= lines.take(k as int));
                assert(codes.take(k + 1).drop_last() =~= codes.take(k as int));
                lemma_first_index_meaning(item_codes(self@), code);
                lemma_adjust_stock_codes(self@, code, -(quantity as int));
            }
            match self.position(code) {
                Some(i) => {
                    self.adjust_entry(i, -(quantity as i64));
                },
                None => {
                    skipped.push(code);
                },
            }
            k = k + 1;
        }
        proof {
            assert(lines.take(k as int) =~= lines);
            assert(codes.take(k as int) =~= codes);
        }
        skipped
    }
}

/// A change of stock leaves the codes of the catalog as they are.
pub proof fn lemma_adjust_stock_codes(items: Seq<ItemData>, code: u64, delta: int)
    ensures
        item_codes(spec_adjust_stock(items, code, delta)) == item_codes(items),
        spec_adjust_stock(items, code, delta).len() == items.len(),
{
    lemma_first_index_meaning(item_codes(items), code);
}

/// Settling leaves the codes of the catalog as they are.
pub proof fn lemma_settle_codes(items: Seq<ItemData>, lines: Seq<LineData>)
    ensures
        item_codes(spec_settle(items, lines)) == item_codes(items),
        spec_settle(items, lines).len() == items.len(),
    decreases lines.len(),
{
    if lines.len() > 0 {
        lemma_settle_codes(items, lines.drop_last());
        lemma_adjust_stock_codes(
            spec_settle(items, lines.drop_last()),
            lines.last().item.code,
            -(lines.last().quantity as int),
        );
    }
}

/// The stock that is left of `stock` after `quantity` units were sold: the
/// difference, or 0 where more were sold than were in stock.
pub open spec fn spec_stock_after_sale(stock: u32, quantity: u32) -> u32 {
    if stock >= quantity {
        (stock - quantity) as u32
    } else {
        0
    }
}

/// What settling `lines` makes of the catalog entry at place `j`. The entry
/// changes only if it is the first with its code and a line is for that
/// code; then its stock is what the sale of that line's quantity leaves.
pub open spec fn spec_settled_entry(items: Seq<ItemData>, lines: Seq<LineData>, j: int) -> ItemData
    recommends
        0 <= j < items.len(),
{
    let code = items[j].code;
    if first_index(item_codes(items), code) == Some(j) {
        match first_index(line_codes(lines), code) {
            Some(k) => items[j].with_stock(
                spec_stock_after_sale(items[j].amount_in_stock, lines[k].quantity),
            ),
            None => items[j],
        }
    } else {
        items[j]
    }
}

/// Settling a transaction whose lines have distinct codes changes each
/// catalog entry as `spec_settled_entry` says.
pub proof fn lemma_settle_entry(items: Seq<ItemData>, lines: Seq<LineData>, j: int)
    requires
        distinct(line_codes(lines)),
        0 <= j < items.len(),
    ensures
        spec_settle(items, lines).len() == items.len(),
        spec_settle(items, lines)[j] == spec_settled_entry(items, lines, j),
    decreases lines.len(),
{
    let codes = item_codes(items);
    lemma_settle_codes(items, lines);
    if lines.len() == 0 {
        lemma_first_index_none(line_codes(lines), items[j].code);
    } else {
        let n = lines.len() - 1;
        let rest = lines.drop_last();
        let last = lines.last();
        let sold = last.item.code;
        let before = spec_settle(items, rest);
        assert(line_codes(lines) =~= line_codes(rest).push(sold));
        assert(distinct(line_codes(rest))) by {
            assert forall|a: int, b: int| 0 <= a < b < line_codes(rest).len() implies line_codes(
                rest,
            )[a] != line_codes(rest)[b] by {
                assert(line_codes(rest)[a] == line_codes(lines)[a]);
                assert(line_codes(rest)[b] == line_codes(lines)[b]);
            }
        }
        lemma_settle_codes(items, rest);
        lemma_settle_entry(items, rest, j);
        lemma_first_index_meaning(codes, sold);
        let own = items[j].code;
        if first_index(codes, sold) == Some(j) {
            // The entry is the one that the last line sells. No line before it
            // sold it, so it is still as it was.
            assert forall|k: int| 0 <= k < line_codes(rest).len() implies line_codes(rest)[k]
                != sold by {
                assert(line_codes(lines)[k] != line_codes(lines)[n]);
            }
            lemma_first_index_none(line_codes(rest), sold);
            lemma_distinct_first(line_codes(lines), sold, n);
        } else {
            // The last line leaves the entry alone.
            if first_index(codes, own) == Some(j) {
                lemma_first_index_push_other(line_codes(rest), sold, own);
                match first_index(line_codes(rest), own) {
                    Some(k) => {
                        lemma_first_index_meaning(line_codes(rest), own);
                    },
                    None => {},
                }
            }
        }
    }
}

/// Settling a transaction whose lines have distinct codes takes from the
/// stock of each item that it sold exactly the quantity of the item's line,
/// stopping at zero, and leaves every other item as it was. An item that
/// the catalog does not have is not there afterwards either.
pub proof fn lemma_settle_takes_what_was_sold(
    items: Seq<ItemData>,
    lines: Seq<LineData>,
    code: u64,
)
    requires
        distinct(line_codes(lines)),
    ensures
        spec_lookup(spec_settle(items, lines), code) == match (
            spec_lookup(items, code),
            first_index(line_codes(lines), code),
        ) {
            (Some(item), Some(k)) => Some(
                item.with_stock(spec_stock_after_sale(item.amount_in_stock, lines[k].quantity)),
            ),
            (found, _) => found,
        },
{
    lemma_settle_codes(items, lines);
    lemma_first_index_meaning(item_codes(items), code);
    match first_index(item_codes(items), code) {
        Some(j) => {
            lemma_settle_entry(items, lines, j);
        },
        None => {},
    }
}

} // verus!
