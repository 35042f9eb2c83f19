//! The inventory: the catalog as the person who keeps it sees it, with a
//! search field and a list of what runs low.

use vstd::prelude::*;
use vstd::string::StringExecFns;
use crate::item::{Item, ItemData};
use crate::item_db::{spec_delete_item, ItemDB};
use crate::text::{
    contains_text, push_decimal, spec_contains, spec_decimal, spec_lowercase,
};

verus! {

/// An item runs low when fewer units than this are in stock.
pub const LOW_STOCK: u32 = 20;

/// What the operator can do in the inventory.
#[derive(Debug, PartialEq, Eq)]
pub enum InventoryMessage {
    /// The text of the search field has changed to this.
    SearchChanged(String),
    /// Delete this item from the catalog.
    DeleteItem(Item),
    /// Print the list of the items that run low.
    PrintItemsLowInStock,
}

impl Clone for InventoryMessage {
    /// A copy that is equal to what it was made from.
    fn clone(&self) -> (copy: InventoryMessage)
        ensures
            copy == *self,
    {
        match self {
            InventoryMessage::SearchChanged(text) => InventoryMessage::SearchChanged(text.clone()),
            InventoryMessage::DeleteItem(item) => InventoryMessage::DeleteItem(item.clone()),
            InventoryMessage::PrintItemsLowInStock => InventoryMessage::PrintItemsLowInStock,
        }
    }
}

/// The inventory view: what has been typed into its search field.
#[derive(Debug, PartialEq, Eq)]
pub struct InventoryView {
    pub input_search: String,
}

/// Whether `name` holds `search`, when capital and small letters count as
/// the same.
pub open spec fn spec_matches_search(name: Seq<char>, search: Seq<char>) -> bool {
    spec_contains(spec_lowercase(name), spec_lowercase(search))
}

/// The line of the low-stock list for one item.
pub open spec fn spec_low_stock_line(item: ItemData) -> Seq<char> {
    "Item: "@ + item.name + ", in stock: "@ + spec_decimal(item.amount_in_stock as nat) + "\n"@
}

/// The lines of the low-stock list: one for every item that runs low, in
/// the order of the catalog.
pub open spec fn spec_low_stock_lines(items: Seq<ItemData>) -> Seq<char>
    decreases items.len(),
{
    if items.len() == 0 {
        Seq::empty()
    } else if items.last().amount_in_stock < LOW_STOCK {
        spec_low_stock_lines(items.drop_last()) + spec_low_stock_line(items.last())
    } else {
        spec_low_stock_lines(items.drop_last())
    }
}

/// The low-stock list: a heading and the lines.
pub open spec fn spec_low_stock_report(items: Seq<ItemData>) -> Seq<char> {
    "Items low in stock:\n"@ + spec_low_stock_lines(items)
}

/// Whether `places` are the places of the texts of `texts` that hold
/// `needle`: all of them, each once, in rising order.
pub open spec fn are_places_containing(
    places: Seq<usize>,
    texts: Seq<Seq<char>>,
    needle: Seq<char>,
) -> bool {
    &&& forall|k: int|
        0 <= k < places.len() ==> (#[trigger] places[k]) < texts.len() && spec_contains(
            texts[places[k] as int],
            needle,
        )
    &&& forall|k: int, l: int| 0 <= k < l < places.len() ==> places[k] < places[l]
    &&& forall|i: int|
        0 <= i < texts.len() && spec_contains(#[trigger] texts[i], needle) ==> places.contains(
            i as usize,
        )
}

/// The places of the texts that hold `needle`, in rising order.
pub fn places_containing(texts: &Vec<String>, needle: &str) -> (places: Vec<usize>)
    ensures
        are_places_containing(places@, texts@.map_values(|text: String| text@), needle@),
{
    let ghost views = texts@.map_values(|text: String| text@);
    let mut places: Vec<usize> = Vec::new();
    let mut i: usize = 0;
    while i < texts.len()
        invariant
            i <= texts.len(),
            views == texts@.map_values(|text: String| text@),
            forall|k: int|
                0 <= k < places.len() ==> (#[trigger] places[k]) < i && spec_contains(
                    views[places[k] as int],
                    needle@,
                ),
            forall|k: int, l: int| 0 <= k < l < places.len() ==> places[k] < places[l],
            forall|j: int|
                0 <= j < i && spec_contains(#[trigger] views[j], needle@) ==> places@.contains(
                    j as usize,
                ),
        decreases texts.len() - i,
    {
        let ghost before = places@;
        if contains_text(texts[i].as_str(), needle) {
            places.push(i);
            assert(places@[places@.len() - 1] == i);
        }
        assert forall|j: int|
            0 <= j < i + 1 && spec_contains(#[trigger] views[j], needle@) implies places@.contains(
            j as usize,
        ) by {
            if j < i {
                let k = choose|k: int| 0 <= k < before.len() && before[k] == j as usize;
                assert(places@[k] == j as usize);
            }
        }
        i = i + 1;
    }
    places
}

impl ItemDB {
    /// The list of the items that run low, ready to be printed: a heading,
    /// and a line with name and stock for every item of which fewer than
    /// `LOW_STOCK` units are in stock.
    pub fn low_stock_report(&self) -> (report: String)
        ensures
            report@ == spec_low_stock_report(self@),
    {
        let mut report = String::new();
        report.append("Items low in stock:\n");
        let mut i: usize = 0;
        while i < self.items.len()
            invariant
                i <= self.items.len(),
                report@ == spec_low_stock_report(self@.take(i as int)),
            decreases self.items.len() - i,
        {
            if self.items[i].amount_in_stock < LOW_STOCK {
                report.append("Item: ");
                report.append(self.items[i].name.as_str());
                report.append(", in stock: ");
                push_decimal(&mut report, self.items[i].amount_in_stock as u128);
                report.append("\n");
            }
            proof {
                assert(self@.take(i + 1).drop_last() =~= self@.take(i as int));
            }
            i = i + 1;
        }
        assert(self@.take(i as int) =~= self@);
        report
    }
}

impl Default for InventoryView {
    /// An inventory view with an empty search field.
    fn default() -> (view: InventoryView)
        ensures
            view.input_search@ == Seq::<char>::empty(),
    {
        InventoryView::new()
    }
}

impl InventoryView {
    /// An inventory view with an empty search field.
    pub fn new() -> (view: InventoryView)
        ensures
            view.input_search@ == Seq::<char>::empty(),
    {
        InventoryView { input_search: String::new() }
    }

    /// The places in the catalog of the items that the search field asks
    /// for: those whose name holds the text of the field, capital and small
    /// letters counting as the same. An empty field asks for every item.
    pub fn matching(&self, item_db: &ItemDB) -> (places: Vec<usize>)
        ensures
            forall|k: int|
                0 <= k < places.len() ==> (#[trigger] places[k]) < item_db@.len()
                    && spec_matches_search(item_db@[places[k] as int].name, self.input_search@),
            forall|k: int, l: int| 0 <= k < l < places.len() ==> places[k] < places[l],
            forall|i: int|
                0 <= i < item_db@.len() && spec_matches_search(
                    (#[trigger] item_db@[i]).name,
                    self.input_search@,
                ) ==> places@.contains(i as usize),
    {
        let search = self.input_search.as_str().to_lowercase();
        let mut names: Vec<String> = Vec::new();
        let mut i: usize = 0;
        while i < item_db.items.len()
            invariant
                i <= item_db.items.len(),
                names.len() == i,
                forall|j: int|
                    0 <= j < i ==> (#[trigger] names[j])@ == spec_lowercase(item_db@[j].name),
            decreases item_db.items.len() - i,
        {
            names.push(item_db.items[i].name.as_str().to_lowercase());
            i = i + 1;
        }
        let places = places_containing(&names, search.as_str());
        proof {
            let views = names@.map_values(|text: String| text@);
            assert forall|i: int|
                0 <= i < item_db@.len() && spec_matches_search(
                    (#[trigger] item_db@[i]).name,
                    self.input_search@,
                ) implies places@.contains(i as usize) by {
                assert(views[i] == names[i]@);
            }
        }
        places
    }

    /// Does what `message` asks: takes the new text of the search field,
    /// deletes an item from the catalog, or makes the list of what runs
    /// low, which is returned for the caller to print.
    pub fn update(&mut self, message: InventoryMessage, item_db: &mut ItemDB) -> (report: Option<
        String,
    >)
        ensures
            final(self).input_search@ == match message {
                InventoryMessage::SearchChanged(text) => text@,
                _ => old(self).input_search@,
            },
            final(item_db)@ == match message {
                InventoryMessage::DeleteItem(item) => spec_delete_item(old(item_db)@, item.code),
                _ => old(item_db)@,
            },
            match report {
                Some(text) => message is PrintItemsLowInStock && text@ == spec_low_stock_report(
                    old(item_db)@,
                ),
                None => !(message is PrintItemsLowInStock),
            },
            old(item_db).wf() ==> final(item_db).wf(),
    {
        match message {
            InventoryMessage::SearchChanged(text) => {
                self.input_search = text;
                None
            },
            InventoryMessage::DeleteItem(item) => {
                item_db.delete_item(item.code);
                None
            },
            InventoryMessage::PrintItemsLowInStock => Some(item_db.low_stock_report()),
        }
    }
}

} // verus!
