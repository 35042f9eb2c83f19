//! An item on sale.

use vstd::prelude::*;

verus! {

/// An entry of the catalog.
///
/// Items are told apart by `code` alone: two records with the same code are
/// the same item, whatever their other fields say.
#[derive(Debug, PartialEq, Eq)]
pub struct Item {
    /// The barcode, which identifies the item.
    pub code: u64,
    /// The name printed on receipts.
    pub name: String,
    /// The unit price in pence.
    pub price: u32,
    /// The file name of the item's picture, if it has one.
    pub image_path: Option<String>,
    /// How many units are on the shelf.
    pub amount_in_stock: u32,
}

/// An item as a mathematical value: its texts are sequences of characters.
pub struct ItemData {
    pub code: u64,
    pub name: Seq<char>,
    pub price: u32,
    pub image_path: Option<Seq<char>>,
    pub amount_in_stock: u32,
}

impl ItemData {
    /// The same item with another stock count.
    pub open spec fn with_stock(self, stock: u32) -> ItemData {
        ItemData { amount_in_stock: stock, ..self }
    }
}

impl View for Item {
    type V = ItemData;

    open spec fn view(&self) -> ItemData {
        ItemData {
            code: self.code,
            name: self.name@,
            price: self.price,
            image_path: match self.image_path {
                Some(path) => Some(path@),
                None => None,
            },
            amount_in_stock: self.amount_in_stock,
        }
    }
}

impl Default for Item {
    /// The item with code 0, no name, no price, no picture and no stock.
    fn default() -> (item: Item)
        ensures
            item@ == (ItemData {
                code: 0,
                name: Seq::empty(),
                price: 0,
                image_path: None,
                amount_in_stock: 0,
            }),
    {
        Item { code: 0, name: String::new(), price: 0, image_path: None, amount_in_stock: 0 }
    }
}

impl Clone for Item {
    /// A copy that is equal to the item field by field.
    fn clone(&self) -> (copy: Item)
        ensures
            copy == *self,
    {
        let image_path = match &self.image_path {
            Some(path) => Some(path.clone()),
            None => None,
        };
        Item {
            code: self.code,
            name: self.name.clone(),
            price: self.price,
            image_path,
            amount_in_stock: self.amount_in_stock,
        }
    }
}

} // verus!
