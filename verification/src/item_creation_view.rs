//! The form in which an item is made or edited.

use vstd::prelude::*;
use crate::item::{Item, ItemData};
use crate::item_db::{spec_save_item, ItemDB};
use crate::text::{
    after_first, lemma_decimal_spells, parse_number, push_decimal, spec_after_first,
    spec_decimal, spec_parse_number,
};
use crate::utils::{
    format_amount, lemma_amount_reads_back, parse_price, spec_amount_text, spec_parse_price,
};

verus! {

/// How many units a saved item has in stock.
pub const STARTING_STOCK: u32 = 5;

/// What the operator can do in the form.
#[derive(Debug, PartialEq, Eq)]
pub enum ItemCreationMessage {
    /// The text of the picture field has changed to this.
    ImagePathChanged(String),
    /// Choose the picture from the files.
    BrowseImagePath,
    /// The text of the name field has changed to this.
    NameChanged(String),
    /// The text of the price field has changed to this.
    PriceChanged(String),
    /// The text of the code field has changed to this.
    BarcodeChanged(String),
    /// Save the item that the fields describe.
    SaveItem,
}

impl Clone for ItemCreationMessage {
    /// A copy that is equal to what it was made from.
    fn clone(&self) -> (copy: ItemCreationMessage)
        ensures
            copy == *self,
    {
        match self {
            ItemCreationMessage::ImagePathChanged(text) => ItemCreationMessage::ImagePathChanged(
                text.clone(),
            ),
            ItemCreationMessage::BrowseImagePath => ItemCreationMessage::BrowseImagePath,
            ItemCreationMessage::NameChanged(text) => ItemCreationMessage::NameChanged(
                text.clone(),
            ),
            ItemCreationMessage::PriceChanged(text) => ItemCreationMessage::PriceChanged(
                text.clone(),
            ),
            ItemCreationMessage::BarcodeChanged(text) => ItemCreationMessage::BarcodeChanged(
                text.clone(),
            ),
            ItemCreationMessage::SaveItem => ItemCreationMessage::SaveItem,
        }
    }
}

/// What the caller has to do after a message to the form.
#[derive(Debug, Clone, Copy, PartialEq, Eq, Structural)]
pub enum ItemCreationAction {
    /// Nothing.
    Nothing,
    /// Let the operator pick a file, and hand its path to `image_picked`.
    PickImage,
    /// The item is saved: tell the operator and show the inventory.
    Saved,
    /// The item is not saved, because a field does not read as it should or
    /// because the code belongs to another item: tell the operator.
    SaveFailed,
}

/// The form.
#[derive(Debug, PartialEq, Eq)]
pub struct ItemCreationView {
    editing_item: Option<Item>,
    input_image_path: String,
    input_name: String,
    input_price: String,
    input_barcode: String,
}

/// The form as a mathematical value.
pub struct ItemFormModel {
    /// The item that is being edited, if the form does not make a new one.
    pub editing: Option<ItemData>,
    /// The text of the picture field.
    pub image_path: Seq<char>,
    /// The text of the name field.
    pub name: Seq<char>,
    /// The text of the price field.
    pub price: Seq<char>,
    /// The text of the code field.
    pub barcode: Seq<char>,
}

/// The item that the texts of the four fields describe, if they describe
/// one: the code is a number in digits and the price is an amount. An empty
/// picture field means that the item has no picture.
pub open spec fn spec_parse_item(
    name: Seq<char>,
    barcode: Seq<char>,
    price: Seq<char>,
    image_path: Seq<char>,
) -> Option<ItemData> {
    match (spec_parse_number(barcode), spec_parse_price(price)) {
        (Some(code), Some(pence)) if pence <= u32::MAX => Some(
            ItemData {
                code,
                name,
                price: pence as u32,
                image_path: if image_path.len() == 0 {
                    None
                } else {
                    Some(image_path)
                },
                amount_in_stock: STARTING_STOCK,
            },
        ),
        _ => None,
    }
}

/// Reads an item from the texts of the form's fields.
pub fn parse_item(name: String, barcode: String, price: String, image_path: String) -> (r: Result<
    Item,
    (),
>)
    ensures
        match r {
            Ok(item) => spec_parse_item(name@, barcode@, price@, image_path@) == Some(item@),
            Err(_) => spec_parse_item(name@, barcode@, price@, image_path@) is None,
        },
{
    let code = match parse_number(barcode.as_str()) {
        Some(code) => code,
        None => {
            return Err(());
        },
    };
    let pence = match parse_price(price.as_str()) {
        Ok(pence) => pence,
        Err(_) => {
            return Err(());
        },
    };
    let image_path = if image_path.as_str().is_empty() {
        None
    } else {
        Some(image_path)
    };
    Ok(Item { code, name, price: pence, image_path, amount_in_stock: STARTING_STOCK })
}

impl ItemFormModel {
    /// The form that edits `item`, or the empty form that makes a new item.
    pub open spec fn of(item: Option<ItemData>) -> ItemFormModel {
        match item {
            Some(item) => ItemFormModel {
                editing: Some(item),
                image_path: match item.image_path {
                    Some(path) => path,
                    None => Seq::empty(),
                },
                name: item.name,
                price: spec_amount_text(item.price as nat),
                barcode: spec_decimal(item.code as nat),
            },
            None => ItemFormModel {
                editing: None,
                image_path: Seq::empty(),
                name: Seq::empty(),
                price: Seq::empty(),
                barcode: Seq::empty(),
            },
        }
    }

    /// The form after the operator has picked the file `path`: the picture
    /// field holds what follows `images` in the path. A path without
    /// `images` changes nothing.
    pub open spec fn image_picked(self, path: Seq<char>) -> ItemFormModel {
        match spec_after_first(path, "images"@) {
            Some(rest) => ItemFormModel { image_path: rest, ..self },
            None => self,
        }
    }

    /// The code of the item that is being edited.
    pub open spec fn editing_code(self) -> Option<u64> {
        match self.editing {
            Some(item) => Some(item.code),
            None => None,
        }
    }

    /// The item that the fields describe, if they describe one.
    pub open spec fn described(self) -> Option<ItemData> {
        spec_parse_item(self.name, self.barcode, self.price, self.image_path)
    }

    /// The catalog after the item that the fields describe has been saved,
    /// if it can be saved: in the place of the item that is being edited, or
    /// as a new item.
    pub open spec fn saved(self, catalog: Seq<ItemData>) -> Option<Seq<ItemData>> {
        match self.described() {
            Some(item) => spec_save_item(catalog, self.editing_code(), item),
            None => None,
        }
    }
}

impl View for ItemCreationView {
    type V = ItemFormModel;

    closed spec fn view(&self) -> ItemFormModel {
        ItemFormModel {
            editing: match self.editing_item {
                Some(item) => Some(item@),
                None => None,
            },
            image_path: self.input_image_path@,
            name: self.input_name@,
            price: self.input_price@,
            barcode: self.input_barcode@,
        }
    }
}

impl Default for ItemCreationView {
    /// The empty form, which makes a new item.
    fn default() -> (form: ItemCreationView)
        ensures
            form@ == ItemFormModel::of(None),
    {
        ItemCreationView::new()
    }
}

impl ItemCreationView {
    /// The empty form, which makes a new item.
    pub fn new() -> (form: ItemCreationView)
        ensures
            form@ == ItemFormModel::of(None),
    {
        ItemCreationView {
            editing_item: None,
            input_image_path: String::new(),
            input_name: String::new(),
            input_price: String::new(),
            input_barcode: String::new(),
        }
    }

    /// The item that is being edited, if the form does not make a new one.
    pub fn editing_item(&self) -> (item: &Option<Item>)
        ensures
            self@.editing == match *item {
                Some(item) => Some(item@),
                None => None::<ItemData>,
            },
    {
        &self.editing_item
    }

    /// The text of the picture field.
    pub fn input_image_path(&self) -> (text: &str)
        ensures
            text@ == self@.image_path,
    {
        self.input_image_path.as_str()
    }

    /// The text of the name field.
    pub fn input_name(&self) -> (text: &str)
        ensures
            text@ == self@.name,
    {
        self.input_name.as_str()
    }

    /// The text of the price field.
    pub fn input_price(&self) -> (text: &str)
        ensures
            text@ == self@.price,
    {
        self.input_price.as_str()
    }

    /// The text of the code field.
    pub fn input_barcode(&self) -> (text: &str)
        ensures
            text@ == self@.barcode,
    {
        self.input_barcode.as_str()
    }

    /// Fills the form with `item`, to edit it, or empties it, to make a new
    /// item. The price field gets the price in pounds with two digits of
    /// pence, which reads back as the same price.
    pub fn set_item(&mut self, item: Option<Item>)
        ensures
            final(self)@ == ItemFormModel::of(
                match item {
                    Some(item) => Some(item@),
                    None => None,
                },
            ),
    {
        match item {
            Some(item) => {
                let mut barcode = String::new();
                push_decimal(&mut barcode, item.code as u128);
                self.input_barcode = barcode;
                self.input_name = item.name.clone();
                self.input_image_path = match &item.image_path {
                    Some(path) => path.clone(),
                    None => String::new(),
                };
                self.input_price = format_amount(item.price as u128);
                self.editing_item = Some(item);
            },
            None => {
                self.input_barcode = String::new();
                self.input_name = String::new();
                self.input_image_path = String::new();
                self.input_price = String::new();
                self.editing_item = None;
            },
        }
    }

    /// Takes the path of the file that the operator picked: the picture
    /// field gets what follows `images` in it. Returns whether the path
    /// holds `images`; if it does not, nothing changes.
    pub fn image_picked(&mut self, path: &str) -> (taken: bool)
        ensures
            final(self)@ == old(self)@.image_picked(path@),
            taken == spec_after_first(path@, "images"@).is_some(),
    {
        match after_first(path, "images") {
            Some(rest) => {
                self.input_image_path = rest;
                true
            },
            None => false,
        }
    }

    /// Saves the item that the fields describe: in the place of the item
    /// that is being edited, or as a new item. Nothing is saved where the
    /// fields describe no item, or where the code belongs to another item of
    /// the catalog. Returns whether the item was saved.
    pub fn save(&self, item_db: &mut ItemDB) -> (saved: bool)
        ensures
            match self@.saved(old(item_db)@) {
                Some(items) => saved && final(item_db)@ == items,
                None => !saved && final(item_db)@ == old(item_db)@,
            },
            old(item_db).wf() ==> final(item_db).wf(),
    {
        let parsed = parse_item(
            self.input_name.clone(),
            self.input_barcode.clone(),
            self.input_price.clone(),
            self.input_image_path.clone(),
        );
        match parsed {
            Ok(item) => {
                let editing = match &self.editing_item {
                    Some(old) => Some(old.code),
                    None => None,
                };
                item_db.save_item(editing, item)
            },
            Err(_) => false,
        }
    }

    /// Does what `message` asks, and says what is left for the caller to
    /// do. A change of a field sets the field; `BrowseImagePath` asks the
    /// caller to let the operator pick a file; `SaveItem` saves as `save`
    /// does. Only `SaveItem` can change the catalog.
    pub fn update(&mut self, message: ItemCreationMessage, item_db: &mut ItemDB) -> (action:
        ItemCreationAction)
        ensures
            final(self)@ == match message {
                ItemCreationMessage::ImagePathChanged(text) => ItemFormModel {
                    image_path: text@,
                    ..old(self)@
                },
                ItemCreationMessage::NameChanged(text) => ItemFormModel {
                    name: text@,
                    ..old(self)@
                },
                ItemCreationMessage::PriceChanged(text) => ItemFormModel {
                    price: text@,
                    ..old(self)@
                },
                ItemCreationMessage::BarcodeChanged(text) => ItemFormModel {
                    barcode: text@,
                    ..old(self)@
                },
                _ => old(self)@,
            },
            final(item_db)@ == match (message, old(self)@.saved(old(item_db)@)) {
                (ItemCreationMessage::SaveItem, Some(items)) => items,
                _ => old(item_db)@,
            },
            action == match message {
                ItemCreationMessage::BrowseImagePath => ItemCreationAction::PickImage,
                ItemCreationMessage::SaveItem => if old(self)@.saved(old(item_db)@) is Some {
                    ItemCreationAction::Saved
                } else {
                    ItemCreationAction::SaveFailed
                },
                _ => ItemCreationAction::Nothing,
            },
            old(item_db).wf() ==> final(item_db).wf(),
    {
        match message {
            ItemCreationMessage::ImagePathChanged(text) => {
                self.input_image_path = text;
                ItemCreationAction::Nothing
            },
            ItemCreationMessage::NameChanged(text) => {
                self.input_name = text;
                ItemCreationAction::Nothing
            },
            ItemCreationMessage::PriceChanged(text) => {
                self.input_price = text;
                ItemCreationAction::Nothing
            },
            ItemCreationMessage::BarcodeChanged(text) => {
                self.input_barcode = text;
                ItemCreationAction::Nothing
            },
            ItemCreationMessage::BrowseImagePath => ItemCreationAction::PickImage,
            ItemCreationMessage::SaveItem => {
                if self.save(item_db) {
                    ItemCreationAction::Saved
                } else {
                    ItemCreationAction::SaveFailed
                }
            },
        }
    }
}

/// What `set_item` writes into the form reads back as the item it was
/// given, but for the stock, which a saved item starts with anew. (An item
/// whose picture is named by the empty text reads back without a picture.)
pub proof fn lemma_form_reads_back(item: ItemData)
    requires
        item.image_path matches Some(path) ==> path.len() > 0,
    ensures
        ItemFormModel::of(Some(item)).described() == Some(item.with_stock(STARTING_STOCK)),
{
    lemma_decimal_spells(item.code as nat);
    lemma_amount_reads_back(item.price as nat);
}

} // verus!
