use shop_till::{Item, ItemDB, PosError, Transaction};

fn item(code: u64, name: &str, price: u32, stock: u32) -> Item {
    Item { code, name: name.to_string(), price, image_path: None, amount_in_stock: stock }
}

fn catalog() -> ItemDB {
    ItemDB {
        items: vec![
            item(42, "apple", 150, 10),
            item(7, "tea", 250, 3),
            item(9, "salt", 60, 0),
        ],
    }
}

fn stock_of(db: &ItemDB, code: u64) -> u32 {
    db.get_item(code).unwrap().amount_in_stock
}

#[test]
fn get_item_finds_by_code() {
    let db = catalog();
    assert_eq!(db.get_item(7), Some(&item(7, "tea", 250, 3)));
    assert_eq!(db.get_item(42).unwrap().name, "apple");
    assert_eq!(db.position(9), Some(2));
}

#[test]
fn get_item_of_an_unknown_code_is_none() {
    let db = catalog();
    assert_eq!(db.get_item(8), None);
    assert_eq!(db.position(8), None);
    assert_eq!(ItemDB::new().get_item(42), None);
}

#[test]
fn get_item_takes_the_first_of_two_entries_with_one_code() {
    let db = ItemDB { items: vec![item(1, "first", 10, 1), item(1, "second", 20, 2)] };
    assert_eq!(db.get_item(1).unwrap().name, "first");
}

#[test]
fn modify_quantity_adds_and_takes_stock() {
    let mut db = catalog();
    assert_eq!(db.modify_quantity(42, -2), Ok(()));
    assert_eq!(stock_of(&db, 42), 8);
    assert_eq!(db.modify_quantity(42, 5), Ok(()));
    assert_eq!(stock_of(&db, 42), 13);
    assert_eq!(stock_of(&db, 7), 3);
    assert_eq!(stock_of(&db, 9), 0);
}

#[test]
fn modify_quantity_stops_at_zero() {
    let mut db = catalog();
    assert_eq!(db.modify_quantity(7, -4), Ok(()));
    assert_eq!(stock_of(&db, 7), 0);
    assert_eq!(db.modify_quantity(9, i32::MIN), Ok(()));
    assert_eq!(stock_of(&db, 9), 0);
}

#[test]
fn modify_quantity_stops_at_the_largest_stock() {
    let mut db = ItemDB { items: vec![item(1, "a", 10, u32::MAX - 1)] };
    assert_eq!(db.modify_quantity(1, 5), Ok(()));
    assert_eq!(stock_of(&db, 1), u32::MAX);
}

#[test]
fn modify_quantity_of_an_unknown_code_reports_and_changes_nothing() {
    let mut db = catalog();
    assert_eq!(db.modify_quantity(8, -1), Err(PosError::CatalogInconsistency));
    assert_eq!(db, catalog());
}

#[test]
fn modify_quantity_changes_nothing_but_the_stock() {
    let mut db = catalog();
    db.modify_quantity(7, -1).unwrap();
    assert_eq!(db.get_item(7), Some(&item(7, "tea", 250, 2)));
    assert_eq!(db.items.len(), 3);
}

#[test]
fn settling_takes_each_line_from_the_stock() {
    let mut db = catalog();
    let mut cart = Transaction::new();
    cart.add_item(&item(42, "apple", 150, 10));
    cart.add_item(&item(42, "apple", 150, 10));
    cart.add_item(&item(7, "tea", 250, 3));
    let skipped = db.update_quantities_from_transaction(&cart);
    assert!(skipped.is_empty());
    assert_eq!(stock_of(&db, 42), 8);
    assert_eq!(stock_of(&db, 7), 2);
    assert_eq!(stock_of(&db, 9), 0);
}

#[test]
fn settling_stops_at_zero() {
    let mut db = catalog();
    let mut cart = Transaction::new();
    cart.add_item(&item(7, "tea", 250, 3));
    cart.modify_quantity(7, 4).unwrap();
    cart.add_item(&item(9, "salt", 60, 0));
    let skipped = db.update_quantities_from_transaction(&cart);
    assert!(skipped.is_empty());
    assert_eq!(stock_of(&db, 7), 0);
    assert_eq!(stock_of(&db, 9), 0);
    assert_eq!(stock_of(&db, 42), 10);
}

#[test]
fn settling_takes_quantities_beyond_thirty_one_bits() {
    let mut db = ItemDB { items: vec![item(1, "grain", 1, u32::MAX)] };
    let mut cart = Transaction::new();
    cart.add_item(&item(1, "grain", 1, u32::MAX));
    cart.modify_quantity(1, i32::MAX).unwrap();
    cart.modify_quantity(1, 10).unwrap();
    let sold = (1u32 << 31) + 10;
    assert_eq!(cart.items[0].quantity, sold);
    db.update_quantities_from_transaction(&cart);
    assert_eq!(stock_of(&db, 1), u32::MAX - sold);
}

#[test]
fn settling_skips_items_that_left_the_catalog() {
    let mut db = catalog();
    let mut cart = Transaction::new();
    cart.add_item(&item(5, "gone", 100, 1));
    cart.add_item(&item(42, "apple", 150, 10));
    cart.add_item(&item(6, "gone too", 100, 1));
    let skipped = db.update_quantities_from_transaction(&cart);
    assert_eq!(skipped, vec![5, 6]);
    assert_eq!(stock_of(&db, 42), 9);
    assert_eq!(db.items.len(), 3);
}

#[test]
fn settling_an_empty_transaction_changes_nothing() {
    let mut db = catalog();
    let skipped = db.update_quantities_from_transaction(&Transaction::new());
    assert!(skipped.is_empty());
    assert_eq!(db, catalog());
}

#[test]
fn save_item_adds_a_new_item_at_the_end() {
    let mut db = catalog();
    assert!(db.save_item(None, item(11, "rice", 180, 5)));
    assert_eq!(db.items.len(), 4);
    assert_eq!(db.items[3], item(11, "rice", 180, 5));
}

#[test]
fn save_item_refuses_a_code_that_is_taken() {
    let mut db = catalog();
    assert!(!db.save_item(None, item(7, "other tea", 1, 1)));
    assert_eq!(db, catalog());
    assert!(!db.save_item(Some(42), item(7, "apple as tea", 1, 1)));
    assert_eq!(db, catalog());
}

#[test]
fn save_item_replaces_the_item_that_was_edited() {
    let mut db = catalog();
    assert!(db.save_item(Some(7), item(7, "green tea", 275, 5)));
    assert_eq!(db.items[1], item(7, "green tea", 275, 5));
    assert!(db.save_item(Some(42), item(43, "pear", 160, 5)));
    assert_eq!(db.items[0], item(43, "pear", 160, 5));
    assert_eq!(db.items.len(), 3);
    assert_eq!(db.get_item(42), None);
}

#[test]
fn save_item_adds_when_the_edited_item_is_gone() {
    let mut db = catalog();
    assert!(db.save_item(Some(1000), item(11, "rice", 180, 5)));
    assert_eq!(db.items.len(), 4);
    assert_eq!(db.items[3].code, 11);
}

#[test]
fn delete_item_removes_the_item() {
    let mut db = catalog();
    assert!(db.delete_item(7));
    assert_eq!(db.items, vec![item(42, "apple", 150, 10), item(9, "salt", 60, 0)]);
    assert!(!db.delete_item(7));
    assert_eq!(db.items.len(), 2);
}

#[test]
fn low_stock_report_lists_items_below_twenty() {
    let db = ItemDB {
        items: vec![
            item(1, "apple", 150, 19),
            item(2, "tea", 250, 20),
            item(3, "salt", 60, 0),
            item(4, "rice", 180, 400),
        ],
    };
    assert_eq!(
        db.low_stock_report(),
        "Items low in stock:\nItem: apple, in stock: 19\nItem: salt, in stock: 0\n"
    );
    assert_eq!(ItemDB::new().low_stock_report(), "Items low in stock:\n");
}

#[test]
fn item_clone_is_equal() {
    let jam = Item {
        code: 3,
        name: "jam".to_string(),
        price: 199,
        image_path: Some("jam.jpg".to_string()),
        amount_in_stock: 12,
    };
    assert_eq!(jam.clone(), jam);
    let plain = item(4, "bread", 120, 1);
    assert_eq!(plain.clone(), plain);
}

#[test]
fn is_valid_tells_whether_codes_repeat() {
    assert!(ItemDB::new().is_valid());
    assert!(ItemDB::default().is_valid());
    assert!(catalog().is_valid());
    let mut db = catalog();
    db.items.push(item(7, "tea again", 1, 1));
    assert!(!db.is_valid());
    db.items.remove(1);
    assert!(db.is_valid());
    let twins = ItemDB { items: vec![item(1, "a", 1, 1), item(1, "a", 1, 1)] };
    assert!(!twins.is_valid());
}

#[test]
fn defaults_are_empty() {
    assert_eq!(ItemDB::default(), ItemDB::new());
    assert_eq!(Transaction::default(), Transaction::new());
    assert_eq!(Item::default(), item(0, "", 0, 0));
    assert_eq!(catalog().clone(), catalog());
}
