use shop_till::inventory_view::{places_containing, InventoryMessage, InventoryView};
use shop_till::item_creation_view::{
    parse_item, ItemCreationAction, ItemCreationMessage, ItemCreationView,
};
use shop_till::navigation::{GateOutcome, Navigation, ViewIndex};
use shop_till::text::{after_first, chars_of, contains_text, find_text, string_from};
use shop_till::utils::{encrypt, format_amount, image_file, no_image_file, parse_price};
use shop_till::{Item, ItemDB};

fn item(code: u64, name: &str, price: u32, stock: u32) -> Item {
    Item { code, name: name.to_string(), price, image_path: None, amount_in_stock: stock }
}

fn catalog() -> ItemDB {
    ItemDB {
        items: vec![
            item(42, "Apple", 150, 10),
            item(7, "Green Tea", 250, 3),
            item(9, "pineapple juice", 60, 0),
        ],
    }
}

#[test]
fn view_index_and_tab_number_stand_for_each_other() {
    let views =
        [ViewIndex::Transactions, ViewIndex::Inventory, ViewIndex::ItemCreation, ViewIndex::Settings];
    for (number, view) in views.iter().enumerate() {
        assert_eq!(view.to_usize(), number);
        assert_eq!(ViewIndex::from_usize(number), *view);
    }
    assert!(!ViewIndex::Transactions.is_protected());
    assert!(ViewIndex::Inventory.is_protected());
    assert!(ViewIndex::ItemCreation.is_protected());
    assert!(ViewIndex::Settings.is_protected());
}

#[test]
fn encrypt_moves_every_character_by_three() {
    assert_eq!(encrypt("abc"), "def");
    assert_eq!(encrypt(""), "");
    assert_eq!(encrypt("password1"), "sdvvzrug4");
    assert_eq!(encrypt("xyz~"), "{|}\u{81}");
}

#[test]
fn encrypt_keeps_eight_bits_of_each_character() {
    assert_eq!(encrypt("\u{fc}\u{fd}\u{fe}\u{ff}"), "\u{ff}\u{0}\u{1}\u{2}");
    assert_eq!(encrypt("€"), "\u{af}");
    assert_eq!(encrypt("\u{100}"), "\u{3}");
    assert_eq!(encrypt("aé€").chars().count(), 3);
}

#[test]
fn protected_views_ask_for_the_password() {
    let mut navigation = Navigation::new();
    assert_eq!(navigation.active_view(), ViewIndex::Transactions);
    assert!(navigation.set_active_view(ViewIndex::Inventory));
    assert_eq!(navigation.active_view(), ViewIndex::Transactions);
    assert_eq!(navigation.desired_view(), Some(ViewIndex::Inventory));
    navigation.password_changed("abc".to_string());
    assert_eq!(navigation.password_input(), "abc");
    assert_eq!(navigation.close_password_modal("def"), GateOutcome::Granted);
    assert_eq!(navigation.active_view(), ViewIndex::Inventory);
    assert_eq!(navigation.desired_view(), None);
    assert_eq!(navigation.password_input(), "");
    // Among the protected views no password is asked for.
    assert!(!navigation.set_active_view(ViewIndex::Settings));
    assert_eq!(navigation.active_view(), ViewIndex::Settings);
    assert!(!navigation.set_active_view(ViewIndex::Transactions));
    assert_eq!(navigation.active_view(), ViewIndex::Transactions);
}

#[test]
fn a_wrong_password_opens_nothing() {
    let mut navigation = Navigation::new();
    assert!(navigation.set_active_view(ViewIndex::Settings));
    navigation.password_changed("abd".to_string());
    assert_eq!(navigation.close_password_modal("def"), GateOutcome::Denied);
    assert_eq!(navigation.active_view(), ViewIndex::Transactions);
    assert_eq!(navigation.desired_view(), None);
    assert_eq!(navigation.password_input(), "");
    // The password on file is compared as it is stored, not as it is typed.
    assert!(navigation.set_active_view(ViewIndex::Settings));
    navigation.password_changed("def".to_string());
    assert_eq!(navigation.close_password_modal("def"), GateOutcome::Denied);
}

#[test]
fn a_password_that_nobody_asked_for_opens_nothing() {
    let mut navigation = Navigation::new();
    navigation.password_changed("abc".to_string());
    assert_eq!(navigation.close_password_modal("def"), GateOutcome::NotAsked);
    assert_eq!(navigation.active_view(), ViewIndex::Transactions);
    assert_eq!(navigation.password_input(), "");
    navigation.open_view(ViewIndex::ItemCreation);
    assert_eq!(navigation.active_view(), ViewIndex::ItemCreation);
    assert_eq!(navigation, {
        let mut other = Navigation::default();
        other.open_view(ViewIndex::ItemCreation);
        other
    });
}

#[test]
fn parse_item_reads_the_fields() {
    let parsed = parse_item(
        "jam".to_string(),
        "123".to_string(),
        "1.99".to_string(),
        "jam.jpg".to_string(),
    );
    assert_eq!(
        parsed,
        Ok(Item {
            code: 123,
            name: "jam".to_string(),
            price: 199,
            image_path: Some("jam.jpg".to_string()),
            amount_in_stock: 5,
        })
    );
    let plain = parse_item("bread".to_string(), "5".to_string(), "2".to_string(), String::new());
    assert_eq!(plain, Ok(item(5, "bread", 200, 5)));
}

#[test]
fn parse_item_rejects_fields_that_do_not_read() {
    let name = || "x".to_string();
    assert_eq!(parse_item(name(), "".to_string(), "1".to_string(), String::new()), Err(()));
    assert_eq!(parse_item(name(), "12a".to_string(), "1".to_string(), String::new()), Err(()));
    assert_eq!(parse_item(name(), "-1".to_string(), "1".to_string(), String::new()), Err(()));
    assert_eq!(parse_item(name(), "1".to_string(), "".to_string(), String::new()), Err(()));
    assert_eq!(parse_item(name(), "1".to_string(), "1.5".to_string(), String::new()), Err(()));
    assert_eq!(
        parse_item(name(), "18446744073709551616".to_string(), "1".to_string(), String::new()),
        Err(())
    );
}

#[test]
fn set_item_fills_the_form() {
    let mut form = ItemCreationView::new();
    let jam = Item {
        code: 123,
        name: "jam".to_string(),
        price: 1990,
        image_path: Some("/jam.jpg".to_string()),
        amount_in_stock: 12,
    };
    form.set_item(Some(jam.clone()));
    assert_eq!(form.editing_item(), &Some(jam));
    assert_eq!(form.input_barcode(), "123");
    assert_eq!(form.input_name(), "jam");
    assert_eq!(form.input_price(), "19.90");
    assert_eq!(form.input_image_path(), "/jam.jpg");
    form.set_item(Some(item(7, "tea", 5, 1)));
    assert_eq!(form.input_price(), "0.05");
    assert_eq!(form.input_image_path(), "");
    form.set_item(None);
    assert_eq!(form, ItemCreationView::default());
    assert_eq!(form.input_barcode(), "");
    assert_eq!(form.editing_item(), &None);
}

#[test]
fn the_price_that_set_item_writes_reads_back() {
    for pence in [0u32, 5, 50, 99, 100, 150, 1990, 123456, u32::MAX] {
        assert_eq!(parse_price(&format_amount(pence as u128)), Ok(pence));
    }
    assert_eq!(format_amount(150), "1.50");
    assert_eq!(format_amount(7), "0.07");
}

#[test]
fn the_form_saves_a_new_item() {
    let mut db = catalog();
    let mut form = ItemCreationView::new();
    let steps = vec![
        ItemCreationMessage::NameChanged("rice".to_string()),
        ItemCreationMessage::BarcodeChanged("11".to_string()),
        ItemCreationMessage::PriceChanged("1.80".to_string()),
        ItemCreationMessage::ImagePathChanged("/rice.png".to_string()),
    ];
    for step in steps {
        assert_eq!(form.update(step.clone(), &mut db), ItemCreationAction::Nothing);
    }
    assert_eq!(db, catalog());
    assert_eq!(form.update(ItemCreationMessage::SaveItem, &mut db), ItemCreationAction::Saved);
    assert_eq!(db.items.len(), 4);
    assert_eq!(
        db.items[3],
        Item {
            code: 11,
            name: "rice".to_string(),
            price: 180,
            image_path: Some("/rice.png".to_string()),
            amount_in_stock: 5,
        }
    );
    // The same code again belongs to the item that was just saved.
    assert_eq!(form.update(ItemCreationMessage::SaveItem, &mut db), ItemCreationAction::SaveFailed);
    assert_eq!(db.items.len(), 4);
}

#[test]
fn the_form_saves_over_the_item_that_is_edited() {
    let mut db = catalog();
    let mut form = ItemCreationView::new();
    form.set_item(Some(db.items[1].clone()));
    form.update(ItemCreationMessage::PriceChanged("2.75".to_string()), &mut db);
    assert_eq!(form.update(ItemCreationMessage::SaveItem, &mut db), ItemCreationAction::Saved);
    assert_eq!(db.items.len(), 3);
    assert_eq!(db.items[1], item(7, "Green Tea", 275, 5));
    assert_eq!(db.items[0], catalog().items[0]);
}

#[test]
fn the_form_does_not_save_what_does_not_read() {
    let mut db = catalog();
    let mut form = ItemCreationView::new();
    assert_eq!(form.update(ItemCreationMessage::SaveItem, &mut db), ItemCreationAction::SaveFailed);
    form.update(ItemCreationMessage::BarcodeChanged("11".to_string()), &mut db);
    form.update(ItemCreationMessage::PriceChanged("1.8".to_string()), &mut db);
    assert_eq!(form.update(ItemCreationMessage::SaveItem, &mut db), ItemCreationAction::SaveFailed);
    assert!(!form.save(&mut db));
    assert_eq!(db, catalog());
}

#[test]
fn browsing_asks_for_a_file_and_takes_what_follows_images() {
    let mut db = catalog();
    let mut form = ItemCreationView::new();
    assert_eq!(
        form.update(ItemCreationMessage::BrowseImagePath, &mut db),
        ItemCreationAction::PickImage
    );
    assert!(form.image_picked("/home/shop/images/fruit/apple.jpg"));
    assert_eq!(form.input_image_path(), "/fruit/apple.jpg");
    assert!(form.image_picked("images/images/x.png"));
    assert_eq!(form.input_image_path(), "/images/x.png");
    assert!(!form.image_picked("/home/shop/pictures/apple.jpg"));
    assert_eq!(form.input_image_path(), "/images/x.png");
}

#[test]
fn search_finds_names_whatever_the_case() {
    let db = catalog();
    let mut view = InventoryView::new();
    assert_eq!(view.matching(&db), vec![0, 1, 2]);
    view.input_search = "APPLE".to_string();
    assert_eq!(view.matching(&db), vec![0, 2]);
    view.input_search = "tea".to_string();
    assert_eq!(view.matching(&db), vec![1]);
    view.input_search = "e j".to_string();
    assert_eq!(view.matching(&db), vec![2]);
    view.input_search = "coffee".to_string();
    assert_eq!(view.matching(&db), Vec::<usize>::new());
}

#[test]
fn places_containing_lists_all_places_in_order() {
    let texts: Vec<String> =
        ["banana", "nab", "", "bandana"].iter().map(|text| text.to_string()).collect();
    assert_eq!(places_containing(&texts, "an"), vec![0, 3]);
    assert_eq!(places_containing(&texts, "na"), vec![0, 1, 3]);
    assert_eq!(places_containing(&texts, ""), vec![0, 1, 2, 3]);
    assert_eq!(places_containing(&texts, "x"), Vec::<usize>::new());
    assert_eq!(places_containing(&Vec::new(), "x"), Vec::<usize>::new());
}

#[test]
fn inventory_update_searches_deletes_and_reports() {
    let mut db = catalog();
    let mut view = InventoryView::default();
    assert_eq!(view.update(InventoryMessage::SearchChanged("tea".to_string()), &mut db), None);
    assert_eq!(view.input_search, "tea");
    assert_eq!(db, catalog());
    let report = view.update(InventoryMessage::PrintItemsLowInStock, &mut db);
    assert_eq!(
        report.as_deref(),
        Some(
            "Items low in stock:\nItem: Apple, in stock: 10\nItem: Green Tea, in stock: 3\n\
             Item: pineapple juice, in stock: 0\n"
        )
    );
    let doomed = InventoryMessage::DeleteItem(item(7, "whatever", 0, 0));
    assert_eq!(view.update(doomed.clone(), &mut db), None);
    assert_eq!(db.items.len(), 2);
    assert_eq!(db.get_item(7), None);
    assert_eq!(view.update(doomed, &mut db), None);
    assert_eq!(db.items.len(), 2);
    assert_eq!(view.input_search, "tea");
}

#[test]
fn find_text_finds_the_first_place() {
    let hay = chars_of("one images two images");
    assert_eq!(find_text(&hay, &chars_of("images")), Some(4));
    assert_eq!(find_text(&hay, &chars_of("one")), Some(0));
    assert_eq!(find_text(&hay, &chars_of("")), Some(0));
    assert_eq!(find_text(&hay, &chars_of("image ")), None);
    assert_eq!(find_text(&hay, &chars_of("one images two images!")), None);
    assert_eq!(find_text(&chars_of(""), &chars_of("")), Some(0));
    assert_eq!(find_text(&chars_of("aab"), &chars_of("ab")), Some(1));
    assert_eq!(string_from(&hay, 11), "two images");
    assert_eq!(string_from(&hay, hay.len()), "");
    assert_eq!(chars_of("né"), vec!['n', 'é']);
}

#[test]
fn contains_text_and_after_first_count_characters() {
    assert!(contains_text("crème fraîche", "me f"));
    assert!(contains_text("crème fraîche", ""));
    assert!(!contains_text("crème fraîche", "creme"));
    assert!(!contains_text("", "a"));
    assert_eq!(after_first("ééimagesé", "images"), Some("é".to_string()));
    assert_eq!(after_first("images", "images"), Some(String::new()));
    assert_eq!(after_first("image", "images"), None);
}

#[test]
fn pictures_are_looked_for_in_the_images_directory() {
    assert_eq!(image_file(&Some("apple.jpg".to_string())), Some("images/apple.jpg".to_string()));
    assert_eq!(image_file(&Some("/a/b.png".to_string())), Some("images//a/b.png".to_string()));
    assert_eq!(image_file(&Some(String::new())), None);
    assert_eq!(image_file(&None), None);
    assert_eq!(no_image_file(), "images/_none.jpg");
}
