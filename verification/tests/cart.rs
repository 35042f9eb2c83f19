use shop_till::{Item, PosError, Transaction, TransactionItem};

fn item(code: u64, name: &str, price: u32) -> Item {
    Item { code, name: name.to_string(), price, image_path: None, amount_in_stock: 10 }
}

#[test]
fn new_transaction_is_empty() {
    let cart = Transaction::new();
    assert!(cart.is_empty());
    assert_eq!(cart.items.len(), 0);
    assert_eq!(cart.total_price(), 0);
}

#[test]
fn first_add_makes_a_line_with_quantity_one() {
    let mut cart = Transaction::new();
    let apple = item(42, "apple", 150);
    assert!(!cart.add_item(&apple));
    assert_eq!(cart.items.len(), 1);
    assert_eq!(cart.items[0], TransactionItem { item: apple, quantity: 1 });
}

#[test]
fn adding_the_same_code_twice_makes_one_line_of_two() {
    let mut cart = Transaction::new();
    let apple = item(42, "apple", 150);
    assert!(!cart.add_item(&apple));
    assert!(cart.add_item(&apple));
    assert_eq!(cart.items.len(), 1);
    assert_eq!(cart.items[0].quantity, 2);
    assert_eq!(cart.total_price(), 300);
}

#[test]
fn repeated_adds_count_up_on_one_line() {
    let mut cart = Transaction::new();
    cart.add_item(&item(1, "bread", 120));
    let milk = item(2, "milk", 95);
    for _ in 0..25 {
        cart.add_item(&milk);
    }
    assert_eq!(cart.items.len(), 2);
    assert_eq!(cart.items[1].item.code, 2);
    assert_eq!(cart.items[1].quantity, 25);
    assert_eq!(cart.items.iter().filter(|line| line.item.code == 2).count(), 1);
}

#[test]
fn a_line_keeps_the_item_as_it_was_first_added() {
    let mut cart = Transaction::new();
    cart.add_item(&item(7, "tea", 250));
    // The same code with another price and name is the same item.
    assert!(cart.add_item(&item(7, "tea, dearer", 300)));
    assert_eq!(cart.items.len(), 1);
    assert_eq!(cart.items[0].item, item(7, "tea", 250));
    assert_eq!(cart.items[0].quantity, 2);
    assert_eq!(cart.total_price(), 500);
}

#[test]
fn new_lines_go_to_the_end() {
    let mut cart = Transaction::new();
    cart.add_item(&item(3, "c", 1));
    cart.add_item(&item(1, "a", 1));
    cart.add_item(&item(2, "b", 1));
    cart.add_item(&item(1, "a", 1));
    let codes: Vec<u64> = cart.items.iter().map(|line| line.item.code).collect();
    assert_eq!(codes, vec![3, 1, 2]);
    assert_eq!(cart.position(1), Some(1));
    assert_eq!(cart.position(9), None);
}

#[test]
fn total_is_the_sum_of_price_times_quantity() {
    let mut cart = Transaction::new();
    cart.add_item(&item(1, "a", 150));
    cart.add_item(&item(1, "a", 150));
    cart.add_item(&item(2, "b", 99));
    cart.add_item(&item(3, "c", 1));
    cart.modify_quantity(3, 6).unwrap();
    assert_eq!(cart.total_price(), 2 * 150 + 99 + 7);
    assert_eq!(cart.items[0].line_total(), 300);
    assert_eq!(cart.items[2].line_total(), 7);
}

#[test]
fn total_does_not_overflow_thirty_two_bits() {
    let mut cart = Transaction::new();
    cart.add_item(&item(1, "gold", u32::MAX));
    cart.modify_quantity(1, i32::MAX).unwrap();
    cart.add_item(&item(2, "silver", u32::MAX));
    let first = u32::MAX as u128 * (1u128 << 31);
    assert_eq!(cart.items[0].quantity, 1 << 31);
    assert_eq!(cart.items[0].line_total() as u128, first);
    assert_eq!(cart.total_price(), first + u32::MAX as u128);
}

#[test]
fn modify_quantity_changes_the_quantity() {
    let mut cart = Transaction::new();
    cart.add_item(&item(42, "apple", 150));
    assert_eq!(cart.modify_quantity(42, 4), Ok(()));
    assert_eq!(cart.items[0].quantity, 5);
    assert_eq!(cart.modify_quantity(42, -3), Ok(()));
    assert_eq!(cart.items[0].quantity, 2);
    assert_eq!(cart.items.len(), 1);
}

#[test]
fn modify_quantity_to_zero_removes_the_line() {
    let mut cart = Transaction::new();
    let apple = item(42, "apple", 150);
    cart.add_item(&apple);
    cart.add_item(&apple);
    assert_eq!(cart.modify_quantity(42, -2), Ok(()));
    assert!(cart.is_empty());
    assert_eq!(cart.total_price(), 0);
}

#[test]
fn modify_quantity_below_zero_removes_the_line() {
    let mut cart = Transaction::new();
    cart.add_item(&item(1, "a", 10));
    cart.add_item(&item(2, "b", 20));
    cart.add_item(&item(3, "c", 30));
    assert_eq!(cart.modify_quantity(2, -5), Ok(()));
    let codes: Vec<u64> = cart.items.iter().map(|line| line.item.code).collect();
    assert_eq!(codes, vec![1, 3]);
    assert_eq!(cart.total_price(), 40);
}

#[test]
fn modify_quantity_above_the_range_removes_the_line() {
    let mut cart = Transaction::new();
    cart.add_item(&item(1, "a", 10));
    cart.add_item(&item(2, "b", 20));
    cart.modify_quantity(2, i32::MAX).unwrap();
    cart.modify_quantity(2, i32::MAX).unwrap();
    assert_eq!(cart.items[1].quantity, u32::MAX);
    // One more does not fit.
    assert_eq!(cart.modify_quantity(2, 1), Ok(()));
    assert_eq!(cart.items.len(), 1);
    assert_eq!(cart.items[0].item.code, 1);
}

#[test]
fn add_item_at_the_largest_quantity_removes_the_line() {
    let mut cart = Transaction::new();
    let a = item(1, "a", 10);
    cart.add_item(&a);
    cart.modify_quantity(1, i32::MAX).unwrap();
    cart.modify_quantity(1, i32::MAX).unwrap();
    assert_eq!(cart.items[0].quantity, u32::MAX);
    assert!(cart.add_item(&a));
    assert!(cart.is_empty());
}

#[test]
fn modify_quantity_of_a_missing_line_reports_line_not_found() {
    let mut cart = Transaction::new();
    let apple = item(42, "apple", 150);
    cart.add_item(&apple);
    cart.add_item(&apple);
    assert_eq!(cart.modify_quantity(99, -1), Err(PosError::LineNotFound));
    assert_eq!(cart.items.len(), 1);
    assert_eq!(cart.items[0], TransactionItem { item: apple, quantity: 2 });
}

#[test]
fn clear_removes_every_line() {
    let mut cart = Transaction::new();
    cart.add_item(&item(1, "a", 10));
    cart.add_item(&item(2, "b", 20));
    cart.clear();
    assert!(cart.is_empty());
    assert_eq!(cart.total_price(), 0);
}

#[test]
fn transaction_item_new_has_quantity_one() {
    let tea = item(7, "tea", 250);
    let line = TransactionItem::new(&tea);
    assert_eq!(line.quantity, 1);
    assert_eq!(line.item, tea);
    assert_eq!(line.line_total(), 250);
}
