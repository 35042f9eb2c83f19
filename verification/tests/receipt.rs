use shop_till::{Item, Transaction};

fn item(code: u64, name: &str, price: u32) -> Item {
    Item { code, name: name.to_string(), price, image_path: None, amount_in_stock: 10 }
}

const RULE: &str = "========================================\n";

#[test]
fn receipt_of_an_empty_transaction_is_empty() {
    let cart = Transaction::new();
    assert_eq!(cart.render_receipt("01. 02. 03:04:05"), "");
    assert_eq!(cart.generate_receipt(), "");
}

#[test]
fn receipt_has_head_lines_and_total() {
    let mut cart = Transaction::new();
    let apple = item(42, "apple", 150);
    cart.add_item(&apple);
    cart.add_item(&apple);
    cart.add_item(&item(7, "tea", 250));
    let expected = format!(
        "\n\n\n\ngypsy shop              28. 10. 09:15:00\n{}{}{}{}{}",
        RULE,
        "2  apple                           £3.00\n",
        "1  tea                             £2.50\n",
        RULE,
        "TOTAL PRICE PAID:                  £5.50\n",
    );
    assert_eq!(cart.render_receipt("28. 10. 09:15:00"), expected);
}

#[test]
fn receipt_lines_are_forty_characters_wide() {
    let mut cart = Transaction::new();
    cart.add_item(&item(1, "bread", 120));
    cart.add_item(&item(2, "crème fraîche", 95));
    cart.modify_quantity(2, 11).unwrap();
    let text = cart.render_receipt("");
    let lines: Vec<&str> = text.lines().collect();
    assert_eq!(lines.len(), 10);
    assert_eq!(lines[4], "gypsy shop              ");
    for line in &lines[5..] {
        assert_eq!(line.chars().count(), 40);
    }
    assert_eq!(lines[6], "1  bread                           £1.20");
    assert_eq!(lines[7], "12 crème fraîche                  £11.40");
}

#[test]
fn receipt_columns_grow_with_what_does_not_fit() {
    let mut cart = Transaction::new();
    cart.add_item(&item(1, "a name that is longer than thirty characters", 99999999));
    cart.modify_quantity(1, 1233).unwrap();
    let text = cart.render_receipt("now");
    let lines: Vec<&str> = text.lines().collect();
    assert_eq!(lines[6], "1234a name that is longer than thirty characters£1233999987.66");
    assert_eq!(lines[8], "TOTAL PRICE PAID:                £1233999987.66");
}

#[test]
fn receipt_total_is_the_total_price_in_the_price_column() {
    let mut cart = Transaction::new();
    cart.add_item(&item(1, "a", 150));
    cart.add_item(&item(2, "b", 5));
    cart.add_item(&item(3, "c", 1000));
    let text = cart.render_receipt("x");
    let total = shop_till::utils::format_price(cart.total_price());
    assert_eq!(total, "£11.55");
    let last = text.lines().last().unwrap();
    assert_eq!(last, format!("{:<33}{:>7}", "TOTAL PRICE PAID:", total));
    assert!(text.ends_with(&format!("{}{}\n", RULE, last)));
    let b_line = text.lines().nth(7).unwrap();
    assert_eq!(b_line, format!("{:<3}{:<30}{:>7}", 1, "b", shop_till::utils::format_price(5)));
}

#[test]
fn generated_receipt_is_stamped_with_day_month_and_time() {
    let mut cart = Transaction::new();
    cart.add_item(&item(1, "a", 150));
    let text = cart.generate_receipt();
    let lines: Vec<&str> = text.lines().collect();
    assert_eq!(lines.len(), 9);
    let head = lines[4];
    let stamp = head.strip_prefix("gypsy shop              ").unwrap();
    // Day, month, hours, minutes, seconds: "dd. mm. hh:mm:ss".
    assert_eq!(stamp.len(), 16);
    let shape: String =
        stamp.chars().map(|c| if c.is_ascii_digit() { '9' } else { c }).collect();
    assert_eq!(shape, "99. 99. 99:99:99");
    // But for the stamp, the text is what render_receipt makes.
    assert_eq!(text, cart.render_receipt(stamp));
}
