//! The receipt of a transaction as plain text, 40 characters wide.

use vstd::prelude::*;
use vstd::string::StringExecFns;
use crate::transaction::{spec_line_total, spec_total, LineData, Transaction, TransactionItem};
use crate::text::{
    push_decimal, push_padded_left, push_padded_right, spec_decimal, spec_pad_left,
    spec_pad_right,
};
use crate::utils::{format_price, spec_format_price};

verus! {

/// The width of the quantity column.
pub const QUANTITY_WIDTH: usize = 3;

/// The width of the name column.
pub const NAME_WIDTH: usize = 30;

/// The width of the price column.
pub const PRICE_WIDTH: usize = 7;

/// The width of the label of the total line: the quantity and name columns
/// together.
pub const LABEL_WIDTH: usize = 33;

/// The date and time of day on this machine's clock, in its time zone, as
/// day, month, hours, minutes and seconds.
///
/// Calls `chrono::offset::Local::now` and formats what it returns with
/// `DateTime::format`. Nothing is claimed of the text: it differs from call
/// to call. `Local::now` panics where the machine's clock stands before
/// 1970.
#[verifier::external_body]
fn local_timestamp() -> (stamp: String) {
    chrono::offset::Local::now().format("%d. %m. %H:%M:%S").to_string()
}

/// An amount in the price column: as a price, flush right.
pub open spec fn spec_price_column(pence: nat) -> Seq<char> {
    spec_pad_left(spec_format_price(pence), PRICE_WIDTH as nat)
}

/// The head of a receipt: four empty lines, the shop's name with the time
/// stamp, and a rule.
pub open spec fn spec_receipt_head(stamp: Seq<char>) -> Seq<char> {
    "\n\n\n\n"@ + "gypsy shop              "@ + stamp + "\n"@
        + "========================================\n"@
}

/// The receipt's text for one line of the transaction: quantity, name and
/// what the line costs, each in its column.
pub open spec fn spec_receipt_line(line: LineData) -> Seq<char> {
    spec_pad_right(spec_decimal(line.quantity as nat), QUANTITY_WIDTH as nat) + spec_pad_right(
        line.item.name,
        NAME_WIDTH as nat,
    ) + spec_price_column(spec_line_total(line)) + "\n"@
}

/// The receipt's text for the lines, one after the other.
pub open spec fn spec_receipt_lines(lines: Seq<LineData>) -> Seq<char>
    decreases lines.len(),
{
    if lines.len() == 0 {
        Seq::empty()
    } else {
        spec_receipt_lines(lines.drop_last()) + spec_receipt_line(lines.last())
    }
}

/// The foot of a receipt: a rule, and the total in the price column.
pub open spec fn spec_receipt_foot(lines: Seq<LineData>) -> Seq<char> {
    "========================================\n"@ + spec_pad_right(
        "TOTAL PRICE PAID:"@,
        LABEL_WIDTH as nat,
    ) + spec_price_column(spec_total(lines)) + "\n"@
}

/// The receipt of `lines` that is stamped `stamp`: nothing for a
/// transaction without lines, else head, lines and foot.
pub open spec fn spec_receipt(lines: Seq<LineData>, stamp: Seq<char>) -> Seq<char> {
    if lines.len() == 0 {
        Seq::empty()
    } else {
        spec_receipt_head(stamp) + spec_receipt_lines(lines) + spec_receipt_foot(lines)
    }
}

impl TransactionItem {
    /// Appends the receipt's text for this line to `out`.
    fn push_receipt_line(&self, out: &mut String)
        ensures
            final(out)@ == old(out)@ + spec_receipt_line(self@),
    {
        let mut quantity = String::new();
        push_decimal(&mut quantity, self.quantity as u128);
        push_padded_right(out, quantity.as_str(), QUANTITY_WIDTH);
        push_padded_right(out, self.item.name.as_str(), NAME_WIDTH);
        let price = format_price(self.line_total() as u128);
        push_padded_left(out, price.as_str(), PRICE_WIDTH);
        out.append("\n");
    }
}

impl Transaction {
    /// The receipt with the given time stamp in its head. A transaction
    /// without lines has an empty receipt, without head or foot.
    pub fn render_receipt(&self, stamp: &str) -> (text: String)
        ensures
            text@ == spec_receipt(self@, stamp@),
    {
        let mut text = String::new();
        if self.items.len() == 0 {
            return text;
        }
        text.append("\n\n\n\n");
        text.append("gypsy shop              ");
        text.append(stamp);
        text.append("\n");
        text.append("========================================\n");
        let mut i: usize = 0;
        while i < self.items.len()
            invariant
                i <= self.items.len(),
                text@ == spec_receipt_head(stamp@) + spec_receipt_lines(self@.take(i as int)),
            decreases self.items.len() - i,
        {
            self.items[i].push_receipt_line(&mut text);
            proof {
                assert(self@.take(i + 1).drop_last() =~= self@.take(i as int));
                assert(text@ =~= spec_receipt_head(stamp@) + spec_receipt_lines(
                    self@.take(i + 1),
                ));
            }
            i = i + 1;
        }
        assert(self@.take(i as int) =~= self@);
        text.append("========================================\n");
        push_padded_right(&mut text, "TOTAL PRICE PAID:", LABEL_WIDTH);
        let total = format_price(self.total_price());
        push_padded_left(&mut text, total.as_str(), PRICE_WIDTH);
        text.append("\n");
        text
    }

    /// Creates the receipt in plain text, stamped with the time at which it
    /// is made. A transaction without lines has an empty receipt.
    pub fn generate_receipt(&self) -> (text: String)
        ensures
            self@.len() == 0 ==> text@ == Seq::<char>::empty(),
            exists|stamp: Seq<char>| text@ == spec_receipt(self@, stamp),
    {
        if self.items.len() == 0 {
            let text = String::new();
            assert(text@ == spec_receipt(self@, Seq::<char>::empty()));
            return text;
        }
        let stamp = local_timestamp();
        self.render_receipt(stamp.as_str())
    }
}

/// A receipt that is not empty ends with its foot, whose price column holds
/// the total of the transaction. That column is made as the price column of
/// every line is: by `spec_price_column`.
pub proof fn lemma_receipt_ends_with_total(lines: Seq<LineData>, stamp: Seq<char>)
    ensures
        lines.len() == 0 ==> spec_receipt(lines, stamp) == Seq::<char>::empty(),
        lines.len() > 0 ==> spec_receipt(lines, stamp).len() >= spec_receipt_foot(lines).len()
            && spec_receipt(lines, stamp).subrange(
            spec_receipt(lines, stamp).len() - spec_receipt_foot(lines).len(),
            spec_receipt(lines, stamp).len() as int,
        ) == spec_receipt_foot(lines),
{
}

} // verus!
