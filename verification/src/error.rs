//! What can go wrong at the till.

use vstd::prelude::*;

verus! {

/// The failures that the till reports. None of them ends the session: the
/// operation that reports one has changed nothing, unless it says otherwise.
#[derive(Debug, Clone, Copy, PartialEq, Eq, Structural)]
pub enum PosError {
    /// A code that was typed or scanned matches no item of the catalog.
    ItemNotFound,
    /// The transaction has no line for the item that was named.
    LineNotFound,
    /// The cash that was entered is no amount, or is less than the total.
    InvalidCashInput,
    /// An item of the transaction is no longer in the catalog.
    CatalogInconsistency,
}

impl PosError {
    /// A short message for the operator.
    pub fn message(&self) -> (text: &'static str)
        ensures
            text@ == match *self {
                PosError::ItemNotFound => "invalid item"@,
                PosError::LineNotFound => "no such line in the transaction"@,
                PosError::InvalidCashInput => "Invalid input"@,
                PosError::CatalogInconsistency => "item is missing from the catalog"@,
            },
    {
        match self {
            PosError::ItemNotFound => "invalid item",
            PosError::LineNotFound => "no such line in the transaction",
            PosError::InvalidCashInput => "Invalid input",
            PosError::CatalogInconsistency => "item is missing from the catalog",
        }
    }
}

} // verus!
