//! Till logic for a small shop, with machine-checked contracts.
//!
//! The heart of the crate is the sale: the catalog of items and their stock
//! ([`item_db`]), the transaction that is being rung up ([`transaction`]),
//! the payment flow that settles it ([`settlement`], [`transactions_view`])
//! and the receipt ([`receipt`]). Around it stand the back office, which
//! keeps the catalog ([`inventory_view`], [`item_creation_view`]), and the
//! password that guards it ([`navigation`]).
//!
//! Every type has a mathematical value, its view, and the contracts of the
//! functions are stated over those values. Nothing here reads a file, opens
//! a window or prints: what a caller has to print or to show is handed back
//! to it.

pub mod codes;
pub mod error;
pub mod inventory_view;
pub mod item;
pub mod item_creation_view;
pub mod item_db;
pub mod navigation;
pub mod receipt;
pub mod settlement;
pub mod text;
pub mod transaction;
pub mod transactions_view;
pub mod utils;

pub use error::PosError;
pub use item::Item;
pub use item_db::ItemDB;
pub use navigation::ViewIndex;
pub use transaction::{Transaction, TransactionItem};
pub use transactions_view::{TransactionsMessage, TransactionsView};
