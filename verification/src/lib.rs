//! Loading ledger blocks: from the JSON text of block files to a pool of
//! typed transactions.
//!
//! A text is read as a [`record::Record`]; a record is decoded, part by
//! part, into the types of [`ledger`]; and the transactions of all blocks
//! are put in a row in [`pool`]. Every decoder states what it returns over
//! the tree that its record holds, and Verus proves that it does.
//!
//! - [`error`]: the kinds of failure.
//! - [`record`]: records and the trees that they hold.
//! - [`reader`]: from JSON text to a record.
//! - [`identifier`]: signatures, public keys and hashes, and their text.
//! - [`payload`]: the base64 text of a payload.
//! - [`ledger`]: transactions, messages, headers and instructions.
//! - [`each`]: the two ways to put the results of a list together, with their
//!   laws.
//! - [`field`]: reading the fields of a record.
//! - [`instruction`], [`message`], [`transaction`], [`block`]: the decoders.
//! - [`pool`]: the pool of the transactions of all files.
//! - [`outcome`]: views of results, used in the contracts.

pub mod block;
pub mod each;
pub mod error;
pub mod field;
pub mod identifier;
pub mod instruction;
pub mod ledger;
pub mod message;
pub mod outcome;
pub mod payload;
pub mod pool;
pub mod reader;
pub mod record;
pub mod transaction;
