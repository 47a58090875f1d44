//! A persistent ledger of carbon credits: producers earn credits for the
//! energy they supply, clients bid on a producer's credit lots, and a
//! producer settles a winning bid by moving credits to the client.
//!
//! The [`ledger::Ledger`] lives in stable memory and is read, in every
//! contract, as a [`protocol::State`]: a counter, the contract and three
//! maps of entities. [`protocol`] says what each operation refuses and what
//! it changes; [`accounts`] and [`orders`] implement the operations against
//! those statements; [`laws`] proves what holds over every history, above
//! all that credits come into being by awards alone.
//!
//! Beneath that, [`stable`] wraps the stable structures, [`layout`] looks
//! at a memory before anything in it is opened, [`table`] reads a
//! stable map of byte strings as a map of records, and [`record`],
//! [`entity`] and [`wire`] define the records and their byte forms.

pub mod accounts;
pub mod entity;
pub mod error;
pub mod laws;
pub mod layout;
pub mod ledger;
pub mod orders;
pub mod payload;
pub mod protocol;
pub mod record;
pub mod stable;
pub mod table;
pub mod text;
pub mod wire;
