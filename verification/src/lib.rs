//! Inspection of gas-price metadata kept by a blockchain node.
//!
//! The crate holds the rules of the inspector, free of any I/O:
//!
//! * [`metadata`]: the versioned metadata record and its narrowing to the
//!   V1 payload;
//! * [`height`]: block heights and the arithmetic of going back a number
//!   of blocks;
//! * [`store`]: a height-indexed store of metadata records with a
//!   latest-height pointer and an independent recorded-height cell;
//! * [`history`]: what a store holds after a sequence of writes;
//! * [`command`]: the commands of the inspector, their reports and their
//!   failures;
//! * [`session`]: the conversation between one command and a storage
//!   engine, one query at a time.
pub mod command;
pub mod height;
pub mod history;
pub mod metadata;
pub mod session;
pub mod store;
