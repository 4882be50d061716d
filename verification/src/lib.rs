//! Validation of the key-value records of partially signed Bitcoin transactions (BIP 174).
//!
//! A PSBT is a list of maps. Each map holds records, and the first byte of a record's key says
//! what kind of record it is. This crate reads the single kinds of record ([`schema`]), checks
//! them one by one ([`schema::global`], [`schema::input`], [`schema::output`]) and keeps tables
//! of such checks ([`schema::KvTypeSchema`]).
//!
//! The contracts are stated over the bytes of a record. [`wire`] and [`keys`] describe the byte
//! formats, [`backend`] holds every call into the Bitcoin crates, and [`laws`] states what holds
//! across several functions.

pub mod backend;
pub mod common;
pub mod keys;
pub mod laws;
pub mod room;
pub mod schema;
pub mod types;
pub mod wire;
