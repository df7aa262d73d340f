//! A minimal keyed-record store.
//!
//! Records of two fixed shapes — a personal-traits record and an emotions
//! record — live at addresses derived deterministically from a namespace tag
//! and a seed identity. Each record carries an authority, and only that
//! authority may mutate it. Records are created once and then updated in
//! place; there is no deletion.

pub mod principal;
pub mod text;
pub mod table;
pub mod records;
pub mod pda;
pub mod store;
pub mod ops;
pub mod laws;
