//! A program-derived counter account: address derivation, account validation
//! and the fixed eight-byte counter codec, with their contracts.

pub mod address;
pub mod counter;
pub mod lemmas;
pub mod processor;
