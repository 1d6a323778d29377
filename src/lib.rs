//! Custody logic of a two-party token escrow: instruction decoding, the
//! fixed-layout escrow record, and the validation pipeline that initialises it.

pub mod bytes;
pub mod error;
pub mod instruction;
pub mod processor;
pub mod runtime;
pub mod state;
