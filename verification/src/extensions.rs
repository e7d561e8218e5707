//! Protocol extensions that commands may be paired with.

pub mod consolidate;
pub mod namestore;
pub mod rgp;
