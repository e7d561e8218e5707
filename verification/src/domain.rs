//! Commands on domain objects.

use vstd::prelude::*;

pub mod check;
pub mod create;
pub mod delete;
pub mod info;
pub mod renew;
pub mod transfer;
pub mod update;

verus! {

/// The XML namespace for domain commands.
pub const XMLNS: &'static str = "urn:ietf:params:xml:ns:domain-1.0";

} // verus!
