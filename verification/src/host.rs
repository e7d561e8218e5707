//! Commands on host objects.

use vstd::prelude::*;

pub mod check;
pub mod create;
pub mod delete;
pub mod info;
pub mod update;

verus! {

/// The XML namespace for host commands.
pub const XMLNS: &'static str = "urn:ietf:params:xml:ns:host-1.0";

} // verus!
