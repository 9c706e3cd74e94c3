//! The names under which events are published.

use vstd::prelude::*;

verus! {

/// The event that carries a status; its payload is the status's name.
pub const STATUS_EVENT: &'static str = "state_connection_update";

/// The event that carries the bytes of one received packet, unframed and
/// unparsed.
pub const DATA_EVENT: &'static str = "test";

} // verus!
