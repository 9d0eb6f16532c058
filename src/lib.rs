//! Session and protocol layer of an interactive evaluation server: the
//! response envelope and the per-connection state machine that drives the
//! parse, evaluate and reply cycle.

pub mod envelope;
pub mod laws;
pub mod session;

use vstd::prelude::*;

verus! {

/// Text served by the informational endpoint.
pub const GREETING: &'static str = "Hello, world! :)\n\n\n---\n\n\nBy jgcardelus";

/// The fixed greeting of the informational endpoint.
pub fn index() -> (r: &'static str)
    ensures
        r@ == GREETING@,
{
    GREETING
}

} // verus!
