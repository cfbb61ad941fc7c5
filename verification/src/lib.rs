//! A minimal on-chain program scaffold: a program identifier, a no-op
//! `initialize` entry point, and the fixed-size byte layout of one record
//! type ([`tweet::Tweet`]) holding an author key, a timestamp, and two
//! bounded-length text fields.
//!
//! The host platform pre-allocates storage for a record before it is
//! written, so the one piece of real logic here is the worst-case
//! serialized-size computation in [`sizing`], together with the proof that
//! every record within its declared character limits fits in that size.

use vstd::prelude::*;

pub mod sizing;
pub mod tweet;

pub use tweet::Tweet;

verus! {

/// Account inputs declared by the `initialize` instruction: none.
pub struct Initialize {}

/// The character sequence of the program's on-chain identifier.
pub open spec fn spec_program_id() -> Seq<char> {
    "4Hto2zMr9u6z2maCnmQ8US3r1aXrPBD8fF4ZYTTVdeuq"@
}

/// The fixed public identifier the host platform uses to route
/// invocations to this program. Opaque configuration: nothing here
/// derives or validates it.
pub fn program_id() -> (id: &'static str)
    ensures
        id@ == spec_program_id(),
{
    "4Hto2zMr9u6z2maCnmQ8US3r1aXrPBD8fF4ZYTTVdeuq"
}

/// The one entry point. It takes the (empty) declared account inputs,
/// performs no work, and succeeds unconditionally.
pub fn initialize(accounts: Initialize) -> (r: Result<(), ()>)
    ensures
        r == Ok::<(), ()>(()),
{
    let Initialize {} = accounts;
    Ok(())
}

} // verus!
