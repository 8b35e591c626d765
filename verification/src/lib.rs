//! Confidential-computation coordination service, modelled as a verified
//! ledger state machine.
//!
//! A submitter commits to an opaque computation by publishing a commitment
//! and the digest of an intent descriptor; a configured executor later posts
//! a result commitment; after a challenge window any principal may finalize
//! the job; a lending-style consumer verifies the finalized record against
//! its own recomputed digests and contexts before releasing custody, and a
//! one-time consumption marker prevents replay.

pub mod hashing;
pub mod records;
pub mod addresses;
pub mod ledger;
pub mod lending;

use vstd::prelude::*;

verus! {

/// Byte length bound on an inline intent descriptor.
pub const MAX_IR_BYTES: usize = 2048;

} // verus!
