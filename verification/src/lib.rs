//! A verified bridge from suspend/resume-style reads to a poll-based stream.
//!
//! A byte source produces data in attempts that may have to be retried before
//! they complete. The stream adapter in this crate turns such a source into a
//! conventional pollable stream: each `poll_read` call either delivers the
//! next bytes of the source, reports a failure, or asks the caller to poll
//! again. A small hashing layer drives an adapter to exhaustion and digests
//! everything it delivered.

pub mod adapter;
pub mod digest;
pub mod hash;
pub mod source;

use vstd::prelude::*;

verus! {

} // verus!
