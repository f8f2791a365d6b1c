//! Configuration schema for a set of OpenID-Connect identity providers:
//! a total, case-insensitive codec for provider names, and a strict
//! validator that turns a raw structural tree into typed provider
//! descriptors.
use vstd::prelude::*;

pub mod name;
pub mod raw;
pub mod error;
pub mod provider;
pub mod config;

verus! {

} // verus!
