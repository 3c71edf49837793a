//! A gas-metered precompile library for a virtual machine execution engine:
//! a registry of fixed-address native operations, and one concrete operation,
//! verification of an ed25519 signature over a caller-supplied digest.

use vstd::prelude::*;

pub mod addresses;
pub mod ed25519;

verus! {

} // verus!
