//! Constants for the addresses used for each of the precompiled contracts.

use vstd::prelude::*;

verus! {

/// Reserved execution-engine address of the p256 signature-verification precompile.
pub const P256VERIFY_ADDRESS: u64 = 0x14;

/// Reserved execution-engine address of the ed25519 signature-verification precompile.
pub const ED25519VERIFY_ADDRESS: u64 = 0x15;

} // verus!
