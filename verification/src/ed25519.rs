//! # ed25519 Precompile
//!
//! A precompile for ed25519 curve support: it verifies signatures that use the
//! ed25519 elliptic curve.
//!
//! The operation takes the raw input bytes sent to the precompile and a gas
//! budget. The gas check comes strictly before any parsing or computation, so
//! adversarial input can never cause unmetered work. Every anomaly after the
//! gas check (short input, undecodable key, invalid signature) is folded into
//! one boolean result byte; only an insufficient gas budget is an error.
//!
//! The input is encoded as follows:
//!
//! | signed message hash |  r  |  s  | public key  |
//! | :-----------------: | :-: | :-: | :---------: |
//! |          64         | 32  | 32  |     32      |

use vstd::prelude::*;
use vstd::slice::slice_subrange;

use crate::addresses::ED25519VERIFY_ADDRESS;

verus! {

/// Base gas fee for ed25519verify operation.
pub const ED25519VERIFY_BASE: u64 = 3450;

/// The hard failure of a precompile call: the budget does not cover the base
/// cost. Everything else is ordinary output data.
#[derive(Clone, Copy, Debug, PartialEq, Eq, Structural)]
pub enum PrecompileError {
    OutOfGas,
}

/// A successful precompile call: the gas consumed and the result bytes.
#[derive(Clone, Debug, PartialEq, Eq)]
pub struct PrecompileOutput {
    pub gas_used: u64,
    pub bytes: Vec<u8>,
}

/// Whether the strict ed25519 verification accepts `sig` as a signature over
/// the 64-byte message `msg` under the 32-byte public key `pk`. The outcome
/// depends on the three byte strings alone; a public key that does not decode
/// to a curve point, and a weak or malleable signature, verify nothing.
pub uninterp spec fn ed25519_verifies(msg: Seq<u8>, sig: Seq<u8>, pk: Seq<u8>) -> bool;

/// Relies on ed25519_dalek: `Signature::from_bytes` (cannot fail on a 64-byte
/// array), `VerifyingKey::from_bytes` (fails exactly when the 32 bytes do not
/// decompress to a curve point), and `VerifyingKey::verify_strict` (the
/// non-prehashed verification that rejects weak keys and malleable
/// signatures). The composite is deterministic in the three byte strings, and
/// `ed25519_verifies` names its outcome; a key that fails to decode is folded
/// into a negative outcome.
#[verifier::external_body]
fn dalek_verify(msg: &[u8], sig: &[u8], pk: &[u8]) -> (r: bool)
    requires
        msg@.len() == 64,
        sig@.len() == 64,
        pk@.len() == 32,
    ensures
        r == ed25519_verifies(msg@, sig@, pk@),
{
    let sig_bytes: &[u8; 64] = sig.try_into().unwrap();
    let pk_bytes: &[u8; 32] = pk.try_into().unwrap();
    let signature = ed25519_dalek::Signature::from_bytes(sig_bytes);
    match ed25519_dalek::VerifyingKey::from_bytes(pk_bytes) {
        Ok(key) => key.verify_strict(msg, &signature).is_ok(),
        Err(_) => false,
    }
}

/// Whether `input` carries a full 160-byte window whose signature verifies:
/// digest at offsets 0..64, signature at 64..128, public key at 128..160.
/// Bytes beyond offset 160 play no part.
pub open spec fn spec_verify(input: Seq<u8>) -> bool {
    &&& input.len() >= 160
    &&& ed25519_verifies(
        input.subrange(0, 64),
        input.subrange(64, 128),
        input.subrange(128, 160),
    )
}

/// The 32-byte output of the operation: all bytes zero but the last, which is
/// 1 exactly when the input verifies.
pub open spec fn spec_output(input: Seq<u8>) -> Seq<u8> {
    Seq::new(32, |i: int| if i == 31 && spec_verify(input) { 1u8 } else { 0u8 })
}

/// The whole operation: `OutOfGas` below the base cost, and otherwise the
/// base cost paid and the boolean-encoded verification result.
pub open spec fn spec_execute(input: Seq<u8>, gas_limit: u64) -> Result<
    (u64, Seq<u8>),
    PrecompileError,
> {
    if gas_limit < ED25519VERIFY_BASE {
        Err(PrecompileError::OutOfGas)
    } else {
        Ok((ED25519VERIFY_BASE, spec_output(input)))
    }
}

/// Returns `Some(())` if the signature included in the input byte slice is
/// valid, `None` otherwise.
pub fn verify_impl(input: &[u8]) -> (r: Option<()>)
    ensures
        r is Some <==> spec_verify(input@),
{
    if input.len() < 160 {
        return None;
    }
    // msg signed (msg is already the hash of the original message)
    let msg: &[u8] = slice_subrange(input, 0, 64);
    // r, s: signature
    let sig: &[u8] = slice_subrange(input, 64, 128);
    // public key
    let pk: &[u8] = slice_subrange(input, 128, 160);
    if dalek_verify(msg, sig, pk) {
        Some(())
    } else {
        None
    }
}

/// Encodes a verification outcome as the 32-byte output value: 31 zero bytes,
/// then 1 for success or 0 for failure.
fn encode_result(ok: bool) -> (out: Vec<u8>)
    ensures
        out@.len() == 32,
        forall|i: int| 0 <= i < 31 ==> out@[i] == 0u8,
        out@[31] == (if ok { 1u8 } else { 0u8 }),
{
    let mut out: Vec<u8> = Vec::new();
    let mut i: usize = 0;
    while i < 31
        invariant
            i <= 31,
            out@.len() == i,
            forall|j: int| 0 <= j < i ==> out@[j] == 0u8,
        decreases 31 - i,
    {
        out.push(0u8);
        i = i + 1;
    }
    if ok {
        out.push(1u8);
    } else {
        out.push(0u8);
    }
    out
}

/// ed25519 precompile logic. It takes the input bytes sent to the precompile
/// and the gas limit. The output represents the result of verifying the
/// ed25519 signature of the input.
pub fn ed25519_verify(input: &[u8], gas_limit: u64) -> (r: Result<
    PrecompileOutput,
    PrecompileError,
>)
    ensures
        r is Err <==> gas_limit < ED25519VERIFY_BASE,
        r matches Err(e) ==> e == PrecompileError::OutOfGas,
        r matches Ok(out) ==> out.gas_used == ED25519VERIFY_BASE && out.bytes@ == spec_output(
            input@,
        ),
        (match r {
            Ok(out) => spec_execute(input@, gas_limit) == Ok::<(u64, Seq<u8>), PrecompileError>(
                (out.gas_used, out.bytes@),
            ),
            Err(e) => spec_execute(input@, gas_limit) == Err::<(u64, Seq<u8>), PrecompileError>(e),
        }),
{
    if ED25519VERIFY_BASE > gas_limit {
        return Err(PrecompileError::OutOfGas);
    }
    let result = verify_impl(input).is_some();
    let bytes = encode_result(result);
    proof {
        assert(bytes@ =~= spec_output(input@));
    }
    Ok(PrecompileOutput { gas_used: ED25519VERIFY_BASE, bytes })
}

/// One native operation of the registry.
#[derive(Clone, Copy, Debug, PartialEq, Eq, Structural)]
pub enum Precompile {
    Ed25519Verify,
}

/// An operation paired with the reserved address the host registers it at.
#[derive(Clone, Copy, Debug, PartialEq, Eq, Structural)]
pub struct PrecompileWithAddress {
    pub address: u64,
    pub precompile: Precompile,
}

/// Returns the ed25519 precompile with its address.
pub fn precompiles() -> (r: Vec<PrecompileWithAddress>)
    ensures
        r@.len() == 1,
        r@[0].address == ED25519VERIFY_ADDRESS,
        r@[0].precompile == Precompile::Ed25519Verify,
{
    let mut v: Vec<PrecompileWithAddress> = Vec::new();
    v.push(
        PrecompileWithAddress {
            address: ED25519VERIFY_ADDRESS,
            precompile: Precompile::Ed25519Verify,
        },
    );
    v
}

/// Host-side dispatch: runs the registered operation on the caller's input
/// and gas budget.
pub fn run(p: &Precompile, input: &[u8], gas_limit: u64) -> (r: Result<
    PrecompileOutput,
    PrecompileError,
>)
    ensures
        r is Err <==> gas_limit < ED25519VERIFY_BASE,
        r matches Err(e) ==> e == PrecompileError::OutOfGas,
        r matches Ok(out) ==> out.gas_used == ED25519VERIFY_BASE && out.bytes@ == spec_output(
            input@,
        ),
        (match r {
            Ok(out) => spec_execute(input@, gas_limit) == Ok::<(u64, Seq<u8>), PrecompileError>(
                (out.gas_used, out.bytes@),
            ),
            Err(e) => spec_execute(input@, gas_limit) == Err::<(u64, Seq<u8>), PrecompileError>(e),
        }),
{
    match p {
        Precompile::Ed25519Verify => ed25519_verify(input, gas_limit),
    }
}

/// The all-zero 32-byte output: what the operation returns when verification
/// fails for any reason.
pub open spec fn zero_output() -> Seq<u8> {
    Seq::new(32, |i: int| 0u8)
}

/// Any input shorter than the 160-byte window yields the all-zero output at
/// exactly the base cost, whenever the gas budget admits the call at all.
pub proof fn lemma_short_input_all_zero(input: Seq<u8>, gas_limit: u64)
    requires
        input.len() < 160,
        gas_limit >= ED25519VERIFY_BASE,
    ensures
        spec_execute(input, gas_limit) == Ok::<(u64, Seq<u8>), PrecompileError>(
            (ED25519VERIFY_BASE, zero_output()),
        ),
{
    assert(spec_output(input) =~= zero_output());
}

/// Below the base cost the call fails with `OutOfGas`, whatever the input
/// holds and however long it is.
pub proof fn lemma_out_of_gas(input: Seq<u8>, gas_limit: u64)
    requires
        gas_limit < ED25519VERIFY_BASE,
    ensures
        spec_execute(input, gas_limit) == Err::<(u64, Seq<u8>), PrecompileError>(
            PrecompileError::OutOfGas,
        ),
{
}

/// With enough gas the call always succeeds at the protocol level: it costs
/// exactly the base fee and returns 32 bytes, zero everywhere but the last,
/// and the last byte is 1 exactly when the 160-byte window verifies.
pub proof fn lemma_output_encodes_verification(input: Seq<u8>, gas_limit: u64)
    requires
        gas_limit >= ED25519VERIFY_BASE,
    ensures
        spec_execute(input, gas_limit) matches Ok(out) && {
            &&& out.0 == ED25519VERIFY_BASE
            &&& out.1.len() == 32
            &&& forall|i: int| 0 <= i < 31 ==> out.1[i] == 0u8
            &&& out.1[31] == (if spec_verify(input) { 1u8 } else { 0u8 })
        },
{
}

/// Determinism: equal inputs and equal gas budgets give equal results.
pub proof fn lemma_execute_deterministic(
    input1: Seq<u8>,
    gas_limit1: u64,
    input2: Seq<u8>,
    gas_limit2: u64,
)
    requires
        input1 == input2,
        gas_limit1 == gas_limit2,
    ensures
        spec_execute(input1, gas_limit1) == spec_execute(input2, gas_limit2),
{
}

/// Gas independence: bytes appended beyond offset 160 change neither the
/// result nor the cost.
pub proof fn lemma_trailing_bytes_ignored(input: Seq<u8>, extra: Seq<u8>, gas_limit: u64)
    requires
        input.len() >= 160,
    ensures
        spec_execute(input + extra, gas_limit) == spec_execute(input, gas_limit),
{
    let ext = input + extra;
    assert(ext.subrange(0, 64) =~= input.subrange(0, 64));
    assert(ext.subrange(64, 128) =~= input.subrange(64, 128));
    assert(ext.subrange(128, 160) =~= input.subrange(128, 160));
    assert(spec_output(ext) =~= spec_output(input));
}

} // verus!
