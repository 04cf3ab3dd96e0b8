//! The ledger's field elements, seen as the integers they stand for.

use miden_client::Felt;
use vstd::prelude::*;

verus! {

/// The prime modulus of the ledger's base field, `2^64 - 2^32 + 1`.
pub const MODULUS: u64 = 0xffff_ffff_0000_0001;

/// Sends `value` through the ledger's field element type and reads it back.
///
/// Trusted: `Felt::new` reduces a value that is not below the field modulus modulo it,
/// and `Felt::as_int` returns the canonical integer of the element, which lies below
/// the modulus. The contract states exactly this composition.
#[verifier::external_body]
pub(crate) fn canonical(value: u64) -> (r: u64)
    ensures
        r == value % MODULUS,
{
    Felt::new(value).as_int()
}

} // verus!
