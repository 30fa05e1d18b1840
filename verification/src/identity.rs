//! The identity of members and proposers.
//!
//! An identity is a `Principal` of the Internet Computer. The engine never
//! looks inside one: it stores identities, hands them to the membership
//! oracle and compares them for equality.

use ic_cdk::export::Principal;
use vstd::prelude::*;

verus! {

/// `candid::Principal`, as re-exported by `ic_cdk::export`. The type is opaque
/// to the verifier: two principals are the same specification value exactly
/// when they hold the same bytes.
#[verifier::external_type_specification]
#[verifier::external_body]
pub struct ExPrincipal(ic_cdk::export::Principal);

/// Compares two principals with `Principal`'s `PartialEq`.
///
/// Trusted: `Principal` derives `PartialEq` over its length and its byte
/// buffer, so the comparison answers `true` exactly for equal principals.
#[verifier::external_body]
pub(crate) fn same_principal(a: &Principal, b: &Principal) -> (same: bool)
    ensures
        same == (*a == *b),
{
    a == b
}

} // verus!
