//! The identities the wallet works with are `soroban_sdk::Address` values. The
//! wallet never looks inside one: it compares two of them and copies them.

use soroban_sdk::Address;
use vstd::prelude::*;

verus! {

/// Makes `soroban_sdk::Address` known as a type whose values are taken as
/// they come: nothing here reads what one holds.
#[verifier::external_type_specification]
#[verifier::external_body]
pub struct ExAddress(soroban_sdk::Address);

/// Calls `Address`'s `==`, which has the host compare the two addresses and
/// answers `true` exactly when both name the same account or contract. The
/// contract takes that answer for equality of the two values: nothing else
/// in this library tells two addresses apart.
#[verifier::external_body]
pub(crate) fn same_address(a: &Address, b: &Address) -> (same: bool)
    ensures
        same == (*a == *b),
{
    a == b
}

/// `Address`'s `clone` copies the handle, so the copy is the same address
/// as the one it was made from.
pub assume_specification[ <Address as Clone>::clone ](a: &Address) -> (copy: Address)
    ensures
        copy == *a,
;

} // verus!
