use vstd::prelude::*;

verus! {

#[verifier::external_type_specification]
#[verifier::external_body]
pub struct ExTypeId(std::any::TypeId);

/// Relies on `TypeId`'s `PartialEq`: two tags compare equal exactly when they
/// are the same tag, that is, when they were taken of the same type.
pub assume_specification[ <std::any::TypeId as core::cmp::PartialEq>::eq ](
    a: &std::any::TypeId,
    b: &std::any::TypeId,
) -> (r: bool)
    ensures
        r == (*a == *b),
;

} // verus!
