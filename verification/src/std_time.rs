use vstd::prelude::*;

verus! {

/// `std::time::Instant` is carried through the library as an opaque value:
/// nothing here reads it.
#[verifier::external_type_specification]
#[verifier::external_body]
pub struct ExInstant(std::time::Instant);

} // verus!
