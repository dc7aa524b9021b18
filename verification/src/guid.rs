//! New identifiers for event activations.

use vstd::prelude::*;
use crate::ast::GUID;

verus! {

/// `typid::ID::new`: a new random identifier, as the 128 bits of its UUID.
/// Which one comes is not determined: nothing is promised of it.
#[verifier::external_body]
pub(crate) fn fresh_guid() -> (guid: GUID) {
    typid::ID::<()>::new().uuid().as_u128()
}

} // verus!
