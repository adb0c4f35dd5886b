//! Opaque identifier generation, an ambient input the library never
//! reasons from.

use vstd::prelude::*;

verus! {

/// Relies on uuid::Uuid::new_v4 and uuid::Uuid::to_string: a freshly
/// generated random identifier in canonical text form. Nothing is promised
/// of the value; the identifier depends on chance.
#[verifier::external_body]
pub(crate) fn fresh_id() -> String {
    uuid::Uuid::new_v4().to_string()
}

} // verus!
