//! Sharing of reference-counted values.
use vstd::prelude::*;
use std::sync::Arc;

verus! {

/// Relies on `<Arc<T> as Clone>::clone`: a second handle to the same value.
#[verifier::external_body]
pub fn share<T>(a: &Arc<T>) -> (r: Arc<T>)
    ensures
        r == *a,
{
    Arc::clone(a)
}

} // verus!
