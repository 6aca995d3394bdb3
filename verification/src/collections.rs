//! The concurrent map type that the service keeps its in-memory state in.
use dashmap::DashMap;
use vstd::prelude::*;

verus! {

/// `dashmap::DashMap`, carried through verified code as an opaque value.
/// What a given map holds is named per instantiation, next to the code that uses it.
#[verifier::external_type_specification]
#[verifier::external_body]
#[verifier::reject_recursive_types(K)]
#[verifier::reject_recursive_types(V)]
#[verifier::reject_recursive_types(S)]
pub struct ExDashMap<K, V, S>(DashMap<K, V, S>);

} // verus!
