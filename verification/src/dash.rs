use vstd::prelude::*;

verus! {

/// Declares `dashmap::DashMap` so that it can stand in signatures and
/// fields.  The store keeps its entity maps in this concurrent container;
/// every operation on one goes through a trusted wrapper whose contract is
/// stated over an abstract view of the contents.
#[verifier::external_type_specification]
#[verifier::external_body]
#[verifier::reject_recursive_types(K)]
#[verifier::reject_recursive_types(V)]
#[verifier::reject_recursive_types(S)]
pub struct ExDashMap<K, V, S>(dashmap::DashMap<K, V, S>);

} // verus!
