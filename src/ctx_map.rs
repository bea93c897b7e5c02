use vstd::prelude::*;
use dashmap::DashMap;
use crate::manager::UnsafeFunctionCtx;

verus! {

#[verifier::external_type_specification]
#[verifier::external_body]
#[verifier::reject_recursive_types(K)]
#[verifier::reject_recursive_types(V)]
#[verifier::reject_recursive_types(S)]
pub struct ExDashMap<K, V, S>(dashmap::DashMap<K, V, S>);

/// Running execution contexts by instance key.
pub type CtxMap = DashMap<String, UnsafeFunctionCtx>;

/// The entries of a map of running execution contexts, by instance key.
pub uninterp spec fn contexts_of(m: DashMap<String, UnsafeFunctionCtx>) -> Map<Seq<char>, UnsafeFunctionCtx>;

/// Relies on `DashMap::new`: a map with no entries.
#[verifier::external_body]
pub(crate) fn ctx_map_new() -> (r: CtxMap)
    ensures
        contexts_of(r).dom() == Set::<Seq<char>>::empty(),
{
    DashMap::new()
}

/// Relies on `DashMap::insert`: afterwards `key` maps to `value` and no other
/// entry changed; the value that `key` had before, if any, is returned.
#[verifier::external_body]
pub(crate) fn ctx_map_insert(m: &mut CtxMap, key: String, value: UnsafeFunctionCtx) -> (r: Option<UnsafeFunctionCtx>)
    ensures
        contexts_of(*final(m)) == contexts_of(*old(m)).insert(key@, value),
        r == (if contexts_of(*old(m)).contains_key(key@) {
            Some(contexts_of(*old(m))[key@])
        } else {
            None
        }),
{
    m.insert(key, value)
}

/// Relies on `DashMap::remove`: afterwards `key` has no entry and no other
/// entry changed; the removed key and value are returned, if there was one.
#[verifier::external_body]
pub(crate) fn ctx_map_remove(m: &mut CtxMap, key: &str) -> (r: Option<(String, UnsafeFunctionCtx)>)
    ensures
        contexts_of(*final(m)) == contexts_of(*old(m)).remove(key@),
        match r {
            Some(e) => contexts_of(*old(m)).contains_key(key@) && e.0@ == key@ && e.1 == contexts_of(
                *old(m),
            )[key@],
            None => !contexts_of(*old(m)).contains_key(key@),
        },
{
    m.remove(key)
}

} // verus!
