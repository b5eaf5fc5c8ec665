//! The parameter values that are set aside while a parameter is modulated.
//!
//! They are kept in a `hashbrown::HashMap` from the number of a parameter to
//! its value. What the map holds is known to the verifier only through the
//! contracts below, which restate what the map's own code does.

use vstd::prelude::*;

verus! {

/// The values set aside, each under the number of its parameter.
#[verifier::external_body]
pub struct SavedValues {
    map: hashbrown::HashMap<u8, u8>,
}

/// The values that the map holds, each under its key.
pub uninterp spec fn saved_values(m: SavedValues) -> Map<u8, u8>;

/// `hashbrown::HashMap::new`: the new map holds nothing.
#[verifier::external_body]
pub(crate) fn saved_new() -> (m: SavedValues)
    ensures
        forall|key: u8| !saved_values(m).contains_key(key),
{
    SavedValues { map: hashbrown::HashMap::new() }
}

/// `hashbrown::HashMap::insert`: afterwards the map holds `value` under
/// `key`, and under the other keys what it held before. The result is what
/// it held under `key` before.
#[verifier::external_body]
pub(crate) fn saved_insert(m: &mut SavedValues, key: u8, value: u8) -> (r: Option<u8>)
    ensures
        saved_values(*final(m)) == saved_values(*old(m)).insert(key, value),
        r is Some <==> saved_values(*old(m)).contains_key(key),
        r is Some ==> r->Some_0 == saved_values(*old(m))[key],
{
    m.map.insert(key, value)
}

/// `hashbrown::HashMap::remove`: afterwards the map holds nothing under
/// `key`, and under the other keys what it held before. The result is what
/// it held under `key` before.
#[verifier::external_body]
pub(crate) fn saved_remove(m: &mut SavedValues, key: u8) -> (r: Option<u8>)
    ensures
        saved_values(*final(m)) == saved_values(*old(m)).remove(key),
        r is Some <==> saved_values(*old(m)).contains_key(key),
        r is Some ==> r->Some_0 == saved_values(*old(m))[key],
{
    m.map.remove(&key)
}

/// `hashbrown::HashMap::get`: the result is what the map holds under `key`.
#[verifier::external_body]
pub(crate) fn saved_get(m: &SavedValues, key: u8) -> (r: Option<u8>)
    ensures
        r is Some <==> saved_values(*m).contains_key(key),
        r is Some ==> r->Some_0 == saved_values(*m)[key],
{
    m.map.get(&key).copied()
}

impl SavedValues {
    /// The values set aside, each under the number of its parameter.
    pub open spec fn view(self) -> Map<u8, u8> {
        saved_values(self)
    }

    /// Nothing set aside.
    pub fn new() -> (r: SavedValues)
        ensures
            r@ == Map::<u8, u8>::empty(),
    {
        let r = saved_new();
        assert(r@ =~= Map::<u8, u8>::empty());
        r
    }

    /// The value set aside under `key`, if there is one.
    pub fn get(&self, key: u8) -> (r: Option<u8>)
        ensures
            r == if self@.contains_key(key) {
                Some(self@[key])
            } else {
                None
            },
    {
        saved_get(self, key)
    }
}

} // verus!
