//! The state the library keeps for each Virtual Paradise instance.
use vstd::prelude::*;
use crate::attributes::{Attrib, AttribBuffer, AttribModel};
use crate::keyed::KeyedTable;
use crate::sdk::AwAttribute;

verus! {

/// One Virtual Paradise instance, known by its handle `vp`.
#[derive(Debug)]
pub struct Instance {
    pub vp: usize,
    pub attributes: AttribBuffer,
    /// Values recorded for attributes by `set_override`. No read of an
    /// attribute consults them.
    pub overrides: AttribBuffer,
    /// Citizen numbers of the avatars seen so far, by avatar name.
    pub citname_to_citnum: KeyedTable<Vec<u8>, i32>,
}

impl Instance {
    /// The state of a fresh instance: nothing stored, nothing seen.
    pub fn new(vp: usize) -> (instance: Self)
        ensures
            instance.vp == vp,
            instance.attributes@ == Map::<AwAttribute, AttribModel>::empty(),
            instance.overrides@ == Map::<AwAttribute, AttribModel>::empty(),
            instance.citname_to_citnum@ == Map::<Seq<u8>, i32>::empty(),
    {
        Instance {
            vp: vp,
            attributes: AttribBuffer::new(),
            overrides: AttribBuffer::new(),
            citname_to_citnum: KeyedTable::new(),
        }
    }

    /// Remembers the citizen number of an avatar that entered; an avatar
    /// without a citizen number (zero: a tourist or a bot) is not remembered.
    pub fn remember_citizen(&mut self, name: Vec<u8>, citnum: i32)
        ensures
            final(self).vp == old(self).vp,
            final(self).attributes@ == old(self).attributes@,
            final(self).overrides@ == old(self).overrides@,
            final(self).citname_to_citnum@ == spec_remember(
                old(self).citname_to_citnum@,
                name@,
                citnum,
            ),
    {
        if citnum != 0 {
            self.citname_to_citnum.insert(name, citnum);
        }
    }

    /// Records `value` as the override of `attribute`, or, given nothing,
    /// forgets the override of `attribute`.
    pub fn set_override<T: Attrib>(&mut self, attribute: AwAttribute, value: Option<T>)
        ensures
            final(self).vp == old(self).vp,
            final(self).attributes@ == old(self).attributes@,
            final(self).citname_to_citnum@ == old(self).citname_to_citnum@,
            final(self).overrides@ == match value {
                Some(v) => old(self).overrides@.insert(attribute, v.stored()),
                None => old(self).overrides@.remove(attribute),
            },
    {
        match value {
            Some(v) => self.overrides.set(attribute, v),
            None => self.overrides.remove(attribute),
        }
    }

    /// The citizen number remembered for the avatar called `name`, if any.
    pub fn citizen_number(&self, name: &Vec<u8>) -> (citnum: Option<i32>)
        ensures
            citnum == (if self.citname_to_citnum@.contains_key(name@) {
                Some(self.citname_to_citnum@[name@])
            } else {
                None
            }),
    {
        match self.citname_to_citnum.get(name) {
            Some(n) => Some(*n),
            None => None,
        }
    }
}

/// Remembering one avatar leaves what the cache holds for every other name
/// as it was, and remembering a citizen number of zero changes nothing.
pub proof fn lemma_remember_keeps_others(
    cache: Map<Seq<u8>, i32>,
    name: Seq<u8>,
    citnum: i32,
    other: Seq<u8>,
)
    ensures
        other != name ==> (spec_remember(cache, name, citnum).contains_key(other)
            == cache.contains_key(other)),
        other != name && cache.contains_key(other) ==> spec_remember(cache, name, citnum)[other]
            == cache[other],
        citnum == 0 ==> spec_remember(cache, name, citnum) == cache,
        citnum != 0 ==> spec_remember(cache, name, citnum).contains_key(name),
{
}

/// The citizen name cache after `remember_citizen` of `name` and `citnum`.
pub open spec fn spec_remember(cache: Map<Seq<u8>, i32>, name: Seq<u8>, citnum: i32) -> Map<Seq<u8>, i32> {
    if citnum != 0 {
        cache.insert(name, citnum)
    } else {
        cache
    }
}

/// A citizen number remembered under a name is what a later lookup of that
/// name finds, and a cache that has never held zero still does not after
/// remembering an avatar: a lookup never answers zero.
pub proof fn lemma_remembered_citizen_found(cache: Map<Seq<u8>, i32>, name: Seq<u8>, citnum: i32)
    requires
        forall|k: Seq<u8>| #[trigger] cache.contains_key(k) ==> cache[k] != 0,
    ensures
        citnum != 0 ==> spec_remember(cache, name, citnum)[name] == citnum,
        forall|k: Seq<u8>| #[trigger]
            spec_remember(cache, name, citnum).contains_key(k) ==> spec_remember(
                cache,
                name,
                citnum,
            )[k] != 0,
{
}

} // verus!
