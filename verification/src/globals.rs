//! The library-wide state: the instances created so far and the one that the
//! SDK calls act on.
use vstd::prelude::*;
use std::collections::HashMap;
use std::collections::hash_map::Entry;
use crate::instance::Instance;
use crate::query::SequenceNums;
use crate::rc::aw;

verus! {

broadcast use vstd::std_specs::hash::group_hash_axioms;

/// The instances, by handle, and the handle of the current one (zero when
/// there is none).
#[derive(Debug)]
pub struct Globals {
    pub current: usize,
    pub instances: HashMap<usize, Instance>,
    pub sequence_nums: SequenceNums,
}

/// The error `current_instance` reports, if any: no current instance at all,
/// or a current handle that names no instance.
pub open spec fn spec_current_error(current: usize, instances: Map<usize, Instance>) -> Option<i32> {
    if current == 0 {
        Some(aw::RC_NO_INSTANCE)
    } else if !instances.contains_key(current) {
        Some(aw::RC_INVALID_INSTANCE)
    } else {
        None
    }
}

impl Globals {
    /// No instance yet.
    pub fn new() -> (globals: Self)
        ensures
            globals.current == 0,
            globals.instances@ == Map::<usize, Instance>::empty(),
            globals.sequence_nums@ == Map::<crate::query::SectorKey, i32>::empty(),
    {
        Globals { current: 0, instances: HashMap::new(), sequence_nums: SequenceNums::new() }
    }

    /// The current instance, or the error that says why there is none.
    pub fn current_instance(&self) -> (result: Result<&Instance, i32>)
        ensures
            match spec_current_error(self.current, self.instances@) {
                Some(e) => result == Err::<&Instance, i32>(e),
                None => result matches Ok(i) && *i == self.instances@[self.current],
            },
    {
        if self.current == 0 {
            return Err(aw::RC_NO_INSTANCE);
        }
        match self.instances.get(&self.current) {
            Some(instance) => Ok(instance),
            None => Err(aw::RC_INVALID_INSTANCE),
        }
    }

    /// The current instance for changing, or the error that says why there
    /// is none.
    pub fn current_instance_mut(&mut self) -> (result: Result<&mut Instance, i32>)
        ensures
            final(self).current == old(self).current,
            final(self).sequence_nums@ == old(self).sequence_nums@,
            match spec_current_error(old(self).current, old(self).instances@) {
                Some(e) => result == Err::<&mut Instance, i32>(e) && final(self).instances@
                    == old(self).instances@,
                None => result matches Ok(i) && *i == old(self).instances@[old(self).current]
                    && final(self).instances@ == old(self).instances@.insert(
                    old(self).current,
                    *final(i),
                ),
            },
    {
        let current = self.current;
        if current == 0 {
            return Err(aw::RC_NO_INSTANCE);
        }
        match self.instances.entry(current) {
            Entry::Occupied(entry) => Ok(entry.into_mut()),
            Entry::Vacant(_) => Err(aw::RC_INVALID_INSTANCE),
        }
    }

    /// Adds a freshly created instance and makes it the current one.
    pub fn add_instance(&mut self, instance: Instance)
        ensures
            final(self).current == instance.vp,
            final(self).sequence_nums@ == old(self).sequence_nums@,
            final(self).instances@ == old(self).instances@.insert(instance.vp, instance),
    {
        self.current = instance.vp;
        self.instances.insert(instance.vp, instance);
    }
}

/// An instance just added is the current one and is found as such, unless
/// its handle is zero, which stands for no instance at all.
pub proof fn lemma_added_instance_is_current(instances: Map<usize, Instance>, instance: Instance)
    ensures
        instance.vp != 0 ==> spec_current_error(instance.vp, instances.insert(instance.vp, instance))
            is None,
        instance.vp != 0 ==> instances.insert(instance.vp, instance)[instance.vp] == instance,
        instance.vp == 0 ==> spec_current_error(instance.vp, instances.insert(instance.vp, instance))
            == Some(aw::RC_NO_INSTANCE),
{
}

} // verus!
