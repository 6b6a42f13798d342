//! Which Virtual Paradise callback or event serves each Active Worlds
//! callback and event, and the registry of the handlers set for them: which
//! hooks are active, and which must be installed on which instance.
use vstd::prelude::*;
use crate::keyed::KeyedTable;
use crate::sdk::{AwCallback, AwEvent, VpCallback, VpEvent, VpHook};

verus! {

/// The hook that reports each Active Worlds callback: a Virtual Paradise
/// callback, or a Virtual Paradise event whose handler reports the callback
/// with result code zero. Nothing for the callbacks the library does not
/// serve.
pub open spec fn spec_callback_hook(callback: AwCallback) -> Option<VpHook> {
    match callback {
        AwCallback::Login => Some(VpHook::Callback(VpCallback::Login)),
        AwCallback::Enter => Some(VpHook::Callback(VpCallback::Enter)),
        AwCallback::CitizenAttributes => Some(VpHook::Event(VpEvent::UserAttributes)),
        AwCallback::Other(_) => None,
    }
}

/// The hook that reports the Active Worlds callback `callback`, if the
/// library serves it.
pub fn callback_hook(callback: AwCallback) -> (hook: Option<VpHook>)
    ensures
        hook == spec_callback_hook(callback),
{
    match callback {
        AwCallback::Login => Some(VpHook::Callback(VpCallback::Login)),
        AwCallback::Enter => Some(VpHook::Callback(VpCallback::Enter)),
        AwCallback::CitizenAttributes => Some(VpHook::Event(VpEvent::UserAttributes)),
        AwCallback::Other(_) => None,
    }
}

/// The Virtual Paradise event that reports each Active Worlds event; nothing
/// for those the library does not serve.
pub open spec fn spec_event_hook(event: AwEvent) -> Option<VpEvent> {
    match event {
        AwEvent::Chat => Some(VpEvent::Chat),
        AwEvent::WorldAttributes => Some(VpEvent::WorldSettingsChanged),
        AwEvent::AvatarAdd => Some(VpEvent::AvatarAdd),
        AwEvent::AvatarChange => Some(VpEvent::AvatarChange),
        AwEvent::AvatarDelete => Some(VpEvent::AvatarDelete),
        AwEvent::Other(_) => None,
    }
}

/// The Virtual Paradise event that reports the Active Worlds event `event`,
/// if the library serves it.
pub fn event_hook(event: AwEvent) -> (hook: Option<VpEvent>)
    ensures
        hook == spec_event_hook(event),
{
    match event {
        AwEvent::Chat => Some(VpEvent::Chat),
        AwEvent::WorldAttributes => Some(VpEvent::WorldSettingsChanged),
        AwEvent::AvatarAdd => Some(VpEvent::AvatarAdd),
        AwEvent::AvatarChange => Some(VpEvent::AvatarChange),
        AwEvent::AvatarDelete => Some(VpEvent::AvatarDelete),
        AwEvent::Other(_) => None,
    }
}

/// Whether an avatar that enters is first remembered in the citizen name
/// cache before the event is reported: only on the avatar-add event.
pub fn event_records_citizen(event: AwEvent) -> (records: bool)
    ensures
        records == (event == AwEvent::AvatarAdd),
{
    match event {
        AwEvent::AvatarAdd => true,
        _ => false,
    }
}

/// The hook that reports an Active Worlds event, as a hook.
pub open spec fn spec_event_vp_hook(event: AwEvent) -> Option<VpHook> {
    match spec_event_hook(event) {
        Some(e) => Some(VpHook::Event(e)),
        None => None,
    }
}

/// The Active Worlds event a hook reports, if it reports one.
pub open spec fn spec_event_of_hook(hook: VpHook) -> Option<AwEvent> {
    match hook {
        VpHook::Event(VpEvent::Chat) => Some(AwEvent::Chat),
        VpHook::Event(VpEvent::WorldSettingsChanged) => Some(AwEvent::WorldAttributes),
        VpHook::Event(VpEvent::AvatarAdd) => Some(AwEvent::AvatarAdd),
        VpHook::Event(VpEvent::AvatarChange) => Some(AwEvent::AvatarChange),
        VpHook::Event(VpEvent::AvatarDelete) => Some(AwEvent::AvatarDelete),
        _ => None,
    }
}

/// The Active Worlds callback a hook reports, if it reports one.
pub open spec fn spec_callback_of_hook(hook: VpHook) -> Option<AwCallback> {
    match hook {
        VpHook::Callback(VpCallback::Login) => Some(AwCallback::Login),
        VpHook::Callback(VpCallback::Enter) => Some(AwCallback::Enter),
        VpHook::Event(VpEvent::UserAttributes) => Some(AwCallback::CitizenAttributes),
        _ => None,
    }
}

/// Whether a hook has a handler to report to: the event or the callback it
/// reports has one.
pub open spec fn spec_hook_wanted<E, C>(
    hook: VpHook,
    events: Map<AwEvent, E>,
    callbacks: Map<AwCallback, C>,
) -> bool {
    ||| (spec_event_of_hook(hook) matches Some(e) && events.contains_key(e))
    ||| (spec_callback_of_hook(hook) matches Some(c) && callbacks.contains_key(c))
}

/// Each hook reports to exactly the event and the callback that it is the
/// hook of: no two served events or callbacks share a hook, and no hook
/// serves both an event and a callback.
pub proof fn lemma_hooks_distinct(hook: VpHook, event: AwEvent, callback: AwCallback)
    ensures
        spec_event_vp_hook(event) == Some(hook) <==> spec_event_of_hook(hook) == Some(event),
        spec_callback_hook(callback) == Some(hook) <==> spec_callback_of_hook(hook) == Some(
            callback,
        ),
        !(spec_event_of_hook(hook) is Some && spec_callback_of_hook(hook) is Some),
{
}

/// A hook to install on, or remove from, one instance.
#[derive(PartialEq, Eq, Structural, Clone, Copy, Debug)]
pub struct HookChange {
    pub instance: usize,
    pub hook: VpHook,
    pub install: bool,
}

/// What a registry holds: the handlers of Active Worlds events and callbacks,
/// the Virtual Paradise hooks active library-wide, the instances in the order
/// they were registered, and the hooks installed on each instance once the
/// changes handed out so far are carried out.
pub struct HookRegistryView<E, C> {
    pub events: Map<AwEvent, E>,
    pub callbacks: Map<AwCallback, C>,
    pub active: Set<VpHook>,
    pub instances: Seq<usize>,
    pub installed: Map<usize, Set<VpHook>>,
}

/// The registry's laws: a hook is active exactly when the event or callback
/// it reports has a handler, every instance has exactly the active hooks
/// installed, and each instance is registered once.
pub open spec fn spec_registry_consistent<E, C>(v: HookRegistryView<E, C>) -> bool {
    &&& forall|h: VpHook| #[trigger] v.active.contains(h) <==> spec_hook_wanted(h, v.events, v.callbacks)
    &&& forall|i: usize| #[trigger] v.installed.contains_key(i) <==> v.instances.contains(i)
    &&& forall|i: usize| #[trigger] v.installed.contains_key(i) ==> v.installed[i] == v.active
    &&& v.instances.no_duplicates()
}

/// The installed hooks after each instance carries out its change: `hook`
/// installed, or removed, everywhere.
pub open spec fn spec_apply_everywhere(
    installed: Map<usize, Set<VpHook>>,
    hook: VpHook,
    install: bool,
) -> Map<usize, Set<VpHook>> {
    Map::new(
        |i: usize| installed.contains_key(i),
        |i: usize|
            if install {
                installed[i].insert(hook)
            } else {
                installed[i].remove(hook)
            },
    )
}

/// One change per registered instance, in registration order, all of `hook`.
pub open spec fn spec_changes_for(
    changes: Seq<HookChange>,
    instances: Seq<usize>,
    hook: VpHook,
    install: bool,
) -> bool {
    &&& changes.len() == instances.len()
    &&& forall|k: int|
        0 <= k < changes.len() ==> #[trigger] changes[k] == (HookChange {
            instance: instances[k],
            hook: hook,
            install: install,
        })
}

/// The changes that bring every instance in step with one hook: installed
/// when `install`, removed otherwise.
fn changes_everywhere(instances: &Vec<usize>, hook: VpHook, install: bool) -> (changes: Vec<HookChange>)
    ensures
        spec_changes_for(changes@, instances@, hook, install),
{
    let mut changes: Vec<HookChange> = Vec::new();
    let mut k: usize = 0;
    while k < instances.len()
        invariant
            k <= instances@.len(),
            changes@.len() == k,
            forall|j: int|
                0 <= j < k ==> #[trigger] changes@[j] == (HookChange {
                    instance: instances@[j],
                    hook: hook,
                    install: install,
                }),
        decreases instances@.len() - k,
    {
        changes.push(HookChange { instance: instances[k], hook: hook, install: install });
        k += 1;
    }
    changes
}

/// The handlers set for Active Worlds events and callbacks, with the hooks
/// of the Virtual Paradise SDK they need on every instance.
pub struct HookRegistry<E, C> {
    events: KeyedTable<AwEvent, E>,
    callbacks: KeyedTable<AwCallback, C>,
    active: KeyedTable<VpHook, ()>,
    instances: Vec<usize>,
    installed: Ghost<Map<usize, Set<VpHook>>>,
}

impl<E, C> View for HookRegistry<E, C> {
    type V = HookRegistryView<E, C>;

    closed spec fn view(&self) -> HookRegistryView<E, C> {
        HookRegistryView {
            events: self.events@,
            callbacks: self.callbacks@,
            active: self.active@.dom(),
            instances: self.instances@,
            installed: self.installed@,
        }
    }
}

impl<E, C> HookRegistry<E, C> {
    #[verifier::type_invariant]
    spec fn consistent(self) -> bool {
        spec_registry_consistent(self@)
    }

    /// No handler, no hook, no instance.
    pub fn new() -> (registry: Self)
        ensures
            registry@.events == Map::<AwEvent, E>::empty(),
            registry@.callbacks == Map::<AwCallback, C>::empty(),
            registry@.active == Set::<VpHook>::empty(),
            registry@.instances == Seq::<usize>::empty(),
            spec_registry_consistent(registry@),
    {
        let registry = HookRegistry {
            events: KeyedTable::new(),
            callbacks: KeyedTable::new(),
            active: KeyedTable::new(),
            instances: Vec::new(),
            installed: Ghost(Map::empty()),
        };
        assert(registry@.active =~= Set::<VpHook>::empty());
        registry
    }

    /// The handler set for `event`, if any.
    pub fn event_handler(&self, event: AwEvent) -> (handler: Option<&E>)
        ensures
            match handler {
                Some(h) => self@.events.contains_key(event) && *h == self@.events[event],
                None => !self@.events.contains_key(event),
            },
    {
        self.events.get(&event)
    }

    /// The handler set for `callback`, if any.
    pub fn callback_handler(&self, callback: AwCallback) -> (handler: Option<&C>)
        ensures
            match handler {
                Some(h) => self@.callbacks.contains_key(callback) && *h == self@.callbacks[callback],
                None => !self@.callbacks.contains_key(callback),
            },
    {
        self.callbacks.get(&callback)
    }

    /// Sets the handler of `event`, or with nothing removes it. A served event
    /// has its hook activated, or deactivated, library-wide; the changes
    /// returned carry that out on every instance, one per instance in
    /// registration order.
    pub fn set_event(&mut self, event: AwEvent, handler: Option<E>) -> (changes: Vec<HookChange>)
        ensures
            final(self)@.events == (match handler {
                Some(h) => old(self)@.events.insert(event, h),
                None => old(self)@.events.remove(event),
            }),
            final(self)@.callbacks == old(self)@.callbacks,
            final(self)@.instances == old(self)@.instances,
            match spec_event_vp_hook(event) {
                Some(hook) => {
                    &&& final(self)@.active == (if handler is Some {
                        old(self)@.active.insert(hook)
                    } else {
                        old(self)@.active.remove(hook)
                    })
                    &&& spec_changes_for(changes@, old(self)@.instances, hook, handler is Some)
                    &&& final(self)@.installed == spec_apply_everywhere(
                        old(self)@.installed,
                        hook,
                        handler is Some,
                    )
                },
                None => {
                    &&& final(self)@.active == old(self)@.active
                    &&& changes@.len() == 0
                    &&& final(self)@.installed == old(self)@.installed
                },
            },
            spec_registry_consistent(final(self)@),
    {
        let mut parts = HookRegistry::new();
        std::mem::swap(&mut parts, self);
        proof {
            use_type_invariant(&parts);
        }
        let ghost before = parts@;
        let HookRegistry { mut events, callbacks, mut active, instances, installed } = parts;
        let install = handler.is_some();
        match handler {
            Some(h) => events.insert(event, h),
            None => {
                let _ = events.remove(&event);
            },
        }
        match event_hook(event) {
            Some(e) => {
                let hook = VpHook::Event(e);
                if install {
                    active.insert(hook, ());
                } else {
                    let _ = active.remove(&hook);
                }
                let changes = changes_everywhere(&instances, hook, install);
                let ghost next = HookRegistryView {
                    events: events@,
                    callbacks: callbacks@,
                    active: active@.dom(),
                    instances: instances@,
                    installed: spec_apply_everywhere(before.installed, hook, install),
                };
                proof {
                    assert(next.active =~= if install {
                        before.active.insert(hook)
                    } else {
                        before.active.remove(hook)
                    });
                    assert forall|h: VpHook| #[trigger] next.active.contains(h)
                        <==> spec_hook_wanted(h, next.events, next.callbacks) by {
                        lemma_hooks_distinct(h, event, AwCallback::Other(0));
                        assert(before.active.contains(h) <==> spec_hook_wanted(
                            h,
                            before.events,
                            before.callbacks,
                        ));
                    }
                    assert forall|i: usize| #[trigger] next.installed.contains_key(i) implies next.installed[i]
                        == next.active by {
                        assert(before.installed[i] == before.active);
                        assert(next.installed[i] =~= next.active);
                    }
                }
                *self = HookRegistry {
                    events,
                    callbacks,
                    active,
                    instances,
                    installed: Ghost(spec_apply_everywhere(before.installed, hook, install)),
                };
                changes
            },
            None => {
                let ghost next = HookRegistryView {
                    events: events@,
                    callbacks: callbacks@,
                    active: active@.dom(),
                    instances: instances@,
                    installed: installed@,
                };
                proof {
                    assert forall|h: VpHook| #[trigger] next.active.contains(h)
                        <==> spec_hook_wanted(h, next.events, next.callbacks) by {
                        lemma_hooks_distinct(h, event, AwCallback::Other(0));
                        assert(before.active.contains(h) <==> spec_hook_wanted(
                            h,
                            before.events,
                            before.callbacks,
                        ));
                    }
                }
                *self = HookRegistry { events, callbacks, active, instances, installed };
                Vec::new()
            },
        }
    }

    /// Sets the handler of `callback`, or with nothing removes it. A served
    /// callback has its hook activated, or deactivated, library-wide; the
    /// changes returned carry that out on every instance, one per instance in
    /// registration order.
    pub fn set_callback(&mut self, callback: AwCallback, handler: Option<C>) -> (changes: Vec<HookChange>)
        ensures
            final(self)@.callbacks == (match handler {
                Some(h) => old(self)@.callbacks.insert(callback, h),
                None => old(self)@.callbacks.remove(callback),
            }),
            final(self)@.events == old(self)@.events,
            final(self)@.instances == old(self)@.instances,
            match spec_callback_hook(callback) {
                Some(hook) => {
                    &&& final(self)@.active == (if handler is Some {
                        old(self)@.active.insert(hook)
                    } else {
                        old(self)@.active.remove(hook)
                    })
                    &&& spec_changes_for(changes@, old(self)@.instances, hook, handler is Some)
                    &&& final(self)@.installed == spec_apply_everywhere(
                        old(self)@.installed,
                        hook,
                        handler is Some,
                    )
                },
                None => {
                    &&& final(self)@.active == old(self)@.active
                    &&& changes@.len() == 0
                    &&& final(self)@.installed == old(self)@.installed
                },
            },
            spec_registry_consistent(final(self)@),
    {
        let mut parts = HookRegistry::new();
        std::mem::swap(&mut parts, self);
        proof {
            use_type_invariant(&parts);
        }
        let ghost before = parts@;
        let HookRegistry { events, mut callbacks, mut active, instances, installed } = parts;
        let install = handler.is_some();
        match handler {
            Some(h) => callbacks.insert(callback, h),
            None => {
                let _ = callbacks.remove(&callback);
            },
        }
        match callback_hook(callback) {
            Some(hook) => {
                if install {
                    active.insert(hook, ());
                } else {
                    let _ = active.remove(&hook);
                }
                let changes = changes_everywhere(&instances, hook, install);
                let ghost next = HookRegistryView {
                    events: events@,
                    callbacks: callbacks@,
                    active: active@.dom(),
                    instances: instances@,
                    installed: spec_apply_everywhere(before.installed, hook, install),
                };
                proof {
                    assert(next.active =~= if install {
                        before.active.insert(hook)
                    } else {
                        before.active.remove(hook)
                    });
                    assert forall|h: VpHook| #[trigger] next.active.contains(h)
                        <==> spec_hook_wanted(h, next.events, next.callbacks) by {
                        lemma_hooks_distinct(h, AwEvent::Other(0), callback);
                        assert(before.active.contains(h) <==> spec_hook_wanted(
                            h,
                            before.events,
                            before.callbacks,
                        ));
                    }
                    assert forall|i: usize| #[trigger] next.installed.contains_key(i) implies next.installed[i]
                        == next.active by {
                        assert(before.installed[i] == before.active);
                        assert(next.installed[i] =~= next.active);
                    }
                }
                *self = HookRegistry {
                    events,
                    callbacks,
                    active,
                    instances,
                    installed: Ghost(spec_apply_everywhere(before.installed, hook, install)),
                };
                changes
            },
            None => {
                let ghost next = HookRegistryView {
                    events: events@,
                    callbacks: callbacks@,
                    active: active@.dom(),
                    instances: instances@,
                    installed: installed@,
                };
                proof {
                    assert forall|h: VpHook| #[trigger] next.active.contains(h)
                        <==> spec_hook_wanted(h, next.events, next.callbacks) by {
                        lemma_hooks_distinct(h, AwEvent::Other(0), callback);
                        assert(before.active.contains(h) <==> spec_hook_wanted(
                            h,
                            before.events,
                            before.callbacks,
                        ));
                    }
                }
                *self = HookRegistry { events, callbacks, active, instances, installed };
                Vec::new()
            },
        }
    }

    /// Registers an instance, once, and returns the hooks it needs: every
    /// active hook, each once.
    pub fn add_instance(&mut self, instance: usize) -> (install: Vec<VpHook>)
        ensures
            final(self)@.events == old(self)@.events,
            final(self)@.callbacks == old(self)@.callbacks,
            final(self)@.active == old(self)@.active,
            final(self)@.instances == (if old(self)@.instances.contains(instance) {
                old(self)@.instances
            } else {
                old(self)@.instances.push(instance)
            }),
            final(self)@.installed == old(self)@.installed.insert(instance, old(self)@.active),
            forall|h: VpHook| old(self)@.active.contains(h) <==> install@.contains(h),
            install@.no_duplicates(),
            spec_registry_consistent(final(self)@),
    {
        let mut parts = HookRegistry::new();
        std::mem::swap(&mut parts, self);
        proof {
            use_type_invariant(&parts);
        }
        let ghost before = parts@;
        let HookRegistry { events, callbacks, active, mut instances, installed: _ } = parts;
        let mut known = false;
        let mut k: usize = 0;
        while k < instances.len()
            invariant
                k <= instances@.len(),
                known == exists|j: int| 0 <= j < k && instances@[j] == instance,
            decreases instances@.len() - k,
        {
            if instances[k] == instance {
                known = true;
            }
            k += 1;
        }
        if !known {
            instances.push(instance);
        }
        let install = active.keys();
        let ghost next = HookRegistryView {
            events: events@,
            callbacks: callbacks@,
            active: active@.dom(),
            instances: instances@,
            installed: before.installed.insert(instance, before.active),
        };
        proof {
            assert(before.instances.contains(instance) == known);
            if !known {
                assert(next.instances =~= before.instances.push(instance));
                assert forall|i: usize| #[trigger] next.installed.contains_key(i)
                    <==> next.instances.contains(i) by {
                    if i == instance {
                        assert(next.instances[before.instances.len() as int] == instance);
                    }
                    if before.instances.contains(i) {
                        let j = choose|j: int| 0 <= j < before.instances.len() && before.instances[j] == i;
                        assert(next.instances[j] == i);
                    }
                    if next.instances.contains(i) && i != instance {
                        let j = choose|j: int| 0 <= j < next.instances.len() && next.instances[j] == i;
                        assert(before.instances[j] == i);
                    }
                }
            }
            assert forall|h: VpHook| before.active.contains(h) <==> install@.contains(h) by {
                if install@.contains(h) {
                    let j = choose|j: int| 0 <= j < install@.len() && install@[j] == h;
                    assert(install@[j]@ == h);
                }
                if before.active.contains(h) {
                    let j = choose|j: int| 0 <= j < install@.len() && #[trigger] install@[j]@ == h;
                    assert(install@[j] == h);
                }
            }
            assert(install@.no_duplicates()) by {
                assert forall|a: int, b: int| 0 <= a < install@.len() && 0 <= b < install@.len() && a != b
                    implies install@[a] != install@[b] by {
                    if a < b {
                        assert(install@[a]@ != install@[b]@);
                    } else {
                        assert(install@[b]@ != install@[a]@);
                    }
                }
            }
        }
        *self = HookRegistry {
            events,
            callbacks,
            active,
            instances,
            installed: Ghost(before.installed.insert(instance, before.active)),
        };
        install
    }
}

/// The hook of a served event is active exactly when the event has a
/// handler, and is then installed on every registered instance.
pub proof fn lemma_event_hook_everywhere<E, C>(v: HookRegistryView<E, C>, event: AwEvent, hook: VpHook, instance: usize)
    requires
        spec_registry_consistent(v),
        spec_event_vp_hook(event) == Some(hook),
        v.instances.contains(instance),
    ensures
        v.active.contains(hook) <==> v.events.contains_key(event),
        v.installed[instance].contains(hook) <==> v.events.contains_key(event),
{
    lemma_hooks_distinct(hook, event, AwCallback::Other(0));
    assert(v.installed.contains_key(instance));
}

/// The hook of a served callback is active exactly when the callback has a
/// handler, and is then installed on every registered instance.
pub proof fn lemma_callback_hook_everywhere<E, C>(
    v: HookRegistryView<E, C>,
    callback: AwCallback,
    hook: VpHook,
    instance: usize,
)
    requires
        spec_registry_consistent(v),
        spec_callback_hook(callback) == Some(hook),
        v.instances.contains(instance),
    ensures
        v.active.contains(hook) <==> v.callbacks.contains_key(callback),
        v.installed[instance].contains(hook) <==> v.callbacks.contains_key(callback),
{
    lemma_hooks_distinct(hook, AwEvent::Other(0), callback);
    assert(v.installed.contains_key(instance));
}

} // verus!
