//! What holds of the bus whatever is registered and whatever is broadcast.

use crate::game_event::{DeliveryView, EventView, NoticeView, Registry};
use vstd::prelude::*;

verus! {

/// All the deliveries made by broadcasting `events` one after another to the
/// same registry.
pub open spec fn deliver_all(registry: Registry, events: Seq<EventView>) -> Seq<
    DeliveryView,
>
    decreases events.len(),
{
    if events.len() == 0 {
        Seq::empty()
    } else {
        deliver_all(registry, events.drop_last()) + registry.deliver(events.last())
    }
}

/// How many deliveries of `log` went to the observer named `observer`.
pub open spec fn received(log: Seq<DeliveryView>, observer: Seq<char>) -> nat
    decreases log.len(),
{
    if log.len() == 0 {
        0
    } else {
        received(log.drop_last(), observer) + if log.last().observer == observer {
            1nat
        } else {
            0nat
        }
    }
}

/// Deliveries are counted part by part.
pub proof fn lemma_received_of_both(
    first: Seq<DeliveryView>,
    second: Seq<DeliveryView>,
    observer: Seq<char>,
)
    ensures
        received(first + second, observer) == received(first, observer) + received(
            second,
            observer,
        ),
    decreases second.len(),
{
    if second.len() == 0 {
        assert(first + second =~= first);
    } else {
        assert((first + second).drop_last() =~= first + second.drop_last());
        lemma_received_of_both(first, second.drop_last(), observer);
    }
}

/// Among the first `upto` deliveries of one broadcast, `observer` has one if
/// its place in the registry is among the first `upto`, and none otherwise.
proof fn lemma_received_in_prefix(
    registry: Registry,
    event: EventView,
    observer: Seq<char>,
    upto: int,
)
    requires
        registry.valid(),
        0 <= upto <= registry.names.len(),
    ensures
        received(registry.deliver(event).take(upto), observer) == if exists|i: int|
            0 <= i < upto && registry.names[i] == observer {
            1nat
        } else {
            0nat
        },
    decreases upto,
{
    let log = registry.deliver(event).take(upto);
    if upto > 0 {
        assert(log.drop_last() =~= registry.deliver(event).take(upto - 1));
        lemma_received_in_prefix(registry, event, observer, upto - 1);
        assert(log.last().observer == registry.names[upto - 1]);
        if registry.names[upto - 1] == observer {
            assert(!exists|i: int| 0 <= i < upto - 1 && registry.names[i] == observer);
        } else {
            if exists|i: int| 0 <= i < upto && registry.names[i] == observer {
                let i = choose|i: int| 0 <= i < upto && registry.names[i] == observer;
                assert(0 <= i < upto - 1 && registry.names[i] == observer);
            }
        }
    }
}

/// One broadcast reaches every registered observer exactly once, and nobody
/// else.
pub proof fn lemma_broadcast_reaches_each_once(
    registry: Registry,
    event: EventView,
    observer: Seq<char>,
)
    requires
        registry.valid(),
    ensures
        received(registry.deliver(event), observer) == if registry.names.contains(observer) {
            1nat
        } else {
            0nat
        },
{
    let n = registry.names.len() as int;
    lemma_received_in_prefix(registry, event, observer, n);
    assert(registry.deliver(event).take(n) =~= registry.deliver(event));
    if registry.names.contains(observer) {
        let i = choose|i: int| 0 <= i < n && registry.names[i] == observer;
        assert(0 <= i < n && registry.names[i] == observer);
    }
}

/// Broadcasting any number of events to a registry that does not change in
/// between hands each registered observer exactly that number of events,
/// in whatever order the observers were registered; an observer that is not
/// registered receives none.
pub proof fn lemma_every_observer_hears_every_event(
    registry: Registry,
    events: Seq<EventView>,
    observer: Seq<char>,
)
    requires
        registry.valid(),
    ensures
        registry.names.contains(observer) ==> received(deliver_all(registry, events), observer)
            == events.len(),
        !registry.names.contains(observer) ==> received(deliver_all(registry, events), observer)
            == 0,
    decreases events.len(),
{
    if events.len() > 0 {
        lemma_every_observer_hears_every_event(registry, events.drop_last(), observer);
        lemma_broadcast_reaches_each_once(registry, events.last(), observer);
        lemma_received_of_both(
            deliver_all(registry, events.drop_last()),
            registry.deliver(events.last()),
            observer,
        );
    }
}

/// Every delivery of a broadcast carries what its observer makes of the
/// event, and the deliveries come in the order of the registry.
pub proof fn lemma_broadcast_in_registry_order(
    registry: Registry,
    event: EventView,
    i: int,
)
    requires
        0 <= i < registry.names.len(),
    ensures
        registry.deliver(event).len() == registry.names.len(),
        registry.deliver(event)[i].observer == registry.names[i],
        registry.deliver(event)[i].notice == (registry.reactions[i])(event),
{
}

/// Registering keeps a registry valid, and afterwards `name` is registered
/// with the new observer's reaction in its place.
pub proof fn lemma_register_keeps_valid(
    registry: Registry,
    name: Seq<char>,
    reaction: spec_fn(EventView) -> Option<NoticeView>,
)
    requires
        registry.valid(),
    ensures
        registry.register(name, reaction).valid(),
        registry.register(name, reaction).names.contains(name),
        registry.register(name, reaction).reactions[registry.register(
            name,
            reaction,
        ).names.index_of(name)] == reaction,
        forall|other: Seq<char>|
            other != name ==> (registry.register(name, reaction).names.contains(other)
                <==> registry.names.contains(other)),
{
    let after = registry.register(name, reaction);
    if registry.names.contains(name) {
        let i = registry.names.index_of(name);
        assert(0 <= i < registry.names.len() && registry.names[i] == name);
    } else {
        let n = registry.names.len() as int;
        assert(after.names[n] == name);
        assert(after.names.contains(name));
        let i = after.names.index_of(name);
        assert(0 <= i < after.names.len() && after.names[i] == name);
        assert(i == n);
        assert forall|other: Seq<char>| other != name implies (after.names.contains(other)
            <==> registry.names.contains(other)) by {
            if registry.names.contains(other) {
                let k = choose|k: int| 0 <= k < registry.names.len() && registry.names[k] == other;
                assert(after.names[k] == other);
            }
            if after.names.contains(other) {
                let k = choose|k: int| 0 <= k < after.names.len() && after.names[k] == other;
                assert(k < n);
                assert(registry.names[k] == other);
            }
        }
    }
}

/// Striking a name keeps a registry valid, and afterwards the name is not
/// registered; everybody else stays.
pub proof fn lemma_unregister_keeps_valid(registry: Registry, name: Seq<char>)
    requires
        registry.valid(),
    ensures
        registry.unregister(name).valid(),
        !registry.unregister(name).names.contains(name),
        forall|other: Seq<char>|
            other != name ==> (registry.unregister(name).names.contains(other)
                <==> registry.names.contains(other)),
{
    let after = registry.unregister(name);
    if registry.names.contains(name) {
        let i = registry.names.index_of(name);
        assert(0 <= i < registry.names.len() && registry.names[i] == name);
        assert forall|k: int| 0 <= k < after.names.len() implies after.names[k] != name by {
            if k < i {
                assert(after.names[k] == registry.names[k]);
            } else {
                assert(after.names[k] == registry.names[k + 1]);
            }
        }
        assert forall|a: int, b: int| 0 <= a < b < after.names.len() implies after.names[a]
            != after.names[b] by {
            let a0 = if a < i { a } else { a + 1 };
            let b0 = if b < i { b } else { b + 1 };
            assert(after.names[a] == registry.names[a0]);
            assert(after.names[b] == registry.names[b0]);
        }
        assert forall|other: Seq<char>| other != name implies (after.names.contains(other)
            <==> registry.names.contains(other)) by {
            if registry.names.contains(other) {
                let k = choose|k: int| 0 <= k < registry.names.len() && registry.names[k] == other;
                let k1 = if k < i { k } else { k - 1 };
                assert(after.names[k1] == other);
            }
            if after.names.contains(other) {
                let k = choose|k: int| 0 <= k < after.names.len() && after.names[k] == other;
                let k0 = if k < i { k } else { k + 1 };
                assert(registry.names[k0] == other);
            }
        }
    }
}

/// Striking a name that is not registered changes nothing, so striking a name
/// a second time changes nothing either.
pub proof fn lemma_unregister_is_idempotent(registry: Registry, name: Seq<char>)
    requires
        registry.valid(),
    ensures
        !registry.names.contains(name) ==> registry.unregister(name) == registry,
        registry.unregister(name).unregister(name) == registry.unregister(name),
{
    lemma_unregister_keeps_valid(registry, name);
}

} // verus!
