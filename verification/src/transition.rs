//! Listener hand-over at a screen transition: every handle that the incoming
//! screen has no use for is detached before any handle is attached, so that
//! no two sets of listeners are ever attached at once.

use vstd::prelude::*;
use crate::registry::{EventKind, ListenerHandle, ListenerRegistry, RegistryModel};
use crate::Screen;

verus! {

/// The handle to detach for `kind` on the way to `to`: the one attached, if
/// `to` does not listen to the kind.
pub open spec fn stale(registry: RegistryModel, kind: EventKind, to: Screen) -> Seq<ListenerHandle> {
    if registry.is_attached(kind) && !to.listens(kind) {
        seq![registry.handle_of(kind)]
    } else {
        seq![]
    }
}

/// The registry once the stale handle of `kind` is detached.
pub open spec fn released(registry: RegistryModel, kind: EventKind, to: Screen) -> RegistryModel {
    if registry.is_attached(kind) && !to.listens(kind) {
        registry.detach(registry.handle_of(kind))
    } else {
        registry
    }
}

/// The handle to attach for `kind` on the way to `to`: a fresh one, if `to`
/// listens to the kind and none is attached.
pub open spec fn missing(registry: RegistryModel, kind: EventKind, to: Screen) -> Seq<ListenerHandle> {
    if to.listens(kind) && !registry.is_attached(kind) {
        seq![registry.fresh(kind)]
    } else {
        seq![]
    }
}

/// The registry once the missing handle of `kind` is attached.
pub open spec fn acquired(registry: RegistryModel, kind: EventKind, to: Screen) -> RegistryModel {
    if to.listens(kind) && !registry.is_attached(kind) {
        registry.attach(kind).0
    } else {
        registry
    }
}

/// The registry once every stale handle is detached, in the order pointer
/// move, pointer press, key: the point of a hand-over at which the outgoing
/// screen has let go and the incoming one has not attached anything yet.
pub open spec fn cleared(registry: RegistryModel, to: Screen) -> RegistryModel {
    let r1 = released(registry, EventKind::PointerMove, to);
    let r2 = released(r1, EventKind::PointerDown, to);
    released(r2, EventKind::KeyDown, to)
}

/// The handles that clearing detaches, in the order of detaching.
pub open spec fn dropped(registry: RegistryModel, to: Screen) -> Seq<ListenerHandle> {
    let r1 = released(registry, EventKind::PointerMove, to);
    let r2 = released(r1, EventKind::PointerDown, to);
    stale(registry, EventKind::PointerMove, to) + stale(r1, EventKind::PointerDown, to) + stale(
        r2,
        EventKind::KeyDown,
        to,
    )
}

/// The registry once every missing handle is attached, in the order pointer
/// move, pointer press, key.
pub open spec fn equipped(registry: RegistryModel, to: Screen) -> RegistryModel {
    let a1 = acquired(registry, EventKind::PointerMove, to);
    let a2 = acquired(a1, EventKind::PointerDown, to);
    acquired(a2, EventKind::KeyDown, to)
}

/// The handles that equipping attaches, in the order of attaching.
pub open spec fn gained(registry: RegistryModel, to: Screen) -> Seq<ListenerHandle> {
    let a1 = acquired(registry, EventKind::PointerMove, to);
    let a2 = acquired(a1, EventKind::PointerDown, to);
    missing(registry, EventKind::PointerMove, to) + missing(a1, EventKind::PointerDown, to) + missing(
        a2,
        EventKind::KeyDown,
        to,
    )
}

/// A registry after a hand-over, with the handles that left and came.
pub struct Rewired {
    pub registry: RegistryModel,
    /// The handles detached, in the order of detaching.
    pub detached: Seq<ListenerHandle>,
    /// The handles attached, in the order of attaching.
    pub attached: Seq<ListenerHandle>,
}

/// The hand-over of `registry` to the screen `to`: first every handle that
/// `to` has no use for is detached, then every handle that `to` lacks is
/// attached. A handle that `to` can use stays.
pub open spec fn rewired(registry: RegistryModel, to: Screen) -> Rewired {
    Rewired {
        registry: equipped(cleared(registry, to), to),
        detached: dropped(registry, to),
        attached: gained(cleared(registry, to), to),
    }
}

/// Releasing `kind` leaves the kind attached only if `to` listens to it, and
/// leaves every other kind as it was.
proof fn lemma_released_kinds(registry: RegistryModel, kind: EventKind, to: Screen, other: EventKind)
    ensures
        released(registry, kind, to).is_attached(other) == if other == kind {
            registry.is_attached(kind) && to.listens(kind)
        } else {
            registry.is_attached(other)
        },
{
}

/// Acquiring `kind` attaches the kind if `to` listens to it, and leaves every
/// other kind as it was.
proof fn lemma_acquired_kinds(registry: RegistryModel, kind: EventKind, to: Screen, other: EventKind)
    ensures
        acquired(registry, kind, to).is_attached(other) == if other == kind {
            registry.is_attached(kind) || to.listens(kind)
        } else {
            registry.is_attached(other)
        },
{
}

/// Before a hand-over attaches anything, no listener is left that the
/// incoming screen has no use for: the listeners of two screens are never
/// attached together.
pub proof fn lemma_cleared_before_attaching(registry: RegistryModel, to: Screen, kind: EventKind)
    ensures
        cleared(registry, to).is_attached(kind) == (registry.is_attached(kind) && to.listens(kind)),
{
    let r1 = released(registry, EventKind::PointerMove, to);
    let r2 = released(r1, EventKind::PointerDown, to);
    lemma_released_kinds(registry, EventKind::PointerMove, to, kind);
    lemma_released_kinds(r1, EventKind::PointerDown, to, kind);
    lemma_released_kinds(r2, EventKind::KeyDown, to, kind);
}

/// After a hand-over to `to`, whatever was attached before, a listener is
/// attached for exactly the kinds of events that `to` listens to.
pub proof fn lemma_rewired_listens(registry: RegistryModel, to: Screen, kind: EventKind)
    ensures
        rewired(registry, to).registry.is_attached(kind) == to.listens(kind),
{
    let r3 = cleared(registry, to);
    let a1 = acquired(r3, EventKind::PointerMove, to);
    let a2 = acquired(a1, EventKind::PointerDown, to);
    lemma_cleared_before_attaching(registry, to, kind);
    lemma_acquired_kinds(r3, EventKind::PointerMove, to, kind);
    lemma_acquired_kinds(a1, EventKind::PointerDown, to, kind);
    lemma_acquired_kinds(a2, EventKind::KeyDown, to, kind);
}

/// A hand-over to a screen whose listeners are the ones attached changes
/// nothing: no handle leaves and none comes.
pub proof fn lemma_rewired_in_place(registry: RegistryModel, to: Screen)
    requires
        forall|kind: EventKind| registry.is_attached(kind) == to.listens(kind),
    ensures
        rewired(registry, to).registry == registry,
        rewired(registry, to).detached == Seq::<ListenerHandle>::empty(),
        rewired(registry, to).attached == Seq::<ListenerHandle>::empty(),
{
    assert(rewired(registry, to).detached =~= Seq::<ListenerHandle>::empty());
    assert(rewired(registry, to).attached =~= Seq::<ListenerHandle>::empty());
}

fn release(registry: &mut ListenerRegistry, kind: EventKind, to: Screen, detached: &mut Vec<ListenerHandle>)
    ensures
        final(registry)@ == released(old(registry)@, kind, to),
        final(detached)@ == old(detached)@ + stale(old(registry)@, kind, to),
{
    if !to.listens(kind) {
        match registry.handle_of(kind) {
            Some(handle) => {
                registry.detach(handle);
                detached.push(handle);
            },
            None => {},
        }
    }
    assert(detached@ =~= old(detached)@ + stale(old(registry)@, kind, to));
}

fn acquire(registry: &mut ListenerRegistry, kind: EventKind, to: Screen, attached: &mut Vec<ListenerHandle>)
    ensures
        final(registry)@ == acquired(old(registry)@, kind, to),
        final(attached)@ == old(attached)@ + missing(old(registry)@, kind, to),
{
    if to.listens(kind) && !registry.is_attached(kind) {
        match registry.attach(kind) {
            Ok(handle) => {
                attached.push(handle);
            },
            Err(_) => {
                // The kind is free, so attaching cannot be refused.
                assert(false);
            },
        }
    }
    assert(attached@ =~= old(attached)@ + missing(old(registry)@, kind, to));
}

/// Detaches every handle of `registry` that the screen `to` has no use for,
/// and returns these handles.
pub fn release_all(registry: &mut ListenerRegistry, to: Screen) -> (detached: Vec<ListenerHandle>)
    ensures
        final(registry)@ == cleared(old(registry)@, to),
        detached@ == dropped(old(registry)@, to),
{
    let mut detached: Vec<ListenerHandle> = Vec::new();
    release(registry, EventKind::PointerMove, to, &mut detached);
    release(registry, EventKind::PointerDown, to, &mut detached);
    release(registry, EventKind::KeyDown, to, &mut detached);
    assert(detached@ =~= dropped(old(registry)@, to));
    detached
}

/// Attaches every handle that the screen `to` lacks in `registry`, and
/// returns these handles.
pub fn acquire_all(registry: &mut ListenerRegistry, to: Screen) -> (attached: Vec<ListenerHandle>)
    ensures
        final(registry)@ == equipped(old(registry)@, to),
        attached@ == gained(old(registry)@, to),
{
    let mut attached: Vec<ListenerHandle> = Vec::new();
    acquire(registry, EventKind::PointerMove, to, &mut attached);
    acquire(registry, EventKind::PointerDown, to, &mut attached);
    acquire(registry, EventKind::KeyDown, to, &mut attached);
    assert(attached@ =~= gained(old(registry)@, to));
    attached
}

} // verus!
