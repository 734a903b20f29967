//! The listener registry: which host event subscriptions are attached. It
//! holds at most one handle for each kind of event.

use vstd::prelude::*;
use crate::error::EngineError;

verus! {

/// The kinds of host events that a screen can subscribe to.
#[derive(Debug, Clone, Copy, PartialEq, Eq, Hash, Structural)]
pub enum EventKind {
    PointerMove,
    PointerDown,
    KeyDown,
}

/// The token for one attached subscription.
#[derive(Debug, Clone, Copy, PartialEq, Eq, Hash, Structural)]
pub struct ListenerHandle {
    pub kind: EventKind,
    /// Tells this subscription from earlier ones of the same kind.
    pub serial: u64,
}

/// The value of a [`ListenerRegistry`].
pub struct RegistryModel {
    /// The serial of the handle attached for each kind that has one.
    pub attached: Map<EventKind, u64>,
    /// The serial that the next handle gets.
    pub next_serial: u64,
}

impl RegistryModel {
    /// The registry with nothing attached.
    pub open spec fn empty() -> RegistryModel {
        RegistryModel { attached: Map::empty(), next_serial: 0 }
    }

    /// A handle for `kind` is attached.
    pub open spec fn is_attached(self, kind: EventKind) -> bool {
        self.attached.contains_key(kind)
    }

    /// The handle attached for `kind`, where one is.
    pub open spec fn handle_of(self, kind: EventKind) -> ListenerHandle {
        ListenerHandle { kind, serial: self.attached[kind] }
    }

    /// `handle` is the one attached for its kind.
    pub open spec fn holds(self, handle: ListenerHandle) -> bool {
        self.is_attached(handle.kind) && self.handle_of(handle.kind) == handle
    }

    /// The handle that the next attaching of `kind` returns.
    pub open spec fn fresh(self, kind: EventKind) -> ListenerHandle {
        ListenerHandle { kind, serial: self.next_serial }
    }

    /// The serial after `next_serial`; after the largest comes zero again.
    pub open spec fn following_serial(self) -> u64 {
        if self.next_serial == u64::MAX {
            0
        } else {
            (self.next_serial + 1) as u64
        }
    }

    /// Attaching `kind`: refused, and nothing changed, while a handle for the
    /// kind is attached; else the fresh handle is attached and returned.
    pub open spec fn attach(self, kind: EventKind) -> (RegistryModel, Result<ListenerHandle, EngineError>) {
        if self.is_attached(kind) {
            (self, Err(EngineError::ListenerAlreadyAttached))
        } else {
            (
                RegistryModel {
                    attached: self.attached.insert(kind, self.next_serial),
                    next_serial: self.following_serial(),
                },
                Ok(self.fresh(kind)),
            )
        }
    }

    /// Detaching `handle`: its kind is free again if the handle was the one
    /// attached; any other handle changes nothing.
    pub open spec fn detach(self, handle: ListenerHandle) -> RegistryModel {
        if self.holds(handle) {
            RegistryModel { attached: self.attached.remove(handle.kind), ..self }
        } else {
            self
        }
    }
}

/// Attaching a kind twice with no detaching in between fails the second
/// time, whatever the first attempt returned, and the failed attempt changes
/// nothing.
pub proof fn lemma_second_attach_fails(registry: RegistryModel, kind: EventKind)
    ensures
        registry.attach(kind).0.attach(kind).1 == Err::<ListenerHandle, EngineError>(
            EngineError::ListenerAlreadyAttached,
        ),
        registry.attach(kind).0.attach(kind).0 == registry.attach(kind).0,
{
}

/// Detaching a handle a second time changes nothing.
pub proof fn lemma_detach_idempotent(registry: RegistryModel, handle: ListenerHandle)
    ensures
        registry.detach(handle).detach(handle) == registry.detach(handle),
{
}

/// Detaching a handle that is not attached changes nothing.
pub proof fn lemma_detach_unknown(registry: RegistryModel, handle: ListenerHandle)
    requires
        !registry.holds(handle),
    ensures
        registry.detach(handle) == registry,
{
}

/// A handle that was detached stays unknown to the registry when its kind is
/// attached anew: the new handle is another one.
pub proof fn lemma_detached_handle_stays_stale(registry: RegistryModel, kind: EventKind)
    requires
        !registry.is_attached(kind),
    ensures
        ({
            let (first, handle) = registry.attach(kind);
            let (second, _) = first.detach(handle->Ok_0).attach(kind);
            handle is Ok && !second.holds(handle->Ok_0) && second.is_attached(kind)
        }),
{
}

/// Which host event subscriptions are attached.
#[derive(Debug, Clone, Copy, PartialEq, Eq)]
pub struct ListenerRegistry {
    pointer_move: Option<u64>,
    pointer_down: Option<u64>,
    key_down: Option<u64>,
    next_serial: u64,
}

impl ListenerRegistry {
    /// The serial of the handle attached for `kind`, if there is one.
    closed spec fn slot(&self, kind: EventKind) -> Option<u64> {
        match kind {
            EventKind::PointerMove => self.pointer_move,
            EventKind::PointerDown => self.pointer_down,
            EventKind::KeyDown => self.key_down,
        }
    }
}

impl View for ListenerRegistry {
    type V = RegistryModel;

    closed spec fn view(&self) -> RegistryModel {
        RegistryModel {
            attached: Map::new(
                |kind: EventKind| self.slot(kind) is Some,
                |kind: EventKind| self.slot(kind).unwrap(),
            ),
            next_serial: self.next_serial,
        }
    }
}

impl ListenerRegistry {
    /// The registry with nothing attached.
    pub fn new() -> (registry: ListenerRegistry)
        ensures
            registry@ == RegistryModel::empty(),
    {
        let registry = ListenerRegistry {
            pointer_move: None,
            pointer_down: None,
            key_down: None,
            next_serial: 0,
        };
        assert(registry@.attached =~= Map::<EventKind, u64>::empty());
        registry
    }

    /// Whether a handle for `kind` is attached.
    pub fn is_attached(&self, kind: EventKind) -> (attached: bool)
        ensures
            attached == self@.is_attached(kind),
    {
        match kind {
            EventKind::PointerMove => self.pointer_move.is_some(),
            EventKind::PointerDown => self.pointer_down.is_some(),
            EventKind::KeyDown => self.key_down.is_some(),
        }
    }

    /// The handle attached for `kind`, if there is one.
    pub fn handle_of(&self, kind: EventKind) -> (handle: Option<ListenerHandle>)
        ensures
            handle == if self@.is_attached(kind) {
                Some(self@.handle_of(kind))
            } else {
                None
            },
    {
        let slot = match kind {
            EventKind::PointerMove => self.pointer_move,
            EventKind::PointerDown => self.pointer_down,
            EventKind::KeyDown => self.key_down,
        };
        match slot {
            Some(serial) => Some(ListenerHandle { kind, serial }),
            None => None,
        }
    }

    /// Attaches a listener for `kind` and returns its handle; fails, and
    /// changes nothing, while one for the kind is attached.
    pub fn attach(&mut self, kind: EventKind) -> (outcome: Result<ListenerHandle, EngineError>)
        ensures
            (final(self)@, outcome) == old(self)@.attach(kind),
    {
        if self.is_attached(kind) {
            return Err(EngineError::ListenerAlreadyAttached);
        }
        let serial = self.next_serial;
        match kind {
            EventKind::PointerMove => {
                self.pointer_move = Some(serial);
            },
            EventKind::PointerDown => {
                self.pointer_down = Some(serial);
            },
            EventKind::KeyDown => {
                self.key_down = Some(serial);
            },
        }
        self.next_serial = serial.wrapping_add(1);
        assert(self@.attached =~= old(self)@.attach(kind).0.attached);
        Ok(ListenerHandle { kind, serial })
    }

    /// Detaches `handle`. A handle that is not attached, because it was
    /// detached before or never came from this registry, changes nothing.
    pub fn detach(&mut self, handle: ListenerHandle)
        ensures
            final(self)@ == old(self)@.detach(handle),
    {
        match self.handle_of(handle.kind) {
            Some(held) => {
                if held == handle {
                    match handle.kind {
                        EventKind::PointerMove => {
                            self.pointer_move = None;
                        },
                        EventKind::PointerDown => {
                            self.pointer_down = None;
                        },
                        EventKind::KeyDown => {
                            self.key_down = None;
                        },
                    }
                    assert(self@.attached =~= old(self)@.detach(handle).attached);
                }
            },
            None => {},
        }
    }
}

} // verus!
