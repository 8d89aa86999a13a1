//! The registry of the one connection pool of a process.
//!
//! The registry is an explicit object with a single-assignment slot: it is
//! created empty, filled once, and read by every cache operation after
//! that. It is never emptied again.

use vstd::prelude::*;

use crate::error::CacheError;

verus! {

/// Holds at most one pool of type `P`. Its value is the pool that it holds,
/// if any.
#[derive(Debug)]
pub struct PoolRegistry<P> {
    slot: Option<P>,
}

impl<P> View for PoolRegistry<P> {
    type V = Option<P>;

    closed spec fn view(&self) -> Option<P> {
        self.slot
    }
}

/// What initialising a registry that holds `slot` with `pool` leaves in the
/// registry: the pool that was there first.
pub open spec fn slot_after_initialize<P>(slot: Option<P>, pool: P) -> Option<P> {
    match slot {
        Some(retained) => Some(retained),
        None => Some(pool),
    }
}

/// What initialising a registry that holds `slot` returns: success on an
/// empty registry, `AlreadyInitialized` on any other.
pub open spec fn initialize_result<P>(slot: Option<P>) -> Result<(), CacheError> {
    match slot {
        Some(_) => Err(CacheError::AlreadyInitialized),
        None => Ok(()),
    }
}

/// What looking up the pool of a registry that holds `slot` returns: the
/// pool, or `NotInitialized` on an empty registry.
pub open spec fn lookup_result<P>(slot: Option<P>) -> Result<P, CacheError> {
    match slot {
        Some(pool) => Ok(pool),
        None => Err(CacheError::NotInitialized),
    }
}

impl<P> PoolRegistry<P> {
    /// An empty registry.
    pub fn new() -> (registry: Self)
        ensures
            registry@ is None,
    {
        PoolRegistry { slot: None }
    }

    /// Stores `pool` as the pool of the process. A registry that already
    /// holds a pool keeps it, drops `pool` and reports `AlreadyInitialized`.
    pub fn initialize(&mut self, pool: P) -> (stored: Result<(), CacheError>)
        ensures
            final(self)@ == slot_after_initialize(old(self)@, pool),
            stored == initialize_result(old(self)@),
    {
        if self.slot.is_some() {
            Err(CacheError::AlreadyInitialized)
        } else {
            self.slot = Some(pool);
            Ok(())
        }
    }

    /// The pool of the process, from which the caller leases a connection.
    /// Fails with `NotInitialized` before the first `initialize`.
    pub fn pool(&self) -> (found: Result<&P, CacheError>)
        ensures
            match found {
                Ok(pool) => lookup_result(self@) == Ok::<P, CacheError>(*pool),
                Err(error) => lookup_result(self@) == Err::<P, CacheError>(error),
            },
    {
        match &self.slot {
            Some(pool) => Ok(pool),
            None => Err(CacheError::NotInitialized),
        }
    }

    /// Whether the registry holds a pool.
    pub fn is_initialized(&self) -> (initialized: bool)
        ensures
            initialized == (self@ is Some),
    {
        self.slot.is_some()
    }
}

/// Initialisation takes effect once: of two calls on an empty registry the
/// first succeeds and its pool is retained, the second fails with
/// `AlreadyInitialized` and changes nothing, and a lookup after either call
/// finds the first pool.
pub proof fn lemma_initialize_takes_effect_once<P>(first: P, second: P)
    ensures
        initialize_result(None::<P>) == Ok::<(), CacheError>(()),
        slot_after_initialize(None::<P>, first) == Some(first),
        initialize_result(slot_after_initialize(None::<P>, first)) == Err::<(), CacheError>(
            CacheError::AlreadyInitialized,
        ),
        slot_after_initialize(slot_after_initialize(None::<P>, first), second) == Some(first),
        lookup_result(slot_after_initialize(None::<P>, first)) == Ok::<P, CacheError>(first),
        lookup_result(slot_after_initialize(slot_after_initialize(None::<P>, first), second))
            == Ok::<P, CacheError>(first),
{
}

/// However often a registry is initialised, the pool that it holds is the
/// one that it held first: a registry that holds a pool is changed by no
/// further initialisation, and every such call fails.
pub proof fn lemma_initialized_registry_is_stable<P>(slot: Option<P>, pool: P)
    requires
        slot is Some,
    ensures
        slot_after_initialize(slot, pool) == slot,
        initialize_result(slot) == Err::<(), CacheError>(CacheError::AlreadyInitialized),
{
}

} // verus!
