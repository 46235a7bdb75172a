//! A registry that many holders log to and ask at once.
//!
//! One lock guards the whole registry, and there is no second lock around
//! each log. An operation holds the lock for one lookup and one append, or
//! one lookup and one copy, and gives it back before it returns. A chain of
//! checks reads the copy it was given and holds no lock at all, so checks on
//! one key never wait for calls logged under another. With one lock, what it
//! hands out is the registry whose operations are proved; a lock around each
//! log would put the logs where nothing can be proved of them.

use std::sync::Arc;
use vstd::prelude::*;
use crate::assertion::Assertion;
use crate::call::{log_text, CallInfo, CallView};
use crate::tracker::Tracker;

verus! {

/// `lock_api::Mutex`, the lock that `parking_lot::Mutex` is an alias of:
/// carried through, with nothing known of what it guards.
#[verifier::external_type_specification]
#[verifier::external_body]
#[verifier::reject_recursive_types(R)]
#[verifier::reject_recursive_types(T)]
pub struct ExMutex<R, T: ?Sized>(lock_api::Mutex<R, T>);

/// `parking_lot::RawMutex`: the lock's own state.
#[verifier::external_type_specification]
#[verifier::external_body]
pub struct ExRawMutex(parking_lot::RawMutex);

/// The lock held: a `parking_lot::MutexGuard`, which gives the lock back
/// when it is dropped. Its bound on the lock's own state keeps it from being
/// declared as the lock is, so it is kept out of sight here.
#[verifier::external_body]
struct Held<'a> {
    guard: parking_lot::MutexGuard<'a, Tracker>,
}

/// `parking_lot::Mutex::new`: a lock around `registry`. Nothing is claimed of
/// it.
#[verifier::external_body]
fn guarded(registry: Tracker) -> (mutex: parking_lot::Mutex<Tracker>) {
    parking_lot::Mutex::new(registry)
}

/// `parking_lot::Mutex::lock`: waits for the lock and holds it until the
/// guard is dropped. Nothing is claimed of the registry behind it: other
/// holders may have logged to it or cleared it. A thread that holds the lock
/// must not ask for it again; every operation here gives it back before it
/// returns, and no guard leaves this file.
#[verifier::external_body]
fn lock<'a>(mutex: &'a parking_lot::Mutex<Tracker>) -> (held: Held<'a>) {
    Held { guard: mutex.lock() }
}

/// `MutexGuard::deref`: the registry behind a held lock, to read.
#[verifier::external_body]
fn read<'a, 'b>(held: &'b Held<'a>) -> (registry: &'b Tracker) {
    &*held.guard
}

/// `MutexGuard::deref_mut`: the registry behind a held lock, to change.
#[verifier::external_body]
fn change<'a, 'b>(held: &'b mut Held<'a>) -> (registry: &'b mut Tracker) {
    &mut *held.guard
}

/// A registry behind a lock. Every holder of a handle may log and ask; each
/// operation holds the lock from its first look at the registry to its last,
/// so that no call is lost and no chain sees half a record.
pub struct SharedTracker {
    registry: parking_lot::Mutex<Tracker>,
}

impl SharedTracker {
    /// A handle to a new registry with no key.
    pub fn new() -> (handle: Arc<SharedTracker>) {
        Arc::new(SharedTracker { registry: guarded(Tracker::new()) })
    }

    /// Starts a chain of checks on `key`, over a snapshot of its log as it is
    /// while the lock is held.
    pub fn assert_that(&self, key: &str) -> (chain: Assertion)
        ensures
            chain@.key == key@,
    {
        let held = lock(&self.registry);
        read(&held).assert_that(key)
    }

    /// The log of `key` in words, as it is while the lock is held, where the
    /// key was ever logged to. Which calls the log holds then is for the
    /// holders of the handle to know; the text is that of a log.
    pub fn debug_dump(&self, key: &str) -> (text: Option<String>)
        ensures
            text.is_some() ==> exists|calls: Seq<CallView>| text.unwrap()@ == log_text(calls),
    {
        let held = lock(&self.registry);
        let registry = read(&held);
        let text = registry.debug_dump(key);
        assert(text.is_some() ==> text.unwrap()@ == log_text(registry@[key@]));
        text
    }

    /// Logs one call under `key`, after those already logged under it.
    pub fn log_call(&self, key: &str, call_info: CallInfo) {
        let mut held = lock(&self.registry);
        change(&mut held).log_call(key, call_info);
    }

    /// Forgets every key and every call.
    pub fn clear(&self) {
        let mut held = lock(&self.registry);
        change(&mut held).clear();
    }
}

} // verus!
