//! The registry: for each key, the calls logged under it, oldest first.

use vstd::prelude::*;
use vstd::hash_map::StringHashMap;
use crate::assertion::{Assertion, ChainView};
use crate::call::{log_text, CallInfo, CallLog, CallView};

verus! {

/// What a registry is: the keys that were logged to, each with its calls,
/// oldest first.
pub type Logs = Map<Seq<char>, Seq<CallView>>;

/// The calls logged under `key`: none for a key that was never logged to.
pub open spec fn calls_of(logs: Logs, key: Seq<char>) -> Seq<CallView> {
    if logs.contains_key(key) {
        logs[key]
    } else {
        Seq::empty()
    }
}

/// The registry after one more call under `key`: the call stands at the end
/// of that key's log, and nothing else has changed.
pub open spec fn logged(logs: Logs, key: Seq<char>, call: CallView) -> Logs {
    logs.insert(key, calls_of(logs, key).push(call))
}

/// The snapshot that a chain of checks on `key` is bound to.
pub open spec fn snapshot(logs: Logs, key: Seq<char>) -> ChainView {
    ChainView { key, calls: calls_of(logs, key) }
}

/// The registry of calls. Keys are compared letter by letter; a key's log
/// comes to be with the first call logged under it, and goes only when the
/// whole registry is cleared.
pub struct Tracker {
    /// For each key, the place of its log in `logs`.
    index: StringHashMap<usize>,
    /// The logs, in the order in which their keys were first logged to.
    logs: Vec<CallLog>,
}

impl View for Tracker {
    type V = Logs;

    closed spec fn view(&self) -> Logs {
        Map::new(
            |key: Seq<char>| self.index@.contains_key(key),
            |key: Seq<char>| self.logs@[self.index@[key] as int]@,
        )
    }
}

impl Tracker {
    /// Every key has a log of its own.
    #[verifier::type_invariant]
    spec fn well_formed(self) -> bool {
        &&& forall|key: Seq<char>| #[trigger]
            self.index@.contains_key(key) ==> self.index@[key] < self.logs.len()
        &&& forall|a: Seq<char>, b: Seq<char>|
            #[trigger] self.index@.contains_key(a) && #[trigger] self.index@.contains_key(b)
                && self.index@[a] == self.index@[b] ==> a == b
    }

    /// A registry with no key.
    pub fn new() -> (tracker: Tracker)
        ensures
            tracker@ == Logs::empty(),
    {
        let tracker = Tracker { index: StringHashMap::new(), logs: Vec::new() };
        assert(tracker@ =~= Logs::empty());
        tracker
    }

    /// Starts a chain of checks on `key`, over a snapshot of its log: calls
    /// logged later do not reach the chain. A key that was never logged to has
    /// the empty log.
    pub fn assert_that(&self, key: &str) -> (chain: Assertion)
        ensures
            chain@ == snapshot(self@, key@),
    {
        proof {
            use_type_invariant(self);
        }
        let log = match self.index.get(key) {
            Some(place) => self.logs[*place].snapshot(),
            None => CallLog::new(),
        };
        Assertion::new(key.to_owned(), log)
    }

    /// The calls logged under `key`, oldest first, where it was ever logged
    /// to.
    pub fn calls(&self, key: &str) -> (log: Option<&CallLog>)
        ensures
            log.is_some() == self@.contains_key(key@),
            log.is_some() ==> log.unwrap()@ == self@[key@],
    {
        proof {
            use_type_invariant(self);
        }
        match self.index.get(key) {
            Some(place) => Some(&self.logs[*place]),
            None => None,
        }
    }

    /// The log of `key` in words, where it was ever logged to.
    pub fn debug_dump(&self, key: &str) -> (text: Option<String>)
        ensures
            text.is_some() == self@.contains_key(key@),
            text.is_some() ==> text.unwrap()@ == log_text(self@[key@]),
    {
        match self.calls(key) {
            Some(log) => Some(log.describe()),
            None => None,
        }
    }

    /// Logs one call under `key`, after those already logged under it.
    pub fn log_call(&mut self, key: &str, call_info: CallInfo)
        ensures
            final(self)@ == logged(old(self)@, key@, call_info@),
    {
        let ghost call = call_info@;
        let mut taken = Tracker::new();
        core::mem::swap(self, &mut taken);
        proof {
            use_type_invariant(&taken);
        }
        let Tracker { mut index, mut logs } = taken;
        let found = match index.get(key) {
            Some(place) => Some(*place),
            None => None,
        };
        match found {
            Some(place) => {
                logs[place].append(call_info);
            },
            None => {
                let place = logs.len();
                let mut log = CallLog::new();
                log.append(call_info);
                logs.push(log);
                index.insert(key.to_owned(), place);
            },
        }
        *self = Tracker { index, logs };
        assert(self@ =~= logged(old(self)@, key@, call));
    }

    /// Forgets every key and every call.
    pub fn clear(&mut self)
        ensures
            final(self)@ == Logs::empty(),
    {
        *self = Tracker::new();
    }
}

} // verus!
