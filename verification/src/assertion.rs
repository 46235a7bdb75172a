//! The chain of checks on one key: first how often it was called, then with
//! which arguments and what it returned.
//!
//! A chain holds a snapshot of the key's log. Each check reads the whole
//! snapshot anew and changes nothing; a check that holds hands the snapshot
//! on, one that fails ends the chain with a `Failure`.

use vstd::prelude::*;
use crate::call::{call_views, CallInfo, CallLog, CallView, Probe, Slot};
use crate::failure::{Failure, FailureKind};
use crate::payload::{Payload, PayloadView};

verus! {

/// What a chain is bound to: a key and the calls logged under it, oldest
/// first.
pub struct ChainView {
    pub key: Seq<char>,
    pub calls: Seq<CallView>,
}

/// Whether the probe at `i` settles a scan: it is the first that is not
/// `Different`.
pub open spec fn settles_at(probes: Seq<Probe>, i: int) -> bool {
    &&& 0 <= i < probes.len()
    &&& probes[i] != Probe::Different
    &&& forall|j: int| 0 <= j < i ==> probes[j] == Probe::Different
}

/// The probe that settles a scan, or `Different` where none does.
pub open spec fn settled(probes: Seq<Probe>) -> Probe {
    if exists|i: int| settles_at(probes, i) {
        probes[choose|i: int| settles_at(probes, i)]
    } else {
        Probe::Different
    }
}

/// What a look at `slot` of each call for `expected` finds, call by call.
pub open spec fn probes(calls: Seq<CallView>, slot: Slot, expected: PayloadView) -> Seq<Probe> {
    Seq::new(calls.len(), |i: int| calls[i].probe(slot, expected))
}

/// Whether some call has `expected` in `slot`: a value of the same type that
/// is equal to it.
pub open spec fn some_call_has(calls: Seq<CallView>, slot: Slot, expected: PayloadView) -> bool {
    exists|i: int| 0 <= i < calls.len() && #[trigger] calls[i].probe(slot, expected) == Probe::Equal
}

/// What a search of `calls` for `expected` finds: `Equal` where some call
/// has it, wherever in the log that call stands; else what the oldest call
/// shows that does not hold another value of the expected type; else
/// `Different`.
pub open spec fn finding(calls: Seq<CallView>, slot: Slot, expected: PayloadView) -> Probe {
    if some_call_has(calls, slot, expected) {
        Probe::Equal
    } else {
        settled(probes(calls, slot, expected))
    }
}

impl ChainView {
    /// Why "called exactly once" fails, if it does.
    pub open spec fn once_failure(self) -> Option<FailureKind> {
        if self.calls.len() == 0 {
            Some(FailureKind::NotCalled)
        } else if self.calls.len() == 1 {
            None
        } else {
            Some(FailureKind::CalledMoreThanOnce { actual: self.calls.len() as usize })
        }
    }

    /// Why "called exactly `n` times" fails, if it does. A key that was never
    /// called fails it for every `n`, zero too.
    pub open spec fn times_failure(self, n: usize) -> Option<FailureKind> {
        if self.calls.len() == 0 {
            Some(FailureKind::NeverCalled { expected: n })
        } else if self.calls.len() < n {
            Some(FailureKind::CalledFewer { expected: n, actual: self.calls.len() as usize })
        } else if self.calls.len() == n {
            None
        } else {
            Some(FailureKind::CalledMore { expected: n, actual: self.calls.len() as usize })
        }
    }

    /// Why "never called" fails, if it does.
    pub open spec fn uncalled_failure(self) -> Option<FailureKind> {
        if self.calls.len() == 0 {
            None
        } else {
            Some(FailureKind::Called { actual: self.calls.len() as usize })
        }
    }

    /// Why "some call had `expected` in `slot`" fails, if it does. It holds
    /// exactly where some call has the value, whatever the other calls
    /// captured and in whatever order they were logged. Where it fails on a
    /// key that was called, the reason goes by the oldest call that does not
    /// hold another value of the expected type: it captured nothing, or a
    /// value of another type; where every call holds another value of that
    /// type, there is no match.
    pub open spec fn some_failure(self, slot: Slot, expected: PayloadView) -> Option<FailureKind> {
        if self.calls.len() == 0 {
            Some(FailureKind::NotCalled)
        } else {
            match finding(self.calls, slot, expected) {
                Probe::Equal => None,
                Probe::Missing => Some(FailureKind::MissingPayload { slot }),
                Probe::WrongType => Some(FailureKind::TypeMismatch { slot }),
                Probe::Different => Some(FailureKind::NoMatch { slot }),
            }
        }
    }

    /// Why "no call had `unwanted` in `slot`" fails, if it does. It fails
    /// exactly where some call has the value. A call that captured nothing,
    /// or a value of another type, does not have it, so with no call logged,
    /// and with none that captured a value of that type, it holds.
    pub open spec fn none_failure(self, slot: Slot, unwanted: PayloadView) -> Option<FailureKind> {
        if some_call_has(self.calls, slot, unwanted) {
            Some(FailureKind::UnwantedMatch)
        } else {
            None
        }
    }
}

/// Whether `result` is what a check owes whose failure, if it has one, is
/// `failure`: where it holds, the chain handed on unchanged; where it fails,
/// a failure that names the chain's key and says why.
pub open spec fn hands_on(
    chain: ChainView,
    failure: Option<FailureKind>,
    result: Result<MetaAssertion, Failure>,
) -> bool {
    match result {
        Ok(next) => failure.is_none() && next@ == chain,
        Err(f) => failure == Some(f.kind) && f.key@ == chain.key,
    }
}

/// Whether `result` is what the last check of a chain owes whose failure,
/// if it has one, is `failure`.
pub open spec fn ends_with(
    chain: ChainView,
    failure: Option<FailureKind>,
    result: Result<(), Failure>,
) -> bool {
    match result {
        Ok(_) => failure.is_none(),
        Err(f) => failure == Some(f.kind) && f.key@ == chain.key,
    }
}

/// The scan is settled by the one probe at which it settles.
pub(crate) proof fn lemma_settled_is_first(found: Seq<Probe>, c: int)
    requires
        settles_at(found, c),
    ensures
        settled(found) == found[c],
{
    let d = choose|d: int| settles_at(found, d);
    if d < c {
        assert(found[d] == Probe::Different);
    }
    if c < d {
        assert(found[c] == Probe::Different);
    }
}

/// Searches the whole log for `expected`, oldest call first.
fn scan(log: &CallLog, slot: Slot, expected: &Payload) -> (found: Probe)
    ensures
        found == finding(log@, slot, expected@),
{
    let calls = log.calls();
    let ghost each = probes(log@, slot, expected@);
    let mut first = Probe::Different;
    let mut i: usize = 0;
    while i < calls.len()
        invariant
            i <= calls.len(),
            call_views(calls@) == log@,
            each == probes(log@, slot, expected@),
            first != Probe::Equal,
            forall|j: int| 0 <= j < i ==> each[j] != Probe::Equal,
            first == Probe::Different ==> forall|j: int| 0 <= j < i ==> each[j] == Probe::Different,
            first != Probe::Different ==> exists|c: int|
                0 <= c < i && settles_at(each, c) && each[c] == first,
        decreases calls.len() - i,
    {
        let found = calls[i].probe(slot, expected);
        if found == Probe::Equal {
            assert(log@[i as int].probe(slot, expected@) == Probe::Equal);
            return Probe::Equal;
        }
        if first == Probe::Different && found != Probe::Different {
            first = found;
            assert(settles_at(each, i as int));
        }
        i += 1;
    }
    proof {
        assert(!some_call_has(log@, slot, expected@)) by {
            assert forall|j: int| 0 <= j < log@.len() implies #[trigger] log@[j].probe(
                slot,
                expected@,
            ) != Probe::Equal by {
                assert(each[j] != Probe::Equal);
            }
        }
        if first != Probe::Different {
            let c = choose|c: int| 0 <= c < i && settles_at(each, c) && each[c] == first;
            lemma_settled_is_first(each, c);
        } else {
            assert forall|c: int| !settles_at(each, c) by {
                if 0 <= c < each.len() {
                    assert(each[c] == Probe::Different);
                }
            }
        }
    }
    first
}

/// The first link of a chain: checks on how often the key was called.
#[derive(Debug)]
pub struct Assertion {
    key: String,
    log: CallLog,
}

/// The second link of a chain: checks on what the calls were given and what
/// they returned.
#[derive(Debug)]
pub struct MetaAssertion {
    key: String,
    log: CallLog,
}

impl View for Assertion {
    type V = ChainView;

    closed spec fn view(&self) -> ChainView {
        ChainView { key: self.key@, calls: self.log@ }
    }
}

impl View for MetaAssertion {
    type V = ChainView;

    closed spec fn view(&self) -> ChainView {
        ChainView { key: self.key@, calls: self.log@ }
    }
}

impl Assertion {
    /// A chain on `key` over `log`, a snapshot of the calls logged under it.
    pub fn new(key: String, log: CallLog) -> (chain: Assertion)
        ensures
            chain@ == (ChainView { key: key@, calls: log@ }),
    {
        Assertion { key, log }
    }

    /// The key the chain is bound to.
    pub fn key(&self) -> (key: &String)
        ensures
            key@ == self@.key,
    {
        &self.key
    }

    /// The calls in the snapshot, oldest first.
    pub fn calls(&self) -> (calls: &Vec<CallInfo>)
        ensures
            call_views(calls@) == self@.calls,
    {
        self.log.calls()
    }

    /// Holds where exactly one call was logged.
    pub fn was_called_once(self) -> (result: Result<MetaAssertion, Failure>)
        ensures
            hands_on(self@, self@.once_failure(), result),
    {
        let count = self.log.len();
        if count == 0 {
            Err(Failure { key: self.key, kind: FailureKind::NotCalled })
        } else if count != 1 {
            Err(Failure { key: self.key, kind: FailureKind::CalledMoreThanOnce { actual: count } })
        } else {
            Ok(MetaAssertion { key: self.key, log: self.log })
        }
    }

    /// Holds where exactly `n` calls were logged, and at least one: for a key
    /// that was never called, `wasnt_called` is the check that holds.
    pub fn was_called_times(self, n: usize) -> (result: Result<MetaAssertion, Failure>)
        ensures
            hands_on(self@, self@.times_failure(n), result),
    {
        let count = self.log.len();
        if count == 0 {
            Err(Failure { key: self.key, kind: FailureKind::NeverCalled { expected: n } })
        } else if count < n {
            Err(
                Failure {
                    key: self.key,
                    kind: FailureKind::CalledFewer { expected: n, actual: count },
                },
            )
        } else if count != n {
            Err(
                Failure {
                    key: self.key,
                    kind: FailureKind::CalledMore { expected: n, actual: count },
                },
            )
        } else {
            Ok(MetaAssertion { key: self.key, log: self.log })
        }
    }

    /// Holds where no call was logged. Ends the chain.
    pub fn wasnt_called(self) -> (result: Result<(), Failure>)
        ensures
            ends_with(self@, self@.uncalled_failure(), result),
    {
        let count = self.log.len();
        if count == 0 {
            Ok(())
        } else {
            Err(Failure { key: self.key, kind: FailureKind::Called { actual: count } })
        }
    }
}

impl MetaAssertion {
    /// The second link of a chain on `key` over `log`, for a caller that has
    /// counted the calls itself.
    pub fn new(key: String, log: CallLog) -> (chain: MetaAssertion)
        ensures
            chain@ == (ChainView { key: key@, calls: log@ }),
    {
        MetaAssertion { key, log }
    }

    /// The key the chain is bound to.
    pub fn key(&self) -> (key: &String)
        ensures
            key@ == self@.key,
    {
        &self.key
    }

    /// Holds exactly where some call was given `args`, wherever in the log
    /// that call stands.
    pub fn with(self, args: &Payload) -> (result: Result<MetaAssertion, Failure>)
        ensures
            hands_on(self@, self@.some_failure(Slot::Arguments, args@), result),
    {
        if self.log.len() == 0 {
            return Err(Failure { key: self.key, kind: FailureKind::NotCalled });
        }
        match scan(&self.log, Slot::Arguments, args) {
            Probe::Equal => Ok(self),
            Probe::Missing => Err(
                Failure { key: self.key, kind: FailureKind::MissingPayload { slot: Slot::Arguments } },
            ),
            Probe::WrongType => Err(
                Failure { key: self.key, kind: FailureKind::TypeMismatch { slot: Slot::Arguments } },
            ),
            Probe::Different => Err(
                Failure { key: self.key, kind: FailureKind::NoMatch { slot: Slot::Arguments } },
            ),
        }
    }

    /// Holds exactly where no call was given `args`: a call logged without
    /// arguments, or with arguments of another type, was not given them.
    pub fn not_with(self, args: &Payload) -> (result: Result<MetaAssertion, Failure>)
        ensures
            hands_on(self@, self@.none_failure(Slot::Arguments, args@), result),
    {
        match scan(&self.log, Slot::Arguments, args) {
            Probe::Equal => Err(Failure { key: self.key, kind: FailureKind::UnwantedMatch }),
            _ => Ok(self),
        }
    }

    /// Holds exactly where some call returned `value`, wherever in the log
    /// that call stands. Ends the chain.
    pub fn and_returned(self, value: &Payload) -> (result: Result<(), Failure>)
        ensures
            ends_with(self@, self@.some_failure(Slot::Returned, value@), result),
    {
        if self.log.len() == 0 {
            return Err(Failure { key: self.key, kind: FailureKind::NotCalled });
        }
        match scan(&self.log, Slot::Returned, value) {
            Probe::Equal => Ok(()),
            Probe::Missing => Err(
                Failure { key: self.key, kind: FailureKind::MissingPayload { slot: Slot::Returned } },
            ),
            Probe::WrongType => Err(
                Failure { key: self.key, kind: FailureKind::TypeMismatch { slot: Slot::Returned } },
            ),
            Probe::Different => Err(
                Failure { key: self.key, kind: FailureKind::NoMatch { slot: Slot::Returned } },
            ),
        }
    }
}

} // verus!
