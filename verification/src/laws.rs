//! What holds of the registry and of the checks together: of every run of
//! calls logged and registries cleared, and of every snapshot.

use vstd::prelude::*;
use crate::assertion::{lemma_settled_is_first, probes, settles_at, some_call_has, ChainView};
use crate::call::{CallView, Probe, Slot};
use crate::failure::FailureKind;
use crate::payload::PayloadView;
use crate::tracker::{calls_of, logged, snapshot, Logs};

verus! {

/// One change to a registry.
pub enum Step {
    /// A call logged under a key.
    Log { key: Seq<char>, call: CallView },
    /// The registry cleared.
    Clear,
}

/// The registry that `steps`, taken in order, make of `logs`.
pub open spec fn after(logs: Logs, steps: Seq<Step>) -> Logs
    decreases steps.len(),
{
    if steps.len() == 0 {
        logs
    } else {
        match steps.last() {
            Step::Log { key, call } => logged(after(logs, steps.drop_last()), key, call),
            Step::Clear => Logs::empty(),
        }
    }
}

/// Whether `step` logs a call under `key`.
pub open spec fn logs_under(step: Step, key: Seq<char>) -> bool {
    match step {
        Step::Log { key: k, call: _ } => k == key,
        Step::Clear => false,
    }
}

/// The call that `step` logs, where it logs one.
pub open spec fn call_of(step: Step) -> CallView {
    match step {
        Step::Log { key: _, call } => call,
        Step::Clear => arbitrary(),
    }
}

/// The calls that `steps` log under `key` after the last clearing, in order.
pub open spec fn calls_under(steps: Seq<Step>, key: Seq<char>) -> Seq<CallView>
    decreases steps.len(),
{
    if steps.len() == 0 {
        Seq::empty()
    } else {
        match steps.last() {
            Step::Clear => Seq::empty(),
            Step::Log { key: k, call } => if k == key {
                calls_under(steps.drop_last(), key).push(call)
            } else {
                calls_under(steps.drop_last(), key)
            },
        }
    }
}

/// Among the first `n` probes, one that is not `Different` makes one of them
/// settle the scan.
proof fn lemma_first_settles(found: Seq<Probe>, n: int)
    requires
        0 <= n <= found.len(),
        exists|j: int| 0 <= j < n && found[j] != Probe::Different,
    ensures
        exists|c: int| 0 <= c < n && settles_at(found, c),
    decreases n,
{
    if forall|j: int| 0 <= j < n - 1 ==> found[j] == Probe::Different {
        assert(settles_at(found, n - 1));
    } else {
        lemma_first_settles(found, n - 1);
    }
}

/// A key that no step has logged to has no calls: "never called" holds of it,
/// whatever was logged under other keys and however often the registry was
/// cleared.
pub proof fn law_unlogged_key_wasnt_called(steps: Seq<Step>, key: Seq<char>)
    requires
        forall|i: int| 0 <= i < steps.len() ==> !logs_under(#[trigger] steps[i], key),
    ensures
        calls_of(after(Logs::empty(), steps), key) == Seq::<CallView>::empty(),
        snapshot(after(Logs::empty(), steps), key).uncalled_failure().is_none(),
    decreases steps.len(),
{
    if steps.len() > 0 {
        let earlier = steps.drop_last();
        assert forall|i: int| 0 <= i < earlier.len() implies !logs_under(
            #[trigger] earlier[i],
            key,
        ) by {
            assert(earlier[i] == steps[i]);
        }
        law_unlogged_key_wasnt_called(earlier, key);
        assert(!logs_under(steps[steps.len() - 1], key));
    }
}

/// The log of a key holds the calls logged under it since the registry was
/// new or last cleared, every one of them once and in the order of logging,
/// whatever was logged under other keys in between.
pub proof fn law_log_is_history_of_key(steps: Seq<Step>, key: Seq<char>)
    ensures
        calls_of(after(Logs::empty(), steps), key) == calls_under(steps, key),
    decreases steps.len(),
{
    if steps.len() > 0 {
        law_log_is_history_of_key(steps.drop_last(), key);
    }
}

/// Calls logged under one key stand in its log in the order in which they
/// were logged, after those that were there before.
pub proof fn law_log_keeps_every_call(logs: Logs, steps: Seq<Step>, key: Seq<char>)
    requires
        forall|i: int| 0 <= i < steps.len() ==> logs_under(#[trigger] steps[i], key),
    ensures
        calls_of(after(logs, steps), key) == calls_of(logs, key) + Seq::new(
            steps.len(),
            |i: int| call_of(steps[i]),
        ),
    decreases steps.len(),
{
    let added = Seq::new(steps.len(), |i: int| call_of(steps[i]));
    if steps.len() == 0 {
        assert(calls_of(logs, key) + added =~= calls_of(logs, key));
    } else {
        let earlier = steps.drop_last();
        assert forall|i: int| 0 <= i < earlier.len() implies logs_under(
            #[trigger] earlier[i],
            key,
        ) by {
            assert(earlier[i] == steps[i]);
        }
        law_log_keeps_every_call(logs, earlier, key);
        assert(logs_under(steps[steps.len() - 1], key));
        let added_earlier = Seq::new(earlier.len(), |i: int| call_of(earlier[i]));
        assert(added =~= added_earlier.push(call_of(steps.last())));
        assert(calls_of(logs, key) + added =~= (calls_of(logs, key) + added_earlier).push(
            call_of(steps.last()),
        ));
    }
}

/// After `n` calls logged under one key of a new registry, and nothing else,
/// "called `n` times" holds of the key where `n` is not zero, and "called
/// once" holds exactly where `n` is one.
pub proof fn law_count_is_number_of_calls(steps: Seq<Step>, key: Seq<char>, n: usize)
    requires
        steps.len() == n,
        forall|i: int| 0 <= i < steps.len() ==> logs_under(#[trigger] steps[i], key),
    ensures
        snapshot(after(Logs::empty(), steps), key).calls.len() == n,
        n != 0 ==> snapshot(after(Logs::empty(), steps), key).times_failure(n).is_none(),
        snapshot(after(Logs::empty(), steps), key).once_failure().is_none() <==> n == 1,
        snapshot(after(Logs::empty(), steps), key).uncalled_failure().is_none() <==> n == 0,
{
    law_log_keeps_every_call(Logs::empty(), steps, key);
}

/// A call logged under one key leaves the log of every other key as it was.
pub proof fn law_keys_are_isolated(logs: Logs, key: Seq<char>, call: CallView, other: Seq<char>)
    requires
        other != key,
    ensures
        logged(logs, key, call).contains_key(other) == logs.contains_key(other),
        calls_of(logged(logs, key, call), other) == calls_of(logs, other),
        snapshot(logged(logs, key, call), other) == snapshot(logs, other),
{
}

/// "Some call had the value" holds exactly where a call has it: a value of
/// the same type, equal to the expected one. What the other calls captured,
/// and where in the log the call stands, makes no difference.
pub proof fn law_some_finds_match(chain: ChainView, slot: Slot, expected: PayloadView)
    ensures
        chain.some_failure(slot, expected).is_none() <==> some_call_has(
            chain.calls,
            slot,
            expected,
        ),
{
}

/// "No call had the value" holds exactly where no call has it. Of a key
/// that was called it holds exactly where "some call had the value" fails;
/// of a key that was never called the first holds and the second fails too.
pub proof fn law_none_negates_some(chain: ChainView, slot: Slot, expected: PayloadView)
    ensures
        chain.none_failure(slot, expected).is_none() <==> !some_call_has(
            chain.calls,
            slot,
            expected,
        ),
        chain.calls.len() > 0 ==> (chain.none_failure(slot, expected).is_none()
            <==> chain.some_failure(slot, expected).is_some()),
        chain.calls.len() == 0 ==> chain.none_failure(slot, expected).is_none()
            && chain.some_failure(slot, expected).is_some(),
{
}

/// "Some call had the value" fails for want of a match exactly where the key
/// was called and every call captured another value of the expected type.
pub proof fn law_no_match_where_all_differ(chain: ChainView, slot: Slot, expected: PayloadView)
    ensures
        chain.some_failure(slot, expected) == Some(FailureKind::NoMatch { slot }) <==> chain.calls.len()
            > 0 && forall|i: int|
            0 <= i < chain.calls.len() ==> #[trigger] chain.calls[i].probe(slot, expected)
                == Probe::Different,
{
    let found = probes(chain.calls, slot, expected);
    let all_differ = forall|i: int|
        0 <= i < chain.calls.len() ==> #[trigger] chain.calls[i].probe(slot, expected)
            == Probe::Different;
    if chain.calls.len() > 0 {
        if all_differ {
            assert forall|c: int| !settles_at(found, c) by {
                if 0 <= c < found.len() {
                    assert(chain.calls[c].probe(slot, expected) == Probe::Different);
                }
            }
        } else {
            let i = choose|i: int|
                0 <= i < chain.calls.len() && #[trigger] chain.calls[i].probe(slot, expected)
                    != Probe::Different;
            assert(found[i] != Probe::Different);
            lemma_first_settles(found, found.len() as int);
            let c = choose|c: int| 0 <= c < found.len() && settles_at(found, c);
            lemma_settled_is_first(found, c);
            if !some_call_has(chain.calls, slot, expected) {
                assert(chain.calls[c].probe(slot, expected) != Probe::Equal);
            }
        }
    }
}

/// Two chains started on one key with no call logged in between are bound to
/// the same snapshot, and every check gives the same answer on both.
pub proof fn law_checks_only_read(
    first: ChainView,
    second: ChainView,
    logs: Logs,
    key: Seq<char>,
    n: usize,
    slot: Slot,
    expected: PayloadView,
)
    requires
        first == snapshot(logs, key),
        second == snapshot(logs, key),
    ensures
        first.once_failure() == second.once_failure(),
        first.times_failure(n) == second.times_failure(n),
        first.uncalled_failure() == second.uncalled_failure(),
        first.some_failure(slot, expected) == second.some_failure(slot, expected),
        first.none_failure(slot, expected) == second.none_failure(slot, expected),
{
}

/// Once the registry is cleared, "never called" holds of every key, those
/// logged to before too.
pub proof fn law_clear_forgets_every_key(steps: Seq<Step>, key: Seq<char>)
    ensures
        snapshot(after(Logs::empty(), steps.push(Step::Clear)), key).uncalled_failure().is_none(),
{
    assert(steps.push(Step::Clear).last() == Step::Clear);
}

} // verus!
