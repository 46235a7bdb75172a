use racetrack::payload::{copy_bytes, same_bytes};
use racetrack::{
    Assertion, CallInfo, CallLog, Comparison, Failure, FailureKind, MetaAssertion, Payload, Probe,
    SharedTracker, Slot, Tracker,
};

fn text(value: &str) -> Payload {
    Payload::new("String".to_string(), value.as_bytes().to_vec())
}

fn number(value: u32) -> Payload {
    Payload::new("u32".to_string(), value.to_le_bytes().to_vec())
}

fn call(arguments: Option<Payload>, returned: Option<Payload>) -> CallInfo {
    CallInfo { arguments, returned }
}

fn failure_of<T>(result: Result<T, Failure>) -> Failure {
    match result {
        Ok(_) => panic!("the check held"),
        Err(failure) => failure,
    }
}

fn logged_times(key: &str, n: usize) -> Tracker {
    let mut tracker = Tracker::new();
    for i in 0..n {
        tracker.log_call(key, call(Some(number(i as u32)), None));
    }
    tracker
}

#[test]
fn unused_key_wasnt_called() {
    let mut tracker = Tracker::new();
    tracker.assert_that("never").wasnt_called().unwrap();
    tracker.log_call("other", call(None, None));
    tracker.assert_that("never").wasnt_called().unwrap();
    tracker.assert_that("").wasnt_called().unwrap();
    assert!(tracker.calls("never").is_none());
}

#[test]
fn unused_key_fails_every_count() {
    let tracker = Tracker::new();
    let failure = failure_of(tracker.assert_that("never").was_called_times(0));
    assert_eq!(failure.kind, FailureKind::NeverCalled { expected: 0 });
    assert_eq!(failure.key, "never");
    assert_eq!(failure.message(), "never should've been called 0 times, but wasn't called.");
    let failure = failure_of(tracker.assert_that("never").was_called_times(2));
    assert_eq!(failure.kind, FailureKind::NeverCalled { expected: 2 });
    assert_eq!(failure.message(), "never should've been called 2 times, but wasn't called.");
}

#[test]
fn zero_is_no_count_of_a_called_key() {
    let tracker = logged_times("k", 1);
    let failure = failure_of(tracker.assert_that("k").was_called_times(0));
    assert_eq!(failure.kind, FailureKind::CalledMore { expected: 0, actual: 1 });
    assert_eq!(failure.message(), "k was called more than 0 times. Was called 1 times.");
}

#[test]
fn count_is_number_of_calls() {
    for n in 1..8usize {
        let tracker = logged_times("k", n);
        tracker.assert_that("k").was_called_times(n).unwrap();
        assert_eq!(tracker.assert_that("k").was_called_once().is_ok(), n == 1);
        assert!(tracker.assert_that("k").wasnt_called().is_err());
        assert_eq!(tracker.calls("k").unwrap().len(), n);
        assert_eq!(tracker.assert_that("k").calls().len(), n);
    }
}

#[test]
fn calls_stay_in_order() {
    let tracker = logged_times("k", 3);
    let chain = tracker.assert_that("k");
    assert_eq!(chain.key(), "k");
    let calls = chain.calls();
    assert_eq!(calls.len(), 3);
    for i in 0..3u32 {
        let arguments = calls[i as usize].arguments.as_ref().unwrap();
        assert_eq!(arguments.compare(&number(i)), Comparison::Equal);
    }
}

#[test]
fn fewer_and_more_calls_than_expected() {
    let tracker = logged_times("k", 12);
    let failure = failure_of(tracker.assert_that("k").was_called_times(105));
    assert_eq!(failure.kind, FailureKind::CalledFewer { expected: 105, actual: 12 });
    assert_eq!(failure.message(), "k was called fewer than 105 times. Was called 12 times.");
    let failure = failure_of(tracker.assert_that("k").was_called_times(10));
    assert_eq!(failure.kind, FailureKind::CalledMore { expected: 10, actual: 12 });
    assert_eq!(failure.message(), "k was called more than 10 times. Was called 12 times.");
    let failure = failure_of(tracker.assert_that("k").wasnt_called());
    assert_eq!(failure.kind, FailureKind::Called { actual: 12 });
    assert_eq!(failure.message(), "k should not have been called but was called 12 times.");
    let failure = failure_of(tracker.assert_that("k").was_called_once());
    assert_eq!(failure.kind, FailureKind::CalledMoreThanOnce { actual: 12 });
    assert_eq!(failure.message(), "k was called more than once. Was called 12 times.");
}

#[test]
fn keys_are_isolated() {
    let mut tracker = Tracker::new();
    tracker.log_call("a", call(Some(text("one")), Some(number(1))));
    let before = tracker.assert_that("a");
    tracker.log_call("b", call(Some(text("two")), None));
    tracker.log_call("b", call(Some(text("three")), None));
    tracker.log_call("ab", call(None, None));
    let chain = tracker.assert_that("a");
    assert_eq!(chain.calls().len(), before.calls().len());
    chain
        .was_called_once()
        .unwrap()
        .with(&text("one"))
        .unwrap()
        .not_with(&text("two"))
        .unwrap()
        .and_returned(&number(1))
        .unwrap();
    tracker.assert_that("b").was_called_times(2).unwrap();
    tracker.assert_that("ab").was_called_once().unwrap();
    tracker.assert_that("A").wasnt_called().unwrap();
}

#[test]
fn with_holds_where_some_call_matches() {
    let mut tracker = Tracker::new();
    tracker.log_call("k", call(Some(text("x")), None));
    tracker.log_call("k", call(Some(text("y")), None));
    tracker.log_call("k", call(Some(text("z")), None));
    for wanted in ["x", "y", "z"] {
        let chain = tracker.assert_that("k").was_called_times(3).unwrap();
        chain.with(&text(wanted)).unwrap();
        let chain = tracker.assert_that("k").was_called_times(3).unwrap();
        let failure = failure_of(chain.not_with(&text(wanted)));
        assert_eq!(failure.kind, FailureKind::UnwantedMatch);
        assert_eq!(
            failure.message(),
            "k was called with the argument when it should'nt have been."
        );
    }
    let chain = tracker.assert_that("k").was_called_times(3).unwrap();
    let failure = failure_of(chain.with(&text("w")));
    assert_eq!(failure.kind, FailureKind::NoMatch { slot: Slot::Arguments });
    assert_eq!(failure.message(), "k wasn't called with the arguments specified.");
    let chain = tracker.assert_that("k").was_called_times(3).unwrap();
    chain.not_with(&text("w")).unwrap().not_with(&text("")).unwrap();
}

#[test]
fn and_returned_holds_where_some_call_returned_it() {
    let mut tracker = Tracker::new();
    tracker.log_call("k", call(None, Some(number(7))));
    tracker.log_call("k", call(None, Some(number(9))));
    let chain = tracker.assert_that("k").was_called_times(2).unwrap();
    chain.and_returned(&number(9)).unwrap();
    let chain = tracker.assert_that("k").was_called_times(2).unwrap();
    let failure = failure_of(chain.and_returned(&number(8)));
    assert_eq!(failure.kind, FailureKind::NoMatch { slot: Slot::Returned });
    assert_eq!(failure.message(), "k didn't return the value specified.");
    assert_eq!(failure.key, "k");
}

#[test]
fn checks_on_an_empty_snapshot() {
    let chain =
        Assertion::new("k".to_string(), CallLog::from_calls(vec![call(Some(text("x")), None)]));
    let emptied = Assertion::new("k".to_string(), CallLog::new());
    emptied.wasnt_called().unwrap();
    let meta = chain.was_called_once().unwrap();
    assert_eq!(meta.key(), "k");
    let tracker = Tracker::new();
    let failure = failure_of(tracker.assert_that("k").was_called_once());
    assert_eq!(failure.kind, FailureKind::NotCalled);
}

#[test]
fn match_is_found_behind_a_call_without_payload() {
    let mut tracker = Tracker::new();
    tracker.log_call("k", call(None, Some(text("r"))));
    tracker.log_call("k", call(Some(text("x")), None));
    tracker.assert_that("k").was_called_times(2).unwrap().with(&text("x")).unwrap();
    tracker.assert_that("k").was_called_times(2).unwrap().and_returned(&text("r")).unwrap();
    let failure =
        failure_of(tracker.assert_that("k").was_called_times(2).unwrap().not_with(&text("x")));
    assert_eq!(failure.kind, FailureKind::UnwantedMatch);
}

#[test]
fn missing_payload_is_the_reason_where_nothing_matches() {
    let mut tracker = Tracker::new();
    tracker.log_call("k", call(None, Some(text("r"))));
    tracker.log_call("k", call(Some(text("x")), None));
    let failure = failure_of(tracker.assert_that("k").was_called_times(2).unwrap().with(&text("y")));
    assert_eq!(failure.kind, FailureKind::MissingPayload { slot: Slot::Arguments });
    assert_eq!(failure.message(), "You didn't log any arguments for your calls to k.");
    let failure =
        failure_of(tracker.assert_that("k").was_called_times(2).unwrap().and_returned(&text("s")));
    assert_eq!(failure.kind, FailureKind::MissingPayload { slot: Slot::Returned });
    assert_eq!(failure.message(), "You didn't log any return value for your calls to k.");
}

#[test]
fn not_with_holds_of_calls_without_arguments() {
    let mut tracker = Tracker::new();
    tracker.log_call("k", call(None, None));
    tracker.assert_that("k").was_called_once().unwrap().not_with(&number(1)).unwrap();
    tracker.log_call("k", call(Some(text("x")), None));
    tracker
        .assert_that("k")
        .was_called_times(2)
        .unwrap()
        .not_with(&number(1))
        .unwrap()
        .not_with(&text("y"))
        .unwrap();
    let failure =
        failure_of(tracker.assert_that("k").was_called_times(2).unwrap().not_with(&text("x")));
    assert_eq!(failure.kind, FailureKind::UnwantedMatch);
}

#[test]
fn reason_goes_by_the_oldest_call_that_does_not_differ() {
    let mut tracker = Tracker::new();
    tracker.log_call("k", call(Some(text("x")), None));
    tracker.log_call("k", call(None, None));
    tracker.log_call("k", call(Some(number(1)), None));
    tracker.assert_that("k").was_called_times(3).unwrap().with(&text("x")).unwrap();
    tracker.assert_that("k").was_called_times(3).unwrap().with(&number(1)).unwrap();
    let failure = failure_of(tracker.assert_that("k").was_called_times(3).unwrap().with(&text("y")));
    assert_eq!(failure.kind, FailureKind::MissingPayload { slot: Slot::Arguments });
    let failure =
        failure_of(tracker.assert_that("k").was_called_times(3).unwrap().with(&number(2)));
    assert_eq!(failure.kind, FailureKind::TypeMismatch { slot: Slot::Arguments });
}

#[test]
fn match_is_found_in_any_order_of_types() {
    let mut tracker = Tracker::new();
    tracker.log_call("k", call(Some(number(1)), Some(number(2))));
    tracker.log_call("k", call(Some(text("a")), Some(text("r"))));
    tracker.assert_that("k").was_called_times(2).unwrap().with(&text("a")).unwrap();
    tracker.assert_that("k").was_called_times(2).unwrap().with(&number(1)).unwrap();
    tracker.assert_that("k").was_called_times(2).unwrap().and_returned(&text("r")).unwrap();
    tracker.assert_that("k").was_called_times(2).unwrap().and_returned(&number(2)).unwrap();
    let mut swapped = Tracker::new();
    swapped.log_call("k", call(Some(text("a")), Some(text("r"))));
    swapped.log_call("k", call(Some(number(1)), Some(number(2))));
    swapped.assert_that("k").was_called_times(2).unwrap().with(&text("a")).unwrap();
    swapped.assert_that("k").was_called_times(2).unwrap().with(&number(1)).unwrap();
}

#[test]
fn another_type_is_the_reason_where_nothing_matches() {
    let mut tracker = Tracker::new();
    tracker.log_call("k", call(Some(text("x")), Some(text("r"))));
    tracker.log_call("k", call(Some(number(1)), Some(number(2))));
    let failure = failure_of(tracker.assert_that("k").was_called_times(2).unwrap().with(&number(5)));
    assert_eq!(failure.kind, FailureKind::TypeMismatch { slot: Slot::Arguments });
    assert_eq!(failure.message(), "The arguments logged for k didn't have that type.");
    let failure =
        failure_of(tracker.assert_that("k").was_called_times(2).unwrap().and_returned(&number(3)));
    assert_eq!(failure.kind, FailureKind::TypeMismatch { slot: Slot::Returned });
    assert_eq!(failure.message(), "The return value logged for k didn't have that type.");
    let failure = failure_of(tracker.assert_that("k").was_called_times(2).unwrap().with(&text("y")));
    assert_eq!(failure.kind, FailureKind::TypeMismatch { slot: Slot::Arguments });
    tracker.assert_that("k").was_called_times(2).unwrap().not_with(&number(5)).unwrap();
    tracker.assert_that("k").was_called_times(2).unwrap().not_with(&text("y")).unwrap();
}

#[test]
fn same_bytes_of_another_type_do_not_match() {
    let mut tracker = Tracker::new();
    tracker.log_call("k", call(Some(Payload::new("A".to_string(), vec![1, 2])), None));
    let expected = Payload::new("B".to_string(), vec![1, 2]);
    let failure = failure_of(tracker.assert_that("k").was_called_once().unwrap().with(&expected));
    assert_eq!(failure.kind, FailureKind::TypeMismatch { slot: Slot::Arguments });
    tracker.assert_that("k").was_called_once().unwrap().not_with(&expected).unwrap();
}

#[test]
fn not_with_holds_on_an_empty_log() {
    let mut tracker = Tracker::new();
    tracker.log_call("k", call(Some(text("x")), None));
    let called = tracker.assert_that("k").was_called_once().unwrap();
    let mut log = CallLog::from_calls(vec![call(Some(text("x")), None)]);
    log.clear();
    assert_eq!(log.len(), 0);
    let uncalled = MetaAssertion::new("k".to_string(), log);
    uncalled.not_with(&text("x")).unwrap().not_with(&number(1)).unwrap();
    assert!(called.not_with(&text("x")).is_err());
}

#[test]
fn with_fails_on_an_empty_log() {
    let uncalled = MetaAssertion::new("k".to_string(), CallLog::new());
    let failure = failure_of(uncalled.with(&text("x")));
    assert_eq!(failure.kind, FailureKind::NotCalled);
    assert_eq!(failure.message(), "k wasn't called.");
    let uncalled = MetaAssertion::new("k".to_string(), CallLog::new());
    let failure = failure_of(uncalled.and_returned(&text("x")));
    assert_eq!(failure.kind, FailureKind::NotCalled);
    assert_eq!(failure.key, "k");
}

#[test]
fn log_grows_at_its_end() {
    let mut log = CallLog::new();
    assert_eq!(log.len(), 0);
    assert_eq!(log.describe(), "[]");
    log.append(call(Some(text("x")), None));
    let copy = log.snapshot();
    log.append(call(None, Some(number(2))));
    assert_eq!(copy.len(), 1);
    assert_eq!(log.len(), 2);
    assert_eq!(log.calls()[0].probe(Slot::Arguments, &text("x")), Probe::Equal);
    assert_eq!(log.calls()[1].probe(Slot::Returned, &number(2)), Probe::Equal);
    assert_eq!(copy.calls()[0].probe(Slot::Arguments, &text("x")), Probe::Equal);
    assert_eq!(copy.describe(), "[CallInfo { arguments: Some(String), returned: None }]");
    assert_eq!(
        log.describe(),
        "[CallInfo { arguments: Some(String), returned: None }, \
         CallInfo { arguments: None, returned: Some(u32) }]"
    );
    log.clear();
    assert_eq!(log.len(), 0);
    assert_eq!(copy.len(), 1);
}

#[test]
fn dump_shows_the_log_of_a_used_key() {
    let mut tracker = Tracker::new();
    assert_eq!(tracker.debug_dump("k"), None);
    tracker.log_call("k", call(Some(text("x")), Some(number(1))));
    tracker.log_call("k", call(None, None));
    tracker.log_call("j", call(None, Some(text("y"))));
    assert_eq!(
        tracker.debug_dump("k"),
        Some(
            "[CallInfo { arguments: Some(String), returned: Some(u32) }, \
             CallInfo { arguments: None, returned: None }]"
                .to_string()
        )
    );
    assert_eq!(
        tracker.debug_dump("j"),
        Some("[CallInfo { arguments: None, returned: Some(String) }]".to_string())
    );
    assert_eq!(tracker.debug_dump("i"), None);
    let shared = SharedTracker::new();
    assert_eq!(shared.debug_dump("k"), None);
    shared.log_call("k", call(None, None));
    assert_eq!(
        shared.debug_dump("k"),
        Some("[CallInfo { arguments: None, returned: None }]".to_string())
    );
}

#[test]
fn two_chains_agree() {
    let mut tracker = Tracker::new();
    tracker.log_call("k", call(Some(text("x")), Some(number(3))));
    tracker.log_call("k", call(Some(text("y")), Some(number(4))));
    let first = tracker.assert_that("k");
    let second = tracker.assert_that("k");
    assert_eq!(first.calls().len(), second.calls().len());
    let first = first.was_called_times(2).unwrap();
    let second = second.was_called_times(2).unwrap();
    let first = first.with(&text("y")).unwrap();
    let second = second.with(&text("y")).unwrap();
    assert_eq!(first.and_returned(&number(5)), second.and_returned(&number(5)));
    assert_eq!(
        tracker.assert_that("k").was_called_once().err(),
        tracker.assert_that("k").was_called_once().err()
    );
}

#[test]
fn snapshot_does_not_see_later_calls() {
    let mut tracker = Tracker::new();
    tracker.log_call("k", call(Some(text("x")), None));
    let chain = tracker.assert_that("k");
    tracker.log_call("k", call(Some(text("y")), None));
    let meta = chain.was_called_once().unwrap();
    meta.not_with(&text("y")).unwrap();
    tracker.assert_that("k").was_called_times(2).unwrap();
}

#[test]
fn clear_forgets_every_key() {
    let mut tracker = Tracker::new();
    tracker.log_call("a", call(None, None));
    tracker.log_call("b", call(None, None));
    tracker.log_call("a", call(None, None));
    tracker.clear();
    tracker.assert_that("a").wasnt_called().unwrap();
    tracker.assert_that("b").wasnt_called().unwrap();
    assert!(tracker.calls("a").is_none());
    tracker.log_call("a", call(None, None));
    tracker.assert_that("a").was_called_once().unwrap();
    tracker.assert_that("b").wasnt_called().unwrap();
}

#[test]
fn greet_scenario() {
    let mut tracker = Tracker::new();
    tracker.log_call("greet", call(Some(text("Ann")), Some(text("hi Ann"))));
    tracker
        .assert_that("greet")
        .was_called_once()
        .unwrap()
        .with(&text("Ann"))
        .unwrap()
        .and_returned(&text("hi Ann"))
        .unwrap();
    let failure = failure_of(tracker.assert_that("greet").was_called_once().unwrap().with(&text("Bob")));
    assert_eq!(failure.key, "greet");
    assert_eq!(failure.kind, FailureKind::NoMatch { slot: Slot::Arguments });
    assert_eq!(failure.message(), "greet wasn't called with the arguments specified.");
}

#[test]
fn save_scenario() {
    let tracker = Tracker::new();
    tracker.assert_that("save").wasnt_called().unwrap();
    let failure = failure_of(tracker.assert_that("save").was_called_once());
    assert_eq!(failure.kind, FailureKind::NotCalled);
    assert_eq!(failure.message(), "save wasn't called.");
}

#[test]
fn update_scenario() {
    let mut tracker = Tracker::new();
    tracker.log_call("update", call(Some(text("a")), None));
    tracker.log_call("update", call(Some(text("b")), None));
    tracker.log_call("update", call(Some(text("c")), None));
    tracker.assert_that("update").was_called_times(3).unwrap();
    let failure = failure_of(tracker.assert_that("update").was_called_once());
    assert_eq!(failure.kind, FailureKind::CalledMoreThanOnce { actual: 3 });
    assert_eq!(failure.message(), "update was called more than once. Was called 3 times.");
}

#[test]
fn shared_registry_keeps_every_call() {
    let tracker = SharedTracker::new();
    let other = tracker.clone();
    tracker.assert_that("k").wasnt_called().unwrap();
    tracker.log_call("k", call(Some(text("x")), None));
    other.log_call("k", call(Some(text("y")), None));
    other.log_call("j", call(None, None));
    let chain = tracker.assert_that("k");
    assert_eq!(chain.key(), "k");
    chain.was_called_times(2).unwrap().with(&text("y")).unwrap();
    other.assert_that("j").was_called_once().unwrap();
    other.clear();
    tracker.assert_that("k").wasnt_called().unwrap();
    tracker.assert_that("j").wasnt_called().unwrap();
}

#[test]
fn payload_is_recovered_whole_or_not_at_all() {
    let payload = Payload::new("String".to_string(), vec![104, 105]);
    assert_eq!(payload.kind(), "String");
    assert_eq!(payload.recover(&"String".to_string()), Some(&vec![104u8, 105]));
    assert_eq!(payload.recover(&"string".to_string()), None);
    assert_eq!(payload.recover(&"".to_string()), None);
    let copy = payload.clone();
    assert_eq!(copy.compare(&payload), Comparison::Equal);
    assert_eq!(payload.compare(&text("hi")), Comparison::Equal);
    assert_eq!(payload.compare(&text("ho")), Comparison::Different);
    assert_eq!(payload.compare(&text("hi!")), Comparison::Different);
    assert_eq!(payload.compare(&Payload::new("str".to_string(), vec![104, 105])), Comparison::WrongType);
}

#[test]
fn probe_looks_at_one_slot() {
    let record = call(Some(text("x")), None);
    assert_eq!(record.probe(Slot::Arguments, &text("x")), Probe::Equal);
    assert_eq!(record.probe(Slot::Arguments, &text("y")), Probe::Different);
    assert_eq!(record.probe(Slot::Arguments, &number(1)), Probe::WrongType);
    assert_eq!(record.probe(Slot::Returned, &text("x")), Probe::Missing);
    let copy = record.clone();
    assert_eq!(copy.probe(Slot::Arguments, &text("x")), Probe::Equal);
    assert!(copy.returned.is_none());
}

#[test]
fn bytes_are_compared_and_copied() {
    assert!(same_bytes(&vec![], &vec![]));
    assert!(same_bytes(&vec![1, 2, 3], &vec![1, 2, 3]));
    assert!(!same_bytes(&vec![1, 2, 3], &vec![1, 2]));
    assert!(!same_bytes(&vec![1, 2, 3], &vec![1, 2, 4]));
    assert_eq!(copy_bytes(&vec![9, 8, 7]), vec![9, 8, 7]);
    assert_eq!(copy_bytes(&Vec::new()), Vec::<u8>::new());
}

#[test]
fn counts_are_written_in_decimal() {
    for (n, written) in [(0usize, "0"), (9, "9"), (10, "10"), (99, "99"), (100, "100"), (4096, "4096")] {
        let failure = Failure { key: "k".to_string(), kind: FailureKind::NeverCalled { expected: n } };
        assert_eq!(
            failure.message(),
            format!("k should've been called {} times, but wasn't called.", written)
        );
    }
    let failure = Failure { key: "k".to_string(), kind: FailureKind::Called { actual: usize::MAX } };
    assert_eq!(
        failure.message(),
        format!("k should not have been called but was called {} times.", usize::MAX)
    );
}
