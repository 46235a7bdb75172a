//! Call records, and the log of one key.

use vstd::prelude::*;
use crate::payload::{compare_views, Comparison, Payload, PayloadView};

verus! {

/// One logged call: the arguments it was given and the value it returned,
/// each captured or left out.
#[derive(Debug)]
pub struct CallInfo {
    /// The captured arguments, as one payload.
    pub arguments: Option<Payload>,
    /// The captured return value.
    pub returned: Option<Payload>,
}

/// What a call record is: the views of its two payloads.
pub struct CallView {
    pub arguments: Option<PayloadView>,
    pub returned: Option<PayloadView>,
}

/// The part of a call record that a check looks at.
#[derive(Debug, Clone, Copy, PartialEq, Eq, Structural)]
pub enum Slot {
    Arguments,
    Returned,
}

/// What looking at one slot of one record for an expected value finds.
#[derive(Debug, Clone, Copy, PartialEq, Eq, Structural)]
pub enum Probe {
    /// The record captured nothing in that slot.
    Missing,
    /// The captured value was made from another type than the expected one.
    WrongType,
    /// Same type, another value.
    Different,
    /// Same type, same value.
    Equal,
}

/// The view of an optional payload.
pub open spec fn slot_view(payload: Option<Payload>) -> Option<PayloadView> {
    match payload {
        Some(p) => Some(p@),
        None => None,
    }
}

impl View for CallInfo {
    type V = CallView;

    open spec fn view(&self) -> CallView {
        CallView { arguments: slot_view(self.arguments), returned: slot_view(self.returned) }
    }
}

impl CallView {
    /// The payload in `slot`.
    pub open spec fn slot(self, slot: Slot) -> Option<PayloadView> {
        match slot {
            Slot::Arguments => self.arguments,
            Slot::Returned => self.returned,
        }
    }

    /// What a look at `slot` for `expected` finds.
    pub open spec fn probe(self, slot: Slot, expected: PayloadView) -> Probe {
        match self.slot(slot) {
            None => Probe::Missing,
            Some(actual) => match compare_views(actual, expected) {
                Comparison::WrongType => Probe::WrongType,
                Comparison::Different => Probe::Different,
                Comparison::Equal => Probe::Equal,
            },
        }
    }
}

impl CallInfo {
    /// Looks at `slot` for `expected`.
    pub fn probe(&self, slot: Slot, expected: &Payload) -> (found: Probe)
        ensures
            found == self@.probe(slot, expected@),
    {
        let captured = match slot {
            Slot::Arguments => &self.arguments,
            Slot::Returned => &self.returned,
        };
        match captured {
            None => Probe::Missing,
            Some(actual) => match actual.compare(expected) {
                Comparison::WrongType => Probe::WrongType,
                Comparison::Different => Probe::Different,
                Comparison::Equal => Probe::Equal,
            },
        }
    }
}

impl Clone for CallInfo {
    fn clone(&self) -> (copy: CallInfo)
        ensures
            copy@ == self@,
    {
        let arguments = match &self.arguments {
            Some(p) => Some(p.clone()),
            None => None,
        };
        let returned = match &self.returned {
            Some(p) => Some(p.clone()),
            None => None,
        };
        CallInfo { arguments, returned }
    }
}

/// The views of a run of call records, in order.
pub open spec fn call_views(calls: Seq<CallInfo>) -> Seq<CallView> {
    Seq::new(calls.len(), |i: int| calls[i]@)
}

/// One slot of a call record in words: the name of the captured value's
/// type, or that nothing was captured.
pub open spec fn slot_text(slot: Option<PayloadView>) -> Seq<char> {
    match slot {
        None => "None"@,
        Some(payload) => "Some("@ + payload.kind + ")"@,
    }
}

/// One call record in words.
pub open spec fn call_text(call: CallView) -> Seq<char> {
    "CallInfo { arguments: "@ + slot_text(call.arguments) + ", returned: "@ + slot_text(
        call.returned,
    ) + " }"@
}

/// A run of call records in words, oldest first, with a comma between one
/// and the next.
pub open spec fn calls_text(calls: Seq<CallView>) -> Seq<char>
    decreases calls.len(),
{
    if calls.len() == 0 {
        Seq::empty()
    } else if calls.len() == 1 {
        call_text(calls[0])
    } else {
        calls_text(calls.drop_last()) + ", "@ + call_text(calls.last())
    }
}

/// A log in words: its call records between square brackets.
pub open spec fn log_text(calls: Seq<CallView>) -> Seq<char> {
    "["@ + calls_text(calls) + "]"@
}

/// Writes one slot of a call record at the end of `text`.
fn append_slot(text: &mut String, slot: &Option<Payload>)
    ensures
        final(text)@ == old(text)@ + slot_text(slot_view(*slot)),
{
    match slot {
        None => {
            text.append("None");
        },
        Some(payload) => {
            text.append("Some(");
            text.append(payload.kind().as_str());
            text.append(")");
            assert(text@ =~= old(text)@ + slot_text(slot_view(*slot)));
        },
    }
}

/// Writes one call record at the end of `text`.
fn append_call(text: &mut String, call: &CallInfo)
    ensures
        final(text)@ == old(text)@ + call_text(call@),
{
    text.append("CallInfo { arguments: ");
    append_slot(text, &call.arguments);
    text.append(", returned: ");
    append_slot(text, &call.returned);
    text.append(" }");
    assert(text@ =~= old(text)@ + call_text(call@));
}

/// The calls logged under one key, oldest first. A log only grows, call by
/// call at its end, until it is cleared.
#[derive(Debug)]
pub struct CallLog {
    calls: Vec<CallInfo>,
}

impl View for CallLog {
    type V = Seq<CallView>;

    closed spec fn view(&self) -> Seq<CallView> {
        call_views(self.calls@)
    }
}

impl CallLog {
    /// A log with no call.
    pub fn new() -> (log: CallLog)
        ensures
            log@ == Seq::<CallView>::empty(),
    {
        let log = CallLog { calls: Vec::new() };
        assert(log@ =~= Seq::<CallView>::empty());
        log
    }

    /// A log of `calls`, in their order.
    pub fn from_calls(calls: Vec<CallInfo>) -> (log: CallLog)
        ensures
            log@ == call_views(calls@),
    {
        CallLog { calls }
    }

    /// The number of calls.
    pub fn len(&self) -> (count: usize)
        ensures
            count == self@.len(),
    {
        self.calls.len()
    }

    /// The calls, oldest first.
    pub fn calls(&self) -> (calls: &Vec<CallInfo>)
        ensures
            call_views(calls@) == self@,
    {
        &self.calls
    }

    /// Adds `record` at the end.
    pub fn append(&mut self, record: CallInfo)
        ensures
            final(self)@ == old(self)@.push(record@),
    {
        self.calls.push(record);
        assert(self@ =~= old(self)@.push(record@));
    }

    /// A copy of the log as it is now, which later calls do not reach.
    pub fn snapshot(&self) -> (copy: CallLog)
        ensures
            copy@ == self@,
    {
        let mut copy: Vec<CallInfo> = Vec::new();
        let mut i: usize = 0;
        while i < self.calls.len()
            invariant
                i <= self.calls.len(),
                copy.len() == i,
                forall|j: int| 0 <= j < i ==> copy@[j]@ == self.calls@[j]@,
            decreases self.calls.len() - i,
        {
            copy.push(self.calls[i].clone());
            i += 1;
        }
        assert(call_views(copy@) =~= call_views(self.calls@));
        CallLog { calls: copy }
    }

    /// The log in words, for a reader who wants to see what was logged: of
    /// each call, the types of what it captured.
    pub fn describe(&self) -> (text: String)
        ensures
            text@ == log_text(self@),
    {
        let mut text = String::new();
        text.append("[");
        let mut i: usize = 0;
        while i < self.calls.len()
            invariant
                i <= self.calls.len(),
                text@ == "["@ + calls_text(self@.subrange(0, i as int)),
            decreases self.calls.len() - i,
        {
            let ghost before = text@;
            if i > 0 {
                text.append(", ");
            }
            append_call(&mut text, &self.calls[i]);
            proof {
                let upto = self@.subrange(0, i + 1);
                assert(upto.drop_last() =~= self@.subrange(0, i as int));
                assert(upto.last() == self.calls@[i as int]@);
                assert(text@ =~= "["@ + calls_text(upto));
            }
            i += 1;
        }
        text.append("]");
        assert(self@.subrange(0, self.calls.len() as int) =~= self@);
        text
    }

    /// Empties the log.
    pub fn clear(&mut self)
        ensures
            final(self)@ == Seq::<CallView>::empty(),
    {
        self.calls.clear();
        assert(self@ =~= Seq::<CallView>::empty());
    }
}

} // verus!
