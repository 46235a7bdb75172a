//! Type-erased values: a payload keeps the name of the type it was made from
//! beside the encoded value, and gives the value back only to a caller who
//! names that type.

use vstd::prelude::*;

verus! {

/// One captured value, stored without the registry knowing its type.
#[derive(Debug)]
pub struct Payload {
    kind: String,
    encoded: Vec<u8>,
}

/// What a payload is: the name of its type, and its encoded value.
pub struct PayloadView {
    pub kind: Seq<char>,
    pub encoded: Seq<u8>,
}

/// How a payload stands to an expected one.
#[derive(Debug, Clone, Copy, PartialEq, Eq, Structural)]
pub enum Comparison {
    /// The payload was made from another type.
    WrongType,
    /// Same type, another value.
    Different,
    /// Same type, same value.
    Equal,
}

/// The comparison of `actual` with `expected`: the value is looked at only
/// once the types agree.
pub open spec fn compare_views(actual: PayloadView, expected: PayloadView) -> Comparison {
    if actual.kind != expected.kind {
        Comparison::WrongType
    } else if actual.encoded != expected.encoded {
        Comparison::Different
    } else {
        Comparison::Equal
    }
}

impl View for Payload {
    type V = PayloadView;

    closed spec fn view(&self) -> PayloadView {
        PayloadView { kind: self.kind@, encoded: self.encoded@ }
    }
}

impl Payload {
    /// Wraps a value of the type named by `kind`, given in its encoding.
    pub fn new(kind: String, encoded: Vec<u8>) -> (payload: Payload)
        ensures
            payload@.kind == kind@,
            payload@.encoded == encoded@,
    {
        Payload { kind, encoded }
    }

    /// The name of the type the payload was made from.
    pub fn kind(&self) -> (name: &String)
        ensures
            name@ == self@.kind,
    {
        &self.kind
    }

    /// Gives the whole value to a caller who names its type, and nothing to
    /// one who names another.
    pub fn recover(&self, kind: &String) -> (value: Option<&Vec<u8>>)
        ensures
            value.is_some() <==> self@.kind == kind@,
            value.is_some() ==> value.unwrap()@ == self@.encoded,
    {
        if self.kind == *kind {
            Some(&self.encoded)
        } else {
            None
        }
    }

    /// Compares with an expected payload: first the types, then the values.
    pub fn compare(&self, expected: &Payload) -> (outcome: Comparison)
        ensures
            outcome == compare_views(self@, expected@),
    {
        match self.recover(&expected.kind) {
            None => Comparison::WrongType,
            Some(value) => {
                if same_bytes(value, &expected.encoded) {
                    Comparison::Equal
                } else {
                    Comparison::Different
                }
            },
        }
    }
}

impl Clone for Payload {
    fn clone(&self) -> (copy: Payload)
        ensures
            copy@ == self@,
    {
        Payload { kind: self.kind.clone(), encoded: copy_bytes(&self.encoded) }
    }
}

/// Whether two byte strings hold the same bytes.
pub fn same_bytes(a: &Vec<u8>, b: &Vec<u8>) -> (same: bool)
    ensures
        same == (a@ == b@),
{
    if a.len() != b.len() {
        return false;
    }
    let mut i: usize = 0;
    while i < a.len()
        invariant
            a.len() == b.len(),
            i <= a.len(),
            forall|j: int| 0 <= j < i ==> a@[j] == b@[j],
        decreases a.len() - i,
    {
        if a[i] != b[i] {
            return false;
        }
        i += 1;
    }
    assert(a@ =~= b@);
    true
}

/// A copy of a byte string.
pub fn copy_bytes(bytes: &Vec<u8>) -> (copy: Vec<u8>)
    ensures
        copy@ == bytes@,
{
    let mut copy: Vec<u8> = Vec::new();
    let mut i: usize = 0;
    while i < bytes.len()
        invariant
            i <= bytes.len(),
            copy@ == bytes@.subrange(0, i as int),
        decreases bytes.len() - i,
    {
        copy.push(bytes[i]);
        assert(bytes@.subrange(0, i + 1) =~= bytes@.subrange(0, i as int).push(bytes@[i as int]));
        i += 1;
    }
    assert(bytes@.subrange(0, bytes.len() as int) =~= bytes@);
    copy
}

} // verus!
