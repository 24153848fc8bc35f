//! The tagged datum held by the stores and the stacks.
use vstd::prelude::*;

verus! {

/// A datum: bytes or text with a textual hint, or one of the two markers that
/// only the evaluator produces.
#[derive(Debug, PartialEq, Eq)]
#[allow(inconsistent_fields)]
pub enum Value {
    /// Opaque bytes.
    Bin { hint: String, data: Vec<u8> },
    /// UTF-8 text.
    Str { hint: String, data: String },
    /// A successful check, with the check count at the moment it succeeded.
    Success(usize),
    /// A failed check or lookup, with its cause.
    Failure(String),
}

/// The mathematical value of a [`Value`].
#[allow(inconsistent_fields)]
pub enum ValueView {
    Bin { hint: Seq<char>, data: Seq<u8> },
    Str { hint: Seq<char>, data: Seq<char> },
    Success(usize),
    Failure(Seq<char>),
}

impl View for Value {
    type V = ValueView;

    open spec fn view(&self) -> ValueView {
        match self {
            Value::Bin { hint, data } => ValueView::Bin { hint: hint@, data: data@ },
            Value::Str { hint, data } => ValueView::Str { hint: hint@, data: data@ },
            Value::Success(n) => ValueView::Success(*n),
            Value::Failure(msg) => ValueView::Failure(msg@),
        }
    }
}

/// The bytes that a value stands for in a comparison: the data of `Bin`, the
/// UTF-8 encoding of `Str`, nothing for a marker.
pub open spec fn as_bytes(v: ValueView) -> Option<Seq<u8>> {
    match v {
        ValueView::Bin { data, .. } => Some(data),
        ValueView::Str { data, .. } => Some(vstd::utf8::encode_utf8(data)),
        _ => None,
    }
}

impl Clone for Value {
    fn clone(&self) -> (r: Self)
        ensures
            r@ == self@,
    {
        match self {
            Value::Bin { hint, data } => Value::Bin { hint: hint.clone(), data: data.clone() },
            Value::Str { hint, data } => Value::Str { hint: hint.clone(), data: data.clone() },
            Value::Success(n) => Value::Success(*n),
            Value::Failure(msg) => Value::Failure(msg.clone()),
        }
    }
}

impl Value {
    /// Bytes with an empty hint.
    pub fn bin(data: Vec<u8>) -> (r: Value)
        ensures
            r@ == (ValueView::Bin { hint: Seq::empty(), data: data@ }),
    {
        Value::Bin { hint: String::new(), data }
    }

    /// Text with an empty hint.
    pub fn text(data: &str) -> (r: Value)
        ensures
            r@ == (ValueView::Str { hint: Seq::empty(), data: data@ }),
    {
        Value::Str { hint: String::new(), data: String::from_str(data) }
    }

    /// The bytes this value stands for in a comparison (see [`as_bytes`]).
    pub fn to_bytes(&self) -> (r: Option<Vec<u8>>)
        ensures
            match r {
                Some(b) => as_bytes(self@) == Some(b@),
                None => as_bytes(self@) is None,
            },
    {
        match self {
            Value::Bin { data, .. } => Some(data.clone()),
            Value::Str { data, .. } => Some(data.as_str().as_bytes_vec()),
            _ => None,
        }
    }
}

impl From<usize> for Value {
    fn from(n: usize) -> (r: Value) {
        Value::Success(n)
    }
}

impl vstd::std_specs::convert::FromSpecImpl<usize> for Value {
    open spec fn obeys_from_spec() -> bool {
        true
    }

    open spec fn from_spec(n: usize) -> Value {
        Value::Success(n)
    }
}

} // verus!
