//! JSON values carried by the document (examples and defaults).

use vstd::prelude::*;
use crate::ordered_map::OrderedMap;

verus! {

/// A decoded JSON value. Numbers keep the text they were written with.
#[derive(Debug, PartialEq)]
pub enum JsonValue {
    Null,
    Bool(bool),
    Number(String),
    Text(String),
    Array(Vec<JsonValue>),
    Object(OrderedMap<JsonValue>),
}

/// The text that stands for a scalar value; none for null, arrays and objects.
pub open spec fn scalar_text(v: JsonValue) -> Option<Seq<char>> {
    match v {
        JsonValue::Bool(b) => Some(if b { seq!['t', 'r', 'u', 'e'] } else { seq!['f', 'a', 'l', 's', 'e'] }),
        JsonValue::Number(t) => Some(t@),
        JsonValue::Text(t) => Some(t@),
        _ => None,
    }
}

impl JsonValue {
    /// The text of a scalar value, as `scalar_text` gives it.
    pub fn as_scalar_text(&self) -> (r: Option<&str>)
        ensures
            r matches Some(t) ==> scalar_text(*self) == Some(t@),
            r is None ==> scalar_text(*self) is None,
    {
        match self {
            JsonValue::Bool(b) => {
                if *b {
                    let t = "true";
                    proof {
                        reveal_strlit("true");
                    }
                    assert(t@ =~= seq!['t', 'r', 'u', 'e']);
                    Some(t)
                } else {
                    let t = "false";
                    proof {
                        reveal_strlit("false");
                    }
                    assert(t@ =~= seq!['f', 'a', 'l', 's', 'e']);
                    Some(t)
                }
            },
            JsonValue::Number(t) => Some(t.as_str()),
            JsonValue::Text(t) => Some(t.as_str()),
            _ => None,
        }
    }
}

} // verus!
