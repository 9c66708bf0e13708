//! Structured JSON values, as received in responses.

use vstd::prelude::*;

verus! {

broadcast use vstd::std_specs::vec::group_vec_axioms;

use vstd::string::StringExecFns;

/// A JSON value.  Number tokens are kept verbatim, so that decimal
/// fields can be read exactly and the strict-string/lenient profiles can
/// tell a quoted token from a bare one.
#[derive(Debug)]
pub enum JsonValue {
    /// `null`.
    Null,
    /// `true` or `false`.
    Bool(bool),
    /// A bare number, kept as its raw token.
    Num(String),
    /// A string.
    Str(String),
    /// An array.
    Arr(Vec<JsonValue>),
    /// An object: fields in document order.
    Obj(Vec<(String, JsonValue)>),
}

/// The value under `key` among an object's fields: the first binding
/// wins when a key repeats.
pub open spec fn spec_get(fields: Seq<(String, JsonValue)>, key: Seq<char>) -> Option<JsonValue>
    decreases fields,
{
    if fields.len() == 0 {
        None
    } else if fields[0].0@ == key {
        Some(fields[0].1)
    } else {
        spec_get(fields.drop_first(), key)
    }
}

/// Looks `key` up among an object's fields.
pub fn obj_get<'a>(fields: &'a Vec<(String, JsonValue)>, key: &str) -> (r: Option<
    &'a JsonValue,
>)
    ensures
        match r {
            Some(v) => spec_get(fields@, key@) == Some(*v),
            None => spec_get(fields@, key@) is None,
        },
{
    let n = fields.len();
    let mut i: usize = 0;
    proof {
        assert(fields@.subrange(0, n as int) =~= fields@);
    }
    while i < n
        invariant
            i <= n,
            n == fields@.len(),
            spec_get(fields@, key@) == spec_get(fields@.subrange(i as int, n as int), key@),
        decreases n - i,
    {
        let ghost pre = fields@.subrange(i as int, n as int);
        if crate::strutil::str_eq(fields[i].0.as_str(), key) {
            proof {
                assert(pre[0] == fields@[i as int]);
            }
            return Some(&fields[i].1);
        }
        i = i + 1;
        proof {
            assert(pre.drop_first() =~= fields@.subrange(i as int, n as int));
        }
    }
    proof {
        assert(fields@.subrange(i as int, n as int).len() == 0);
    }
    None
}

/// The raw token a value shows in a decode error: the content of a
/// string or number, the keyword of a literal, and a bracket marker for
/// the composite shapes.
pub open spec fn spec_raw_token(v: JsonValue) -> Seq<char> {
    match v {
        JsonValue::Null => "null"@,
        JsonValue::Bool(b) => if b {
            "true"@
        } else {
            "false"@
        },
        JsonValue::Num(t) => t@,
        JsonValue::Str(t) => t@,
        JsonValue::Arr(_) => "[...]"@,
        JsonValue::Obj(_) => "{...}"@,
    }
}

/// The raw token of a value, as [`spec_raw_token`] spells it.
pub fn raw_token(v: &JsonValue) -> (r: String)
    ensures
        r@ == spec_raw_token(*v),
{
    match v {
        JsonValue::Null => String::from_str("null"),
        JsonValue::Bool(b) => {
            if *b {
                String::from_str("true")
            } else {
                String::from_str("false")
            }
        },
        JsonValue::Num(t) => t.clone(),
        JsonValue::Str(t) => t.clone(),
        JsonValue::Arr(_) => String::from_str("[...]"),
        JsonValue::Obj(_) => String::from_str("{...}"),
    }
}

} // verus!
