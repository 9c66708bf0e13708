//! JSON writer for request bodies.
//!
//! Outbound payloads are flat: an object of scalar fields, string
//! arrays, and one level of scalar sub-objects (the take-profit and
//! stop-loss legs).  The writer renders exactly the text its
//! specification spells, field by field in order, so a contract can pin
//! a body down to the character.

use vstd::prelude::*;

use crate::strutil::digit_char;

verus! {

use vstd::string::StringExecFns;

/// A scalar JSON value of a request body.  Numbers carry their final
/// token, as the decimal codec wrote it.
#[derive(Clone, Debug)]
pub enum Scalar {
    /// `null` — sent only for fields the API defines as nullable.
    Null,
    /// `true` or `false`.
    Bool(bool),
    /// A bare number token.
    Num(String),
    /// A string.
    Str(String),
}

/// A field value of a request body.
#[derive(Clone, Debug)]
pub enum FieldValue {
    /// A scalar.
    Scalar(Scalar),
    /// An array of strings.
    StrArr(Vec<String>),
    /// A sub-object of scalar fields.
    Obj(Vec<(String, Scalar)>),
    /// A sub-object holding one tagged sub-object of scalar fields, as
    /// an externally tagged union writes.
    Wrapped(String, Vec<(String, Scalar)>),
}

/// Mathematical shape of a [`Scalar`].
pub enum ScalarView {
    /// `null`.
    Null,
    /// `true` or `false`.
    Bool(bool),
    /// A bare number token.
    Num(Seq<char>),
    /// A string.
    Str(Seq<char>),
}

/// Mathematical shape of a [`FieldValue`].
pub enum FieldValueView {
    /// A scalar.
    Scalar(ScalarView),
    /// An array of strings.
    StrArr(Seq<Seq<char>>),
    /// A sub-object of scalar fields.
    Obj(Seq<(Seq<char>, ScalarView)>),
    /// A sub-object holding one tagged sub-object of scalar fields.
    Wrapped(Seq<char>, Seq<(Seq<char>, ScalarView)>),
}

impl View for Scalar {
    type V = ScalarView;

    open spec fn view(&self) -> ScalarView {
        match self {
            Scalar::Null => ScalarView::Null,
            Scalar::Bool(b) => ScalarView::Bool(*b),
            Scalar::Num(t) => ScalarView::Num(t@),
            Scalar::Str(t) => ScalarView::Str(t@),
        }
    }
}

/// The shapes of an object's scalar fields.
pub open spec fn obj_fields_view(fs: Seq<(String, Scalar)>) -> Seq<(Seq<char>, ScalarView)> {
    fs.map_values(|f: (String, Scalar)| (f.0@, f.1@))
}

impl View for FieldValue {
    type V = FieldValueView;

    open spec fn view(&self) -> FieldValueView {
        match self {
            FieldValue::Scalar(s) => FieldValueView::Scalar(s@),
            FieldValue::StrArr(items) => FieldValueView::StrArr(
                items@.map_values(|s: String| s@),
            ),
            FieldValue::Obj(fs) => FieldValueView::Obj(obj_fields_view(fs@)),
            FieldValue::Wrapped(tag, fs) => FieldValueView::Wrapped(tag@, obj_fields_view(fs@)),
        }
    }
}

/// The shapes of a body's fields.
pub open spec fn fields_view(fs: Seq<(String, FieldValue)>) -> Seq<(Seq<char>, FieldValueView)> {
    fs.map_values(|f: (String, FieldValue)| (f.0@, f.1@))
}

/// The hexadecimal digit character for `d`.
pub open spec fn hex_char(d: int) -> char {
    if d < 10 {
        digit_char(d)
    } else if d == 10 {
        'a'
    } else if d == 11 {
        'b'
    } else if d == 12 {
        'c'
    } else if d == 13 {
        'd'
    } else if d == 14 {
        'e'
    } else {
        'f'
    }
}

/// How one character is written inside a JSON string: quote, backslash
/// and the named control characters take a two-character escape, other
/// control characters take a `\u00XX` escape, everything else stands as
/// itself.
pub open spec fn spec_escape_char(c: char) -> Seq<char> {
    if c == '"' {
        seq!['\\', '"']
    } else if c == '\\' {
        seq!['\\', '\\']
    } else if c == '\n' {
        seq!['\\', 'n']
    } else if c == '\r' {
        seq!['\\', 'r']
    } else if c == '\t' {
        seq!['\\', 't']
    } else if (c as u32) < 32 {
        seq!['\\', 'u', '0', '0', hex_char(c as u32 as int / 16), hex_char(c as u32 as int % 16)]
    } else {
        seq![c]
    }
}

/// A string's characters, escaped for JSON.
pub open spec fn spec_escape(s: Seq<char>) -> Seq<char>
    decreases s.len(),
{
    if s.len() == 0 {
        Seq::<char>::empty()
    } else {
        spec_escape(s.drop_last()) + spec_escape_char(s.last())
    }
}

/// A string as JSON writes it: quoted and escaped.
pub open spec fn spec_quoted(s: Seq<char>) -> Seq<char> {
    seq!['"'] + spec_escape(s) + seq!['"']
}

/// The text of a scalar.
pub open spec fn spec_scalar_text(v: Scalar) -> Seq<char> {
    match v {
        Scalar::Null => "null"@,
        Scalar::Bool(b) => if b {
            "true"@
        } else {
            "false"@
        },
        Scalar::Num(t) => t@,
        Scalar::Str(t) => spec_quoted(t@),
    }
}

/// The comma-joined text of a string array's items.
pub open spec fn spec_str_items_text(items: Seq<String>) -> Seq<char>
    decreases items.len(),
{
    if items.len() == 0 {
        Seq::<char>::empty()
    } else if items.len() == 1 {
        spec_quoted(items[0]@)
    } else {
        spec_str_items_text(items.drop_last()) + seq![','] + spec_quoted(items.last()@)
    }
}

/// The comma-joined text of a sub-object's fields, each
/// `"key":value`.
pub open spec fn spec_obj_fields_text(fields: Seq<(String, Scalar)>) -> Seq<char>
    decreases fields.len(),
{
    if fields.len() == 0 {
        Seq::<char>::empty()
    } else {
        let one = spec_quoted(fields.last().0@) + seq![':'] + spec_scalar_text(fields.last().1);
        if fields.len() == 1 {
            one
        } else {
            spec_obj_fields_text(fields.drop_last()) + seq![','] + one
        }
    }
}

/// The text of a field value.
pub open spec fn spec_field_value_text(v: FieldValue) -> Seq<char> {
    match v {
        FieldValue::Scalar(s) => spec_scalar_text(s),
        FieldValue::StrArr(items) => seq!['['] + spec_str_items_text(items@) + seq![']'],
        FieldValue::Obj(fields) => seq!['{'] + spec_obj_fields_text(fields@) + seq!['}'],
        FieldValue::Wrapped(tag, fields) => seq!['{'] + spec_quoted(tag@) + seq![':'] + seq!['{']
            + spec_obj_fields_text(fields@) + seq!['}'] + seq!['}'],
    }
}

/// The comma-joined text of a body's fields.
pub open spec fn spec_body_fields_text(fields: Seq<(String, FieldValue)>) -> Seq<char>
    decreases fields.len(),
{
    if fields.len() == 0 {
        Seq::<char>::empty()
    } else {
        let one = spec_quoted(fields.last().0@) + seq![':'] + spec_field_value_text(
            fields.last().1,
        );
        if fields.len() == 1 {
            one
        } else {
            spec_body_fields_text(fields.drop_last()) + seq![','] + one
        }
    }
}

/// The full text of a request body.
pub open spec fn spec_body_text(fields: Seq<(String, FieldValue)>) -> Seq<char> {
    seq!['{'] + spec_body_fields_text(fields) + seq!['}']
}

/// Appends one escaped character.
fn push_escape_char(out: &mut String, c: char)
    ensures
        final(out)@ == old(out)@ + spec_escape_char(c),
{
    if c == '"' {
        out.push('\\');
        out.push('"');
    } else if c == '\\' {
        out.push('\\');
        out.push('\\');
    } else if c == '\n' {
        out.push('\\');
        out.push('n');
    } else if c == '\r' {
        out.push('\\');
        out.push('r');
    } else if c == '\t' {
        out.push('\\');
        out.push('t');
    } else if (c as u32) < 32 {
        let v = c as u32;
        out.push('\\');
        out.push('u');
        out.push('0');
        out.push('0');
        out.push(hex_to_char((v / 16) as u8));
        out.push(hex_to_char((v % 16) as u8));
    } else {
        out.push(c);
    }
    proof {
        assert(final(out)@ =~= old(out)@ + spec_escape_char(c));
    }
}

/// Hexadecimal digit character for `d`.
fn hex_to_char(d: u8) -> (r: char)
    requires
        d < 16,
    ensures
        r == hex_char(d as int),
{
    if d < 10 {
        crate::strutil::digit_to_char(d)
    } else {
        match d {
            10 => 'a',
            11 => 'b',
            12 => 'c',
            13 => 'd',
            14 => 'e',
            _ => 'f',
        }
    }
}

/// Appends a quoted, escaped string.
fn push_quoted(out: &mut String, s: &str)
    ensures
        final(out)@ == old(out)@ + spec_quoted(s@),
{
    let cs = crate::strutil::chars_of(s);
    let n = cs.len();
    out.push('"');
    let mut i: usize = 0;
    proof {
        assert(s@.subrange(0, 0) =~= Seq::<char>::empty());
        assert(out@ =~= old(out)@ + seq!['"'] + spec_escape(s@.subrange(0, 0)));
    }
    while i < n
        invariant
            i <= n,
            n == cs@.len(),
            cs@ == s@,
            out@ == old(out)@ + seq!['"'] + spec_escape(s@.subrange(0, i as int)),
        decreases n - i,
    {
        let c = cs[i];
        push_escape_char(out, c);
        i = i + 1;
        proof {
            let pre = s@.subrange(0, (i - 1) as int);
            let cur = s@.subrange(0, i as int);
            assert(cur.drop_last() =~= pre);
            assert(cur.last() == c);
            assert(out@ =~= old(out)@ + seq!['"'] + spec_escape(cur));
        }
    }
    out.push('"');
    proof {
        assert(s@.subrange(0, n as int) =~= s@);
        assert(final(out)@ =~= old(out)@ + spec_quoted(s@));
    }
}

/// Appends a scalar's text.
fn push_scalar(out: &mut String, v: &Scalar)
    ensures
        final(out)@ == old(out)@ + spec_scalar_text(*v),
{
    match v {
        Scalar::Null => {
            out.append("null");
        },
        Scalar::Bool(b) => {
            if *b {
                out.append("true");
            } else {
                out.append("false");
            }
        },
        Scalar::Num(t) => {
            out.append(t.as_str());
        },
        Scalar::Str(t) => {
            push_quoted(out, t.as_str());
        },
    }
}

/// Appends a field value's text.
fn push_field_value(out: &mut String, v: &FieldValue)
    ensures
        final(out)@ == old(out)@ + spec_field_value_text(*v),
{
    match v {
        FieldValue::Scalar(s) => {
            push_scalar(out, s);
        },
        FieldValue::StrArr(items) => {
            out.push('[');
            let n = items.len();
            let mut i: usize = 0;
            proof {
                assert(items@.subrange(0, 0) =~= Seq::<String>::empty());
                assert(out@ =~= old(out)@ + seq!['['] + spec_str_items_text(
                    items@.subrange(0, 0),
                ));
            }
            while i < n
                invariant
                    i <= n,
                    n == items@.len(),
                    out@ == old(out)@ + seq!['['] + spec_str_items_text(
                        items@.subrange(0, i as int),
                    ),
                decreases n - i,
            {
                if i > 0 {
                    out.push(',');
                }
                push_quoted(out, items[i].as_str());
                i = i + 1;
                proof {
                    let pre = items@.subrange(0, (i - 1) as int);
                    let cur = items@.subrange(0, i as int);
                    assert(cur.drop_last() =~= pre);
                    assert(out@ =~= old(out)@ + seq!['['] + spec_str_items_text(cur));
                }
            }
            out.push(']');
            proof {
                assert(items@.subrange(0, n as int) =~= items@);
                assert(final(out)@ =~= old(out)@ + spec_field_value_text(*v));
            }
        },
        FieldValue::Obj(fields) => {
            push_obj(out, fields);
            proof {
                assert(final(out)@ =~= old(out)@ + spec_field_value_text(*v));
            }
        },
        FieldValue::Wrapped(tag, fields) => {
            out.push('{');
            push_quoted(out, tag.as_str());
            out.push(':');
            push_obj(out, fields);
            out.push('}');
            proof {
                assert(final(out)@ =~= old(out)@ + spec_field_value_text(*v));
            }
        },
    }
}

/// Appends a sub-object of scalar fields, braces included.
fn push_obj(out: &mut String, fields: &Vec<(String, Scalar)>)
    ensures
        final(out)@ == old(out)@ + seq!['{'] + spec_obj_fields_text(fields@) + seq!['}'],
{
    out.push('{');
    let n = fields.len();
    let mut i: usize = 0;
    proof {
        assert(fields@.subrange(0, 0) =~= Seq::<(String, Scalar)>::empty());
        assert(out@ =~= old(out)@ + seq!['{'] + spec_obj_fields_text(fields@.subrange(0, 0)));
    }
    while i < n
        invariant
            i <= n,
            n == fields@.len(),
            out@ == old(out)@ + seq!['{'] + spec_obj_fields_text(fields@.subrange(0, i as int)),
        decreases n - i,
    {
        if i > 0 {
            out.push(',');
        }
        push_quoted(out, fields[i].0.as_str());
        out.push(':');
        push_scalar(out, &fields[i].1);
        i = i + 1;
        proof {
            let pre = fields@.subrange(0, (i - 1) as int);
            let cur = fields@.subrange(0, i as int);
            assert(cur.drop_last() =~= pre);
            assert(cur.last() == fields@[i - 1]);
            assert(out@ =~= old(out)@ + seq!['{'] + spec_obj_fields_text(cur));
        }
    }
    out.push('}');
    proof {
        assert(fields@.subrange(0, n as int) =~= fields@);
        assert(final(out)@ =~= old(out)@ + seq!['{'] + spec_obj_fields_text(fields@) + seq![
            '}',
        ]);
    }
}

/// Renders a request body: the fields in order, inside one JSON object.
pub fn render_body(fields: &Vec<(String, FieldValue)>) -> (r: String)
    ensures
        r@ == spec_body_text(fields@),
{
    let mut out = String::new();
    out.push('{');
    let n = fields.len();
    let mut i: usize = 0;
    proof {
        assert(fields@.subrange(0, 0) =~= Seq::<(String, FieldValue)>::empty());
        assert(out@ =~= seq!['{'] + spec_body_fields_text(fields@.subrange(0, 0)));
    }
    while i < n
        invariant
            i <= n,
            n == fields@.len(),
            out@ == seq!['{'] + spec_body_fields_text(fields@.subrange(0, i as int)),
        decreases n - i,
    {
        if i > 0 {
            out.push(',');
        }
        push_quoted(&mut out, fields[i].0.as_str());
        out.push(':');
        push_field_value(&mut out, &fields[i].1);
        i = i + 1;
        proof {
            let pre = fields@.subrange(0, (i - 1) as int);
            let cur = fields@.subrange(0, i as int);
            assert(cur.drop_last() =~= pre);
            assert(cur.last() == fields@[i - 1]);
            assert(out@ =~= seq!['{'] + spec_body_fields_text(cur));
        }
    }
    out.push('}');
    proof {
        assert(fields@.subrange(0, n as int) =~= fields@);
        assert(out@ =~= spec_body_text(fields@));
    }
    out
}

/// Appends one body field under a literal key.
pub fn push_field(fs: &mut Vec<(String, FieldValue)>, key: &str, v: FieldValue)
    ensures
        fields_view(final(fs)@) == fields_view(old(fs)@).push((key@, v@)),
{
    fs.push((String::from_str(key), v));
    proof {
        assert(fields_view(final(fs)@) =~= fields_view(old(fs)@).push((key@, final(fs)@.last().1@)));
    }
}

} // verus!
