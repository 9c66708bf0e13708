//! Compound asset identifiers.
//!
//! An identifier is either a ticker symbol — optionally qualified by an
//! exchange and an asset class, written `SYM`, `SYM:EXCH` or
//! `SYM:EXCH:CLASS` — or an asset id, written as canonical UUID text.
//! Parsing never fails: text that reads as a UUID becomes an asset id and
//! everything else becomes some symbol form.

use vstd::prelude::*;

use crate::strutil::{
    chars_of, find_from, first_index_from, lemma_first_index_props, lemma_first_index_shift,
    string_range,
};

verus! {

use vstd::string::StringExecFns;

/// Identifier of a tradable asset: a symbol-based compound key, or an
/// opaque asset id held as the UUID's 128-bit value.
#[derive(Clone, Debug, PartialEq)]
pub enum Identifier {
    /// Ticker symbol, optionally with an exchange and an asset class.
    Symbol(String, Option<(String, Option<String>)>),
    /// Unique asset id.
    AssetId(u128),
}

/// Mathematical shape of an [`Identifier`]: the same structure over
/// character sequences.
pub enum IdentifierView {
    /// Ticker symbol, optionally with an exchange and an asset class.
    Symbol(Seq<char>, Option<(Seq<char>, Option<Seq<char>>)>),
    /// Unique asset id.
    AssetId(u128),
}

impl View for Identifier {
    type V = IdentifierView;

    open spec fn view(&self) -> IdentifierView {
        match self {
            Identifier::Symbol(s, None) => IdentifierView::Symbol(s@, None),
            Identifier::Symbol(s, Some((e, None))) => IdentifierView::Symbol(
                s@,
                Some((e@, None)),
            ),
            Identifier::Symbol(s, Some((e, Some(c)))) => IdentifierView::Symbol(
                s@,
                Some((e@, Some(c@))),
            ),
            Identifier::AssetId(u) => IdentifierView::AssetId(*u),
        }
    }
}

/// What UUID text parses to: `Some` of the 128-bit value for any of the
/// textual UUID forms, `None` for everything else.
pub uninterp spec fn uuid_of(s: Seq<char>) -> Option<u128>;

/// The canonical text of a UUID value: lowercase hexadecimal in
/// hyphenated `8-4-4-4-12` form.
pub uninterp spec fn uuid_text(u: u128) -> Seq<char>;

/// Relies on `uuid::Uuid::parse_str`: it accepts the textual UUID forms
/// and yields the 128-bit value, and in particular accepts the canonical
/// hyphenated text of every value.
#[verifier::external_body]
pub(crate) fn uuid_parse_str(s: &str) -> (r: Option<u128>)
    ensures
        r == uuid_of(s@),
        forall|x: u128| s@ == uuid_text(x) ==> r == Some(x),
{
    uuid::Uuid::parse_str(s).ok().map(|u| u.as_u128())
}

/// Relies on `uuid::Uuid`'s display form: `from_u128` then `to_string`
/// yields the canonical hyphenated text, which is 36 characters long.
#[verifier::external_body]
pub(crate) fn uuid_format(u: u128) -> (r: String)
    ensures
        r@ == uuid_text(u),
        r@.len() == 36,
{
    uuid::Uuid::from_u128(u).to_string()
}

/// How symbol text is read: split on the first `:` into symbol and
/// remainder; split the remainder on its first `:` into exchange and
/// asset class, the class taken verbatim.  Text without a colon is a bare
/// symbol.
pub open spec fn spec_parse_symbol_text(s: Seq<char>) -> IdentifierView {
    let c1 = first_index_from(s, 0, ':');
    if c1 < 0 {
        IdentifierView::Symbol(s, None)
    } else {
        let sym = s.subrange(0, c1);
        let rest = s.subrange(c1 + 1, s.len() as int);
        let c2 = first_index_from(rest, 0, ':');
        if c2 < 0 {
            IdentifierView::Symbol(sym, Some((rest, None)))
        } else {
            IdentifierView::Symbol(
                sym,
                Some(
                    (
                        rest.subrange(0, c2),
                        Some(rest.subrange(c2 + 1, rest.len() as int)),
                    ),
                ),
            )
        }
    }
}

/// What any identifier text means: UUID text is an asset id, all other
/// text is some symbol form.
pub open spec fn spec_parse_identifier(s: Seq<char>) -> IdentifierView {
    match uuid_of(s) {
        Some(u) => IdentifierView::AssetId(u),
        None => spec_parse_symbol_text(s),
    }
}

/// The text of an identifier: the symbol parts joined by `:`, or the
/// canonical UUID text of an asset id.
pub open spec fn spec_format_identifier(v: IdentifierView) -> Seq<char> {
    match v {
        IdentifierView::Symbol(s, None) => s,
        IdentifierView::Symbol(s, Some((e, None))) => s + seq![':'] + e,
        IdentifierView::Symbol(s, Some((e, Some(c)))) => s + seq![':'] + e + seq![':'] + c,
        IdentifierView::AssetId(u) => uuid_text(u),
    }
}

/// Reads the non-UUID symbol forms.
fn parse_symbol_text(s: &str) -> (r: Identifier)
    ensures
        r@ == spec_parse_symbol_text(s@),
{
    let cs = chars_of(s);
    let n = cs.len();
    match find_from(&cs, 0, ':') {
        None => {
            let r = Identifier::Symbol(string_range(&cs, 0, n), None);
            proof {
                assert(cs@.subrange(0, n as int) =~= s@);
            }
            r
        },
        Some(c1) => {
            let ghost rest = s@.subrange(c1 + 1, s@.len() as int);
            match find_from(&cs, c1 + 1, ':') {
                None => {
                    proof {
                        lemma_first_index_shift(s@, c1 + 1, 0, ':');
                        assert(rest =~= cs@.subrange(c1 + 1 as int, n as int));
                    }
                    Identifier::Symbol(
                        string_range(&cs, 0, c1),
                        Some((string_range(&cs, c1 + 1, n), None)),
                    )
                },
                Some(c2) => {
                    proof {
                        lemma_first_index_shift(s@, c1 + 1, 0, ':');
                        assert(first_index_from(rest, 0, ':') == c2 - (c1 + 1));
                        assert(rest.subrange(0, c2 - (c1 + 1)) =~= s@.subrange(
                            c1 + 1 as int,
                            c2 as int,
                        ));
                        assert(rest.subrange(c2 - (c1 + 1) + 1, rest.len() as int) =~= s@.subrange(
                            c2 + 1 as int,
                            s@.len() as int,
                        ));
                    }
                    Identifier::Symbol(
                        string_range(&cs, 0, c1),
                        Some(
                            (
                                string_range(&cs, c1 + 1, c2),
                                Some(string_range(&cs, c2 + 1, n)),
                            ),
                        ),
                    )
                },
            }
        },
    }
}

/// Parses identifier text.  This never fails: UUID text becomes an asset
/// id, and any other text becomes the symbol form its colons spell.
pub fn parse_identifier(s: &str) -> (r: Identifier)
    ensures
        r@ == spec_parse_identifier(s@),
        uuid_of(s@) is None ==> r@ == spec_parse_symbol_text(s@),
        forall|x: u128| s@ == uuid_text(x) ==> r@ == IdentifierView::AssetId(x),
{
    match uuid_parse_str(s) {
        Some(u) => Identifier::AssetId(u),
        None => parse_symbol_text(s),
    }
}

/// Formats an identifier: `SYM`, `SYM:EXCH`, `SYM:EXCH:CLASS`, or
/// canonical UUID text.
pub fn format_identifier(id: &Identifier) -> (r: String)
    ensures
        r@ == spec_format_identifier(id@),
{
    match id {
        Identifier::AssetId(u) => uuid_format(*u),
        Identifier::Symbol(sym, None) => sym.clone(),
        Identifier::Symbol(sym, Some((e, None))) => {
            let mut out = sym.clone();
            out.push(':');
            out.append(e.as_str());
            proof {
                assert(out@ =~= sym@ + seq![':'] + e@);
            }
            out
        },
        Identifier::Symbol(sym, Some((e, Some(c)))) => {
            let mut out = sym.clone();
            out.push(':');
            out.append(e.as_str());
            out.push(':');
            out.append(c.as_str());
            proof {
                assert(out@ =~= sym@ + seq![':'] + e@ + seq![':'] + c@);
            }
            out
        },
    }
}

/// Formatting a parsed symbol form gives back the text it was parsed
/// from, whatever that text was: splitting on colons and rejoining with
/// colons is the identity.
pub proof fn lemma_symbol_round_trip(s: Seq<char>)
    ensures
        spec_format_identifier(spec_parse_symbol_text(s)) == s,
{
    let c1 = first_index_from(s, 0, ':');
    lemma_first_index_props(s, 0, ':');
    if c1 >= 0 {
        let sym = s.subrange(0, c1);
        let rest = s.subrange(c1 + 1, s.len() as int);
        let c2 = first_index_from(rest, 0, ':');
        lemma_first_index_props(rest, 0, ':');
        if c2 < 0 {
            assert(sym + seq![':'] + rest =~= s);
        } else {
            let e = rest.subrange(0, c2);
            let c = rest.subrange(c2 + 1, rest.len() as int);
            assert(e + seq![':'] + c =~= rest);
            assert(sym + seq![':'] + e + seq![':'] + c =~= s);
        }
    }
}

/// Round trip for every identifier form: re-formatting a parsed
/// identifier returns the input unchanged, both for the three symbol
/// shapes (any text that does not read as a UUID) and for canonical UUID
/// text.
pub fn reformat_identifier(s: &str) -> (r: String)
    ensures
        uuid_of(s@) is None ==> r@ == s@,
        (exists|x: u128| s@ == uuid_text(x)) ==> r@ == s@,
{
    let id = parse_identifier(s);
    let out = format_identifier(&id);
    proof {
        if uuid_of(s@) is None {
            lemma_symbol_round_trip(s@);
        }
        if exists|x: u128| s@ == uuid_text(x) {
            let x = choose|x: u128| s@ == uuid_text(x);
            assert(id@ == IdentifierView::AssetId(x));
        }
    }
    out
}

} // verus!
