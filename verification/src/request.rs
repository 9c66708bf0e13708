//! What a domain request hands the transport: an HTTP method, a path,
//! and either query parameters or a JSON body.

use vstd::prelude::*;

verus! {

use vstd::string::StringExecFns;

/// HTTP method of a request.
#[derive(Clone, Copy, Debug, PartialEq, Eq, Structural)]
pub enum Method {
    /// GET
    Get,
    /// POST
    Post,
    /// PUT
    Put,
    /// PATCH
    Patch,
    /// DELETE
    Delete,
}

impl Method {
    /// The method's name on the wire.
    pub open spec fn spec_name(&self) -> Seq<char> {
        match self {
            Method::Get => "GET"@,
            Method::Post => "POST"@,
            Method::Put => "PUT"@,
            Method::Patch => "PATCH"@,
            Method::Delete => "DELETE"@,
        }
    }

    /// The method's name on the wire.
    pub fn name(&self) -> (r: &'static str)
        ensures
            r@ == self.spec_name(),
    {
        match self {
            Method::Get => "GET",
            Method::Post => "POST",
            Method::Put => "PUT",
            Method::Patch => "PATCH",
            Method::Delete => "DELETE",
        }
    }
}

/// The comma-joined text of a multi-value query filter.
pub open spec fn spec_comma_join(items: Seq<Seq<char>>) -> Seq<char>
    decreases items.len(),
{
    if items.len() == 0 {
        Seq::<char>::empty()
    } else if items.len() == 1 {
        items[0]
    } else {
        spec_comma_join(items.drop_last()) + seq![','] + items.last()
    }
}

/// Joins a multi-value filter into the single comma-separated query
/// value the API takes.
pub fn comma_join(items: &Vec<String>) -> (r: String)
    ensures
        r@ == spec_comma_join(items@.map_values(|s: String| s@)),
{
    let ghost views = items@.map_values(|s: String| s@);
    let mut out = String::new();
    let n = items.len();
    let mut i: usize = 0;
    proof {
        assert(views.subrange(0, 0) =~= Seq::<Seq<char>>::empty());
        assert(out@ =~= spec_comma_join(views.subrange(0, 0)));
    }
    while i < n
        invariant
            i <= n,
            n == items@.len(),
            views == items@.map_values(|s: String| s@),
            out@ == spec_comma_join(views.subrange(0, i as int)),
        decreases n - i,
    {
        if i > 0 {
            out.push(',');
        }
        out.append(items[i].as_str());
        i = i + 1;
        proof {
            let pre = views.subrange(0, (i - 1) as int);
            let cur = views.subrange(0, i as int);
            assert(cur.drop_last() =~= pre);
            assert(cur.last() == views[i - 1]);
            assert(views[i - 1] == items@[i - 1]@);
            assert(out@ =~= spec_comma_join(cur));
        }
    }
    proof {
        assert(views.subrange(0, n as int) =~= views);
    }
    out
}

/// The character shapes of a pair list: what a query means, independent
/// of how its strings are held.
pub open spec fn pairs_view(q: Seq<(String, String)>) -> Seq<(Seq<char>, Seq<char>)> {
    q.map_values(|p: (String, String)| (p.0@, p.1@))
}

/// Appends a query pair, converting the key from a literal.
pub fn push_pair(query: &mut Vec<(String, String)>, key: &str, value: String)
    ensures
        pairs_view(final(query)@) == pairs_view(old(query)@).push((key@, value@)),
        final(query)@.len() == old(query)@.len() + 1,
        final(query)@.subrange(0, old(query)@.len() as int) == old(query)@,
        final(query)@.last().0@ == key@,
        final(query)@.last().1 == value,
{
    let k = String::from_str(key);
    query.push((k, value));
    proof {
        assert(final(query)@.subrange(0, old(query)@.len() as int) =~= old(query)@);
        assert(pairs_view(final(query)@) =~= pairs_view(old(query)@).push((key@, value@)));
    }
}

/// The wire text of a boolean query value.
pub open spec fn spec_bool_text(b: bool) -> Seq<char> {
    if b {
        "true"@
    } else {
        "false"@
    }
}

/// The wire text of a boolean query value.
pub fn bool_text(b: bool) -> (r: &'static str)
    ensures
        r@ == spec_bool_text(b),
{
    if b {
        "true"
    } else {
        "false"
    }
}

} // verus!
