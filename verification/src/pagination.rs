//! The cursor-based pagination engine.
//!
//! List endpoints page through results with a cursor derived from the
//! previous page: the next request carries `page_size` (the previous
//! cursor's, or the default) and `page_token` (the id of the last item of
//! the page just received).  The engine is a state machine: it starts
//! idle, holds a cursor while pages keep coming, and is exhausted —
//! finally — when a page arrives empty.  Stop policy, fixed here: the
//! engine stops on an *empty* page, not on a short one; a short page
//! still yields a cursor and one further request decides the end.
//! Items are kept in the order received and never deduplicated across
//! pages: records created or removed between fetches may appear twice or
//! not at all.

use vstd::prelude::*;

verus! {

/// Page size a cursor carries when no earlier cursor named one.
pub const DEFAULT_PAGE_SIZE: u64 = 100;

/// The cursor derived from a page: the size to ask for and the id of the
/// last item received.
#[derive(Clone, Debug, PartialEq)]
pub struct PageCursor {
    /// Number of items to ask for.
    pub page_size: u64,
    /// Id of the last item of the page just received.
    pub page_token: String,
}

/// Where a pagination sequence stands.
#[derive(Clone, Debug, PartialEq)]
pub enum PageState {
    /// No request made yet: the first request carries no cursor.
    Idle,
    /// A page arrived non-empty: the next request carries this cursor.
    HasCursor(PageCursor),
    /// A page arrived empty: the sequence is over.  Terminal.
    Exhausted,
}

/// The page size the next cursor inherits: the current cursor's, or the
/// default when there is none.
pub open spec fn spec_inherited_size(state: PageState) -> u64 {
    match state {
        PageState::HasCursor(c) => c.page_size,
        _ => DEFAULT_PAGE_SIZE,
    }
}

/// Advances the engine on a received page, given the ids of the page's
/// items in order.  A non-empty page moves to (or stays in) `HasCursor`,
/// with the token equal to the id of the page's last item — the cursor is
/// monotonic per request sequence.  An empty page moves to `Exhausted`.
pub fn next_state(state: &PageState, page_ids: &Vec<String>) -> (r: PageState)
    requires
        !(state is Exhausted),
    ensures
        page_ids@.len() == 0 ==> r is Exhausted,
        page_ids@.len() > 0 ==> (r matches PageState::HasCursor(c) && c.page_token@
            == page_ids@.last()@ && c.page_size == spec_inherited_size(*state)),
{
    if page_ids.len() == 0 {
        PageState::Exhausted
    } else {
        let page_size = match state {
            PageState::HasCursor(c) => c.page_size,
            _ => DEFAULT_PAGE_SIZE,
        };
        let page_token = page_ids[page_ids.len() - 1].clone();
        PageState::HasCursor(PageCursor { page_size, page_token })
    }
}

/// Whether a query pair is untouched by the cursor.
pub open spec fn not_cursor_key(p: (String, String)) -> bool {
    p.0@ != "page_size"@ && p.0@ != "page_token"@
}

/// A query with any stale cursor parameters removed.
pub open spec fn spec_strip_cursor(q: Seq<(String, String)>) -> Seq<(String, String)> {
    q.filter(|p: (String, String)| not_cursor_key(p))
}

/// Merges a cursor into a request's query parameters: any stale
/// `page_size` or `page_token` pair is replaced, every other pair is kept
/// in order, and the cursor's two pairs go last.
pub fn apply_cursor(query: &Vec<(String, String)>, cursor: &PageCursor) -> (r: Vec<
    (String, String),
>)
    ensures
        ({
            let kept = spec_strip_cursor(query@);
            &&& r@.len() == kept.len() + 2
            &&& r@.subrange(0, kept.len() as int) == kept
            &&& r@[kept.len() as int].0@ == "page_size"@
            &&& r@[kept.len() as int].1@ == crate::strutil::uint_chars(cursor.page_size as nat)
            &&& r@[kept.len() as int + 1].0@ == "page_token"@
            &&& r@[kept.len() as int + 1].1@ == cursor.page_token@
        }),
{
    let mut out: Vec<(String, String)> = Vec::new();
    let n = query.len();
    let mut i: usize = 0;
    proof {
        reveal(Seq::filter);
        assert(query@.subrange(0, 0) =~= Seq::<(String, String)>::empty());
        assert(out@ =~= spec_strip_cursor(query@.subrange(0, 0)));
    }
    while i < n
        invariant
            i <= n,
            n == query@.len(),
            out@ == spec_strip_cursor(query@.subrange(0, i as int)),
        decreases n - i,
    {
        let keep = !(crate::strutil::str_eq(query[i].0.as_str(), "page_size")
            || crate::strutil::str_eq(query[i].0.as_str(), "page_token"));
        if keep {
            out.push((query[i].0.clone(), query[i].1.clone()));
        }
        i = i + 1;
        proof {
            reveal(Seq::filter);
            let pre = query@.subrange(0, (i - 1) as int);
            let cur = query@.subrange(0, i as int);
            assert(cur.drop_last() =~= pre);
            assert(cur.last() == query@[i - 1]);
            if keep {
                assert(out@ =~= spec_strip_cursor(cur));
            } else {
                assert(out@ =~= spec_strip_cursor(cur));
            }
        }
    }
    proof {
        assert(query@.subrange(0, n as int) =~= query@);
    }
    let ghost kept = spec_strip_cursor(query@);
    let mut size_text = String::new();
    crate::strutil::push_uint(&mut size_text, cursor.page_size as u128);
    proof {
        assert(size_text@ =~= crate::strutil::uint_chars(cursor.page_size as nat));
    }
    crate::request::push_pair(&mut out, "page_size", size_text);
    crate::request::push_pair(&mut out, "page_token", cursor.page_token.clone());
    proof {
        assert(out@.subrange(0, kept.len() as int) =~= kept);
    }
    out
}

} // verus!
