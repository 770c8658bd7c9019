//! Query strings as ordered key/value pairs: what a params struct puts on the
//! wire. A field that is `None` is left out; a present one appears once, under
//! its wire name, in declaration order.

use vstd::prelude::*;
use crate::text::{decimal, u64_to_text};

verus! {

/// Key/value pairs of a query string, as character sequences.
pub type QueryView = Seq<(Seq<char>, Seq<char>)>;

/// The character-sequence view of executable query pairs.
pub open spec fn pairs_view(q: Seq<(String, String)>) -> QueryView {
    q.map_values(|p: (String, String)| (p.0@, p.1@))
}

/// One pair when the value is present, none otherwise.
pub open spec fn opt_pair(key: Seq<char>, value: Option<Seq<char>>) -> QueryView {
    match value {
        Some(v) => seq![(key, v)],
        None => seq![],
    }
}

/// The decimal text of an optional count.
pub open spec fn opt_decimal(o: Option<u32>) -> Option<Seq<char>> {
    match o {
        Some(n) => Some(decimal(n as nat)),
        None => None,
    }
}

/// The text of an optional string.
pub open spec fn opt_text(o: Option<String>) -> Option<Seq<char>> {
    match o {
        Some(s) => Some(s@),
        None => None,
    }
}

/// The text of an optional static literal.
pub open spec fn opt_literal(o: Option<&'static str>) -> Option<Seq<char>> {
    match o {
        Some(s) => Some(s@),
        None => None,
    }
}

proof fn lemma_pairs_view_push(q: Seq<(String, String)>, p: (String, String))
    ensures
        pairs_view(q.push(p)) == pairs_view(q).push((p.0@, p.1@)),
{
    assert(pairs_view(q.push(p)) =~= pairs_view(q).push((p.0@, p.1@)));
}

/// No query pairs.
pub fn no_pairs() -> (q: Vec<(String, String)>)
    ensures
        pairs_view(q@) == Seq::<(Seq<char>, Seq<char>)>::empty(),
{
    let q: Vec<(String, String)> = Vec::new();
    assert(pairs_view(q@) =~= Seq::empty());
    q
}

/// Appends `key=value`.
pub fn push_pair(q: &mut Vec<(String, String)>, key: &str, value: String)
    ensures
        pairs_view(final(q)@) == pairs_view(old(q)@).push((key@, value@)),
{
    let k = key.to_owned();
    proof {
        lemma_pairs_view_push(q@, (k, value));
    }
    q.push((k, value));
}

/// Appends `key=<decimal>` when the count is present.
pub fn push_opt_u32(q: &mut Vec<(String, String)>, key: &str, o: Option<u32>)
    ensures
        pairs_view(final(q)@) == pairs_view(old(q)@) + opt_pair(key@, opt_decimal(o)),
{
    match o {
        Some(n) => {
            let v = u64_to_text(n as u64);
            push_pair(q, key, v);
        },
        None => {},
    }
    assert(pairs_view(final(q)@) =~= pairs_view(old(q)@) + opt_pair(key@, opt_decimal(o)));
}

/// Appends `key=<text>` when the text is present.
pub fn push_opt_text(q: &mut Vec<(String, String)>, key: &str, o: &Option<String>)
    ensures
        pairs_view(final(q)@) == pairs_view(old(q)@) + opt_pair(key@, opt_text(*o)),
{
    match o {
        Some(s) => {
            let v = s.clone();
            push_pair(q, key, v);
        },
        None => {},
    }
    assert(pairs_view(final(q)@) =~= pairs_view(old(q)@) + opt_pair(key@, opt_text(*o)));
}

/// Appends `key=<literal>` when the literal is present.
pub fn push_opt_literal(q: &mut Vec<(String, String)>, key: &str, o: Option<&'static str>)
    ensures
        pairs_view(final(q)@) == pairs_view(old(q)@) + opt_pair(key@, opt_literal(o)),
{
    match o {
        Some(s) => {
            let v = s.to_owned();
            push_pair(q, key, v);
        },
        None => {},
    }
    assert(pairs_view(final(q)@) =~= pairs_view(old(q)@) + opt_pair(key@, opt_literal(o)));
}

} // verus!
