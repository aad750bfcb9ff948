//! The access guard: an optional shared secret that a request must present,
//! as a bearer token or as the `token` query parameter.
use vstd::prelude::*;
use crate::text::{find_char, has_prefix, lemma_next_index_bounds, next_index, same_text, starts_with};

verus! {

/// The token of a bearer credential: what follows `Bearer `.
pub open spec fn bearer_of(header: Seq<char>) -> Option<Seq<char>> {
    if has_prefix(header, "Bearer "@) {
        Some(header.skip(7))
    } else {
        None
    }
}

/// The value of one `key=value` parameter where its key is `token`: the
/// text after the first `=` up to any second one.
pub open spec fn token_in(seg: Seq<char>) -> Option<Seq<char>> {
    let k = next_index(seg, 0, '=');
    if k < seg.len() && seg.subrange(0, k) == "token"@ {
        Some(seg.subrange(k + 1, next_index(seg, k + 1, '=')))
    } else {
        None
    }
}

/// The value of the first `token` parameter of the query `q` from position
/// `start` on; parameters are separated by `&`.
pub open spec fn token_from(q: Seq<char>, start: int) -> Option<Seq<char>>
    decreases q.len() - start,
    via token_from_decreases
{
    if start < 0 || start > q.len() {
        None
    } else {
        let e = next_index(q, start, '&');
        let seg = q.subrange(start, e);
        if token_in(seg) is Some {
            token_in(seg)
        } else if e >= q.len() {
            None
        } else {
            token_from(q, e + 1)
        }
    }
}

#[via_fn]
proof fn token_from_decreases(q: Seq<char>, start: int) {
    if 0 <= start <= q.len() {
        lemma_next_index_bounds(q, start, '&');
    }
}

/// The token that a query string carries.
pub open spec fn query_token_of(q: Seq<char>) -> Option<Seq<char>> {
    token_from(q, 0)
}

proof fn lemma_next_index_is(s: Seq<char>, i: int, j: int, c: char)
    requires
        0 <= i <= j <= s.len(),
        forall|k: int| i <= k < j ==> s[k] != c,
        j == s.len() || s[j] == c,
    ensures
        next_index(s, i, c) == j,
    decreases j - i,
{
    if i < j {
        lemma_next_index_is(s, i + 1, j, c);
    }
}

proof fn lemma_next_index_shift(x: Seq<char>, y: Seq<char>, i: int, c: char)
    requires
        0 <= i <= y.len(),
    ensures
        next_index(x + y, x.len() + i, c) == x.len() + next_index(y, i, c),
    decreases y.len() - i,
{
    if i < y.len() {
        assert((x + y)[x.len() + i] == y[i]);
        if y[i] != c {
            lemma_next_index_shift(x, y, i + 1, c);
        }
    }
}

proof fn lemma_token_from_shift(x: Seq<char>, y: Seq<char>, i: int)
    requires
        0 <= i <= y.len(),
    ensures
        token_from(x + y, x.len() + i) == token_from(y, i),
    decreases y.len() - i,
{
    let e = next_index(y, i, '&');
    lemma_next_index_shift(x, y, i, '&');
    lemma_next_index_bounds(y, i, '&');
    assert((x + y).subrange(x.len() + i, x.len() + e) =~= y.subrange(i, e));
    if token_in(y.subrange(i, e)) is None && e < y.len() {
        lemma_token_from_shift(x, y, e + 1);
    }
}

/// A query that begins with `token=` and a value free of `&` and `=`,
/// ending there or going on after a `&`, carries that value.
pub proof fn lemma_query_leading_token(value: Seq<char>, tail: Seq<char>)
    requires
        !value.contains('&'),
        !value.contains('='),
        tail.len() == 0 || tail[0] == '&',
    ensures
        query_token_of("token="@ + value + tail) == Some(value),
{
    reveal_strlit("token=");
    reveal_strlit("token");
    let q = "token="@ + value + tail;
    let n = 6 + value.len() as int;
    assert forall|k: int| 0 <= k < n implies q[k] != '&' by {
        if k >= 6 {
            assert(q[k] == value[k - 6]);
        }
    }
    lemma_next_index_is(q, 0, n, '&');
    let seg = q.subrange(0, n);
    assert(seg =~= "token="@ + value);
    assert forall|k: int| 0 <= k < 5 implies seg[k] != '=' by {}
    lemma_next_index_is(seg, 0, 5, '=');
    assert forall|k: int| 6 <= k < seg.len() implies seg[k] != '=' by {
        assert(seg[k] == value[k - 6]);
    }
    lemma_next_index_is(seg, 6, seg.len() as int, '=');
    assert(seg.subrange(0, 5) =~= "token"@);
    assert(seg.subrange(6, seg.len() as int) =~= value);
}

/// A leading parameter whose key is not `token` leaves the token that the
/// rest of the query carries unchanged.
pub proof fn lemma_query_skips_parameter(param: Seq<char>, rest: Seq<char>)
    requires
        !param.contains('&'),
        token_in(param) is None,
    ensures
        query_token_of(param + "&"@ + rest) == query_token_of(rest),
{
    reveal_strlit("&");
    let head = param + "&"@;
    let q = head + rest;
    assert(param + "&"@ + rest == q);
    assert forall|k: int| 0 <= k < param.len() implies q[k] != '&' by {
        assert(q[k] == param[k]);
    }
    lemma_next_index_is(q, 0, param.len() as int, '&');
    assert(q.subrange(0, param.len() as int) =~= param);
    lemma_token_from_shift(head, rest, 0);
}

/// With a secret configured, a query that leads with `token=` and the
/// secret lets the request through, whatever the header.
pub proof fn lemma_secret_in_query_authorizes(
    secret: String,
    header: Option<String>,
    query: String,
    tail: Seq<char>,
)
    requires
        !secret@.contains('&'),
        !secret@.contains('='),
        tail.len() == 0 || tail[0] == '&',
        query@ == "token="@ + secret@ + tail,
    ensures
        authorized(Some(secret), header, Some(query)),
{
    lemma_query_leading_token(secret@, tail);
}

/// With a secret configured, a query whose first parameter has another key
/// and whose second is `token=` and the secret lets the request through,
/// whatever the header.
pub proof fn lemma_secret_after_parameter_authorizes(
    secret: String,
    header: Option<String>,
    query: String,
    param: Seq<char>,
    tail: Seq<char>,
)
    requires
        !secret@.contains('&'),
        !secret@.contains('='),
        !param.contains('&'),
        token_in(param) is None,
        tail.len() == 0 || tail[0] == '&',
        query@ == param + "&"@ + ("token="@ + secret@ + tail),
    ensures
        authorized(Some(secret), header, Some(query)),
{
    lemma_query_skips_parameter(param, "token="@ + secret@ + tail);
    lemma_query_leading_token(secret@, tail);
}

/// The token of an `Authorization` header value, where it is a bearer
/// credential.
pub fn bearer_token(header: &str) -> (r: Option<String>)
    ensures
        r is Some <==> bearer_of(header@) is Some,
        r is Some ==> r->0@ == bearer_of(header@)->0,
{
    proof {
        reveal_strlit("Bearer ");
    }
    if starts_with(header, "Bearer ") {
        let n = header.unicode_len();
        Some(String::from_str(header.substring_char(7, n)))
    } else {
        None
    }
}

fn segment_token(seg: &str) -> (r: Option<String>)
    ensures
        r is Some <==> token_in(seg@) is Some,
        r is Some ==> r->0@ == token_in(seg@)->0,
{
    let n = seg.unicode_len();
    let k = find_char(seg, 0, '=');
    if k < n && same_text(seg.substring_char(0, k), "token") {
        let e = find_char(seg, k + 1, '=');
        Some(String::from_str(seg.substring_char(k + 1, e)))
    } else {
        None
    }
}

/// The value of the first `token` parameter of a query string.
pub fn query_token(query: &str) -> (r: Option<String>)
    ensures
        r is Some <==> query_token_of(query@) is Some,
        r is Some ==> r->0@ == query_token_of(query@)->0,
{
    let n = query.unicode_len();
    let mut start: usize = 0;
    loop
        invariant
            n == query@.len(),
            start <= n,
            token_from(query@, start as int) == token_from(query@, 0),
        decreases n - start,
    {
        let e = find_char(query, start, '&');
        let seg = query.substring_char(start, e);
        let t = segment_token(seg);
        if t.is_some() {
            return t;
        }
        if e >= n {
            return None;
        }
        start = e + 1;
    }
}

/// Whether a request may pass: always where no secret (or an empty one) is
/// configured; else only where the bearer token or the query token equals
/// the secret exactly.
pub open spec fn authorized(secret: Option<String>, header: Option<String>, query: Option<String>) -> bool {
    match secret {
        None => true,
        Some(s) => s@.len() == 0 || (header is Some && bearer_of(header->0@) == Some(s@)) || (
        query is Some && query_token_of(query->0@) == Some(s@)),
    }
}

/// Checks the credentials of a request: the raw `Authorization` header
/// value and the raw query string, either of which may be absent.
pub fn authorize(secret: &Option<String>, header: &Option<String>, query: &Option<String>) -> (r:
    bool)
    ensures
        r == authorized(*secret, *header, *query),
{
    let expected = match secret {
        None => {
            return true;
        },
        Some(s) => s,
    };
    if expected.unicode_len() == 0 {
        return true;
    }
    let from_header = match header {
        Some(h) => match bearer_token(h.as_str()) {
            Some(t) => same_text(t.as_str(), expected.as_str()),
            None => false,
        },
        None => false,
    };
    if from_header {
        return true;
    }
    match query {
        Some(q) => match query_token(q.as_str()) {
            Some(t) => same_text(t.as_str(), expected.as_str()),
            None => false,
        },
        None => false,
    }
}

} // verus!
