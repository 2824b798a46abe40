//! Lookup of a single key in a URL query string.

use crate::text::text_eq;
use vstd::prelude::*;

verus! {

/// Index of the first occurrence of `c` in `s` at or after `from`, or
/// `s.len()` when there is none.
pub open spec fn find_from(s: Seq<char>, c: char, from: int) -> int
    decreases s.len() - from,
{
    if from >= s.len() {
        s.len() as int
    } else if s[from] == c {
        from
    } else {
        find_from(s, c, from + 1)
    }
}

/// The part of `s` in front of its first `c`; all of `s` when it holds none.
pub open spec fn before(s: Seq<char>, c: char) -> Seq<char> {
    s.subrange(0, find_from(s, c, 0))
}

/// The part of `s` behind its first `c`, if it holds one.
pub open spec fn after(s: Seq<char>, c: char) -> Option<Seq<char>> {
    if find_from(s, c, 0) < s.len() {
        Some(s.subrange(find_from(s, c, 0) + 1, s.len() as int))
    } else {
        None
    }
}

/// The value bound to `key` in the `&`-separated pairs of `s`.
///
/// Each pair is cut at its `=` signs: the text before the first one is the
/// pair's key, the text between the first and the second (or the end of the
/// pair) its value. The first pair whose key is `key` decides; a pair without
/// any `=` in front of it ends the search without a result.
pub open spec fn lookup(s: Seq<char>, key: Seq<char>) -> Option<Seq<char>>
    decreases s.len(),
{
    let pair = before(s, '&');
    match after(pair, '=') {
        None => None,
        Some(rest) => if before(pair, '=') == key {
            Some(before(rest, '='))
        } else {
            match after(s, '&') {
                None => None,
                Some(tail) => {
                    proof {
                        lemma_find_from(s, '&', 0);
                    }
                    lookup(tail, key)
                },
            }
        },
    }
}

/// What [`parse_url_query_string`] returns for the query `q` and the key
/// `key`: nothing unless `q` starts with `?`, else the lookup in the text
/// after it.
pub open spec fn query_value(q: Seq<char>, key: Seq<char>) -> Option<Seq<char>> {
    if q.len() > 0 && q[0] == '?' {
        lookup(q.subrange(1, q.len() as int), key)
    } else {
        None
    }
}

/// `find_from` stays inside the text, lands on `c` when it lands inside, and
/// skips only characters other than `c`.
pub proof fn lemma_find_from(s: Seq<char>, c: char, from: int)
    requires
        0 <= from <= s.len(),
    ensures
        from <= find_from(s, c, from) <= s.len(),
        find_from(s, c, from) < s.len() ==> s[find_from(s, c, from)] == c,
        forall|i: int| from <= i < find_from(s, c, from) ==> s[i] != c,
    decreases s.len() - from,
{
    if from < s.len() && s[from] != c {
        lemma_find_from(s, c, from + 1);
    }
}

/// Position of the first `c` in `s`, or `len` when there is none.
fn find_char(s: &str, c: char, len: usize) -> (at: usize)
    requires
        len == s@.len(),
    ensures
        at == find_from(s@, c, 0),
        at <= len,
{
    let mut i: usize = 0;
    proof {
        lemma_find_from(s@, c, 0);
    }
    while i < len
        invariant
            i <= len,
            len == s@.len(),
            find_from(s@, c, 0) == find_from(s@, c, i as int),
        decreases len - i,
    {
        if s.get_char(i) == c {
            return i;
        }
        i += 1;
    }
    i
}

/// Looks `search_key` up in a query string as a browser's location reports
/// it, leading `?` included.
///
/// The pairs are read left to right. The first one whose key equals
/// `search_key` gives the result: its text between the first `=` and the next
/// one, or the end of the pair. A pair without `=` that comes before any match
/// makes the result `None`, as does a query that does not start with `?`.
pub fn parse_url_query_string<'a>(query: &'a str, search_key: &str) -> (value: Option<&'a str>)
    ensures
        value.is_some() == query_value(query@, search_key@).is_some(),
        value.is_some() ==> value.unwrap()@ == query_value(query@, search_key@).unwrap(),
{
    let total: usize = query.unicode_len();
    if total == 0 || query.get_char(0) != '?' {
        return None;
    }
    let mut cur: &'a str = query.substring_char(1, total);
    let mut len: usize = total - 1;
    loop
        invariant
            len == cur@.len(),
            query_value(query@, search_key@) == lookup(cur@, search_key@),
        decreases len,
    {
        let end: usize = find_char(cur, '&', len);
        let pair: &'a str = cur.substring_char(0, end);
        let eq: usize = find_char(pair, '=', end);
        if eq >= end {
            return None;
        }
        let rest: &'a str = pair.substring_char(eq + 1, end);
        let stop: usize = find_char(rest, '=', end - eq - 1);
        let key: &'a str = pair.substring_char(0, eq);
        if text_eq(key, search_key) {
            return Some(rest.substring_char(0, stop));
        }
        if end >= len {
            return None;
        }
        cur = cur.substring_char(end + 1, len);
        len = len - end - 1;
    }
}

/// Whether `s` holds neither `&` nor `=`.
pub open spec fn plain(s: Seq<char>) -> bool {
    forall|i: int| 0 <= i < s.len() ==> #[trigger] s[i] != '&' && s[i] != '='
}

/// A query of one pair gives back the value of its key: for a key and a
/// value without `&` and `=`, looking the key up in `?key=value` gives the
/// value.
pub proof fn lemma_single_pair(key: Seq<char>, value: Seq<char>)
    requires
        plain(key),
        plain(value),
    ensures
        query_value(seq!['?'] + key + seq!['='] + value, key) == Some(value),
{
    let q = seq!['?'] + key + seq!['='] + value;
    let s = q.subrange(1, q.len() as int);
    assert(s =~= key + seq!['='] + value);
    assert forall|i: int| 0 <= i < s.len() implies s[i] != '&' by {
        if i < key.len() {
            assert(s[i] == key[i]);
        } else if i > key.len() {
            assert(s[i] == value[i - key.len() - 1]);
        }
    }
    lemma_find_from(s, '&', 0);
    let pair = before(s, '&');
    assert(pair =~= s);
    lemma_find_from(pair, '=', 0);
    let eq = find_from(pair, '=', 0);
    assert(pair[key.len() as int] == '=');
    if eq < key.len() {
        assert(pair[eq] == key[eq]);
    }
    assert(eq == key.len());
    assert(before(pair, '=') =~= key);
    let rest = after(pair, '=').unwrap();
    assert(rest =~= value);
    lemma_find_from(rest, '=', 0);
    assert(before(rest, '=') =~= value);
}

} // verus!
