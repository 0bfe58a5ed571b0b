//! Character-level scanning of URLs: prefix matching against the
//! provider's redirect origin, and extraction of the `code` query
//! parameter from a redirect URL.
//!
//! A query string is the part after the first `?`; it splits into
//! pairs at `&`, and each pair splits into key and value at its first
//! `=` (a pair without `=` has itself as key and an empty value).

use vstd::prelude::*;

verus! {

/// The position of the first occurrence of `c` in `s`, or `s.len()`
/// when `c` does not occur.
pub open spec fn first_index_or_len(s: Seq<char>, c: char) -> int
    decreases s.len(),
{
    if s.len() == 0 {
        0
    } else if s[0] == c {
        0
    } else {
        1 + first_index_or_len(s.drop_first(), c)
    }
}

/// `first_index_or_len` is a position in `[0, s.len()]`, points at `c`
/// when it is a proper position, and nothing before it is `c`.
pub proof fn lemma_first_index_or_len(s: Seq<char>, c: char)
    ensures
        0 <= first_index_or_len(s, c) <= s.len(),
        first_index_or_len(s, c) < s.len() ==> s[first_index_or_len(s, c)] == c,
        forall|j: int| 0 <= j < first_index_or_len(s, c) ==> s[j] != c,
    decreases s.len(),
{
    if s.len() == 0 {
    } else if s[0] == c {
    } else {
        let t = s.drop_first();
        lemma_first_index_or_len(t, c);
        let i = first_index_or_len(s, c);
        if i < s.len() {
            assert(s[i] == t[i - 1]);
        }
        assert forall|j: int| 0 <= j < i implies s[j] != c by {
            if j > 0 {
                assert(s[j] == t[j - 1]);
            }
        }
    }
}

/// A position with `c` at it and no `c` before it is exactly
/// `first_index_or_len`; and a string without `c` puts it at the end.
pub proof fn lemma_first_index_or_len_unique(s: Seq<char>, c: char, i: int)
    requires
        0 <= i <= s.len(),
        i < s.len() ==> s[i] == c,
        i == s.len() ==> forall|j: int| 0 <= j < s.len() ==> s[j] != c,
        forall|j: int| 0 <= j < i ==> s[j] != c,
    ensures
        first_index_or_len(s, c) == i,
{
    lemma_first_index_or_len(s, c);
    let f = first_index_or_len(s, c);
    if f < i {
        assert(s[f] == c);
    } else if i < f {
        assert(s[i] == c);
    }
}

/// The position of the first occurrence of `c` in `s`, or the length
/// of `s` when `c` does not occur.
pub fn find_char(s: &str, c: char) -> (r: usize)
    ensures
        r as int == first_index_or_len(s@, c),
{
    let n = s.unicode_len();
    let mut i: usize = 0;
    while i < n
        invariant
            n == s@.len(),
            0 <= i <= n,
            forall|j: int| 0 <= j < i ==> s@[j] != c,
        decreases n - i,
    {
        if s.get_char(i) == c {
            proof {
                lemma_first_index_or_len_unique(s@, c, i as int);
            }
            return i;
        }
        i += 1;
    }
    proof {
        lemma_first_index_or_len_unique(s@, c, n as int);
    }
    n
}

/// Character-for-character string equality.
pub fn str_eq(a: &str, b: &str) -> (r: bool)
    ensures
        r == (a@ == b@),
{
    let na = a.unicode_len();
    let nb = b.unicode_len();
    if na != nb {
        return false;
    }
    let mut i: usize = 0;
    while i < na
        invariant
            na == a@.len(),
            nb == b@.len(),
            na == nb,
            0 <= i <= na,
            forall|j: int| 0 <= j < i ==> a@[j] == b@[j],
        decreases na - i,
    {
        if a.get_char(i) != b.get_char(i) {
            return false;
        }
        i += 1;
    }
    proof {
        assert(a@ =~= b@);
    }
    true
}

/// Whether `p` is a prefix of `s`.
pub open spec fn starts_with(s: Seq<char>, p: Seq<char>) -> bool {
    p.len() <= s.len() && s.subrange(0, p.len() as int) == p
}

/// Whether the characters of `p` open the string `s`.
pub fn str_starts_with(s: &str, p: &str) -> (r: bool)
    ensures
        r == starts_with(s@, p@),
{
    let ns = s.unicode_len();
    let np = p.unicode_len();
    if np > ns {
        return false;
    }
    let mut i: usize = 0;
    while i < np
        invariant
            ns == s@.len(),
            np == p@.len(),
            np <= ns,
            0 <= i <= np,
            forall|j: int| 0 <= j < i ==> s@[j] == p@[j],
        decreases np - i,
    {
        if s.get_char(i) != p.get_char(i) {
            proof {
                assert(s@.subrange(0, p@.len() as int)[i as int] != p@[i as int]);
            }
            return false;
        }
        i += 1;
    }
    proof {
        assert(s@.subrange(0, p@.len() as int) =~= p@);
    }
    true
}

/// The key of a query pair: what stands before its first `=`, or the
/// whole pair when it has none.
pub open spec fn pair_key(pair: Seq<char>) -> Seq<char> {
    let i = first_index_or_len(pair, '=');
    if 0 <= i && i < pair.len() {
        pair.subrange(0, i)
    } else {
        pair
    }
}

/// The value of a query pair: what stands after its first `=`, or
/// empty when it has none.
pub open spec fn pair_value(pair: Seq<char>) -> Seq<char> {
    let i = first_index_or_len(pair, '=');
    if 0 <= i && i < pair.len() {
        pair.subrange(i + 1, pair.len() as int)
    } else {
        Seq::empty()
    }
}

/// The query string split into pairs at `&`.
pub open spec fn query_pairs(q: Seq<char>) -> Seq<Seq<char>>
    decreases q.len(),
{
    let i = first_index_or_len(q, '&');
    if 0 <= i && i < q.len() {
        seq![q.subrange(0, i)] + query_pairs(q.subrange(i + 1, q.len() as int))
    } else {
        seq![q]
    }
}

/// The value of the first pair whose key is `code`, if any.
pub open spec fn code_in_pairs(pairs: Seq<Seq<char>>) -> Option<Seq<char>>
    decreases pairs.len(),
{
    if pairs.len() == 0 {
        None
    } else if pair_key(pairs[0]) == "code"@ {
        Some(pair_value(pairs[0]))
    } else {
        code_in_pairs(pairs.drop_first())
    }
}

/// The authorization code carried by `url`: the value of the first
/// `code` key among the query pairs after the first `?`, if any.
pub open spec fn auth_code_of(url: Seq<char>) -> Option<Seq<char>> {
    let q = first_index_or_len(url, '?');
    if 0 <= q && q < url.len() {
        code_in_pairs(query_pairs(url.subrange(q + 1, url.len() as int)))
    } else {
        None
    }
}

/// Extracts the authorization code from a redirect URL: the value of
/// the first `code` query parameter, or nothing when the URL carries
/// no query or no such key.
#[verifier::loop_isolation(false)]
pub fn extract_auth_code(url: &str) -> (r: Option<String>)
    ensures
        match r {
            Some(v) => auth_code_of(url@) == Some(v@),
            None => auth_code_of(url@) is None,
        },
{
    let n = url.unicode_len();
    let q = find_char(url, '?');
    proof {
        lemma_first_index_or_len(url@, '?');
    }
    if q >= n {
        return None;
    }
    let mut rest: &str = url.substring_char(q + 1, n);
    proof {
        assert(auth_code_of(url@) == code_in_pairs(query_pairs(rest@)));
    }
    loop
        invariant
            rest@.len() <= url@.len(),
            auth_code_of(url@) == code_in_pairs(query_pairs(rest@)),
        decreases rest@.len(),
    {
        let m = rest.unicode_len();
        let amp = find_char(rest, '&');
        proof {
            lemma_first_index_or_len(rest@, '&');
        }
        let pair: &str = if amp < m {
            rest.substring_char(0, amp)
        } else {
            rest
        };
        let ghost tail_pairs: Seq<Seq<char>> = if amp < m {
            query_pairs(rest@.subrange(amp as int + 1, rest@.len() as int))
        } else {
            Seq::empty()
        };
        proof {
            if amp < m {
                assert(query_pairs(rest@) == seq![pair@] + tail_pairs);
                assert((seq![pair@] + tail_pairs)[0] == pair@);
                assert((seq![pair@] + tail_pairs).drop_first() =~= tail_pairs);
            } else {
                assert(query_pairs(rest@) == seq![pair@]);
                assert(seq![pair@][0] == pair@);
                assert(seq![pair@].drop_first() =~= Seq::<Seq<char>>::empty());
            }
        }
        let pm = pair.unicode_len();
        let eq = find_char(pair, '=');
        proof {
            lemma_first_index_or_len(pair@, '=');
        }
        let key: &str = if eq < pm {
            pair.substring_char(0, eq)
        } else {
            pair
        };
        proof {
            assert(key@ == pair_key(pair@));
        }
        if str_eq(key, "code") {
            let value: String = if eq < pm {
                pair.substring_char(eq + 1, pm).to_owned()
            } else {
                String::new()
            };
            proof {
                assert(value@ == pair_value(pair@));
                assert(code_in_pairs(query_pairs(rest@)) == Some(pair_value(pair@)));
            }
            return Some(value);
        }
        proof {
            assert(code_in_pairs(query_pairs(rest@)) == code_in_pairs(tail_pairs));
        }
        if amp < m {
            rest = rest.substring_char(amp + 1, m);
        } else {
            proof {
                assert(code_in_pairs(tail_pairs) is None);
            }
            return None;
        }
    }
}

} // verus!
