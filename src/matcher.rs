//! First-occurrence substring search over the UTF-8 bytes of names.
use vstd::prelude::*;
use vstd::utf8::encode_utf8;

verus! {

/// `p` occurs in `n` at byte offset `i`.
pub open spec fn occurs_at(n: Seq<u8>, p: Seq<u8>, i: int) -> bool {
    0 <= i && i + p.len() <= n.len() && n.subrange(i, i + p.len()) == p
}

/// The first offset at or after `i` where `p` occurs in `n`.
pub open spec fn first_match_from(n: Seq<u8>, p: Seq<u8>, i: int) -> Option<int>
    decreases n.len() + 1 - i,
{
    if i < 0 || i + p.len() > n.len() {
        None
    } else if n.subrange(i, i + p.len()) == p {
        Some(i)
    } else {
        first_match_from(n, p, i + 1)
    }
}

/// The first offset where `p` occurs in `n`.
pub open spec fn first_match(n: Seq<u8>, p: Seq<u8>) -> Option<int> {
    first_match_from(n, p, 0)
}

/// A name for what `str::to_lowercase` returns on a string.
pub uninterp spec fn lower_of(s: Seq<char>) -> Seq<char>;

/// The bytes that a search compares: the names themselves when the search
/// respects case, their lowercase forms when it does not.
pub open spec fn search_bytes(s: Seq<char>, case_sensitive: bool) -> Seq<u8> {
    if case_sensitive {
        encode_utf8(s)
    } else {
        encode_utf8(lower_of(s))
    }
}

/// The half-open byte span of the first occurrence of `pattern` in `name`,
/// measured in the searched form of `name`.
pub open spec fn find_spec(name: Seq<char>, pattern: Seq<char>, case_sensitive: bool) -> Option<
    (int, int),
> {
    let n = search_bytes(name, case_sensitive);
    let p = search_bytes(pattern, case_sensitive);
    match first_match(n, p) {
        Some(i) => Some((i, i + p.len())),
        None => None,
    }
}

/// What `first_match_from` returns is the least occurrence at or after `i`,
/// and it returns nothing only where there is none.
pub proof fn lemma_first_match_from(n: Seq<u8>, p: Seq<u8>, i: int)
    requires
        0 <= i,
    ensures
        match first_match_from(n, p, i) {
            Some(k) => i <= k && occurs_at(n, p, k) && forall|j: int|
                i <= j < k ==> !occurs_at(n, p, j),
            None => forall|j: int| i <= j ==> !occurs_at(n, p, j),
        },
    decreases n.len() + 1 - i,
{
    if i + p.len() > n.len() {
    } else if n.subrange(i, i + p.len()) == p {
    } else {
        lemma_first_match_from(n, p, i + 1);
        match first_match_from(n, p, i + 1) {
            Some(k) => {
                assert forall|j: int| i <= j < k implies !occurs_at(n, p, j) by {
                    if j > i {
                    }
                }
            },
            None => {
                assert forall|j: int| i <= j implies !occurs_at(n, p, j) by {
                    if j > i {
                    }
                }
            },
        }
    }
}

/// `first_match` is the least offset at which the pattern occurs, and none
/// exactly when it occurs nowhere.
pub proof fn lemma_first_match(n: Seq<u8>, p: Seq<u8>)
    ensures
        match first_match(n, p) {
            Some(k) => occurs_at(n, p, k) && forall|j: int| 0 <= j < k ==> !occurs_at(n, p, j),
            None => forall|j: int| !occurs_at(n, p, j),
        },
{
    lemma_first_match_from(n, p, 0);
}

/// Whether `p` occurs in `n` at offset `i`.
fn matches_at(n: &[u8], p: &[u8], i: usize) -> (r: bool)
    requires
        i + p@.len() <= n@.len(),
    ensures
        r == (n@.subrange(i as int, i + p@.len()) == p@),
{
    let n_len: usize = n.len();
    let mut j: usize = 0;
    while j < p.len()
        invariant
            i + p@.len() <= n@.len(),
            n_len == n@.len(),
            j <= p@.len(),
            forall|k: int| 0 <= k < j ==> n@[i + k] == p@[k],
        decreases p@.len() - j,
    {
        if n[i + j] != p[j] {
            assert(n@.subrange(i as int, i + p@.len())[j as int] != p@[j as int]);
            return false;
        }
        j = j + 1;
    }
    assert(n@.subrange(i as int, i + p@.len()) =~= p@);
    true
}

/// The byte offset of the first occurrence of `pattern` in `name`.
/// An empty pattern occurs at offset 0.
pub fn find_bytes(name: &[u8], pattern: &[u8]) -> (r: Option<usize>)
    ensures
        first_match(name@, pattern@) == (match r {
            Some(i) => Some(i as int),
            None => None::<int>,
        }),
        match r {
            Some(i) => occurs_at(name@, pattern@, i as int) && forall|j: int|
                0 <= j < i ==> !occurs_at(name@, pattern@, j),
            None => forall|j: int| !occurs_at(name@, pattern@, j),
        },
{
    proof {
        lemma_first_match(name@, pattern@);
    }
    if pattern.len() > name.len() {
        return None;
    }
    let last: usize = name.len() - pattern.len();
    let mut i: usize = 0;
    loop
        invariant
            last + pattern@.len() == name@.len(),
            i <= last,
            first_match(name@, pattern@) == first_match_from(name@, pattern@, i as int),
        decreases last - i,
    {
        if matches_at(name, pattern, i) {
            assert(first_match_from(name@, pattern@, i as int) == Some(i as int));
            proof {
                lemma_first_match(name@, pattern@);
            }
            return Some(i);
        }
        if i == last {
            assert(first_match_from(name@, pattern@, i + 1) == None::<int>);
            proof {
                lemma_first_match(name@, pattern@);
            }
            return None;
        }
        i = i + 1;
    }
}

/// Relies on `str::to_lowercase`: the lowercase form of a string, which
/// depends on its characters alone.
#[verifier::external_body]
fn to_lower(s: &str) -> (r: String)
    ensures
        r@ == lower_of(s@),
{
    s.to_lowercase()
}

/// The half-open byte span of the first occurrence of `pattern` in `name`.
/// Without case sensitivity both are lowercased first, as whole strings, and
/// the span is measured in the lowercased name.
pub fn find(name: &str, pattern: &str, case_sensitive: bool) -> (r: Option<(usize, usize)>)
    ensures
        match (r, find_spec(name@, pattern@, case_sensitive)) {
            (Some((s, e)), Some((s2, e2))) => s == s2 && e == e2,
            (None, None) => true,
            _ => false,
        },
        match r {
            Some((s, e)) => s <= e && occurs_at(
                search_bytes(name@, case_sensitive),
                search_bytes(pattern@, case_sensitive),
                s as int,
            ) && e - s == search_bytes(pattern@, case_sensitive).len() && forall|j: int|
                0 <= j < s ==> !occurs_at(
                    search_bytes(name@, case_sensitive),
                    search_bytes(pattern@, case_sensitive),
                    j,
                ),
            None => forall|j: int|
                !occurs_at(
                    search_bytes(name@, case_sensitive),
                    search_bytes(pattern@, case_sensitive),
                    j,
                ),
        },
{
    proof {
        lemma_first_match(search_bytes(name@, case_sensitive), search_bytes(pattern@, case_sensitive));
    }
    let n = searched_form(name, case_sensitive);
    let p = searched_form(pattern, case_sensitive);
    find_in(n.as_str(), p.as_str())
}

/// The form of a string that a search compares: the string itself, or its
/// lowercase form.
pub fn searched_form(s: &str, case_sensitive: bool) -> (r: String)
    ensures
        encode_utf8(r@) == search_bytes(s@, case_sensitive),
{
    if case_sensitive {
        s.to_owned()
    } else {
        to_lower(s)
    }
}

/// The byte span of the first occurrence of `pattern` in `name`, compared
/// byte for byte.
pub fn find_in(name: &str, pattern: &str) -> (r: Option<(usize, usize)>)
    ensures
        match (r, first_match(encode_utf8(name@), encode_utf8(pattern@))) {
            (Some((s, e)), Some(i)) => s == i && e == i + encode_utf8(pattern@).len(),
            (None, None) => true,
            _ => false,
        },
{
    let nb = name.as_bytes();
    let pb = pattern.as_bytes();
    let n_len: usize = nb.len();
    proof {
        lemma_first_match(nb@, pb@);
    }
    match find_bytes(nb, pb) {
        Some(i) => {
            assert(i + pb@.len() <= n_len);
            Some((i, i + pb.len()))
        },
        None => None,
    }
}

/// A case-insensitive search sees its arguments only through their
/// lowercase forms: names and patterns that lowercase alike give the same
/// span.
pub proof fn lemma_case_insensitive_find(n1: Seq<char>, n2: Seq<char>, p1: Seq<char>, p2: Seq<char>)
    requires
        lower_of(n1) == lower_of(n2),
        lower_of(p1) == lower_of(p2),
    ensures
        find_spec(n1, p1, false) == find_spec(n2, p2, false),
{
}

} // verus!
