//! Questions about strings that the standard library answers.

use vstd::prelude::*;
use vstd::string::StringExecFns;

verus! {

/// Whether `prefix` is what `s` begins with.
pub open spec fn is_prefix(prefix: Seq<char>, s: Seq<char>) -> bool {
    prefix.len() <= s.len() && s.subrange(0, prefix.len() as int) == prefix
}

/// Whether `suffix` is what `s` ends with.
pub open spec fn is_suffix(suffix: Seq<char>, s: Seq<char>) -> bool {
    suffix.len() <= s.len() && s.subrange(s.len() - suffix.len(), s.len() as int) == suffix
}

/// Whether `part` stands at position `i` of `s`.
pub open spec fn occurs_at(part: Seq<char>, s: Seq<char>, i: int) -> bool {
    0 <= i && i + part.len() <= s.len() && s.subrange(i, i + part.len()) == part
}

/// Whether `part` stands somewhere in `s`.
pub open spec fn occurs_in(part: Seq<char>, s: Seq<char>) -> bool {
    exists|i: int| occurs_at(part, s, i)
}

/// The views of a list of pairs of strings.
pub open spec fn pairs_view(pairs: Seq<(String, String)>) -> Seq<(Seq<char>, Seq<char>)> {
    Seq::new(pairs.len(), |i: int| (pairs[i].0@, pairs[i].1@))
}

/// Whether two strings hold the same characters in the same order.
pub fn same_text(a: &str, b: &str) -> (same: bool)
    ensures
        same == (a@ == b@),
{
    a.to_owned() == b.to_owned()
}

/// `str::starts_with` with a string as the pattern: taken to be true exactly
/// when `s` begins with the characters of `prefix`.
#[verifier::external_body]
pub(crate) fn starts_with(s: &str, prefix: &str) -> (found: bool)
    ensures
        found == is_prefix(prefix@, s@),
{
    s.starts_with(prefix)
}

/// `str::ends_with` with a string as the pattern: taken to be true exactly
/// when `s` ends with the characters of `suffix`.
#[verifier::external_body]
pub(crate) fn ends_with(s: &str, suffix: &str) -> (found: bool)
    ensures
        found == is_suffix(suffix@, s@),
{
    s.ends_with(suffix)
}

/// `str::contains` with a string as the pattern: taken to be true exactly
/// when the characters of `part` stand somewhere in `s`, one after the other.
#[verifier::external_body]
pub(crate) fn contains(s: &str, part: &str) -> (found: bool)
    ensures
        found == occurs_in(part@, s@),
{
    s.contains(part)
}

/// `a` followed by `b`.
pub fn join(a: &str, b: &str) -> (text: String)
    ensures
        text@ == a@ + b@,
{
    let mut text = String::from_str(a);
    text.append(b);
    text
}

/// `a`, `b` and `c`, one after the other.
pub fn join3(a: &str, b: &str, c: &str) -> (text: String)
    ensures
        text@ == a@ + b@ + c@,
{
    let mut text = String::from_str(a);
    text.append(b);
    text.append(c);
    text
}

/// `"Bearer "` and the token: the value of the authorization header.
pub fn bearer(token: &str) -> (header: String)
    ensures
        header@ == "Bearer "@ + token@,
{
    join("Bearer ", token)
}

// ---------------------------------------------------------------------------
// The order of strings
// ---------------------------------------------------------------------------

/// The views of a sequence of strings.
pub open spec fn texts(v: Seq<String>) -> Seq<Seq<char>> {
    Seq::new(v.len(), |i: int| v[i]@)
}

/// The order of strings: character by character, by code point; a string
/// comes before every string it begins.
pub open spec fn text_le(a: Seq<char>, b: Seq<char>) -> bool
    decreases a.len(),
{
    if a.len() == 0 {
        true
    } else if b.len() == 0 {
        false
    } else if a[0] != b[0] {
        (a[0] as u32) < (b[0] as u32)
    } else {
        text_le(a.drop_first(), b.drop_first())
    }
}

/// No string stands before one that comes before it.
pub open spec fn ascending(s: Seq<Seq<char>>) -> bool {
    forall|i: int, j: int| 0 <= i < j < s.len() ==> text_le(s[i], s[j])
}

/// Every string comes before those that stand after it, and differs from
/// them.
pub open spec fn strictly_ascending(s: Seq<Seq<char>>) -> bool {
    forall|i: int, j: int| 0 <= i < j < s.len() ==> text_le(s[i], s[j]) && s[i] != s[j]
}

/// Two strings of which each comes before the other are the same.
pub proof fn lemma_text_le_antisymmetric(a: Seq<char>, b: Seq<char>)
    requires
        text_le(a, b),
        text_le(b, a),
    ensures
        a == b,
    decreases a.len(),
{
    if a.len() == 0 {
        assert(b.len() == 0);
        assert(a =~= b);
    } else {
        assert(b.len() > 0);
        if a[0] != b[0] {
            assert((a[0] as u32) < (b[0] as u32));
            assert((b[0] as u32) < (a[0] as u32));
        } else {
            lemma_text_le_antisymmetric(a.drop_first(), b.drop_first());
            assert(a =~= seq![a[0]] + a.drop_first());
            assert(b =~= seq![b[0]] + b.drop_first());
        }
    }
}

/// `sort` on a vector of strings: taken to leave the same strings, each as
/// often as before, in the order of strings. The standard library orders
/// strings by their bytes, which for valid text is the order by code point.
#[verifier::external_body]
fn sort_texts(v: &mut Vec<String>)
    ensures
        ascending(texts(final(v)@)),
        texts(final(v)@).to_multiset() == texts(old(v)@).to_multiset(),
{
    v.sort()
}

/// The strings of `v`, each once, in the order of strings.
pub fn sorted_distinct(v: Vec<String>) -> (out: Vec<String>)
    ensures
        strictly_ascending(texts(out@)),
        texts(out@).to_set() == texts(v@).to_set(),
{
    let mut all = v;
    sort_texts(&mut all);
    let ghost sorted = texts(all@);
    proof {
        texts(v@).to_multiset_ensures();
        sorted.to_multiset_ensures();
        assert forall|s: Seq<char>| sorted.contains(s) <==> texts(v@).contains(s) by {
            assert(sorted.to_multiset().count(s) == texts(v@).to_multiset().count(s));
        }
        assert(sorted.to_set() =~= texts(v@).to_set());
    }
    let mut out: Vec<String> = Vec::new();
    let mut i: usize = 0;
    while i < all.len()
        invariant
            i <= all.len(),
            sorted == texts(all@),
            ascending(sorted),
            strictly_ascending(texts(out@)),
            i == 0 ==> out@.len() == 0,
            i > 0 ==> out@.len() > 0 && out@[out@.len() - 1]@ == sorted[i - 1],
            forall|k: int, q: int|
                0 <= k < out@.len() && i <= q < sorted.len() ==> text_le(
                    #[trigger] texts(out@)[k],
                    #[trigger] sorted[q],
                ),
            forall|s: Seq<char>| texts(out@).contains(s) <==> sorted.take(i as int).contains(s),
        decreases all.len() - i,
    {
        let ghost before = texts(out@);
        let ghost e = sorted[i as int];
        assert(all@[i as int]@ == e);
        let fresh = if i == 0 {
            true
        } else {
            !(out[out.len() - 1] == all[i])
        };
        if fresh {
            out.push(all[i].clone());
            proof {
                let after = texts(out@);
                assert(after =~= before.push(e));
                assert forall|a: int, b: int| 0 <= a < b < after.len() implies text_le(
                    after[a],
                    after[b],
                ) && after[a] != after[b] by {
                    if b < before.len() {
                        assert(after[a] == before[a] && after[b] == before[b]);
                    } else {
                        assert(after[b] == e);
                        assert(after[a] == before[a]);
                        assert(text_le(before[a], sorted[i as int]));
                        if before[a] == e {
                            let last = before[before.len() - 1];
                            assert(last == sorted[i - 1]);
                            assert(text_le(sorted[i - 1], sorted[i as int]));
                            if a < before.len() - 1 {
                                assert(text_le(before[a], last) && before[a] != last);
                                lemma_text_le_antisymmetric(before[a], last);
                            }
                        }
                    }
                }
                assert forall|k: int, q: int|
                    0 <= k < out@.len() && i + 1 <= q < sorted.len() implies text_le(
                    #[trigger] after[k],
                    #[trigger] sorted[q],
                ) by {
                    if k < before.len() {
                        assert(after[k] == before[k]);
                    } else {
                        assert(after[k] == sorted[i as int]);
                    }
                }
            }
        }
        proof {
            let after = texts(out@);
            let seen = sorted.take(i as int);
            let upto = sorted.take(i + 1);
            assert(upto =~= seen.push(e));
            if fresh {
                assert(after =~= before.push(e));
            } else {
                assert(after == before);
            }
            assert forall|s: Seq<char>| after.contains(s) <==> upto.contains(s) by {
                if after.contains(s) {
                    let k = choose|k: int| 0 <= k < after.len() && after[k] == s;
                    if fresh && k == after.len() - 1 {
                        assert(upto[i as int] == s);
                    } else {
                        assert(before[k] == s);
                        assert(before.contains(s));
                        let q = choose|q: int| 0 <= q < seen.len() && seen[q] == s;
                        assert(upto[q] == s);
                    }
                }
                if upto.contains(s) {
                    let q = choose|q: int| 0 <= q < upto.len() && upto[q] == s;
                    if q < i {
                        assert(seen[q] == s);
                        assert(seen.contains(s));
                        assert(before.contains(s));
                        let k = choose|k: int| 0 <= k < before.len() && before[k] == s;
                        assert(after[k] == s);
                    } else {
                        assert(s == e);
                        assert(after[after.len() - 1] == e);
                    }
                }
            }
        }
        i += 1;
    }
    proof {
        assert(sorted.take(all.len() as int) =~= sorted);
        assert(texts(out@).to_set() =~= sorted.to_set());
    }
    out
}

} // verus!
