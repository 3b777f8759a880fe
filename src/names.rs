use vstd::prelude::*;
use vstd::string::StrSliceExecFns;
use vstd::string::StringExecFns;
use vstd::utf8::encode_utf8;

use crate::model::CertEntry;

verus! {

/// The candidate that a word gives under an apex domain: `word.apex`.
pub open spec fn candidate_name(word: Seq<char>, apex: Seq<char>) -> Seq<char> {
    word + seq!['.'] + apex
}

/// The wildcard marker that a certificate's common name may start with.
pub open spec fn wildcard_marker() -> Seq<char> {
    seq!['*', '.']
}

/// A common name with a leading wildcard marker taken off.
pub open spec fn strip_wildcard(name: Seq<char>) -> Seq<char> {
    if wildcard_marker().is_prefix_of(name) {
        name.skip(2)
    } else {
        name
    }
}

/// `needle` occurs in `hay` at position `i`.
pub open spec fn occurs_at(hay: Seq<char>, needle: Seq<char>, i: int) -> bool {
    0 <= i && i + needle.len() <= hay.len() && hay.subrange(i, i + needle.len()) == needle
}

/// `needle` occurs somewhere in `hay`.
pub open spec fn contains_seq(hay: Seq<char>, needle: Seq<char>) -> bool {
    exists|i: int| occurs_at(hay, needle, i)
}

/// The subdomain test: the name holds the apex and is strictly longer.
pub open spec fn is_subdomain_of(name: Seq<char>, apex: Seq<char>) -> bool {
    contains_seq(name, apex) && name.len() > apex.len()
}

/// The passive-mode candidates that the common names give, in their order.
pub open spec fn passive_names(names: Seq<Seq<char>>, apex: Seq<char>) -> Seq<Seq<char>>
    decreases names.len(),
{
    if names.len() == 0 {
        Seq::empty()
    } else {
        let rest = passive_names(names.drop_last(), apex);
        let n = strip_wildcard(names.last());
        if is_subdomain_of(n, apex) {
            rest.push(n)
        } else {
            rest
        }
    }
}

/// The common names of certificate entries.
pub open spec fn common_names(certs: Seq<CertEntry>) -> Seq<Seq<char>> {
    certs.map_values(|c: CertEntry| c.common_name@)
}

/// The characters of `s`, one by one.
fn chars_of(s: &str) -> (r: Vec<char>)
    ensures
        r@ == s@,
{
    let n = s.unicode_len();
    let mut r: Vec<char> = Vec::new();
    let mut i: usize = 0;
    while i < n
        invariant
            n == s@.len(),
            i <= n,
            r@ == s@.subrange(0, i as int),
        decreases n - i,
    {
        r.push(s.get_char(i));
        i = i + 1;
    }
    assert(r@ == s@);
    r
}

/// Whether `needle` occurs in `hay` at position `i`.
fn occurs_at_exec(hay: &Vec<char>, needle: &Vec<char>, i: usize) -> (r: bool)
    requires
        i + needle@.len() <= hay@.len(),
    ensures
        r == occurs_at(hay@, needle@, i as int),
{
    let m = needle.len();
    let hl = hay.len();
    let mut j: usize = 0;
    while j < m
        invariant
            m == needle@.len(),
            hl == hay@.len(),
            i + m <= hay@.len(),
            j <= m,
            forall|k: int| 0 <= k < j ==> hay@[i + k] == needle@[k],
        decreases m - j,
    {
        if hay[i + j] != needle[j] {
            assert(hay@.subrange(i as int, i + m)[j as int] != needle@[j as int]);
            return false;
        }
        j = j + 1;
    }
    assert(hay@.subrange(i as int, i + m) =~= needle@);
    true
}

/// Whether `needle` occurs anywhere in `hay`.
fn contains_chars(hay: &Vec<char>, needle: &Vec<char>) -> (r: bool)
    ensures
        r == contains_seq(hay@, needle@),
{
    if needle.len() > hay.len() {
        return false;
    }
    let last = hay.len() - needle.len();
    let mut i: usize = 0;
    while i <= last
        invariant
            last == hay@.len() - needle@.len(),
            forall|k: int| 0 <= k < i ==> !occurs_at(hay@, needle@, k),
        decreases last + 1 - i,
    {
        if occurs_at_exec(hay, needle, i) {
            return true;
        }
        if i == last {
            assert forall|k: int| !occurs_at(hay@, needle@, k) by {
                if 0 <= k <= last {
                    assert(k < i || k == i);
                }
            }
            return false;
        }
        i = i + 1;
    }
    false
}

/// Takes a leading wildcard marker off a certificate's common name.
pub fn extract_domain(target: String) -> (r: String)
    ensures
        r@ == strip_wildcard(target@),
{
    let n = target.as_str().unicode_len();
    if n >= 2 && target.as_str().get_char(0) == '*' && target.as_str().get_char(1) == '.' {
        assert(wildcard_marker() =~= target@.subrange(0, 2));
        target.as_str().substring_char(2, n).to_owned()
    } else {
        assert(!wildcard_marker().is_prefix_of(target@));
        target
    }
}

/// Whether `domain` counts as a subdomain of `apex_domain`: it holds the apex
/// as a substring and is strictly longer.
pub fn is_subdomain(domain: String, apex_domain: String) -> (r: bool)
    ensures
        r == is_subdomain_of(domain@, apex_domain@),
        r == (contains_seq(domain@, apex_domain@) && encode_utf8(domain@).len() > encode_utf8(
            apex_domain@,
        ).len()),
{
    proof {
        subdomain_test_by_bytes(domain@, apex_domain@);
    }
    let d = chars_of(domain.as_str());
    let a = chars_of(apex_domain.as_str());
    contains_chars(&d, &a) && d.len() > a.len()
}

/// The candidate `word.apex`.
fn join_candidate(word: &String, apex: &String) -> (r: String)
    ensures
        r@ == candidate_name(word@, apex@),
{
    let mut r = word.clone();
    r.append(".");
    r.append(apex.as_str());
    proof {
        reveal_strlit(".");
    }
    r
}

/// The active-mode candidates: each word of the list joined with the apex,
/// one candidate per word, in the list's order.
pub fn generate_candidates(base_domain: &String, word_list: &Vec<String>) -> (r: Vec<String>)
    ensures
        r@.len() == word_list@.len(),
        forall|i: int|
            0 <= i < r@.len() ==> #[trigger] r@[i]@ == candidate_name(word_list@[i]@, base_domain@),
{
    let mut r: Vec<String> = Vec::new();
    let mut i: usize = 0;
    while i < word_list.len()
        invariant
            i <= word_list@.len(),
            r@.len() == i,
            forall|k: int|
                0 <= k < i ==> #[trigger] r@[k]@ == candidate_name(word_list@[k]@, base_domain@),
        decreases word_list@.len() - i,
    {
        let c = join_candidate(&word_list[i], base_domain);
        r.push(c);
        i = i + 1;
    }
    r
}

/// The passive-mode candidates: the common name of each entry with its
/// wildcard marker taken off, kept where it is a subdomain of the apex.
pub fn passive_candidates(base_domain: &String, certs: &Vec<CertEntry>) -> (r: Vec<String>)
    ensures
        r@.map_values(|s: String| s@) == passive_names(common_names(certs@), base_domain@),
{
    let mut r: Vec<String> = Vec::new();
    let mut i: usize = 0;
    while i < certs.len()
        invariant
            i <= certs@.len(),
            r@.map_values(|s: String| s@) == passive_names(
                common_names(certs@).take(i as int),
                base_domain@,
            ),
        decreases certs@.len() - i,
    {
        let name = extract_domain(certs[i].common_name.clone());
        let keep = is_subdomain(name.clone(), base_domain.clone());
        proof {
            let names = common_names(certs@);
            assert(names.take(i + 1).drop_last() =~= names.take(i as int));
            assert(names.take(i + 1).last() == certs@[i as int].common_name@);
        }
        if keep {
            let ghost before = r@;
            r.push(name);
            assert(r@.map_values(|s: String| s@) =~= before.map_values(|s: String| s@).push(
                strip_wildcard(certs@[i as int].common_name@),
            ));
        }
        i = i + 1;
    }
    assert(common_names(certs@).take(certs@.len() as int) =~= common_names(certs@));
    r
}

/// A common name that starts with the wildcard marker loses exactly that
/// marker: `*.rest` becomes `rest`.
pub proof fn wildcard_marker_is_stripped(rest: Seq<char>)
    ensures
        strip_wildcard(wildcard_marker() + rest) == rest,
{
    let n = wildcard_marker() + rest;
    assert(n.subrange(0, 2) =~= wildcard_marker());
    assert(n.skip(2) =~= rest);
}

/// The apex domain is never a subdomain of itself: it is not longer.
pub proof fn apex_is_not_its_own_subdomain(apex: Seq<char>)
    ensures
        !is_subdomain_of(apex, apex),
{
}

/// A label joined to the apex, `label.apex`, is always a subdomain of it.
pub proof fn labelled_name_is_subdomain(label: Seq<char>, apex: Seq<char>)
    ensures
        is_subdomain_of(candidate_name(label, apex), apex),
{
    let n = candidate_name(label, apex);
    let i: int = label.len() as int + 1;
    assert(n.subrange(i, i + apex.len() as int) =~= apex);
    assert(occurs_at(n, apex, i));
}

/// Without certificate entries, a passive scan has no candidates.
pub proof fn no_entries_no_candidates(apex: Seq<char>)
    ensures
        passive_names(common_names(Seq::<CertEntry>::empty()), apex).len() == 0,
{
    assert(common_names(Seq::<CertEntry>::empty()).len() == 0);
}

/// The UTF-8 length of a concatenation is the sum of the parts' lengths.
proof fn encoded_len_concat(a: Seq<char>, b: Seq<char>)
    ensures
        encode_utf8(a + b).len() == encode_utf8(a).len() + encode_utf8(b).len(),
    decreases a.len(),
{
    if a.len() == 0 {
        assert(a + b =~= b);
    } else {
        assert((a + b).drop_first() =~= a.drop_first() + b);
        assert((a + b)[0] == a[0]);
        encoded_len_concat(a.drop_first(), b);
    }
}

/// Every character takes at least one byte in UTF-8.
proof fn encoded_len_at_least(a: Seq<char>)
    ensures
        encode_utf8(a).len() >= a.len(),
    decreases a.len(),
{
    if a.len() > 0 {
        encoded_len_at_least(a.drop_first());
    }
}

/// Measuring "strictly longer" in UTF-8 bytes, as `str::len` does, gives the
/// same subdomain test as measuring it in characters.
pub proof fn subdomain_test_by_bytes(name: Seq<char>, apex: Seq<char>)
    ensures
        is_subdomain_of(name, apex) == (contains_seq(name, apex) && encode_utf8(name).len()
            > encode_utf8(apex).len()),
{
    if contains_seq(name, apex) {
        let i = choose|i: int| occurs_at(name, apex, i);
        let p = name.subrange(0, i);
        let s = name.subrange(i + apex.len(), name.len() as int);
        assert(name =~= p + apex + s);
        encoded_len_concat(p + apex, s);
        encoded_len_concat(p, apex);
        encoded_len_at_least(p);
        encoded_len_at_least(s);
        if p.len() == 0 {
            assert(encode_utf8(p).len() == 0);
        }
        if s.len() == 0 {
            assert(encode_utf8(s).len() == 0);
        }
    }
}

} // verus!
