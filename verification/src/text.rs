//! Case-insensitive substring search over media names.
use vstd::prelude::*;
use vstd::std_specs::iter::IteratorSpec;

verus! {

/// What `str::to_lowercase` returns for a string, as a sequence of chars.
pub uninterp spec fn lowercase(s: Seq<char>) -> Seq<char>;

/// `needle` occurs in `haystack` at position `i`.
pub open spec fn occurs_at(needle: Seq<char>, haystack: Seq<char>, i: int) -> bool {
    &&& 0 <= i
    &&& i + needle.len() <= haystack.len()
    &&& haystack.subrange(i, i + needle.len()) == needle
}

/// `needle` is a contiguous part of `haystack` (the empty needle always is).
pub open spec fn contains_seq(haystack: Seq<char>, needle: Seq<char>) -> bool {
    exists|i: int| occurs_at(needle, haystack, i)
}

/// Calls `str::to_lowercase`. Its result depends on the argument alone (the
/// Unicode lowercase mapping); the contract names it `lowercase` and says nothing
/// more of it.
#[verifier::external_body]
fn str_to_lowercase(s: &str) -> (r: String)
    ensures
        r@ == lowercase(s@),
{
    s.to_lowercase()
}

/// The characters of `s`, in order, read in one pass.
fn chars_of(s: &str) -> (r: Vec<char>)
    ensures
        r@ == s@,
{
    let mut chars = s.chars();
    let mut r: Vec<char> = Vec::new();
    loop
        invariant
            r@ + IteratorSpec::remaining(&chars) == s@,
            chars.obeys_prophetic_iter_laws(),
            IteratorSpec::decrease(&chars) is Some,
        ensures
            r@ == s@,
        decreases IteratorSpec::decrease(&chars)->0,
    {
        let ghost before = IteratorSpec::remaining(&chars);
        match chars.next() {
            Some(c) => {
                assert(r@.push(c) + IteratorSpec::remaining(&chars) =~= r@ + before);
                r.push(c);
            },
            None => {
                break;
            },
        }
    }
    r
}

/// Whether `needle` occurs at position `start` of `hay`.
fn matches_at(hay: &Vec<char>, needle: &Vec<char>, start: usize) -> (b: bool)
    requires
        start + needle@.len() <= hay@.len(),
    ensures
        b == occurs_at(needle@, hay@, start as int),
{
    let hay_len = hay.len();
    let mut j: usize = 0;
    while j < needle.len()
        invariant
            hay_len == hay@.len(),
            start + needle@.len() <= hay@.len(),
            j <= needle@.len(),
            forall|k: int| 0 <= k < j ==> hay@[start + k] == needle@[k],
        decreases needle@.len() - j,
    {
        if hay[start + j] != needle[j] {
            assert(hay@.subrange(start as int, start + needle@.len())[j as int] != needle@[j as int]);
            return false;
        }
        j = j + 1;
    }
    assert(hay@.subrange(start as int, start + needle@.len()) =~= needle@);
    true
}

/// Whether `needle` is a contiguous part of `hay`, as `str::contains` answers
/// for a string pattern.
pub fn contains_chars(hay: &Vec<char>, needle: &Vec<char>) -> (b: bool)
    ensures
        b == contains_seq(hay@, needle@),
        b <==> exists|i: int| #[trigger] chars_match_at(hay@, needle@, i),
{
    proof {
        law_contains_compares_every_char(hay@, needle@);
    }
    if needle.len() > hay.len() {
        assert forall|i: int| !occurs_at(needle@, hay@, i) by {}
        return false;
    }
    let last = hay.len() - needle.len();
    let mut i: usize = 0;
    while i <= last
        invariant
            last + needle@.len() == hay@.len(),
            forall|k: int| 0 <= k < i ==> !occurs_at(needle@, hay@, k),
            contains_seq(hay@, needle@) <==> exists|k: int| #[trigger] chars_match_at(hay@, needle@, k),
        decreases last + 1 - i,
    {
        if matches_at(hay, needle, i) {
            return true;
        }
        if i == last {
            assert forall|k: int| !occurs_at(needle@, hay@, k) by {
                if 0 <= k <= last {
                    assert(k < i || k == i);
                }
            }
            return false;
        }
        i = i + 1;
    }
    false
}

/// Whether the lowercase form of `query` occurs in the lowercase form of `name`:
/// a search that ignores case.
pub fn contains_ignoring_case(name: &str, query: &str) -> (b: bool)
    ensures
        b == contains_seq(lowercase(name@), lowercase(query@)),
        b <==> exists|i: int| #[trigger] chars_match_at(lowercase(name@), lowercase(query@), i),
{
    let lower_name = str_to_lowercase(name);
    let lower_query = str_to_lowercase(query);
    let hay = chars_of(lower_name.as_str());
    let needle = chars_of(lower_query.as_str());
    contains_chars(&hay, &needle)
}

/// `needle` matches `haystack` at `i` character by character.
pub open spec fn chars_match_at(haystack: Seq<char>, needle: Seq<char>, i: int) -> bool {
    &&& 0 <= i
    &&& i + needle.len() <= haystack.len()
    &&& forall|k: int| 0 <= k < needle.len() ==> haystack[i + k] == needle[k]
}

/// The search finds `needle` exactly when, at some position, every character of
/// `needle` equals the character of `haystack` it lies over: it is `str::contains`
/// on characters.
pub proof fn law_contains_compares_every_char(haystack: Seq<char>, needle: Seq<char>)
    ensures
        contains_seq(haystack, needle) <==> exists|i: int| #[trigger] chars_match_at(haystack, needle, i),
{
    if contains_seq(haystack, needle) {
        let i = choose|i: int| occurs_at(needle, haystack, i);
        assert forall|k: int| 0 <= k < needle.len() implies haystack[i + k] == needle[k] by {
            assert(haystack.subrange(i, i + needle.len())[k] == haystack[i + k]);
        }
        assert(chars_match_at(haystack, needle, i));
    }
    if exists|i: int| #[trigger] chars_match_at(haystack, needle, i) {
        let i = choose|i: int| #[trigger] chars_match_at(haystack, needle, i);
        assert(haystack.subrange(i, i + needle.len()) =~= needle);
        assert(occurs_at(needle, haystack, i));
    }
}

/// A needle longer than the haystack is never found, and the empty needle always is.
pub proof fn law_contains_length_bounds(haystack: Seq<char>, needle: Seq<char>)
    ensures
        needle.len() > haystack.len() ==> !contains_seq(haystack, needle),
        needle.len() == 0 ==> contains_seq(haystack, needle),
{
    if needle.len() == 0 {
        assert(haystack.subrange(0, 0) =~= needle);
        assert(occurs_at(needle, haystack, 0));
    }
}

} // verus!
