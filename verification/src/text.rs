//! Query and name text handling: stripping the invisible variant-selector
//! marker characters in one pass, literal substring search, and trimming long
//! display names for a preview.

use vstd::prelude::*;

use crate::seq_facts::lemma_filter_identity;

verus! {

use vstd::string::StrSliceExecFns;
use vstd::string::StringExecFns;

/// How many characters of a display name a preview shows before cutting it
/// off with an ellipsis.
pub const NAME_PREVIEW_CHARS: usize = 40;

/// The variant-selector marker characters that normalization removes: the
/// emoji and text presentation selectors.
pub open spec fn is_marker(c: char) -> bool {
    c == '\u{fe0f}' || c == '\u{fe0e}'
}

/// The predicate that keeps every character that is not a marker.
pub open spec fn not_marker() -> spec_fn(char) -> bool {
    |c: char| !is_marker(c)
}

/// Normalized text: the input with every marker character removed, all other
/// characters kept in order.
pub open spec fn strip_markers(s: Seq<char>) -> Seq<char> {
    s.filter(not_marker())
}

/// Normalizing is idempotent: normalized text is left unchanged.
pub proof fn lemma_normalize_idempotent(s: Seq<char>)
    ensures
        strip_markers(strip_markers(s)) == strip_markers(s),
{
    let p = not_marker();
    assert forall|i: int| 0 <= i < s.filter(p).len() implies p(#[trigger] s.filter(p)[i]) by {
        Seq::lemma_filter_pred(s, p, i);
    }
    lemma_filter_identity(s.filter(p), p);
}

#[verifier::external_type_specification]
#[verifier::external_body]
pub struct ExAhoCorasick(aho_corasick::AhoCorasick);

/// Whether an automaton is the one built over exactly the marker strings with
/// leftmost-longest match semantics.
pub uninterp spec fn is_marker_automaton(ac: aho_corasick::AhoCorasick) -> bool;

/// Relies on `aho_corasick::AhoCorasickBuilder::build`: it yields an automaton
/// over the given patterns, here the two one-character marker strings, with
/// leftmost-longest match semantics; building a two-pattern automaton stays
/// far below the crate's size limits, so it cannot fail.
#[verifier::external_body]
fn build_marker_automaton() -> (r: aho_corasick::AhoCorasick)
    ensures
        is_marker_automaton(r),
{
    aho_corasick::AhoCorasick::builder()
        .match_kind(aho_corasick::MatchKind::LeftmostLongest)
        .build(["\u{fe0f}", "\u{fe0e}"])
        .unwrap()
}

/// Relies on `aho_corasick::AhoCorasick::replace_all`: every non-overlapping
/// occurrence of a pattern is replaced by the replacement of the same index.
/// With the two distinct one-character marker patterns the matches are exactly
/// the occurrences of the marker characters, and the empty replacements delete
/// them, so the result is the input filtered free of markers.
#[verifier::external_body]
fn replace_markers(ac: &aho_corasick::AhoCorasick, s: &str) -> (r: String)
    requires
        is_marker_automaton(*ac),
    ensures
        r@ == strip_markers(s@),
{
    ac.replace_all(s, &["", ""])
}

/// The query normalizer: an automaton over the marker set, built once and
/// reused for every normalization.
pub struct Normalizer {
    ac: aho_corasick::AhoCorasick,
}

impl Normalizer {
    /// The normalizer holds the automaton over the marker set.
    pub closed spec fn wf(self) -> bool {
        is_marker_automaton(self.ac)
    }

    pub fn new() -> (r: Normalizer)
        ensures
            r.wf(),
    {
        Normalizer { ac: build_marker_automaton() }
    }

    /// Remove every marker character from the input in one pass, keeping all
    /// other characters in order.
    pub fn normalize(&self, s: &str) -> (r: String)
        requires
            self.wf(),
        ensures
            r@ == strip_markers(s@),
    {
        replace_markers(&self.ac, s)
    }
}

/// Whether `needle` occurs in `hay` starting at position `i`.
pub open spec fn matches_at(hay: Seq<char>, needle: Seq<char>, i: int) -> bool {
    hay.subrange(i, i + needle.len()) == needle
}

/// Whether `needle` is a literal contiguous substring of `hay`. The empty
/// needle is a substring of everything.
pub open spec fn is_substring_of(needle: Seq<char>, hay: Seq<char>) -> bool {
    exists|i: int| 0 <= i <= hay.len() - needle.len() && matches_at(hay, needle, i)
}

/// Literal substring search.
pub fn contains_substring(hay: &str, needle: &str) -> (r: bool)
    ensures
        r == is_substring_of(needle@, hay@),
{
    let n = hay.unicode_len();
    let m = needle.unicode_len();
    if m > n {
        return false;
    }
    if m == 0 {
        proof {
            assert(hay@.subrange(0, 0) =~= needle@);
            assert(matches_at(hay@, needle@, 0));
        }
        return true;
    }
    let mut i: usize = 0;
    while i <= n - m
        invariant
            1 <= m <= n,
            n == hay@.len(),
            m == needle@.len(),
            i <= n - m + 1,
            forall|i0: int| 0 <= i0 < i ==> !matches_at(hay@, needle@, i0),
        decreases n - m + 1 - i,
    {
        let mut j: usize = 0;
        let mut matched = true;
        while matched && j < m
            invariant
                i + m <= n,
                n == hay@.len(),
                m == needle@.len(),
                j <= m,
                matched ==> forall|j0: int| 0 <= j0 < j ==> hay@[i + j0] == needle@[j0],
                !matched ==> !matches_at(hay@, needle@, i as int),
            decreases m - j, (if matched { 1int } else { 0int }),
        {
            let hc = hay.get_char(i + j);
            let nc = needle.get_char(j);
            if hc != nc {
                proof {
                    assert(hay@.subrange(i as int, i + m as int)[j as int] == hay@[i + j]);
                }
                matched = false;
            } else {
                j = j + 1;
            }
        }
        if matched {
            proof {
                assert(hay@.subrange(i as int, i + m as int) =~= needle@);
                assert(matches_at(hay@, needle@, i as int));
            }
            return true;
        }
        i = i + 1;
    }
    proof {
        assert forall|i0: int| 0 <= i0 <= n - m implies !matches_at(hay@, needle@, i0) by {
            assert(i0 < i);
        }
    }
    false
}

/// Trim a display name for a preview: names of at most `NAME_PREVIEW_CHARS`
/// characters are kept whole, longer names are cut after that many characters
/// and end in an ellipsis.
pub fn emoji_name_trimmed(name: &str) -> (r: String)
    ensures
        name@.len() <= NAME_PREVIEW_CHARS ==> r@ == name@,
        name@.len() > NAME_PREVIEW_CHARS ==> r@ == name@.subrange(0, NAME_PREVIEW_CHARS as int)
            + "..."@,
{
    let len = name.unicode_len();
    if len <= NAME_PREVIEW_CHARS {
        name.to_owned()
    } else {
        let prefix = name.substring_char(0, NAME_PREVIEW_CHARS);
        String::from_str(prefix).concat("...")
    }
}

} // verus!
