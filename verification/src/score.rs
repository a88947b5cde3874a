//! Scoring one catalog item against a normalized query: a fuzzy subsequence
//! score of the query against the display name and, if present, against the
//! shortcode, with a fixed boost whenever the query is a literal substring of
//! the display name.

use vstd::prelude::*;

use crate::text::contains_substring;
use crate::text::is_substring_of;
use fuzzy_matcher::FuzzyMatcher;

verus! {

/// The score a literal substring hit is raised to. It is chosen to outrank
/// every ordinary fuzzy score, so substring hits are never ordered below
/// merely fuzzy hits.
pub const EXACT_MATCH_THRESHOLD: i64 = 1000;

/// The fuzzy subsequence score of matching `pattern` against `choice`, `None`
/// when the pattern does not match. The value is determined by the two texts
/// alone.
pub uninterp spec fn fuzzy_score(choice: Seq<char>, pattern: Seq<char>) -> Option<i64>;

/// Relies on `fuzzy_matcher::skim::SkimMatcherV2::fuzzy_match` with the
/// default configuration: a deterministic function of the choice and pattern
/// texts (its thread-local buffers only cache allocations).
#[verifier::external_body]
fn fuzzy_match_raw(choice: &str, pattern: &str) -> (r: Option<i64>)
    ensures
        r == fuzzy_score(choice@, pattern@),
{
    fuzzy_matcher::skim::SkimMatcherV2::default().fuzzy_match(choice, pattern)
}

/// The better of two optional scores; a missing score loses to any present
/// one.
pub open spec fn opt_max(a: Option<i64>, b: Option<i64>) -> Option<i64> {
    match (a, b) {
        (Some(x), Some(y)) => if x >= y {
            Some(x)
        } else {
            Some(y)
        },
        (Some(x), None) => Some(x),
        (None, b2) => b2,
    }
}

/// The score of one item against a normalized query: the best fuzzy score of
/// the query against the display name and against the shortcode if there is
/// one, raised to at least `EXACT_MATCH_THRESHOLD` when the query occurs
/// literally in the display name. `None` when nothing matches.
pub open spec fn combined_score(
    name: Seq<char>,
    shortcode: Option<Seq<char>>,
    query: Seq<char>,
) -> Option<i64> {
    let fuzzy_best = match shortcode {
        Some(sc) => opt_max(fuzzy_score(name, query), fuzzy_score(sc, query)),
        None => fuzzy_score(name, query),
    };
    if is_substring_of(query, name) {
        match fuzzy_best {
            Some(x) => if x >= EXACT_MATCH_THRESHOLD {
                Some(x)
            } else {
                Some(EXACT_MATCH_THRESHOLD)
            },
            None => Some(EXACT_MATCH_THRESHOLD),
        }
    } else {
        fuzzy_best
    }
}

/// The view of an optional shortcode.
pub open spec fn opt_str_view(s: Option<String>) -> Option<Seq<char>> {
    match s {
        Some(sc) => Some(sc@),
        None => None,
    }
}

/// Score one item's display name and optional shortcode against a normalized
/// query.
pub fn score_item(name: &str, shortcode: &Option<String>, query: &str) -> (r: Option<i64>)
    ensures
        r == combined_score(name@, opt_str_view(*shortcode), query@),
{
    let mut best = fuzzy_match_raw(name, query);
    match shortcode {
        Some(sc) => {
            let sc_score = fuzzy_match_raw(sc.as_str(), query);
            best = match (best, sc_score) {
                (Some(x), Some(y)) => if x >= y {
                    Some(x)
                } else {
                    Some(y)
                },
                (Some(x), None) => Some(x),
                (None, b2) => b2,
            };
        },
        None => {},
    }
    if contains_substring(name, query) {
        best = match best {
            Some(x) => if x >= EXACT_MATCH_THRESHOLD {
                Some(x)
            } else {
                Some(EXACT_MATCH_THRESHOLD)
            },
            None => Some(EXACT_MATCH_THRESHOLD),
        };
    }
    best
}

/// Exact-substring dominance: an item whose display name contains the query
/// literally scores at least `EXACT_MATCH_THRESHOLD`, and therefore at least
/// as much as any item whose score stays below that threshold.
pub proof fn lemma_exact_substring_dominance(
    name: Seq<char>,
    shortcode: Option<Seq<char>>,
    query: Seq<char>,
)
    requires
        is_substring_of(query, name),
    ensures
        combined_score(name, shortcode, query) is Some,
        combined_score(name, shortcode, query)->Some_0 >= EXACT_MATCH_THRESHOLD,
{
}

} // verus!
