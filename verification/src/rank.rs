//! The ranking engine. Given the traversal candidates, the localized
//! annotations, a query, the skin-tone filter and the recency cache, it
//! produces the two result lists: the main list and the favorites list (the
//! cached items), both filtered and, for a non-empty query, newly scored and
//! sorted by descending score with traversal order breaking ties.

use vstd::prelude::*;

use crate::catalog::Item;
use crate::catalog::ItemView;
use crate::catalog::item_views;
use crate::recency::RecencyCache;
use crate::score::combined_score;
use crate::score::score_item;
use crate::text::Normalizer;
use crate::text::strip_markers;
use crate::tone::ToneFilter;
use crate::tone::tone_visible;
use crate::tone::tone_visible_spec;

verus! {

broadcast use {
    vstd::seq_lib::group_seq_lib_default,
    vstd::prelude::Seq::lemma_filter_push,
    vstd::seq_lib::group_to_multiset_ensures,
};

use vstd::relations::sorted_by;
use vstd::relations::total_ordering;
use vstd::pervasive::VecAdditionalExecFns;

/// The views of a list of localized name candidates.
pub open spec fn tts_views(v: Seq<String>) -> Seq<Seq<char>> {
    v.map_values(|s: String| s@)
}

/// Per-locale display-name overrides, keyed by an item's base key (its
/// canonical key with the variant markers stripped). Each entry carries the
/// ordered list of localized name candidates.
pub struct Annotations {
    entries: Vec<(String, Vec<String>)>,
}

impl View for Annotations {
    type V = Seq<(Seq<char>, Seq<Seq<char>>)>;

    closed spec fn view(&self) -> Seq<(Seq<char>, Seq<Seq<char>>)> {
        self.entries@.map_values(|e: (String, Vec<String>)| (e.0@, tts_views(e.1@)))
    }
}

/// The list of name candidates stored under a key, if any.
pub open spec fn ann_lookup(
    annv: Seq<(Seq<char>, Seq<Seq<char>>)>,
    key: Seq<char>,
) -> Option<Seq<Seq<char>>>
    decreases annv.len(),
{
    if annv.len() == 0 {
        None
    } else if annv[0].0 == key {
        Some(annv[0].1)
    } else {
        ann_lookup(annv.drop_first(), key)
    }
}

impl Annotations {
    /// No key appears twice.
    pub open spec fn wf(self) -> bool {
        forall|i: int, j: int| 0 <= i < j < self@.len() ==> (#[trigger] self@[i]).0 != (
        #[trigger] self@[j]).0
    }

    /// An empty annotation map.
    pub fn new() -> (r: Annotations)
        ensures
            r.wf(),
            r@ == Seq::<(Seq<char>, Seq<Seq<char>>)>::empty(),
    {
        let r = Annotations { entries: Vec::new() };
        proof {
            assert(r@ =~= Seq::<(Seq<char>, Seq<Seq<char>>)>::empty());
        }
        r
    }

    /// The name candidates stored under a key.
    pub fn lookup(&self, key: &String) -> (r: Option<&Vec<String>>)
        ensures
            match r {
                Some(tts) => ann_lookup(self@, key@) == Some(tts_views(tts@)),
                None => ann_lookup(self@, key@) is None,
            },
    {
        let n = self.entries.len();
        proof {
            assert(self@.skip(0) =~= self@);
        }
        for i in 0..n
            invariant
                n == self.entries@.len(),
                ann_lookup(self@, key@) == ann_lookup(self@.skip(i as int), key@),
        {
            proof {
                assert(self@.skip(i as int)[0] == self@[i as int]);
                assert(self@[i as int] == (self.entries@[i as int].0@, tts_views(
                    self.entries@[i as int].1@,
                )));
            }
            let e = &self.entries[i];
            if e.0.eq(key) {
                return Some(&e.1);
            }
            proof {
                assert(self@.skip(i as int).drop_first() =~= self@.skip(i + 1));
            }
        }
        proof {
            assert(self@.skip(n as int) =~= Seq::<(Seq<char>, Seq<Seq<char>>)>::empty());
        }
        None
    }

    /// Store name candidates under a key, replacing what an earlier source
    /// put there: merging locale sources least-specific first makes the more
    /// specific source win on key collision.
    pub fn insert(&mut self, key: String, tts: Vec<String>)
        requires
            old(self).wf(),
        ensures
            final(self).wf(),
            (exists|i: int|
                0 <= i < old(self)@.len() && (#[trigger] old(self)@[i]).0 == key@) ==> exists|
                i: int,
            |
                0 <= i < old(self)@.len() && (#[trigger] old(self)@[i]).0 == key@ && final(self)@
                    == old(self)@.update(i, (key@, tts_views(tts@))),
            !(exists|i: int| 0 <= i < old(self)@.len() && (#[trigger] old(self)@[i]).0 == key@)
                ==> final(self)@ == old(self)@.push((key@, tts_views(tts@))),
    {
        let ghost pre = self@;
        match find_entry(&self.entries, &key) {
            Some(i) => {
                self.entries.set(i, (key, tts));
                proof {
                    assert(self@ =~= pre.update(i as int, (pre[i as int].0, self@[i as int].1)));
                    assert(self@ =~= pre.update(i as int, self@[i as int]));
                }
            },
            None => {
                self.entries.push((key, tts));
                proof {
                    assert(self@ =~= pre.push(self@[pre.len() as int]));
                }
            },
        }
    }
}

/// The index of the first entry stored under a key.
fn find_entry(entries: &Vec<(String, Vec<String>)>, key: &String) -> (r: Option<usize>)
    ensures
        match r {
            Some(i) => i < entries@.len() && entries@[i as int].0@ == key@ && forall|j: int|
                0 <= j < i ==> entries@[j].0@ != key@,
            None => forall|j: int| 0 <= j < entries@.len() ==> (#[trigger] entries@[j]).0@ != key@,
        },
{
    let n = entries.len();
    for i in 0..n
        invariant
            n == entries@.len(),
            forall|j: int| 0 <= j < i ==> (#[trigger] entries@[j]).0@ != key@,
    {
        if entries[i].0.eq(key) {
            return Some(i);
        }
    }
    None
}

/// The display name the engine ranks an item under: the first localized name
/// candidate stored under the item's base key, or the item's own default
/// name when no annotation overrides it.
pub open spec fn item_display_name(
    annv: Seq<(Seq<char>, Seq<Seq<char>>)>,
    it: ItemView,
) -> Seq<char> {
    match ann_lookup(annv, strip_markers(it.key)) {
        Some(tts) => if tts.len() > 0 {
            tts[0]
        } else {
            it.name
        },
        None => it.name,
    }
}

/// The score of one item against a normalized query.
pub open spec fn item_score_spec(
    annv: Seq<(Seq<char>, Seq<Seq<char>>)>,
    it: ItemView,
    q: Seq<char>,
) -> Option<i64> {
    combined_score(item_display_name(annv, it), it.shortcode, q)
}

/// Resolve the display name of one item.
pub fn emoji_name_localized(nm: &Normalizer, annotations: &Annotations, item: &Item) -> (r: String)
    requires
        nm.wf(),
    ensures
        r@ == item_display_name(annotations@, item@),
{
    let base_key = nm.normalize(item.key.as_str());
    match annotations.lookup(&base_key) {
        Some(tts) => if tts.len() > 0 {
            tts[0].clone()
        } else {
            item.name.clone()
        },
        None => item.name.clone(),
    }
}

/// Membership test of the main list: the skin-tone filter admits the item.
pub open spec fn main_pred(filter: ToneFilter) -> spec_fn(ItemView) -> bool {
    |it: ItemView| tone_visible_spec(filter, it.tone)
}

/// Membership test of the favorites list: the item is cached and the
/// skin-tone filter admits it.
pub open spec fn fav_pred(filter: ToneFilter, cachev: Seq<Seq<char>>) -> spec_fn(ItemView) -> bool {
    |it: ItemView| cachev.contains(it.key) && tone_visible_spec(filter, it.tone)
}

/// The `(score, traversal index)` pairs of the kept candidates among the
/// first `n`, in traversal order. A candidate is kept when it matches the
/// query at all and passes the membership test.
pub open spec fn scored_pairs_upto(
    candv: Seq<ItemView>,
    annv: Seq<(Seq<char>, Seq<Seq<char>>)>,
    q: Seq<char>,
    keep: spec_fn(ItemView) -> bool,
    n: int,
) -> Seq<(i64, usize)>
    decreases n,
{
    if n <= 0 {
        Seq::empty()
    } else {
        let prev = scored_pairs_upto(candv, annv, q, keep, n - 1);
        let it = candv[n - 1];
        let sc = item_score_spec(annv, it, q);
        if sc is Some && keep(it) {
            prev.push((sc->Some_0, (n - 1) as usize))
        } else {
            prev
        }
    }
}

/// The ranking order on scored pairs: higher scores first, and the smaller
/// traversal index first among equal scores, so ties are broken by catalog
/// traversal order.
pub open spec fn pair_leq(a: (i64, usize), b: (i64, usize)) -> bool {
    a.0 > b.0 || (a.0 == b.0 && a.1 <= b.1)
}

/// The ranking order as a relation value.
pub open spec fn pair_order() -> spec_fn((i64, usize), (i64, usize)) -> bool {
    |a: (i64, usize), b: (i64, usize)| pair_leq(a, b)
}

/// The ranking order is a total ordering: sorting by it has a unique result.
pub proof fn lemma_pair_order_total()
    ensures
        total_ordering(pair_order()),
{
    let leq = pair_order();
    assert forall|x: (i64, usize), y: (i64, usize)| #[trigger] leq(x, y) && #[trigger] leq(y, x)
        implies x == y by {
        assert(x.0 == y.0 && x.1 == y.1);
    }
    assert(vstd::relations::reflexive(leq));
    assert(vstd::relations::transitive(leq));
    assert(vstd::relations::strongly_connected(leq));
}

/// The items a pair sequence picks out of the candidates.
pub open spec fn pair_items(candv: Seq<ItemView>, pairs: Seq<(i64, usize)>) -> Seq<ItemView> {
    pairs.map_values(|p: (i64, usize)| candv[p.1 as int])
}

/// The ranked list for one membership test: every kept candidate, ordered by
/// descending score with traversal order breaking ties.
pub open spec fn ranked_items(
    candv: Seq<ItemView>,
    annv: Seq<(Seq<char>, Seq<Seq<char>>)>,
    q: Seq<char>,
    keep: spec_fn(ItemView) -> bool,
) -> Seq<ItemView> {
    pair_items(
        candv,
        scored_pairs_upto(candv, annv, q, keep, candv.len() as int).sort_by(pair_order()),
    )
}

/// Every pair produced over `n` candidates carries an index below `n`.
proof fn lemma_scored_pairs_bounds(
    candv: Seq<ItemView>,
    annv: Seq<(Seq<char>, Seq<Seq<char>>)>,
    q: Seq<char>,
    keep: spec_fn(ItemView) -> bool,
    n: int,
)
    ensures
        forall|k: int|
            0 <= k < scored_pairs_upto(candv, annv, q, keep, n).len() ==> (
            #[trigger] scored_pairs_upto(candv, annv, q, keep, n)[k]).1 < n,
    decreases n,
{
    if n > 0 {
        lemma_scored_pairs_bounds(candv, annv, q, keep, n - 1);
        let prev = scored_pairs_upto(candv, annv, q, keep, n - 1);
        let cur = scored_pairs_upto(candv, annv, q, keep, n);
        assert forall|k: int| 0 <= k < cur.len() implies (#[trigger] cur[k]).1 < n by {
            if k < prev.len() {
                assert(cur[k] == prev[k]);
            }
        }
    }
}

/// The first position of a sorted vector whose pair does not precede `x`.
fn insert_position(out: &Vec<(i64, usize)>, x: (i64, usize)) -> (k: usize)
    ensures
        k <= out@.len(),
        forall|m: int| 0 <= m < k ==> pair_leq(#[trigger] out@[m], x),
        k < out@.len() ==> !pair_leq(out@[k as int], x),
{
    let n = out.len();
    for k in 0..n
        invariant
            n == out@.len(),
            forall|m: int| 0 <= m < k ==> pair_leq(#[trigger] out@[m], x),
    {
        let e = out[k];
        if !(e.0 > x.0 || (e.0 == x.0 && e.1 <= x.1)) {
            return k;
        }
    }
    n
}

/// Sort scored pairs by the ranking order.
fn sort_pairs(v: Vec<(i64, usize)>) -> (r: Vec<(i64, usize)>)
    ensures
        r@ == v@.sort_by(pair_order()),
{
    let ghost input = v@;
    let mut out: Vec<(i64, usize)> = Vec::new();
    let n = v.len();
    proof {
        assert(input.take(0) =~= Seq::<(i64, usize)>::empty());
        assert(out@.to_multiset() =~= input.take(0).to_multiset());
    }
    for i in 0..n
        invariant
            n == input.len(),
            v@ == input,
            sorted_by(out@, pair_order()),
            out@.to_multiset() == input.take(i as int).to_multiset(),
    {
        let x = v[i];
        let k = insert_position(&out, x);
        let ghost prev = out@;
        let ghost leq = pair_order();
        proof {
            lemma_pair_order_total();
            if k < prev.len() {
                assert(leq(x, prev[k as int])) by {
                    assert(!pair_leq(prev[k as int], x));
                    assert(leq(prev[k as int], x) || leq(x, prev[k as int]));
                }
                assert forall|m: int| k <= m < prev.len() implies leq(x, #[trigger] prev[m]) by {
                    if m > k {
                        assert(leq(prev[k as int], prev[m]));
                        assert(leq(x, prev[m]));
                    }
                }
            }
            assert forall|m: int| 0 <= m < k implies leq(#[trigger] prev[m], x) by {
                assert(pair_leq(prev[m], x));
            }
        }
        out.insert(k, x);
        proof {
            prev.insert_ensures(k as int, x);
            assert forall|i0: int, j0: int| 0 <= i0 < j0 < out@.len() implies pair_order()(
                out@[i0],
                out@[j0],
            ) by {
                let ki = k as int;
                if i0 < ki && j0 < ki {
                    assert(out@[i0] == prev[i0] && out@[j0] == prev[j0]);
                    assert(leq(prev[i0], prev[j0]));
                } else if i0 < ki && j0 == ki {
                    assert(out@[i0] == prev[i0] && out@[j0] == x);
                    assert(leq(prev[i0], x));
                } else if i0 < ki && j0 > ki {
                    assert(out@[i0] == prev[i0] && out@[j0] == prev[j0 - 1]);
                    assert(leq(prev[i0], prev[j0 - 1]));
                } else if i0 == ki {
                    assert(out@[i0] == x && out@[j0] == prev[j0 - 1]);
                    assert(leq(x, prev[j0 - 1]));
                } else {
                    assert(out@[i0] == prev[i0 - 1] && out@[j0] == prev[j0 - 1]);
                    assert(leq(prev[i0 - 1], prev[j0 - 1]));
                }
            }
            assert(out@.to_multiset() =~= input.take(i + 1).to_multiset()) by {
                assert(out@ == prev.insert(k as int, x));
                vstd::seq_lib::to_multiset_insert(prev, k as int, x);
                assert(input.take(i + 1) =~= input.take(i as int).push(input[i as int]));
                vstd::seq_lib::to_multiset_build(input.take(i as int), input[i as int]);
            }
        }
    }
    proof {
        assert(input.take(n as int) =~= input);
        lemma_pair_order_total();
        input.lemma_sort_by_ensures(pair_order());
        vstd::seq_lib::lemma_sorted_unique(out@, input.sort_by(pair_order()), pair_order());
        assert(out@ == input.sort_by(pair_order()));
    }
    out
}

/// Clone the candidates a pair sequence picks out, in pair order.
fn take_items(cands: &Vec<Item>, pairs: &Vec<(i64, usize)>) -> (r: Vec<Item>)
    requires
        forall|k: int| 0 <= k < pairs@.len() ==> (#[trigger] pairs@[k]).1 < cands@.len(),
    ensures
        item_views(r@) == pair_items(item_views(cands@), pairs@),
{
    let mut r: Vec<Item> = Vec::new();
    let n = pairs.len();
    proof {
        assert(item_views(r@) =~= pair_items(item_views(cands@), pairs@.take(0)));
    }
    for k in 0..n
        invariant
            n == pairs@.len(),
            r@.len() == k,
            forall|k0: int| 0 <= k0 < pairs@.len() ==> (#[trigger] pairs@[k0]).1 < cands@.len(),
            item_views(r@) == pair_items(item_views(cands@), pairs@.take(k as int)),
    {
        let idx = pairs[k].1;
        let ghost prev_r = r@;
        let it = cands[idx].clone();
        r.push(it);
        proof {
            assert(pairs@.take(k + 1) =~= pairs@.take(k as int).push(pairs@[k as int]));
            assert(item_views(prev_r).len() == prev_r.len());
            assert(item_views(r@).len() == r@.len());
            assert forall|k0: int| 0 <= k0 < r@.len() implies #[trigger] item_views(r@)[k0]
                == pair_items(item_views(cands@), pairs@.take(k + 1))[k0] by {
                if k0 < prev_r.len() {
                    assert(item_views(r@)[k0] == r@[k0]@);
                    assert(r@[k0] == prev_r[k0]);
                    assert(item_views(prev_r)[k0] == prev_r[k0]@);
                    assert(item_views(prev_r)[k0] == pair_items(
                        item_views(cands@),
                        pairs@.take(k as int),
                    )[k0]);
                    assert(pairs@.take(k + 1)[k0] == pairs@.take(k as int)[k0]);
                    assert(pair_items(item_views(cands@), pairs@.take(k as int))[k0]
                        == item_views(cands@)[pairs@.take(k as int)[k0].1 as int]);
                    assert(pair_items(item_views(cands@), pairs@.take(k + 1))[k0]
                        == item_views(cands@)[pairs@.take(k + 1)[k0].1 as int]);
                } else {
                    assert(k0 == prev_r.len());
                    assert(item_views(r@)[k0] == it@);
                    assert(it@ == item_views(cands@)[pairs@[k as int].1 as int]);
                    assert(pairs@.take(k + 1)[k0] == pairs@[k as int]);
                    assert(pair_items(item_views(cands@), pairs@.take(k + 1))[k0]
                        == item_views(cands@)[pairs@.take(k + 1)[k0].1 as int]);
                }
            }
            assert(item_views(r@) =~= pair_items(item_views(cands@), pairs@.take(k + 1)));
        }
    }
    proof {
        assert(pairs@.take(n as int) =~= pairs@);
    }
    r
}

/// The two result lists of one ranking pass.
pub struct FilteredResult {
    /// The main list: every candidate the filters admit, in rank order.
    pub main: Vec<Item>,
    /// The favorites list: the cached candidates the filters admit, in rank
    /// order.
    pub favorites: Vec<Item>,
}

/// One full ranking pass. The query is normalized first; an empty normalized
/// query skips scoring and keeps the candidates in traversal order, filtered
/// only by skin tone (and, for the favorites list, by cache membership); a
/// non-empty one keeps the matching candidates sorted by descending score,
/// traversal order breaking ties.
pub fn filter_and_rank(
    nm: &Normalizer,
    candidates: &Vec<Item>,
    annotations: &Annotations,
    query: &str,
    filter: &ToneFilter,
    cache: &RecencyCache,
) -> (r: FilteredResult)
    requires
        nm.wf(),
    ensures
        ({
            let qn = strip_markers(query@);
            let candv = item_views(candidates@);
            &&& qn.len() == 0 ==> item_views(r.main@) == candv.filter(main_pred(*filter))
                && item_views(r.favorites@) == candv.filter(fav_pred(*filter, cache@))
            &&& qn.len() > 0 ==> item_views(r.main@) == ranked_items(
                candv,
                annotations@,
                qn,
                main_pred(*filter),
            ) && item_views(r.favorites@) == ranked_items(
                candv,
                annotations@,
                qn,
                fav_pred(*filter, cache@),
            )
        }),
{
    let qn = nm.normalize(query);
    let ghost candv = item_views(candidates@);
    let ghost annv = annotations@;
    let n = candidates.len();
    if qn.as_str().is_empty() {
        let mut main: Vec<Item> = Vec::new();
        let mut favorites: Vec<Item> = Vec::new();
        proof {
            assert(candv.take(0) =~= Seq::<ItemView>::empty());
            assert(item_views(main@) =~= candv.take(0).filter(main_pred(*filter)));
            assert(item_views(favorites@) =~= candv.take(0).filter(fav_pred(*filter, cache@)));
        }
        for i in 0..n
            invariant
                n == candidates@.len(),
                candv == item_views(candidates@),
                item_views(main@) == candv.take(i as int).filter(main_pred(*filter)),
                item_views(favorites@) == candv.take(i as int).filter(fav_pred(*filter, cache@)),
        {
            let it = &candidates[i];
            proof {
                assert(it@ == candv[i as int]);
            }
            let ghost main_before = item_views(main@);
            let ghost fav_before = item_views(favorites@);
            let visible = tone_visible(filter, it.tone);
            if visible {
                main.push(it.clone());
            }
            let in_cache = cache.contains_key(&it.key);
            if in_cache && visible {
                favorites.push(it.clone());
            }
            proof {
                assert(candv.take(i + 1) =~= candv.take(i as int).push(candv[i as int]));
                assert(main_pred(*filter)(candv[i as int]) == visible);
                assert(fav_pred(*filter, cache@)(candv[i as int]) == (in_cache && visible));
                if visible {
                    assert(item_views(main@) =~= main_before.push(candv[i as int]));
                }
                if in_cache && visible {
                    assert(item_views(favorites@) =~= fav_before.push(candv[i as int]));
                }
                assert(item_views(main@) == candv.take(i + 1).filter(main_pred(*filter)));
                assert(item_views(favorites@) == candv.take(i + 1).filter(
                    fav_pred(*filter, cache@),
                ));
            }
        }
        proof {
            assert(candv.take(n as int) =~= candv);
        }
        FilteredResult { main, favorites }
    } else {
        let mut main_pairs: Vec<(i64, usize)> = Vec::new();
        let mut fav_pairs: Vec<(i64, usize)> = Vec::new();
        for i in 0..n
            invariant
                n == candidates@.len(),
                candv == item_views(candidates@),
                annv == annotations@,
                nm.wf(),
                qn@ == strip_markers(query@),
                main_pairs@ == scored_pairs_upto(candv, annv, qn@, main_pred(*filter), i as int),
                fav_pairs@ == scored_pairs_upto(
                    candv,
                    annv,
                    qn@,
                    fav_pred(*filter, cache@),
                    i as int,
                ),
        {
            let it = &candidates[i];
            proof {
                assert(it@ == candv[i as int]);
            }
            let name = emoji_name_localized(nm, annotations, it);
            let sc = score_item(name.as_str(), &it.shortcode, qn.as_str());
            proof {
                assert(sc == item_score_spec(annv, candv[i as int], qn@));
            }
            let visible = tone_visible(filter, it.tone);
            let in_cache = cache.contains_key(&it.key);
            proof {
                assert(main_pred(*filter)(candv[i as int]) == visible);
                assert(fav_pred(*filter, cache@)(candv[i as int]) == (in_cache && visible));
            }
            match sc {
                Some(s) => {
                    if visible {
                        main_pairs.push((s, i));
                    }
                    if in_cache && visible {
                        fav_pairs.push((s, i));
                    }
                },
                None => {},
            }
        }
        proof {
            lemma_scored_pairs_bounds(candv, annv, qn@, main_pred(*filter), n as int);
            lemma_scored_pairs_bounds(candv, annv, qn@, fav_pred(*filter, cache@), n as int);
        }
        let ghost main_unsorted = main_pairs@;
        let ghost fav_unsorted = fav_pairs@;
        let main_pairs = sort_pairs(main_pairs);
        let fav_pairs = sort_pairs(fav_pairs);
        proof {
            lemma_pair_order_total();
            main_unsorted.lemma_sort_by_ensures(pair_order());
            fav_unsorted.lemma_sort_by_ensures(pair_order());
            assert forall|k: int| 0 <= k < main_pairs@.len() implies (
            #[trigger] main_pairs@[k]).1 < candidates@.len() by {
                assert(main_pairs@.contains(main_pairs@[k]));
                assert(main_unsorted.contains(main_pairs@[k]));
            }
            assert forall|k: int| 0 <= k < fav_pairs@.len() implies (#[trigger] fav_pairs@[k]).1
                < candidates@.len() by {
                assert(fav_pairs@.contains(fav_pairs@[k]));
                assert(fav_unsorted.contains(fav_pairs@[k]));
            }
        }
        let main = take_items(candidates, &main_pairs);
        let favorites = take_items(candidates, &fav_pairs);
        FilteredResult { main, favorites }
    }
}

} // verus!
