//! The item catalog and its two traversal orders. The catalog is a sequence
//! of variant families; traversal expands every family into all its variants
//! (the base item first) whatever the ordering scheme. The natural order
//! follows the catalog's own enumeration; the curated popularity order
//! follows an injected rank table whose per-group ranges must partition it
//! exactly.

use vstd::prelude::*;

use crate::GROUP_COUNT;
use crate::nav::Group;
use crate::nav::group_index;
use crate::nav::group_of_index;
use crate::nav::index_to_group;
use crate::score::opt_str_view;
use crate::tone::ToneClass;

verus! {

/// One catalog entry: a glyph with its metadata. The key is the item's
/// canonical string, unique across the catalog, and also what is rendered.
pub struct Item {
    /// Canonical key: the glyph string itself.
    pub key: String,
    /// Default display name, used when no annotation overrides it.
    pub name: String,
    /// Optional shortcode, an alternative text the item can be found by.
    pub shortcode: Option<String>,
    /// The group the item belongs to.
    pub group: Group,
    /// The item's skin-tone classification.
    pub tone: ToneClass,
}

/// The mathematical value of an item.
pub struct ItemView {
    pub key: Seq<char>,
    pub name: Seq<char>,
    pub shortcode: Option<Seq<char>>,
    pub group: Group,
    pub tone: ToneClass,
}

impl View for Item {
    type V = ItemView;

    open spec fn view(&self) -> ItemView {
        ItemView {
            key: self.key@,
            name: self.name@,
            shortcode: opt_str_view(self.shortcode),
            group: self.group,
            tone: self.tone,
        }
    }
}

impl Clone for Item {
    fn clone(&self) -> (r: Item)
        ensures
            r@ == self@,
    {
        Item {
            key: self.key.clone(),
            name: self.name.clone(),
            shortcode: match &self.shortcode {
                Some(sc) => Some(sc.clone()),
                None => None,
            },
            group: self.group,
            tone: self.tone,
        }
    }
}

/// The views of a sequence of items.
pub open spec fn item_views(s: Seq<Item>) -> Seq<ItemView> {
    s.map_values(|it: Item| it@)
}

/// A variant family: the base item first, followed by its skin-tone variants.
/// An item without variants forms a family of one.
pub struct Family {
    pub items: Vec<Item>,
}

impl View for Family {
    type V = Seq<ItemView>;

    open spec fn view(&self) -> Seq<ItemView> {
        item_views(self.items@)
    }
}

/// A family holds at least its base item, and all its items belong to the
/// base item's group.
pub open spec fn family_wf(fam: Seq<ItemView>) -> bool {
    &&& fam.len() >= 1
    &&& forall|i: int| 0 <= i < fam.len() ==> (#[trigger] fam[i]).group == fam[0].group
}

/// The group of a family.
pub open spec fn family_group(fam: Seq<ItemView>) -> Group {
    fam[0].group
}

/// The full catalog: a sequence of variant families.
pub struct Catalog {
    pub families: Vec<Family>,
}

impl View for Catalog {
    type V = Seq<Seq<ItemView>>;

    open spec fn view(&self) -> Seq<Seq<ItemView>> {
        self.families@.map_values(|f: Family| f@)
    }
}

impl Catalog {
    pub open spec fn wf(self) -> bool {
        forall|i: int| 0 <= i < self@.len() ==> family_wf(#[trigger] self@[i])
    }
}

/// The two interchangeable traversal orders.
#[derive(Clone, Copy, Debug, PartialEq, Eq, Structural)]
pub enum OrderingScheme {
    /// The catalog's intrinsic enumeration order.
    NaturalCatalogOrder,
    /// The injected popularity rank order.
    CuratedPopularityOrder,
}

/// Whether an optional group selection includes a group. No selection includes
/// every group.
pub open spec fn group_matches(sel: Option<Group>, g: Group) -> bool {
    match sel {
        Some(x) => x == g,
        None => true,
    }
}

/// The items of the first `n` families that the selection includes, flattened
/// in catalog order.
pub open spec fn natural_upto(cat: Seq<Seq<ItemView>>, sel: Option<Group>, n: int) -> Seq<
    ItemView,
>
    decreases n,
{
    if n <= 0 {
        Seq::empty()
    } else {
        let prev = natural_upto(cat, sel, n - 1);
        if group_matches(sel, family_group(cat[n - 1])) {
            prev + cat[n - 1]
        } else {
            prev
        }
    }
}

/// The natural traversal: every admitted family, expanded, in catalog order.
pub open spec fn natural_traversal(cat: Seq<Seq<ItemView>>, sel: Option<Group>) -> Seq<ItemView> {
    natural_upto(cat, sel, cat.len() as int)
}

/// The families ranked at positions `lo..hi` of the rank table, expanded, in
/// rank order.
pub open spec fn curated_range(
    cat: Seq<Seq<ItemView>>,
    ranked: Seq<usize>,
    lo: int,
    hi: int,
) -> Seq<ItemView>
    decreases hi - lo,
{
    if hi <= lo {
        Seq::empty()
    } else {
        curated_range(cat, ranked, lo, hi - 1) + cat[ranked[hi - 1] as int]
    }
}

/// The curated popularity table: family indices in rank order, and one
/// contiguous `(start, length)` range per group.
pub struct CuratedOrdering {
    pub ranked: Vec<usize>,
    pub ranges: Vec<(usize, usize)>,
}

impl CuratedOrdering {
    /// The table is well formed for a catalog: there is one range per group,
    /// the ranges tile the rank table exactly and in group-enumeration order,
    /// every ranked index denotes a family of the catalog, no family is
    /// ranked twice, and each range ranks only families of its group.
    pub open spec fn wf(self, cat: Catalog) -> bool {
        let catv = cat@;
        let rk = self.ranked@;
        let rg = self.ranges@;
        &&& rg.len() == GROUP_COUNT
        &&& rg[0].0 == 0
        &&& forall|g: int|
            0 <= g < GROUP_COUNT - 1 ==> (#[trigger] rg[g + 1]).0 == rg[g].0 + rg[g].1
        &&& rg[GROUP_COUNT - 1].0 + rg[GROUP_COUNT - 1].1 == rk.len()
        &&& forall|g: int| 0 <= g < GROUP_COUNT ==> (#[trigger] rg[g]).0 + rg[g].1 <= rk.len()
        &&& forall|i: int| 0 <= i < rk.len() ==> (#[trigger] rk[i]) < catv.len()
        &&& rk.no_duplicates()
        &&& forall|g: int, i: int|
            #![trigger rg[g], rk[i]]
            0 <= g < GROUP_COUNT && rg[g].0 <= i < rg[g].0 + rg[g].1 ==> family_group(
                catv[rk[i] as int],
            ) == group_of_index(g)
    }

    /// Check the table against a catalog; returns exactly whether it is well
    /// formed.
    pub fn validate(&self, catalog: &Catalog) -> (r: bool)
        requires
            catalog.wf(),
        ensures
            r == self.wf(*catalog),
    {
        let total = self.ranked.len();
        let fam_count = catalog.families.len();
        if self.ranges.len() != GROUP_COUNT {
            return false;
        }
        if self.ranges[0].0 != 0 {
            return false;
        }
        let (s0, l0) = self.ranges[0];
        if l0 > total || s0 > total - l0 {
            return false;
        }
        let mut g: usize = 0;
        while g < GROUP_COUNT - 1
            invariant
                g <= GROUP_COUNT - 1,
                self.ranges@.len() == GROUP_COUNT,
                total == self.ranked@.len(),
                forall|g0: int|
                    0 <= g0 < g ==> (#[trigger] self.ranges@[g0 + 1]).0 == self.ranges@[g0].0
                        + self.ranges@[g0].1,
                forall|g0: int|
                    0 <= g0 <= g ==> (#[trigger] self.ranges@[g0]).0 + self.ranges@[g0].1 <= total,
            decreases GROUP_COUNT - g,
        {
            let (start, len) = self.ranges[g];
            if len > total || start > total - len {
                return false;
            }
            if self.ranges[g + 1].0 != start + len {
                return false;
            }
            let (start2, len2) = self.ranges[g + 1];
            if len2 > total || start2 > total - len2 {
                return false;
            }
            g = g + 1;
        }
        let (last_start, last_len) = self.ranges[GROUP_COUNT - 1];
        if last_len > total || last_start != total - last_len {
            return false;
        }
        let mut seen: Vec<bool> = Vec::new();
        let mut k: usize = 0;
        while k < fam_count
            invariant
                k <= fam_count,
                seen@.len() == k,
                forall|j: int| 0 <= j < k ==> !(#[trigger] seen@[j]),
            decreases fam_count - k,
        {
            seen.push(false);
            k = k + 1;
        }
        let mut i: usize = 0;
        while i < total
            invariant
                i <= total,
                total == self.ranked@.len(),
                fam_count == catalog@.len(),
                seen@.len() == fam_count,
                forall|j: int| 0 <= j < i ==> (#[trigger] self.ranked@[j]) < fam_count,
                forall|j1: int, j2: int|
                    0 <= j1 < j2 < i ==> self.ranked@[j1] != self.ranked@[j2],
                forall|f: int|
                    0 <= f < fam_count ==> ((#[trigger] seen@[f]) <==> exists|j: int|
                        0 <= j < i && self.ranked@[j] == f),
            decreases total - i,
        {
            let fam = self.ranked[i];
            if fam >= fam_count {
                return false;
            }
            if seen[fam] {
                proof {
                    let j = choose|j: int| 0 <= j < i && self.ranked@[j] == fam;
                    assert(self.ranked@[j] == self.ranked@[i as int]);
                }
                return false;
            }
            seen.set(fam, true);
            i = i + 1;
        }
        let mut g: usize = 0;
        while g < GROUP_COUNT
            invariant
                g <= GROUP_COUNT,
                catalog.wf(),
                total == self.ranked@.len(),
                fam_count == catalog@.len(),
                self.ranges@.len() == GROUP_COUNT,
                forall|j: int| 0 <= j < total ==> (#[trigger] self.ranked@[j]) < fam_count,
                forall|g0: int|
                    0 <= g0 < GROUP_COUNT ==> (#[trigger] self.ranges@[g0]).0
                        + self.ranges@[g0].1 <= total,
                forall|g0: int, i0: int|
                    #![trigger self.ranges@[g0], self.ranked@[i0]]
                    0 <= g0 < g && self.ranges@[g0].0 <= i0 < self.ranges@[g0].0
                        + self.ranges@[g0].1 ==> family_group(catalog@[self.ranked@[i0] as int])
                        == group_of_index(g0),
            decreases GROUP_COUNT - g,
        {
            let (start, len) = self.ranges[g];
            let want = index_to_group(g);
            let mut i: usize = start;
            while i < start + len
                invariant
                    start <= i <= start + len,
                    start + len <= total,
                    catalog.wf(),
                    total == self.ranked@.len(),
                    fam_count == catalog@.len(),
                    g < GROUP_COUNT,
                    self.ranges@.len() == GROUP_COUNT,
                    (start, len) == self.ranges@[g as int],
                    want == group_of_index(g as int),
                    forall|j: int| 0 <= j < total ==> (#[trigger] self.ranked@[j]) < fam_count,
                    forall|i0: int|
                        start <= i0 < i ==> family_group(
                            catalog@[(#[trigger] self.ranked@[i0]) as int],
                        ) == group_of_index(g as int),
                decreases start + len - i,
            {
                let fam = self.ranked[i];
                let fam_ref = &catalog.families[fam];
                if fam_ref.items[0].group != want {
                    return false;
                }
                proof {
                    assert(catalog@[fam as int] == catalog.families@[fam as int]@);
                    assert(catalog@[fam as int][0] == fam_ref.items@[0]@);
                }
                i = i + 1;
            }
            g = g + 1;
        }
        true
    }
}

/// Whether some family's base item carries the given canonical key.
pub open spec fn key_resolves(cat: Seq<Seq<ItemView>>, key: Seq<char>) -> bool {
    exists|j: int| 0 <= j < cat.len() && (#[trigger] cat[j])[0].key == key
}

/// The index of the first family whose base item carries the given key.
pub fn find_family(catalog: &Catalog, key: &String) -> (r: Option<usize>)
    requires
        catalog.wf(),
    ensures
        match r {
            Some(i) => i < catalog@.len() && catalog@[i as int][0].key == key@,
            None => !key_resolves(catalog@, key@),
        },
{
    let n = catalog.families.len();
    for i in 0..n
        invariant
            n == catalog@.len(),
            catalog.wf(),
            forall|j: int| 0 <= j < i ==> (#[trigger] catalog@[j])[0].key != key@,
    {
        let fam = &catalog.families[i];
        proof {
            assert(catalog@[i as int] == fam@);
            assert(family_wf(fam@));
            assert(fam@[0] == fam.items@[0]@);
        }
        if fam.items[0].key.eq(key) {
            return Some(i);
        }
    }
    None
}

impl CuratedOrdering {
    /// Build the table from a flat ranked key sequence: each key names the
    /// base item of one family, in rank order. `None` when some key names no
    /// family; the table the program ships with always resolves, so that is
    /// an unrecoverable construction-time failure for the host. The result
    /// still has to pass `validate` against the catalog.
    pub fn from_keys(catalog: &Catalog, keys: &Vec<String>, ranges: Vec<(usize, usize)>) -> (r:
        Option<CuratedOrdering>)
        requires
            catalog.wf(),
        ensures
            match r {
                Some(ord) => {
                    &&& ord.ranges@ == ranges@
                    &&& ord.ranked@.len() == keys@.len()
                    &&& forall|i: int|
                        0 <= i < keys@.len() ==> (#[trigger] ord.ranked@[i]) < catalog@.len()
                            && catalog@[ord.ranked@[i] as int][0].key == keys@[i]@
                },
                None => exists|i: int|
                    0 <= i < keys@.len() && !key_resolves(catalog@, (#[trigger] keys@[i])@),
            },
    {
        let mut ranked: Vec<usize> = Vec::new();
        let n = keys.len();
        for i in 0..n
            invariant
                n == keys@.len(),
                catalog.wf(),
                ranked@.len() == i,
                forall|j: int|
                    0 <= j < i ==> (#[trigger] ranked@[j]) < catalog@.len()
                        && catalog@[ranked@[j] as int][0].key == keys@[j]@,
        {
            match find_family(catalog, &keys[i]) {
                Some(idx) => {
                    ranked.push(idx);
                },
                None => {
                    return None;
                },
            }
        }
        Some(CuratedOrdering { ranked, ranges })
    }
}

/// The traversal sequence of the whole engine: the families the selection
/// includes, expanded into all their variants, in the order of the scheme.
pub open spec fn traversal_spec(
    cat: Seq<Seq<ItemView>>,
    ranked: Seq<usize>,
    ranges: Seq<(usize, usize)>,
    scheme: OrderingScheme,
    sel: Option<Group>,
) -> Seq<ItemView> {
    match scheme {
        OrderingScheme::NaturalCatalogOrder => natural_traversal(cat, sel),
        OrderingScheme::CuratedPopularityOrder => match sel {
            None => curated_range(cat, ranked, 0, ranked.len() as int),
            Some(grp) => {
                let rg = ranges[crate::nav::group_index_spec(grp)];
                curated_range(cat, ranked, rg.0 as int, rg.0 + rg.1)
            },
        },
    }
}

/// Append every item of a family to the output vector.
fn push_family(out: &mut Vec<Item>, fam: &Family)
    ensures
        item_views(final(out)@) == item_views(old(out)@) + fam@,
{
    let n = fam.items.len();
    for j in 0..n
        invariant
            n == fam.items@.len(),
            item_views(out@) == item_views(old(out)@) + fam@.take(j as int),
    {
        let ghost prev = out@;
        let it = fam.items[j].clone();
        proof {
            assert(it@ == fam@[j as int]);
        }
        out.push(it);
        proof {
            let base = item_views(old(out)@);
            assert(base.len() == old(out)@.len());
            assert(item_views(prev).len() == prev.len());
            assert(prev.len() == base.len() + j);
            assert(out@ == prev.push(it));
            assert(item_views(out@).len() == out@.len());
            assert forall|k: int| 0 <= k < out@.len() implies #[trigger] item_views(out@)[k] == (
            base + fam@.take(j + 1))[k] by {
                if k < prev.len() {
                    assert(item_views(out@)[k] == out@[k]@);
                    assert(out@[k] == prev[k]);
                    assert(item_views(prev)[k] == prev[k]@);
                    assert(item_views(prev)[k] == (base + fam@.take(j as int))[k]);
                    if k < base.len() {
                        assert((base + fam@.take(j as int))[k] == base[k]);
                        assert((base + fam@.take(j + 1))[k] == base[k]);
                    } else {
                        assert((base + fam@.take(j as int))[k] == fam@.take(j as int)[k
                            - base.len()]);
                        assert((base + fam@.take(j + 1))[k] == fam@.take(j + 1)[k - base.len()]);
                    }
                } else {
                    assert(k == prev.len());
                    assert(item_views(out@)[k] == it@);
                    assert((base + fam@.take(j + 1))[k] == fam@.take(j + 1)[j as int]);
                }
            }
            assert(item_views(out@) =~= base + fam@.take(j + 1));
        }
    }
    proof {
        assert(fam@.take(fam@.len() as int) =~= fam@);
    }
}

/// All items the scheme and selection include, expanded, in traversal order.
pub fn all_emojis_in_optional_group(
    catalog: &Catalog,
    curated: &CuratedOrdering,
    scheme: OrderingScheme,
    sel: Option<Group>,
) -> (r: Vec<Item>)
    requires
        catalog.wf(),
        scheme is CuratedPopularityOrder ==> curated.wf(*catalog),
    ensures
        item_views(r@) == traversal_spec(catalog@, curated.ranked@, curated.ranges@, scheme, sel),
{
    let mut out: Vec<Item> = Vec::new();
    proof {
        assert(item_views(out@) =~= Seq::<ItemView>::empty());
    }
    match scheme {
        OrderingScheme::NaturalCatalogOrder => {
            let n = catalog.families.len();
            for i in 0..n
                invariant
                    n == catalog@.len(),
                    catalog.wf(),
                    item_views(out@) == natural_upto(catalog@, sel, i as int),
            {
                let fam = &catalog.families[i];
                proof {
                    assert(catalog@[i as int] == fam@);
                    assert(family_wf(fam@));
                }
                let included = match sel {
                    None => true,
                    Some(grp) => fam.items[0].group == grp,
                };
                proof {
                    assert(fam@[0] == fam.items@[0]@);
                    assert(included == group_matches(sel, family_group(catalog@[i as int])));
                }
                if included {
                    push_family(&mut out, fam);
                }
            }
        },
        OrderingScheme::CuratedPopularityOrder => {
            let total = curated.ranked.len();
            let (lo, hi) = match sel {
                None => (0usize, total),
                Some(grp) => {
                    let gi = group_index(grp);
                    proof {
                        assert(curated.ranges@[gi as int].0 + curated.ranges@[gi as int].1
                            <= curated.ranked@.len());
                    }
                    let (start, len) = curated.ranges[gi];
                    (start, start + len)
                },
            };
            let mut i: usize = lo;
            while i < hi
                invariant
                    lo <= i <= hi,
                    hi <= curated.ranked@.len(),
                    catalog.wf(),
                    curated.wf(*catalog),
                    item_views(out@) == curated_range(
                        catalog@,
                        curated.ranked@,
                        lo as int,
                        i as int,
                    ),
                decreases hi - i,
            {
                let fam_idx = curated.ranked[i];
                let fam = &catalog.families[fam_idx];
                proof {
                    assert(catalog@[fam_idx as int] == fam@);
                }
                push_family(&mut out, fam);
                i = i + 1;
            }
        },
    }
    out
}

/// All items of the first `n` families that a group-restricted natural
/// traversal yields belong to that group.
proof fn lemma_natural_upto_group(cat: Seq<Seq<ItemView>>, g: Group, n: int)
    requires
        forall|i: int| 0 <= i < cat.len() ==> family_wf(#[trigger] cat[i]),
        n <= cat.len(),
    ensures
        forall|k: int|
            0 <= k < natural_upto(cat, Some(g), n).len() ==> (#[trigger] natural_upto(
                cat,
                Some(g),
                n,
            )[k]).group == g,
    decreases n,
{
    if n > 0 {
        lemma_natural_upto_group(cat, g, n - 1);
        let prev = natural_upto(cat, Some(g), n - 1);
        let cur = natural_upto(cat, Some(g), n);
        if group_matches(Some(g), family_group(cat[n - 1])) {
            assert(family_wf(cat[n - 1]));
            assert forall|k: int| 0 <= k < cur.len() implies (#[trigger] cur[k]).group == g by {
                if k < prev.len() {
                    assert(cur[k] == prev[k]);
                } else {
                    assert(cur[k] == cat[n - 1][k - prev.len()]);
                    assert(cat[n - 1][k - prev.len()].group == cat[n - 1][0].group);
                }
            }
        }
    }
}

/// All items that a stretch of the rank table yields belong to the group its
/// families belong to.
proof fn lemma_curated_range_group(
    cat: Seq<Seq<ItemView>>,
    ranked: Seq<usize>,
    lo: int,
    hi: int,
    g: Group,
)
    requires
        forall|i: int| 0 <= i < cat.len() ==> family_wf(#[trigger] cat[i]),
        0 <= lo,
        hi <= ranked.len(),
        forall|i: int| lo <= i < hi ==> (#[trigger] ranked[i]) < cat.len(),
        forall|i: int| lo <= i < hi ==> family_group(cat[(#[trigger] ranked[i]) as int]) == g,
    ensures
        forall|k: int|
            0 <= k < curated_range(cat, ranked, lo, hi).len() ==> (#[trigger] curated_range(
                cat,
                ranked,
                lo,
                hi,
            )[k]).group == g,
    decreases hi - lo,
{
    if hi > lo {
        lemma_curated_range_group(cat, ranked, lo, hi - 1, g);
        let prev = curated_range(cat, ranked, lo, hi - 1);
        let cur = curated_range(cat, ranked, lo, hi);
        let fam = cat[ranked[hi - 1] as int];
        assert(family_wf(fam));
        assert forall|k: int| 0 <= k < cur.len() implies (#[trigger] cur[k]).group == g by {
            if k < prev.len() {
                assert(cur[k] == prev[k]);
            } else {
                assert(cur[k] == fam[k - prev.len()]);
                assert(fam[k - prev.len()].group == fam[0].group);
            }
        }
    }
}

/// A group-restricted traversal yields only that group's items, whatever the
/// ordering scheme.
pub proof fn lemma_traversal_yields_group(
    catalog: Catalog,
    curated: CuratedOrdering,
    scheme: OrderingScheme,
    g: Group,
)
    requires
        catalog.wf(),
        scheme is CuratedPopularityOrder ==> curated.wf(catalog),
    ensures
        forall|k: int|
            0 <= k < traversal_spec(
                catalog@,
                curated.ranked@,
                curated.ranges@,
                scheme,
                Some(g),
            ).len() ==> (#[trigger] traversal_spec(
                catalog@,
                curated.ranked@,
                curated.ranges@,
                scheme,
                Some(g),
            )[k]).group == g,
{
    match scheme {
        OrderingScheme::NaturalCatalogOrder => {
            lemma_natural_upto_group(catalog@, g, catalog@.len() as int);
        },
        OrderingScheme::CuratedPopularityOrder => {
            let gi = crate::nav::group_index_spec(g);
            let rg = curated.ranges@[gi];
            assert(group_of_index(gi) == g);
            assert(rg.0 + rg.1 <= curated.ranked@.len());
            assert forall|i: int| rg.0 <= i < rg.0 + rg.1 implies family_group(
                catalog@[(#[trigger] curated.ranked@[i]) as int],
            ) == g by {
                assert(curated.ranges@[gi] == rg);
            }
            lemma_curated_range_group(
                catalog@,
                curated.ranked@,
                rg.0 as int,
                rg.0 + rg.1,
                g,
            );
        },
    }
}

/// The full catalog in the order of the scheme.
pub fn all_emojis(catalog: &Catalog, curated: &CuratedOrdering, scheme: OrderingScheme) -> (r: Vec<
    Item,
>)
    requires
        catalog.wf(),
        scheme is CuratedPopularityOrder ==> curated.wf(*catalog),
    ensures
        item_views(r@) == traversal_spec(catalog@, curated.ranked@, curated.ranges@, scheme, None),
{
    all_emojis_in_optional_group(catalog, curated, scheme, None)
}

/// One group of the catalog in the order of the scheme.
pub fn all_emojis_in_group(
    catalog: &Catalog,
    curated: &CuratedOrdering,
    scheme: OrderingScheme,
    group: Group,
) -> (r: Vec<Item>)
    requires
        catalog.wf(),
        scheme is CuratedPopularityOrder ==> curated.wf(*catalog),
    ensures
        item_views(r@) == traversal_spec(
            catalog@,
            curated.ranked@,
            curated.ranges@,
            scheme,
            Some(group),
        ),
{
    all_emojis_in_optional_group(catalog, curated, scheme, Some(group))
}

} // verus!
