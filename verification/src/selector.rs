//! The picker's event-level state machine: the current query, group
//! selection, hover signal, recency cache and the two result lists, with one
//! method per externally triggered event. Every event runs one full
//! recomputation of the result lists to completion; nothing is patched
//! incrementally.

use vstd::prelude::*;

use crate::catalog::Catalog;
use crate::catalog::CuratedOrdering;
use crate::catalog::Item;
use crate::catalog::OrderingScheme;
use crate::catalog::all_emojis_in_optional_group;
use crate::catalog::item_views;
use crate::catalog::traversal_spec;
use crate::nav::Group;
use crate::nav::step_backward;
use crate::nav::step_forward;
use crate::rank::Annotations;
use crate::rank::FilteredResult;
use crate::rank::fav_pred;
use crate::rank::filter_and_rank;
use crate::rank::main_pred;
use crate::rank::ranked_items;
use crate::recency::RecencyCache;
use crate::recency::record_spec;
use crate::select::ClickEffects;
use crate::select::ClickMode;
use crate::select::click_effects;
use crate::select::emoji_selected;
use crate::select::opt_item_view;
use crate::select::selected_spec;
use crate::text::Normalizer;
use crate::text::strip_markers;
use crate::tone::ToneFilter;

verus! {

use vstd::string::StringExecFns;

/// The whole engine state one host event acts on.
pub struct Selector {
    pub normalizer: Normalizer,
    pub catalog: Catalog,
    pub curated: CuratedOrdering,
    pub annotations: Annotations,
    pub scheme: OrderingScheme,
    pub filter: ToneFilter,
    pub query: String,
    pub group: Option<Group>,
    pub hovered: Option<Item>,
    pub cache: RecencyCache,
    pub results: FilteredResult,
}

impl Selector {
    /// The state invariant: the normalizer, catalog, curated table and cache
    /// are well formed.
    pub open spec fn wf(self) -> bool {
        &&& self.normalizer.wf()
        &&& self.catalog.wf()
        &&& self.curated.wf(self.catalog)
        &&& self.cache.wf()
    }

    /// The traversal the current scheme and group selection produce.
    pub open spec fn candidates_spec(self) -> Seq<crate::catalog::ItemView> {
        traversal_spec(self.catalog@, self.curated.ranked@, self.curated.ranges@, self.scheme, self.group)
    }

    /// The result lists are exactly one ranking pass over the current state:
    /// with an empty normalized query the traversal filtered in place, with a
    /// non-empty one the kept candidates sorted by descending score.
    pub open spec fn results_consistent(self) -> bool {
        let qn = strip_markers(self.query@);
        let candv = self.candidates_spec();
        &&& qn.len() == 0 ==> item_views(self.results.main@) == candv.filter(
            main_pred(self.filter),
        ) && item_views(self.results.favorites@) == candv.filter(
            fav_pred(self.filter, self.cache@),
        )
        &&& qn.len() > 0 ==> item_views(self.results.main@) == ranked_items(
            candv,
            self.annotations@,
            qn,
            main_pred(self.filter),
        ) && item_views(self.results.favorites@) == ranked_items(
            candv,
            self.annotations@,
            qn,
            fav_pred(self.filter, self.cache@),
        )
    }

    /// Recompute both result lists from the current state.
    fn refilter(&mut self)
        requires
            old(self).wf(),
        ensures
            final(self).wf(),
            final(self).results_consistent(),
            final(self).normalizer == old(self).normalizer,
            final(self).catalog == old(self).catalog,
            final(self).curated == old(self).curated,
            final(self).annotations == old(self).annotations,
            final(self).scheme == old(self).scheme,
            final(self).filter == old(self).filter,
            final(self).query == old(self).query,
            final(self).group == old(self).group,
            final(self).hovered == old(self).hovered,
            final(self).cache == old(self).cache,
    {
        let candidates = all_emojis_in_optional_group(
            &self.catalog,
            &self.curated,
            self.scheme,
            self.group,
        );
        let results = filter_and_rank(
            &self.normalizer,
            &candidates,
            &self.annotations,
            self.query.as_str(),
            &self.filter,
            &self.cache,
        );
        self.results = results;
    }

    /// Build the engine and run the initial (empty-query) pass.
    pub fn new(
        catalog: Catalog,
        curated: CuratedOrdering,
        annotations: Annotations,
        scheme: OrderingScheme,
        filter: ToneFilter,
        capacity: usize,
    ) -> (r: Selector)
        requires
            catalog.wf(),
            curated.wf(catalog),
        ensures
            r.wf(),
            r.results_consistent(),
            r.query@ == Seq::<char>::empty(),
            r.group is None,
            r.hovered is None,
            r.cache@ == Seq::<Seq<char>>::empty(),
            r.cache.spec_capacity() == capacity,
            r.scheme == scheme,
            r.filter == filter,
    {
        let mut s = Selector {
            normalizer: Normalizer::new(),
            catalog,
            curated,
            annotations,
            scheme,
            filter,
            query: String::new(),
            group: None,
            hovered: None,
            cache: RecencyCache::new(capacity),
            results: FilteredResult { main: Vec::new(), favorites: Vec::new() },
        };
        s.refilter();
        s
    }

    /// A query edit: store the new text, drop the hover signal, re-rank.
    pub fn set_query(&mut self, query: String)
        requires
            old(self).wf(),
        ensures
            final(self).wf(),
            final(self).results_consistent(),
            final(self).query == query,
            final(self).hovered is None,
            final(self).group == old(self).group,
            final(self).cache == old(self).cache,
            final(self).filter == old(self).filter,
    {
        self.query = query;
        self.hovered = None;
        self.refilter();
    }

    /// A group change: store the new selection, drop the hover signal, and
    /// re-filter with the preserved query. The host also resets its scroll
    /// position to the start.
    pub fn update_group(&mut self, group: Option<Group>)
        requires
            old(self).wf(),
        ensures
            final(self).wf(),
            final(self).results_consistent(),
            final(self).group == group,
            final(self).hovered is None,
            final(self).query == old(self).query,
            final(self).cache == old(self).cache,
    {
        self.hovered = None;
        self.group = group;
        self.refilter();
    }

    /// Step the group selection one state forward (wrapping) and re-filter.
    pub fn nav_move_right(&mut self)
        requires
            old(self).wf(),
        ensures
            final(self).wf(),
            final(self).results_consistent(),
            final(self).group == crate::nav::group_from_key_spec(
                crate::nav::next_key_spec(crate::nav::key_from_group_spec(old(self).group)),
            ),
            final(self).hovered is None,
            final(self).query == old(self).query,
    {
        let next = step_forward(self.group);
        self.update_group(next);
    }

    /// Step the group selection one state backward (wrapping) and re-filter.
    pub fn nav_move_left(&mut self)
        requires
            old(self).wf(),
        ensures
            final(self).wf(),
            final(self).results_consistent(),
            final(self).group == crate::nav::group_from_key_spec(
                crate::nav::prev_key_spec(crate::nav::key_from_group_spec(old(self).group)),
            ),
            final(self).hovered is None,
            final(self).query == old(self).query,
    {
        let prev = step_backward(self.group);
        self.update_group(prev);
    }

    /// The hover signal.
    pub fn hover(&mut self, item: Item)
        requires
            old(self).wf(),
        ensures
            final(self).wf(),
            final(self).hovered == Some(item),
            final(self).results == old(self).results,
            final(self).results_consistent() == old(self).results_consistent(),
    {
        self.hovered = Some(item);
    }

    /// The currently implied item: the hovered one, else the favorites
    /// front, else the first of the main list.
    pub fn emoji_selected(&self) -> (r: Option<Item>)
        ensures
            opt_item_view(r) == selected_spec(
                opt_item_view(self.hovered),
                item_views(self.results.favorites@),
                item_views(self.results.main@),
            ),
    {
        emoji_selected(self.hovered.as_ref(), &self.results.favorites, &self.results.main)
    }

    /// The preview text for the currently implied item: its localized
    /// display name, trimmed for the preview. Nothing when no item is
    /// implied.
    pub fn preview_name(&self) -> (r: Option<String>)
        requires
            self.wf(),
        ensures
            ({
                let sel = selected_spec(
                    opt_item_view(self.hovered),
                    item_views(self.results.favorites@),
                    item_views(self.results.main@),
                );
                match r {
                    None => sel is None,
                    Some(name) => sel is Some && {
                        let full = crate::rank::item_display_name(self.annotations@, sel->Some_0);
                        if full.len() <= crate::text::NAME_PREVIEW_CHARS {
                            name@ == full
                        } else {
                            name@ == full.subrange(0, crate::text::NAME_PREVIEW_CHARS as int)
                                + "..."@
                        }
                    },
                }
            }),
    {
        match self.emoji_selected() {
            Some(item) => {
                let full = crate::rank::emoji_name_localized(
                    &self.normalizer,
                    &self.annotations,
                    &item,
                );
                Some(crate::text::emoji_name_trimmed(full.as_str()))
            },
            None => None,
        }
    }

    /// One activation of an item under a capability set. A copy action
    /// without the private flag records the item in the recency cache; a
    /// clear-search action resets the query; an append-to-search action adds
    /// the item's glyph to the query text. Both cache changes and query
    /// changes run a full ranking pass. The returned effects tell the host
    /// what remains on its side: the clipboard write and closing the picker.
    pub fn emoji_copy(&mut self, item: &Item, mode: ClickMode) -> (r: ClickEffects)
        requires
            old(self).wf(),
        ensures
            final(self).wf(),
            final(self).results_consistent(),
            r.copy == mode.spec_intersects(crate::select::COPY),
            r.close == mode.spec_intersects(crate::select::CLOSE),
            r.record_recent == (mode.spec_intersects(crate::select::COPY)
                && !mode.spec_intersects(crate::select::PRIVATE)),
            r.record_recent ==> final(self).cache@ == record_spec(
                old(self).cache@,
                item.key@,
                old(self).cache.spec_capacity(),
            ),
            !r.record_recent ==> final(self).cache@ == old(self).cache@,
            r.clear_search ==> final(self).query@ == Seq::<char>::empty(),
            !r.clear_search && r.append_search ==> final(self).query@ == old(self).query@
                + item.key@,
            !r.clear_search && !r.append_search ==> final(self).query == old(self).query,
    {
        let effects = click_effects(mode);
        if effects.append_search {
            self.query.append(item.key.as_str());
        }
        if effects.record_recent {
            self.cache.record(item.key.clone());
        }
        if effects.clear_search {
            self.query = String::new();
        }
        self.refilter();
        effects
    }

    /// A skin-tone configuration change: store the new filter and re-filter.
    pub fn set_tone_filter(&mut self, filter: ToneFilter)
        requires
            old(self).wf(),
        ensures
            final(self).wf(),
            final(self).results_consistent(),
            final(self).filter == filter,
            final(self).query == old(self).query,
            final(self).cache == old(self).cache,
    {
        self.filter = filter;
        self.refilter();
    }

    /// An ordering-scheme change: store the new scheme and re-filter.
    pub fn set_ordering(&mut self, scheme: OrderingScheme)
        requires
            old(self).wf(),
        ensures
            final(self).wf(),
            final(self).results_consistent(),
            final(self).scheme == scheme,
            final(self).query == old(self).query,
    {
        self.scheme = scheme;
        self.refilter();
    }

    /// A capacity change: re-truncate the cache at once and re-filter.
    pub fn set_capacity(&mut self, capacity: usize)
        requires
            old(self).wf(),
        ensures
            final(self).wf(),
            final(self).results_consistent(),
            final(self).cache.spec_capacity() == capacity,
            capacity >= old(self).cache@.len() ==> final(self).cache@ == old(self).cache@,
            capacity < old(self).cache@.len() ==> final(self).cache@ == old(
                self,
            ).cache@.subrange(0, capacity as int),
    {
        self.cache.set_capacity(capacity);
        self.refilter();
    }
}

} // verus!
