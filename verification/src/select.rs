//! The selection resolver and the click-action capability set. The resolver
//! derives the currently implied item from the hover signal, the favorites
//! list and the main list, in that priority order. A click-action set is a
//! bitset of independent capability flags attached to an activation channel;
//! the engine's obligation is that a copy action without the private flag
//! records the item in the recency cache, and that a clear-search action
//! resets the query.

use vstd::prelude::*;

use crate::catalog::Item;
use crate::catalog::ItemView;

verus! {

/// Capability flag: copy the item to the clipboard.
pub const COPY: u8 = 0x01;

/// Capability flag: append the item to the search text.
pub const APPEND_SEARCH: u8 = 0x02;

/// Capability flag: close the picker.
pub const CLOSE: u8 = 0x04;

/// Capability flag: clear the search text.
pub const CLEAR_SEARCH: u8 = 0x08;

/// Capability flag: do not record the item in the recency cache.
pub const PRIVATE: u8 = 0x10;

/// A click-action capability set: independent flags attached to one
/// activation channel.
#[derive(Clone, Copy, Debug, PartialEq, Eq, Structural)]
pub struct ClickMode {
    pub bits: u8,
}

impl ClickMode {
    /// The set with no capability at all.
    pub fn none() -> (r: ClickMode)
        ensures
            r.bits == 0,
    {
        ClickMode { bits: 0 }
    }

    /// The set holding exactly the given flag bits.
    pub fn from_bits(bits: u8) -> (r: ClickMode)
        ensures
            r.bits == bits,
    {
        ClickMode { bits }
    }

    /// Whether this set shares at least one flag with the given bits.
    pub open spec fn spec_intersects(self, flags: u8) -> bool {
        self.bits & flags != 0
    }

    pub fn intersects(&self, flags: u8) -> (r: bool)
        ensures
            r == self.spec_intersects(flags),
    {
        self.bits & flags != 0
    }

    /// The union of two capability sets.
    pub fn union(&self, other: ClickMode) -> (r: ClickMode)
        ensures
            r.bits == self.bits | other.bits,
    {
        ClickMode { bits: self.bits | other.bits }
    }
}

/// What one activation does, decided by its capability set alone.
#[derive(Clone, Copy, Debug, PartialEq, Eq, Structural)]
pub struct ClickEffects {
    /// Copy the item's glyph to the clipboard.
    pub copy: bool,
    /// Append the item's glyph to the search text.
    pub append_search: bool,
    /// Close the picker.
    pub close: bool,
    /// Clear the search text and re-filter with the empty query.
    pub clear_search: bool,
    /// Record the item in the recency cache: owed exactly when the set holds
    /// the copy flag without the private flag.
    pub record_recent: bool,
}

/// Decide what one activation does. The recency cache is updated exactly on
/// a copy action that is not private.
pub fn click_effects(mode: ClickMode) -> (r: ClickEffects)
    ensures
        r.copy == mode.spec_intersects(COPY),
        r.append_search == mode.spec_intersects(APPEND_SEARCH),
        r.close == mode.spec_intersects(CLOSE),
        r.clear_search == mode.spec_intersects(CLEAR_SEARCH),
        r.record_recent == (mode.spec_intersects(COPY) && !mode.spec_intersects(PRIVATE)),
{
    let copy = mode.intersects(COPY);
    let private = mode.intersects(PRIVATE);
    ClickEffects {
        copy,
        append_search: mode.intersects(APPEND_SEARCH),
        close: mode.intersects(CLOSE),
        clear_search: mode.intersects(CLEAR_SEARCH),
        record_recent: copy && !private,
    }
}

/// The item implied by the current state: the hovered item if any, else the
/// front of the favorites list, else the first of the main list, else none.
pub open spec fn selected_spec(
    hovered: Option<ItemView>,
    favorites: Seq<ItemView>,
    main: Seq<ItemView>,
) -> Option<ItemView> {
    match hovered {
        Some(h) => Some(h),
        None => if favorites.len() > 0 {
            Some(favorites[0])
        } else if main.len() > 0 {
            Some(main[0])
        } else {
            None
        },
    }
}

/// The view of an optional item reference.
pub open spec fn opt_item_view(r: Option<Item>) -> Option<ItemView> {
    match r {
        Some(it) => Some(it@),
        None => None,
    }
}

/// The view of an optional hovered item.
pub open spec fn opt_hover_view(h: Option<&Item>) -> Option<ItemView> {
    match h {
        Some(it) => Some(it@),
        None => None,
    }
}

/// Resolve the currently implied item. A pure function of the current state:
/// hover signal first, then the favorites front, then the main list head.
pub fn emoji_selected(
    hovered: Option<&Item>,
    favorites: &Vec<Item>,
    main: &Vec<Item>,
) -> (r: Option<Item>)
    ensures
        opt_item_view(r) == selected_spec(
            opt_hover_view(hovered),
            crate::catalog::item_views(favorites@),
            crate::catalog::item_views(main@),
        ),
{
    match hovered {
        Some(h) => Some(h.clone()),
        None => if favorites.len() > 0 {
            Some(favorites[0].clone())
        } else if main.len() > 0 {
            Some(main[0].clone())
        } else {
            None
        },
    }
}

} // verus!
