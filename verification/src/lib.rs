//! Core logic of an emoji picker: a query-driven ranking engine over a fixed
//! catalog of emoji, together with the bounded recency cache, skin-tone
//! visibility filter, selection resolver and group-navigation state machine
//! that surround it.
//!
//! The catalog and the curated popularity table are injected as plain data, so
//! the whole engine can be exercised on a small synthetic catalog. Rendering,
//! configuration storage and clipboard access are left to the host program.

pub mod catalog;
pub mod lines;
pub mod nav;
pub mod rank;
pub mod recency;
pub mod score;
pub mod select;
pub mod selector;
pub mod seq_facts;
pub mod text;
pub mod tone;

use vstd::prelude::*;

verus! {

/// The number of top-level emoji groups the catalog is partitioned into.
pub const GROUP_COUNT: usize = 9;

} // verus!
