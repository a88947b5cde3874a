//! Skin-tone classification and visibility. Every catalog item is classified
//! as a small set of tone flags: the dedicated "no skin tone" flag for items
//! without a variant family, one flag for a single-tone variant, or two flags
//! for a two-person variant. The configured filter carries a flag set of its
//! own plus an interpretation mode: in the default mode an item is visible
//! when its classification is a subset of the configured set, in the
//! exact/intersect mode when the two sets share at least one flag.

use vstd::prelude::*;

verus! {

/// Flag bit for items without a skin-tone variant family.
pub const NO_SKIN: u8 = 0x01;

/// Flag bit for the light skin tone.
pub const LIGHT: u8 = 0x02;

/// Flag bit for the medium-light skin tone.
pub const MEDIUM_LIGHT: u8 = 0x04;

/// Flag bit for the medium skin tone.
pub const MEDIUM: u8 = 0x08;

/// Flag bit for the medium-dark skin tone.
pub const MEDIUM_DARK: u8 = 0x10;

/// Flag bit for the dark skin tone.
pub const DARK: u8 = 0x20;

/// Union of all tone flags.
pub const ALL_TONES: u8 = 0x3f;

/// One concrete skin tone.
#[derive(Clone, Copy, Debug, PartialEq, Eq, Structural)]
pub enum Tone {
    Light,
    MediumLight,
    Medium,
    MediumDark,
    Dark,
}

/// An item's skin-tone classification: no variant family, a single tone, or
/// the pair of tones of a two-person variant.
#[derive(Clone, Copy, Debug, PartialEq, Eq, Structural)]
pub enum ToneClass {
    NoSkin,
    Single(Tone),
    Pair(Tone, Tone),
}

/// A set of tone flags, stored as a bitset over the six flag bits.
#[derive(Clone, Copy, Debug, PartialEq, Eq, Structural)]
pub struct ToneSet {
    pub bits: u8,
}

/// The flag bit of one tone.
pub open spec fn tone_flag(t: Tone) -> u8 {
    match t {
        Tone::Light => LIGHT,
        Tone::MediumLight => MEDIUM_LIGHT,
        Tone::Medium => MEDIUM,
        Tone::MediumDark => MEDIUM_DARK,
        Tone::Dark => DARK,
    }
}

/// The flag bits of a classification.
pub open spec fn class_flags(c: ToneClass) -> u8 {
    match c {
        ToneClass::NoSkin => NO_SKIN,
        ToneClass::Single(t) => tone_flag(t),
        ToneClass::Pair(a, b) => tone_flag(a) | tone_flag(b),
    }
}

impl ToneSet {
    /// The set containing no flags.
    pub fn empty() -> (r: ToneSet)
        ensures
            r.bits == 0,
    {
        ToneSet { bits: 0 }
    }

    /// The set holding exactly the given flag bits.
    pub fn from_bits(bits: u8) -> (r: ToneSet)
        ensures
            r.bits == bits,
    {
        ToneSet { bits }
    }

    /// Whether this set holds every flag of `other`.
    pub open spec fn spec_contains(self, other: ToneSet) -> bool {
        self.bits & other.bits == other.bits
    }

    /// Whether this set shares at least one flag with `other`.
    pub open spec fn spec_intersects(self, other: ToneSet) -> bool {
        self.bits & other.bits != 0
    }

    pub fn contains(&self, other: ToneSet) -> (r: bool)
        ensures
            r == self.spec_contains(other),
    {
        self.bits & other.bits == other.bits
    }

    pub fn intersects(&self, other: ToneSet) -> (r: bool)
        ensures
            r == self.spec_intersects(other),
    {
        self.bits & other.bits != 0
    }

    /// The set with the given flags switched on or off, leaving the others as
    /// they were.
    pub fn set(&mut self, flags: u8, on: bool)
        ensures
            on ==> final(self).bits == old(self).bits | flags,
            !on ==> final(self).bits == old(self).bits & !flags,
    {
        if on {
            self.bits = self.bits | flags;
        } else {
            self.bits = self.bits & !flags;
        }
    }
}

/// The configured skin-tone filter: a flag set plus its interpretation mode.
/// The mode is part of the configuration itself, never inferred from the bits.
#[derive(Clone, Copy, Debug, PartialEq, Eq, Structural)]
pub struct ToneFilter {
    pub set: ToneSet,
    /// When true the filter uses exact/intersect interpretation; when false
    /// the default subset interpretation.
    pub exact: bool,
}

/// Whether an item with the given classification is visible under the filter.
pub open spec fn tone_visible_spec(filter: ToneFilter, class: ToneClass) -> bool {
    if filter.exact {
        filter.set.bits & class_flags(class) != 0
    } else {
        filter.set.bits & class_flags(class) == class_flags(class)
    }
}

/// Map a classification to its flag set. Items without a variant family get
/// the singleton "no skin tone" set; a two-person variant gets both flags.
pub fn classify(class: ToneClass) -> (r: ToneSet)
    ensures
        r.bits == class_flags(class),
{
    match class {
        ToneClass::NoSkin => ToneSet { bits: NO_SKIN },
        ToneClass::Single(t) => ToneSet { bits: tone_bit(t) },
        ToneClass::Pair(a, b) => ToneSet { bits: tone_bit(a) | tone_bit(b) },
    }
}

/// The flag bit of one tone.
pub fn tone_bit(t: Tone) -> (r: u8)
    ensures
        r == tone_flag(t),
{
    match t {
        Tone::Light => LIGHT,
        Tone::MediumLight => MEDIUM_LIGHT,
        Tone::Medium => MEDIUM,
        Tone::MediumDark => MEDIUM_DARK,
        Tone::Dark => DARK,
    }
}

/// Decide visibility of an item under the configured filter.
pub fn tone_visible(filter: &ToneFilter, class: ToneClass) -> (r: bool)
    ensures
        r == tone_visible_spec(*filter, class),
{
    let class_set = classify(class);
    if filter.exact {
        filter.set.intersects(class_set)
    } else {
        filter.set.contains(class_set)
    }
}

} // verus!
