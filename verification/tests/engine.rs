use emoji_picker_core::catalog::{
    all_emojis, all_emojis_in_group, all_emojis_in_optional_group, Catalog, CuratedOrdering,
    Family, Item, OrderingScheme,
};
use emoji_picker_core::nav::Group;
use emoji_picker_core::rank::{emoji_name_localized, filter_and_rank, Annotations};
use emoji_picker_core::recency::RecencyCache;
use emoji_picker_core::select::{ClickMode, APPEND_SEARCH, COPY, PRIVATE};
use emoji_picker_core::selector::Selector;
use emoji_picker_core::text::Normalizer;
use emoji_picker_core::tone::{Tone, ToneClass, ToneFilter, ToneSet, ALL_TONES, LIGHT, NO_SKIN};

fn item(key: &str, name: &str, shortcode: Option<&str>, group: Group, tone: ToneClass) -> Item {
    Item {
        key: String::from(key),
        name: String::from(name),
        shortcode: shortcode.map(String::from),
        group,
        tone,
    }
}

fn single(it: Item) -> Family {
    Family { items: vec![it] }
}

/// A small catalog: two smileys (one with a gremlin-like name), one animal
/// with a tone family, one flag.
fn sample_catalog() -> Catalog {
    Catalog {
        families: vec![
            single(item(
                "\u{1f600}",
                "grinning face",
                Some(":grin:"),
                Group::SmileysAndEmotion,
                ToneClass::NoSkin,
            )),
            single(item(
                "\u{1f47a}",
                "gremlin goblin",
                None,
                Group::SmileysAndEmotion,
                ToneClass::NoSkin,
            )),
            Family {
                items: vec![
                    item("\u{1f44d}", "thumbs up", Some(":+1:"), Group::PeopleAndBody, ToneClass::NoSkin),
                    item(
                        "\u{1f44d}\u{1f3fb}",
                        "thumbs up light skin tone",
                        None,
                        Group::PeopleAndBody,
                        ToneClass::Single(Tone::Light),
                    ),
                ],
            },
            single(item("\u{1f3f4}", "black flag", None, Group::Flags, ToneClass::NoSkin)),
        ],
    }
}

/// A curated table for the sample catalog: flags first within their group
/// ordering, and the two smileys swapped relative to natural order.
fn sample_curated() -> CuratedOrdering {
    CuratedOrdering {
        ranked: vec![1, 0, 2, 3],
        ranges: vec![
            (0, 2), // SmileysAndEmotion
            (2, 1), // PeopleAndBody
            (3, 0), // AnimalsAndNature
            (3, 0), // FoodAndDrink
            (3, 0), // TravelAndPlaces
            (3, 0), // Activities
            (3, 0), // Objects
            (3, 0), // Symbols
            (3, 1), // Flags
        ],
    }
}

fn everything() -> ToneFilter {
    ToneFilter { set: ToneSet::from_bits(ALL_TONES), exact: false }
}

fn keys(items: &[Item]) -> Vec<&str> {
    items.iter().map(|it| it.key.as_str()).collect()
}

#[test]
fn curated_table_validates() {
    let catalog = sample_catalog();
    let curated = sample_curated();
    assert!(curated.validate(&catalog));
}

#[test]
fn curated_table_with_gap_is_rejected() {
    let catalog = sample_catalog();
    let mut curated = sample_curated();
    // Break the tiling: the second range no longer starts where the first
    // one ends.
    curated.ranges[1] = (1, 1);
    assert!(!curated.validate(&catalog));
}

#[test]
fn curated_table_with_duplicate_rank_is_rejected() {
    let catalog = sample_catalog();
    let mut curated = sample_curated();
    curated.ranked[1] = 1;
    assert!(!curated.validate(&catalog));
}

#[test]
fn curated_table_with_wrong_group_is_rejected() {
    let catalog = sample_catalog();
    let mut curated = sample_curated();
    // The flag family ranked inside the smileys range.
    curated.ranked = vec![1, 3, 2, 0];
    assert!(!curated.validate(&catalog));
}

#[test]
fn natural_traversal_expands_families() {
    let catalog = sample_catalog();
    let curated = sample_curated();
    let all = all_emojis(&catalog, &curated, OrderingScheme::NaturalCatalogOrder);
    assert_eq!(
        keys(&all),
        vec![
            "\u{1f600}",
            "\u{1f47a}",
            "\u{1f44d}",
            "\u{1f44d}\u{1f3fb}",
            "\u{1f3f4}"
        ]
    );
}

#[test]
fn curated_traversal_follows_rank_table() {
    let catalog = sample_catalog();
    let curated = sample_curated();
    let all = all_emojis(&catalog, &curated, OrderingScheme::CuratedPopularityOrder);
    assert_eq!(
        keys(&all),
        vec![
            "\u{1f47a}",
            "\u{1f600}",
            "\u{1f44d}",
            "\u{1f44d}\u{1f3fb}",
            "\u{1f3f4}"
        ]
    );
}

#[test]
fn group_traversal_yields_only_that_group() {
    let catalog = sample_catalog();
    let curated = sample_curated();
    let smileys = all_emojis_in_group(
        &catalog,
        &curated,
        OrderingScheme::NaturalCatalogOrder,
        Group::SmileysAndEmotion,
    );
    assert_eq!(keys(&smileys), vec!["\u{1f600}", "\u{1f47a}"]);
    let flags = all_emojis_in_group(
        &catalog,
        &curated,
        OrderingScheme::CuratedPopularityOrder,
        Group::Flags,
    );
    assert_eq!(keys(&flags), vec!["\u{1f3f4}"]);
    let none = all_emojis_in_optional_group(
        &catalog,
        &curated,
        OrderingScheme::NaturalCatalogOrder,
        Some(Group::Activities),
    );
    assert!(none.is_empty());
}

#[test]
fn empty_query_keeps_traversal_order_filtered_by_tone_only() {
    let catalog = sample_catalog();
    let curated = sample_curated();
    let nm = Normalizer::new();
    let annotations = Annotations::new();
    let cache = RecencyCache::new(4);
    let candidates = all_emojis(&catalog, &curated, OrderingScheme::NaturalCatalogOrder);
    // Only items without a skin tone pass this filter.
    let filter = ToneFilter { set: ToneSet::from_bits(NO_SKIN), exact: false };
    let result = filter_and_rank(&nm, &candidates, &annotations, "", &filter, &cache);
    assert_eq!(
        keys(&result.main),
        vec!["\u{1f600}", "\u{1f47a}", "\u{1f44d}", "\u{1f3f4}"]
    );
    assert!(result.favorites.is_empty());
}

#[test]
fn query_ranks_substring_hit_above_fuzzy_hit() {
    // The catalog holds "grinning face" (a literal substring hit for
    // "grin") and "gremlin goblin" (a fuzzy subsequence hit only): the
    // substring hit must come first.
    let catalog = sample_catalog();
    let curated = sample_curated();
    let nm = Normalizer::new();
    let annotations = Annotations::new();
    let cache = RecencyCache::new(4);
    // Curated order puts the gremlin first, so rank order must overcome
    // traversal order.
    let candidates = all_emojis(&catalog, &curated, OrderingScheme::CuratedPopularityOrder);
    let result = filter_and_rank(&nm, &candidates, &annotations, "grin", &everything(), &cache);
    let ks = keys(&result.main);
    assert_eq!(ks[0], "\u{1f600}");
    assert!(ks.contains(&"\u{1f47a}"));
    assert!(!ks.contains(&"\u{1f3f4}"));
}

#[test]
fn query_normalization_strips_markers_before_matching() {
    let catalog = sample_catalog();
    let curated = sample_curated();
    let nm = Normalizer::new();
    let annotations = Annotations::new();
    let cache = RecencyCache::new(4);
    let candidates = all_emojis(&catalog, &curated, OrderingScheme::NaturalCatalogOrder);
    // The marker characters in the query vanish, leaving "grin".
    let result = filter_and_rank(
        &nm,
        &candidates,
        &annotations,
        "g\u{fe0f}rin\u{fe0e}",
        &everything(),
        &cache,
    );
    assert_eq!(result.main[0].key, "\u{1f600}");
}

#[test]
fn annotation_overrides_display_name() {
    let nm = Normalizer::new();
    let mut annotations = Annotations::new();
    let it = item(
        "\u{1f600}\u{fe0f}",
        "grinning face",
        None,
        Group::SmileysAndEmotion,
        ToneClass::NoSkin,
    );
    // The annotation is keyed by the base key: the glyph without markers.
    annotations.insert(
        String::from("\u{1f600}"),
        vec![String::from("cara sonriente"), String::from("sonrisa")],
    );
    assert_eq!(emoji_name_localized(&nm, &annotations, &it), "cara sonriente");
}

#[test]
fn later_annotation_source_overrides_earlier_one() {
    let nm = Normalizer::new();
    let mut annotations = Annotations::new();
    let it = item("k", "default", None, Group::SmileysAndEmotion, ToneClass::NoSkin);
    annotations.insert(String::from("k"), vec![String::from("generic")]);
    annotations.insert(String::from("k"), vec![String::from("specific")]);
    assert_eq!(emoji_name_localized(&nm, &annotations, &it), "specific");
    let missing = item("m", "default", None, Group::SmileysAndEmotion, ToneClass::NoSkin);
    assert_eq!(emoji_name_localized(&nm, &annotations, &missing), "default");
}

#[test]
fn annotation_with_no_candidates_falls_back() {
    let nm = Normalizer::new();
    let mut annotations = Annotations::new();
    let it = item("k", "default", None, Group::SmileysAndEmotion, ToneClass::NoSkin);
    annotations.insert(String::from("k"), Vec::new());
    assert_eq!(emoji_name_localized(&nm, &annotations, &it), "default");
}

#[test]
fn selector_end_to_end() {
    let selector_filter = everything();
    let mut sel = Selector::new(
        sample_catalog(),
        sample_curated(),
        Annotations::new(),
        OrderingScheme::NaturalCatalogOrder,
        selector_filter,
        2,
    );
    // Initial state: empty query, every item visible, nothing selected yet
    // beyond the main list head.
    assert_eq!(sel.results.main.len(), 5);
    assert!(sel.results.favorites.is_empty());
    let first = sel.emoji_selected().unwrap();
    assert_eq!(first.key, "\u{1f600}");

    // Search: the substring hit leads.
    sel.set_query(String::from("grin"));
    assert_eq!(sel.results.main[0].key, "\u{1f600}");

    // Copying records into the recency cache; the favorites list is the
    // cached subset of the matching items.
    let grin = sel.results.main[0].clone();
    let effects = sel.emoji_copy(&grin, ClickMode::from_bits(COPY));
    assert!(effects.copy && effects.record_recent);
    assert_eq!(sel.results.favorites.len(), 1);
    assert_eq!(sel.results.favorites[0].key, "\u{1f600}");

    // A private copy records nothing.
    let gremlin = item(
        "\u{1f47a}",
        "gremlin goblin",
        None,
        Group::SmileysAndEmotion,
        ToneClass::NoSkin,
    );
    sel.emoji_copy(&gremlin, ClickMode::from_bits(COPY | PRIVATE));
    assert_eq!(sel.cache.len(), 1);

    // Group navigation resets the hover signal and re-filters.
    sel.hover(gremlin);
    sel.update_group(Some(Group::Flags));
    assert!(sel.emoji_selected().is_none() || sel.results.favorites.is_empty());
    sel.set_query(String::new());
    assert_eq!(keys(&sel.results.main), vec!["\u{1f3f4}"]);

    // Navigation wraps: Flags is the last state, one step right is "all".
    sel.nav_move_right();
    assert_eq!(sel.group, None);
    sel.nav_move_left();
    assert_eq!(sel.group, Some(Group::Flags));
}

#[test]
fn selector_capacity_two_keeps_latest_two() {
    let mut sel = Selector::new(
        sample_catalog(),
        sample_curated(),
        Annotations::new(),
        OrderingScheme::NaturalCatalogOrder,
        everything(),
        2,
    );
    let a = item("\u{1f600}", "grinning face", None, Group::SmileysAndEmotion, ToneClass::NoSkin);
    let b = item("\u{1f47a}", "gremlin goblin", None, Group::SmileysAndEmotion, ToneClass::NoSkin);
    let c = item("\u{1f3f4}", "black flag", None, Group::Flags, ToneClass::NoSkin);
    sel.emoji_copy(&a, ClickMode::from_bits(COPY));
    sel.emoji_copy(&b, ClickMode::from_bits(COPY));
    sel.emoji_copy(&c, ClickMode::from_bits(COPY));
    assert_eq!(sel.cache.len(), 2);
    assert_eq!(sel.cache.key_at(0).as_str(), "\u{1f3f4}");
    assert_eq!(sel.cache.key_at(1).as_str(), "\u{1f47a}");
    // The favorites list under the empty query follows traversal order and
    // holds exactly the cached items.
    assert_eq!(
        keys(&sel.results.favorites),
        vec!["\u{1f47a}", "\u{1f3f4}"]
    );
}

#[test]
fn skin_tone_filter_hides_variants_in_main_list() {
    let mut sel = Selector::new(
        sample_catalog(),
        sample_curated(),
        Annotations::new(),
        OrderingScheme::NaturalCatalogOrder,
        ToneFilter { set: ToneSet::from_bits(NO_SKIN), exact: false },
        4,
    );
    // The light-skin variant is filtered out.
    assert_eq!(sel.results.main.len(), 4);
    sel.set_tone_filter(ToneFilter { set: ToneSet::from_bits(LIGHT), exact: true });
    // Exact mode: only the light-skin variant shares a flag with the set.
    assert_eq!(keys(&sel.results.main), vec!["\u{1f44d}\u{1f3fb}"]);
}

#[test]
fn curated_table_from_ranked_keys() {
    let catalog = sample_catalog();
    let keys_ranked = vec![
        String::from("\u{1f47a}"),
        String::from("\u{1f600}"),
        String::from("\u{1f44d}"),
        String::from("\u{1f3f4}"),
    ];
    let curated =
        CuratedOrdering::from_keys(&catalog, &keys_ranked, sample_curated().ranges).unwrap();
    assert_eq!(curated.ranked, vec![1, 0, 2, 3]);
    assert!(curated.validate(&catalog));
}

#[test]
fn curated_table_from_unknown_key_fails() {
    let catalog = sample_catalog();
    let keys_ranked = vec![String::from("\u{1f600}"), String::from("not-a-key")];
    assert!(CuratedOrdering::from_keys(&catalog, &keys_ranked, sample_curated().ranges).is_none());
}

#[test]
fn ordering_change_reorders_results() {
    let mut sel = Selector::new(
        sample_catalog(),
        sample_curated(),
        Annotations::new(),
        OrderingScheme::NaturalCatalogOrder,
        everything(),
        4,
    );
    assert_eq!(sel.results.main[0].key, "\u{1f600}");
    sel.set_ordering(OrderingScheme::CuratedPopularityOrder);
    assert_eq!(sel.results.main[0].key, "\u{1f47a}");
}

#[test]
fn empty_tone_set_hides_everything_in_default_mode() {
    let mut sel = Selector::new(
        sample_catalog(),
        sample_curated(),
        Annotations::new(),
        OrderingScheme::NaturalCatalogOrder,
        ToneFilter { set: ToneSet::empty(), exact: false },
        4,
    );
    assert!(sel.results.main.is_empty());
    sel.set_tone_filter(everything());
    assert_eq!(sel.results.main.len(), 5);
}

#[test]
fn selector_capacity_change_truncates_at_once() {
    let mut sel = Selector::new(
        sample_catalog(),
        sample_curated(),
        Annotations::new(),
        OrderingScheme::NaturalCatalogOrder,
        everything(),
        4,
    );
    let a = item("\u{1f600}", "grinning face", None, Group::SmileysAndEmotion, ToneClass::NoSkin);
    let b = item("\u{1f47a}", "gremlin goblin", None, Group::SmileysAndEmotion, ToneClass::NoSkin);
    sel.emoji_copy(&a, ClickMode::from_bits(COPY));
    sel.emoji_copy(&b, ClickMode::from_bits(COPY));
    assert_eq!(sel.cache.len(), 2);
    sel.set_capacity(1);
    assert_eq!(sel.cache.len(), 1);
    assert_eq!(sel.cache.key_at(0).as_str(), "\u{1f47a}");
    assert_eq!(sel.results.favorites.len(), 1);
}

#[test]
fn append_to_search_adds_the_glyph() {
    let mut sel = Selector::new(
        sample_catalog(),
        sample_curated(),
        Annotations::new(),
        OrderingScheme::NaturalCatalogOrder,
        everything(),
        4,
    );
    sel.set_query(String::from("ab"));
    let a = item("\u{1f600}", "grinning face", None, Group::SmileysAndEmotion, ToneClass::NoSkin);
    let effects = sel.emoji_copy(&a, ClickMode::from_bits(APPEND_SEARCH));
    assert!(effects.append_search && !effects.copy && !effects.record_recent);
    assert_eq!(sel.query, "ab\u{1f600}");
}

#[test]
fn preview_shows_trimmed_localized_name() {
    let mut annotations = Annotations::new();
    let long_name = "x".repeat(60);
    annotations.insert(String::from("\u{1f600}"), vec![long_name.clone()]);
    let sel = Selector::new(
        sample_catalog(),
        sample_curated(),
        annotations,
        OrderingScheme::NaturalCatalogOrder,
        everything(),
        4,
    );
    // No hover and no favorites: the preview follows the main list head,
    // whose name the annotation overrides and the preview trims.
    let preview = sel.preview_name().unwrap();
    assert_eq!(preview, format!("{}...", "x".repeat(40)));
}
