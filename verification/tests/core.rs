use emoji_picker_core::lines::Lines;
use emoji_picker_core::nav::{
    group_from_key, key_from_group, step_backward, step_forward, Group,
};
use emoji_picker_core::recency::RecencyCache;
use emoji_picker_core::score::{score_item, EXACT_MATCH_THRESHOLD};
use emoji_picker_core::select::{click_effects, ClickMode, CLEAR_SEARCH, CLOSE, COPY, PRIVATE};
use emoji_picker_core::text::{contains_substring, emoji_name_trimmed, Normalizer};
use emoji_picker_core::tone::{
    classify, tone_visible, Tone, ToneClass, ToneFilter, ToneSet, DARK, LIGHT, MEDIUM, NO_SKIN,
};

#[test]
fn normalizer_strips_markers() {
    let nm = Normalizer::new();
    assert_eq!(nm.normalize("a\u{fe0f}b\u{fe0e}c"), "abc");
    assert_eq!(nm.normalize("\u{fe0f}\u{fe0e}"), "");
    assert_eq!(nm.normalize("plain"), "plain");
}

#[test]
fn normalizer_is_idempotent() {
    let nm = Normalizer::new();
    let once = nm.normalize("smile\u{fe0f} cat\u{fe0e}!");
    let twice = nm.normalize(&once);
    assert_eq!(once, twice);
}

#[test]
fn substring_search() {
    assert!(contains_substring("grinning face", "grin"));
    assert!(contains_substring("grinning face", ""));
    assert!(contains_substring("abc", "abc"));
    assert!(!contains_substring("gremlin", "grin"));
    assert!(!contains_substring("ab", "abc"));
}

#[test]
fn name_trimming() {
    assert_eq!(emoji_name_trimmed("short name"), "short name");
    let long = "a".repeat(45);
    let trimmed = emoji_name_trimmed(&long);
    assert_eq!(trimmed, format!("{}...", "a".repeat(40)));
    let exact = "b".repeat(40);
    assert_eq!(emoji_name_trimmed(&exact), exact);
}

#[test]
fn substring_hit_reaches_threshold() {
    let score = score_item("grinning face", &Some(String::from(":grin:")), "grin").unwrap();
    assert!(score >= EXACT_MATCH_THRESHOLD);
}

#[test]
fn fuzzy_only_hit_stays_below_threshold() {
    let score = score_item("gremlin", &None, "grin").unwrap();
    assert!(score < EXACT_MATCH_THRESHOLD);
}

#[test]
fn no_match_scores_none() {
    assert_eq!(score_item("abc", &None, "abx"), None);
    assert_eq!(score_item("abc", &Some(String::from("def")), "xyz"), None);
}

#[test]
fn shortcode_can_carry_the_match() {
    // The name does not match the query, the shortcode does.
    let score = score_item("zzz", &Some(String::from("thumbsup")), "thumb");
    assert!(score.is_some());
    assert_eq!(score_item("zzz", &None, "thumb"), None);
}

#[test]
fn skin_tone_default_mode_is_subset() {
    // A Medium item is excluded when the configured set is {Light} under
    // default mode.
    let filter = ToneFilter { set: ToneSet::from_bits(LIGHT), exact: false };
    assert!(!tone_visible(&filter, ToneClass::Single(Tone::Medium)));
}

#[test]
fn skin_tone_exact_mode_is_intersection() {
    // A Medium item passes when the configured set is {Medium} under
    // exact mode, excluded when the configured set is {Light, Dark}.
    let medium_set = ToneFilter { set: ToneSet::from_bits(MEDIUM), exact: true };
    assert!(tone_visible(&medium_set, ToneClass::Single(Tone::Medium)));
    let exclude = ToneFilter { set: ToneSet::from_bits(LIGHT | DARK), exact: true };
    assert!(!tone_visible(&exclude, ToneClass::Single(Tone::Medium)));
}

#[test]
fn skin_tone_classification() {
    assert_eq!(classify(ToneClass::NoSkin).bits, NO_SKIN);
    assert_eq!(classify(ToneClass::Single(Tone::Light)).bits, LIGHT);
    assert_eq!(classify(ToneClass::Pair(Tone::Light, Tone::Dark)).bits, LIGHT | DARK);
}

#[test]
fn tone_set_toggle() {
    let mut set = ToneSet::from_bits(NO_SKIN);
    set.set(MEDIUM, true);
    assert_eq!(set.bits, NO_SKIN | MEDIUM);
    set.set(NO_SKIN, false);
    assert_eq!(set.bits, MEDIUM);
}

#[test]
fn navigation_wraparound() {
    // Starting at state 9 (Flags), one step forward reaches state 0 (all
    // groups); starting at state 0, one step backward reaches state 9.
    assert_eq!(step_forward(Some(Group::Flags)), None);
    assert_eq!(step_backward(None), Some(Group::Flags));
}

#[test]
fn navigation_steps() {
    assert_eq!(step_forward(None), Some(Group::SmileysAndEmotion));
    assert_eq!(
        step_forward(Some(Group::SmileysAndEmotion)),
        Some(Group::PeopleAndBody)
    );
    assert_eq!(step_backward(Some(Group::PeopleAndBody)), Some(Group::SmileysAndEmotion));
    assert_eq!(step_backward(Some(Group::SmileysAndEmotion)), None);
}

#[test]
fn navigation_keys() {
    assert_eq!(group_from_key(b'0'), None);
    assert_eq!(group_from_key(b'1'), Some(Group::SmileysAndEmotion));
    assert_eq!(group_from_key(b'9'), Some(Group::Flags));
    assert_eq!(group_from_key(b'x'), None);
    assert_eq!(key_from_group(None), b'0');
    assert_eq!(key_from_group(Some(Group::Flags)), b'9');
}

#[test]
fn recency_bound_and_no_duplicates() {
    let mut cache = RecencyCache::new(3);
    for key in ["a", "b", "c", "d", "b", "e", "a", "e"] {
        cache.record(String::from(key));
        assert!(cache.len() <= 3);
    }
    let mut seen: Vec<String> = Vec::new();
    for i in 0..cache.len() {
        let k = cache.key_at(i).clone();
        assert!(!seen.contains(&k));
        seen.push(k);
    }
}

#[test]
fn recency_mru_rerecord_moves_to_front() {
    // record(x); record(y); record(x) leaves x first and y second.
    let mut cache = RecencyCache::new(4);
    cache.record(String::from("x"));
    cache.record(String::from("y"));
    cache.record(String::from("x"));
    assert_eq!(cache.len(), 2);
    assert_eq!(cache.key_at(0).as_str(), "x");
    assert_eq!(cache.key_at(1).as_str(), "y");
}

#[test]
fn recency_capacity_two_evicts_oldest() {
    // capacity = 2; record A, B, C in order leaves [C, B].
    let mut cache = RecencyCache::new(2);
    cache.record(String::from("A"));
    cache.record(String::from("B"));
    cache.record(String::from("C"));
    assert_eq!(cache.len(), 2);
    assert_eq!(cache.key_at(0).as_str(), "C");
    assert_eq!(cache.key_at(1).as_str(), "B");
}

#[test]
fn recency_capacity_change_truncates() {
    let mut cache = RecencyCache::new(4);
    cache.record(String::from("a"));
    cache.record(String::from("b"));
    cache.record(String::from("c"));
    cache.set_capacity(1);
    assert_eq!(cache.len(), 1);
    assert_eq!(cache.key_at(0).as_str(), "c");
    assert!(cache.contains_key(&String::from("c")));
    assert!(!cache.contains_key(&String::from("a")));
}

#[test]
fn recency_clear() {
    let mut cache = RecencyCache::new(2);
    cache.record(String::from("a"));
    cache.clear();
    assert_eq!(cache.len(), 0);
}

#[test]
fn click_effects_copy_without_private_records() {
    let effects = click_effects(ClickMode::from_bits(COPY).union(ClickMode::from_bits(CLOSE)));
    assert!(effects.copy);
    assert!(effects.close);
    assert!(effects.record_recent);
    assert!(!effects.clear_search);
}

#[test]
fn click_effects_private_copy_does_not_record() {
    let effects = click_effects(ClickMode::from_bits(COPY | PRIVATE));
    assert!(effects.copy);
    assert!(!effects.record_recent);
}

#[test]
fn click_effects_clear_search() {
    let effects = click_effects(ClickMode::from_bits(CLEAR_SEARCH));
    assert!(effects.clear_search);
    assert!(!effects.copy);
    assert!(!effects.record_recent);
    let none = click_effects(ClickMode::none());
    assert!(!none.copy && !none.append_search && !none.close && !none.clear_search);
}

#[test]
fn lines_split_and_remainder() {
    let mut lines = Lines::new("first\r\nsecond\nlast");
    assert_eq!(lines.remainder(), "first\r\nsecond\nlast");
    assert_eq!(lines.next(), Some("first"));
    assert_eq!(lines.remainder(), "second\nlast");
    assert_eq!(lines.next(), Some("second"));
    assert_eq!(lines.next(), Some("last"));
    assert_eq!(lines.remainder(), "");
    assert_eq!(lines.next(), None);
}

#[test]
fn lines_trailing_newline() {
    let mut lines = Lines::new("one\n");
    assert_eq!(lines.next(), Some("one"));
    assert_eq!(lines.next(), None);
}
