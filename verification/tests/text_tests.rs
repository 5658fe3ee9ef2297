use script_provenance::text::any_marker;
use script_provenance::text::chars_of;
use script_provenance::text::contains_chars;
use script_provenance::text::is_layout_char;
use script_provenance::text::marker_among;
use script_provenance::text::matches_at;
use script_provenance::text::strip;

fn marker_set(items: &[&str]) -> Vec<String> {
    items.iter().map(|s| s.to_string()).collect()
}

fn text_chars(s: &str) -> Vec<char> {
    s.chars().collect()
}

#[test]
fn chars_of_keeps_every_character_in_order() {
    assert_eq!(chars_of("a b\nc"), vec!['a', ' ', 'b', '\n', 'c']);
    assert_eq!(chars_of(""), Vec::<char>::new());
    assert_eq!(chars_of("h\u{e9}llo \u{4e16}"), text_chars("h\u{e9}llo \u{4e16}"));
}

#[test]
fn layout_is_space_and_line_feed_only() {
    assert!(is_layout_char(' '));
    assert!(is_layout_char('\n'));
    assert!(!is_layout_char('\t'));
    assert!(!is_layout_char('\r'));
    assert!(!is_layout_char('\u{a0}'));
    assert!(!is_layout_char('a'));
}

#[test]
fn strip_drops_spaces_and_line_feeds() {
    assert_eq!(
        strip("(program\n  1.0.0\n  (lam i_0 i_1)\n)"),
        text_chars("(program1.0.0(lami_0i_1))")
    );
}

#[test]
fn strip_keeps_tabs_and_carriage_returns() {
    assert_eq!(strip("a\tb\r\n c"), text_chars("a\tb\rc"));
}

#[test]
fn strip_of_layout_alone_is_empty() {
    assert_eq!(strip(" \n \n\n  "), Vec::<char>::new());
    assert_eq!(strip(""), Vec::<char>::new());
}

#[test]
fn strip_twice_is_strip_once() {
    let once = strip("[ (force\n (builtin headList) ) ]");
    let again: String = once.iter().collect();
    assert_eq!(strip(&again), once);
}

#[test]
fn strip_is_blind_to_indentation() {
    let narrow = "(lam i_0\n  [ i_1\n    i_2 ]\n)";
    let wide = "(lam i_0 [ i_1 i_2 ])";
    assert_eq!(strip(narrow), strip(wide));
    assert_eq!(strip(wide), text_chars("(lami_0[i_1i_2])"));
}

#[test]
fn matches_at_compares_in_place() {
    let text = text_chars("abcabd");
    assert!(matches_at(&text, &text_chars("abc"), 0));
    assert!(!matches_at(&text, &text_chars("abc"), 3));
    assert!(matches_at(&text, &text_chars("abd"), 3));
    assert!(matches_at(&text, &text_chars(""), 6));
    assert!(matches_at(&text, &text_chars("abcabd"), 0));
}

#[test]
fn matches_at_is_false_beyond_the_end() {
    let text = text_chars("abc");
    assert!(!matches_at(&text, &text_chars("c"), 3));
    assert!(!matches_at(&text, &text_chars("bcd"), 1));
    assert!(!matches_at(&text, &text_chars(""), 4));
    assert!(!matches_at(&text, &text_chars("a"), usize::MAX));
    assert!(matches_at(&text, &text_chars(""), 3));
}

#[test]
fn contains_chars_finds_a_part_anywhere() {
    let text = text_chars("delay[(error)(force(error))]");
    assert!(contains_chars(&text, &text_chars("delay")));
    assert!(contains_chars(&text, &text_chars("(force(error))")));
    assert!(contains_chars(&text, &text_chars("]")));
    assert!(contains_chars(&text, &text));
    assert!(!contains_chars(&text, &text_chars("(force(error)))")));
    assert!(!contains_chars(&text, &text_chars("delay[(error)(force(error))]x")));
}

#[test]
fn contains_chars_wants_the_part_unbroken() {
    let text = text_chars("axbxc");
    assert!(!contains_chars(&text, &text_chars("abc")));
    assert!(contains_chars(&text_chars("aab"), &text_chars("ab")));
    assert!(contains_chars(&text_chars("ababac"), &text_chars("abac")));
}

#[test]
fn the_empty_pattern_is_part_of_every_text() {
    assert!(contains_chars(&text_chars("abc"), &text_chars("")));
    assert!(contains_chars(&text_chars(""), &text_chars("")));
    assert!(!contains_chars(&text_chars(""), &text_chars("a")));
}

#[test]
fn any_marker_is_true_when_one_marker_is_found() {
    let markers = marker_set(&["nowhere", "validationreturnedfalse", "neither"]);
    assert!(any_marker("(constring\"validationreturnedfalse\")", &markers));
}

#[test]
fn any_marker_is_false_when_none_is_found() {
    let markers = marker_set(&["nowhere", "neither"]);
    assert!(!any_marker("(constring\"validationreturnedfalse\")", &markers));
}

#[test]
fn any_marker_is_false_for_no_markers() {
    assert!(!any_marker("anything", &marker_set(&[])));
    assert!(!any_marker("", &marker_set(&[])));
}

#[test]
fn any_marker_does_not_fold_case() {
    assert!(any_marker("xPlutarchx", &marker_set(&["Plutarch"])));
    assert!(!any_marker("xplutarchx", &marker_set(&["Plutarch"])));
    assert!(!any_marker("xPLUTARCHx", &marker_set(&["Plutarch"])));
}

#[test]
fn any_marker_is_containment_not_equality() {
    assert!(any_marker("abc", &marker_set(&["b"])));
    assert!(any_marker("abc", &marker_set(&["abc"])));
    assert!(!any_marker("b", &marker_set(&["abc"])));
}

#[test]
fn any_marker_does_not_depend_on_the_order_of_markers() {
    let text = "xxPT5yy";
    assert!(any_marker(text, &marker_set(&["PT5", "zz"])));
    assert!(any_marker(text, &marker_set(&["zz", "PT5"])));
}

#[test]
fn any_marker_counts_characters_not_bytes() {
    assert!(any_marker("\u{4e16}\u{754c}ab", &marker_set(&["\u{754c}a"])));
    assert!(!any_marker("\u{4e16}\u{754c}ab", &marker_set(&["\u{4e16}a"])));
}

#[test]
fn marker_among_agrees_with_any_marker() {
    let markers = marker_set(&["KeyError", "NameError:"]);
    let text = "(constring\"NameError:x\")";
    assert_eq!(marker_among(&text_chars(text), &markers), any_marker(text, &markers));
    assert!(marker_among(&text_chars(text), &markers));
    assert!(!marker_among(&text_chars("(constring\"TypeError\")"), &markers));
}

#[test]
fn a_marker_broken_by_a_line_break_is_found_once_flattened() {
    let pretty = "[\n  (force (builtin headList))\n  i_1\n]";
    let markers = marker_set(&["(force(builtinheadList))i_1"]);
    assert!(!any_marker(pretty, &markers));
    let flat: String = strip(pretty).iter().collect();
    assert_eq!(flat, "[(force(builtinheadList))i_1]");
    assert!(any_marker(&flat, &markers));
}
