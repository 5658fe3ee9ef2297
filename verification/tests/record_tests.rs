use script_provenance::record::RecordLayout;

#[test]
fn standard_layout_is_a_hash_of_56_and_one_separator() {
    let layout = RecordLayout::standard();
    assert_eq!(layout.hash_width, 56);
    assert_eq!(layout.separator_width, 1);
}

#[test]
fn split_cuts_hash_and_payload() {
    let row = "6027a8010c555a4dd6b08882b899f4b3167c6e4524047132202dd984,46010000200101";
    let script = RecordLayout::standard().split(row);
    assert_eq!(script.hash, "6027a8010c555a4dd6b08882b899f4b3167c6e4524047132202dd984");
    assert_eq!(script.encoded_bytecode, "46010000200101");
}

#[test]
fn split_does_not_look_at_the_separator() {
    let hash = "a".repeat(56);
    for separator in [",", ";", " ", "\t", "x"] {
        let row = format!("{hash}{separator}4601");
        let script = RecordLayout::standard().split(&row);
        assert_eq!(script.hash, hash);
        assert_eq!(script.encoded_bytecode, "4601");
    }
}

#[test]
fn split_of_a_short_row_gives_short_fields() {
    let layout = RecordLayout::standard();
    let script = layout.split("abc");
    assert_eq!(script.hash, "abc");
    assert_eq!(script.encoded_bytecode, "");
    let script = layout.split("");
    assert_eq!(script.hash, "");
    assert_eq!(script.encoded_bytecode, "");
}

#[test]
fn split_of_a_row_that_ends_with_the_hash_or_the_separator() {
    let layout = RecordLayout::standard();
    let hash = "b".repeat(56);
    let script = layout.split(&hash);
    assert_eq!(script.hash, hash);
    assert_eq!(script.encoded_bytecode, "");
    let script = layout.split(&format!("{hash},"));
    assert_eq!(script.hash, hash);
    assert_eq!(script.encoded_bytecode, "");
    let script = layout.split(&format!("{hash},4"));
    assert_eq!(script.hash, hash);
    assert_eq!(script.encoded_bytecode, "4");
}

#[test]
fn split_follows_the_layout_it_is_given() {
    let layout = RecordLayout { hash_width: 4, separator_width: 2 };
    let script = layout.split("abcd::payload");
    assert_eq!(script.hash, "abcd");
    assert_eq!(script.encoded_bytecode, "payload");
    let layout = RecordLayout { hash_width: 0, separator_width: 0 };
    let script = layout.split("payload");
    assert_eq!(script.hash, "");
    assert_eq!(script.encoded_bytecode, "payload");
}

#[test]
fn split_counts_characters_not_bytes() {
    let layout = RecordLayout { hash_width: 2, separator_width: 1 };
    let script = layout.split("\u{4e16}\u{754c},\u{e9}t\u{e9}");
    assert_eq!(script.hash, "\u{4e16}\u{754c}");
    assert_eq!(script.encoded_bytecode, "\u{e9}t\u{e9}");
}

#[test]
fn split_stands_widths_that_do_not_fit_in_a_sum() {
    let layout = RecordLayout { hash_width: usize::MAX, separator_width: usize::MAX };
    let script = layout.split("abc");
    assert_eq!(script.hash, "abc");
    assert_eq!(script.encoded_bytecode, "");
    let layout = RecordLayout { hash_width: 1, separator_width: usize::MAX };
    let script = layout.split("abc");
    assert_eq!(script.hash, "a");
    assert_eq!(script.encoded_bytecode, "");
}
