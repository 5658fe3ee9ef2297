use script_provenance::emit::element_text;
use script_provenance::emit::emit;
use script_provenance::emit::Emitter;
use script_provenance::record::ClassificationResult;

fn labelled(hash: &str, label: &str) -> ClassificationResult {
    ClassificationResult { hash: hash.to_string(), label: Some(label.to_string()) }
}

fn unknown(hash: &str) -> ClassificationResult {
    ClassificationResult { hash: hash.to_string(), label: None }
}

#[test]
fn element_with_a_label() {
    assert_eq!(element_text(&labelled("abc", "aiken")), "[\"abc\",\"aiken\"]");
}

#[test]
fn element_without_a_label_is_null() {
    assert_eq!(element_text(&unknown("abc")), "[\"abc\",null]");
}

#[test]
fn element_keeps_hyphenated_names() {
    assert_eq!(element_text(&labelled("h", "plutus-tx")), "[\"h\",\"plutus-tx\"]");
    assert_eq!(element_text(&labelled("h", "plu-ts")), "[\"h\",\"plu-ts\"]");
}

#[test]
fn emit_of_nothing_is_the_empty_aggregate() {
    assert_eq!(emit(&Vec::new()), "[]");
}

#[test]
fn emit_of_one_result() {
    assert_eq!(emit(&vec![labelled("H1", "helios")]), "[[\"H1\",\"helios\"]]");
    assert_eq!(emit(&vec![unknown("H1")]), "[[\"H1\",null]]");
}

#[test]
fn emit_of_two_results_keeps_their_order() {
    let batch = vec![unknown("H1"), labelled("H2", "helios")];
    assert_eq!(emit(&batch), "[[\"H1\",null],[\"H2\",\"helios\"]]");
    let swapped = vec![labelled("H2", "helios"), unknown("H1")];
    assert_eq!(emit(&swapped), "[[\"H2\",\"helios\"],[\"H1\",null]]");
}

#[test]
fn emit_separates_n_elements_with_n_minus_one_commas() {
    let batch = vec![
        labelled("a", "aiken"),
        unknown("b"),
        labelled("c", "opshin"),
        labelled("d", "plutarch"),
    ];
    let text = emit(&batch);
    assert_eq!(
        text,
        "[[\"a\",\"aiken\"],[\"b\",null],[\"c\",\"opshin\"],[\"d\",\"plutarch\"]]"
    );
    assert!(text.starts_with("[["));
    assert!(text.ends_with("]]"));
    assert!(!text.ends_with(",]"));
    assert_eq!(text.matches("],[").count(), batch.len() - 1);
    assert_eq!(text.matches("[\"").count(), batch.len());
}

#[test]
fn emitter_opens_with_the_first_element() {
    let mut emitter = Emitter::new();
    assert_eq!(emitter.push(&unknown("H1")), "[[\"H1\",null]");
    assert_eq!(emitter.push(&labelled("H2", "helios")), ",[\"H2\",\"helios\"]");
    assert_eq!(emitter.push(&unknown("H3")), ",[\"H3\",null]");
    assert_eq!(emitter.finish(), "]");
}

#[test]
fn emitter_closes_an_empty_aggregate() {
    assert_eq!(Emitter::new().finish(), "[]");
}

#[test]
fn emitter_pieces_make_up_what_emit_returns() {
    let batch = vec![labelled("x", "plu-ts"), unknown("y"), labelled("z", "marlowe")];
    let mut emitter = Emitter::new();
    let mut written = String::new();
    for result in &batch {
        written.push_str(&emitter.push(result));
    }
    written.push_str(&emitter.finish());
    assert_eq!(written, emit(&batch));
    assert_eq!(written, "[[\"x\",\"plu-ts\"],[\"y\",null],[\"z\",\"marlowe\"]]");
}
