//! Program text: whitespace stripping and marker search.
//!
//! A decoded program is pretty-printed with indentation and line breaks that
//! carry no meaning. Markers are fixed substrings, so the text is first
//! flattened by dropping every space and line feed, and markers are then
//! looked for by plain substring containment.

use vstd::prelude::*;

verus! {

/// The characters that flattening drops: the space and the line feed.
pub open spec fn is_layout(c: char) -> bool {
    c == ' ' || c == '\n'
}

/// The test that flattening keeps a character by.
pub open spec fn kept() -> spec_fn(char) -> bool {
    |c: char| !is_layout(c)
}

/// `text` without its layout characters, everything else kept in order.
pub open spec fn strip_layout(text: Seq<char>) -> Seq<char> {
    text.filter(kept())
}

/// No character of `text` is a layout character.
pub open spec fn layout_free(text: Seq<char>) -> bool {
    forall|i: int| 0 <= i < text.len() ==> !is_layout(#[trigger] text[i])
}

/// Every character of `text` is a layout character.
pub open spec fn only_layout(text: Seq<char>) -> bool {
    forall|i: int| 0 <= i < text.len() ==> is_layout(#[trigger] text[i])
}

/// `pattern` stands in `text` at position `at`.
pub open spec fn occurs_at(text: Seq<char>, pattern: Seq<char>, at: int) -> bool {
    &&& 0 <= at
    &&& at + pattern.len() <= text.len()
    &&& text.subrange(at, at + pattern.len()) == pattern
}

/// `pattern` is a contiguous part of `text`.
pub open spec fn contains(text: Seq<char>, pattern: Seq<char>) -> bool {
    exists|at: int| occurs_at(text, pattern, at)
}

/// At least one of `markers` is a contiguous part of `text`.
pub open spec fn marked_by(text: Seq<char>, markers: Seq<Seq<char>>) -> bool {
    exists|i: int| 0 <= i < markers.len() && contains(text, #[trigger] markers[i])
}

/// The characters of a string slice, in order.
pub fn chars_of(s: &str) -> (v: Vec<char>)
    ensures
        v@ == s@,
{
    let mut v: Vec<char> = Vec::new();
    let chars = s.chars();
    for c in it: chars
        invariant
            v@ == it.seq().take(it.index()),
    {
        v.push(c);
    }
    v
}

/// Whether `c` is dropped by flattening.
pub fn is_layout_char(c: char) -> (r: bool)
    ensures
        r == is_layout(c),
{
    c == ' ' || c == '\n'
}

/// Flattens `pretty`: returns its characters without spaces and line feeds.
pub fn strip(pretty: &str) -> (out: Vec<char>)
    ensures
        out@ == strip_layout(pretty@),
        layout_free(out@),
{
    let mut out: Vec<char> = Vec::new();
    let chars = pretty.chars();
    proof {
        lemma_strip_empty();
    }
    for c in it: chars
        invariant
            out@ == strip_layout(it.seq().take(it.index())),
    {
        proof {
            let seen = it.seq().take(it.index());
            assert(it.seq().take(it.index() + 1) == seen.push(c));
            lemma_strip_push(seen, c);
        }
        if !is_layout_char(c) {
            out.push(c);
        }
    }
    proof {
        assert(pretty@.take(pretty@.len() as int) == pretty@);
        lemma_strip_layout_free(pretty@);
    }
    out
}

/// Whether `pattern` stands in `text` at position `at`. It does not where it
/// would reach beyond the end of `text`.
pub fn matches_at(text: &Vec<char>, pattern: &Vec<char>, at: usize) -> (r: bool)
    ensures
        r == occurs_at(text@, pattern@, at as int),
{
    if at > text.len() || pattern.len() > text.len() - at {
        return false;
    }
    let mut k: usize = 0;
    while k < pattern.len()
        invariant
            k <= pattern.len(),
            at + pattern.len() <= text.len(),
            forall|j: int| 0 <= j < k ==> text@[at + j] == pattern@[j],
        decreases pattern.len() - k,
    {
        if text[at + k] != pattern[k] {
            proof {
                let part = text@.subrange(at as int, at + pattern.len());
                assert(part[k as int] == text@[at + k]);
            }
            return false;
        }
        k += 1;
    }
    proof {
        assert(text@.subrange(at as int, at + pattern.len()) =~= pattern@);
    }
    true
}

/// Whether `pattern` is a contiguous part of `text`. The empty pattern is part
/// of every text.
pub fn contains_chars(text: &Vec<char>, pattern: &Vec<char>) -> (r: bool)
    ensures
        r == contains(text@, pattern@),
{
    if pattern.len() == 0 {
        proof {
            assert(text@.subrange(0, 0) =~= pattern@);
            assert(occurs_at(text@, pattern@, 0));
        }
        return true;
    }
    if pattern.len() > text.len() {
        return false;
    }
    let last: usize = text.len() - pattern.len();
    let mut at: usize = 0;
    while at <= last
        invariant
            at <= last + 1,
            last + pattern.len() == text.len(),
            pattern.len() > 0,
            forall|j: int| 0 <= j < at ==> !occurs_at(text@, pattern@, j),
        decreases last + 1 - at,
    {
        if matches_at(text, pattern, at) {
            return true;
        }
        at += 1;
    }
    false
}

/// Whether one of `markers` is a contiguous part of `text`.
pub fn marker_among(text: &Vec<char>, markers: &Vec<String>) -> (found: bool)
    ensures
        found == marked_by(text@, markers.deep_view()),
{
    let mut i: usize = 0;
    while i < markers.len()
        invariant
            i <= markers.len(),
            forall|j: int| 0 <= j < i ==> !contains(text@, #[trigger] markers.deep_view()[j]),
        decreases markers.len() - i,
    {
        let marker = chars_of(markers[i].as_str());
        assert(marker@ == markers.deep_view()[i as int]);
        if contains_chars(text, &marker) {
            return true;
        }
        i += 1;
    }
    false
}

/// Whether one of `markers` is a contiguous part of `program`. Containment is
/// exact: no case folding, no trimming, and which marker matched is not told.
pub fn any_marker(program: &str, markers: &Vec<String>) -> (found: bool)
    ensures
        found == marked_by(program@, markers.deep_view()),
{
    let text = chars_of(program);
    marker_among(&text, markers)
}

/// Flattening the empty text gives the empty text.
pub proof fn lemma_strip_empty()
    ensures
        strip_layout(Seq::<char>::empty()) == Seq::<char>::empty(),
{
    reveal(Seq::filter);
}

/// Flattening goes character by character: a layout character at the end is
/// dropped, any other is kept at the end.
pub proof fn lemma_strip_push(text: Seq<char>, c: char)
    ensures
        strip_layout(text.push(c)) == if is_layout(c) {
            strip_layout(text)
        } else {
            strip_layout(text).push(c)
        },
{
    text.lemma_filter_push(c, kept());
}

/// Flattening a text in two parts flattens each part.
pub proof fn lemma_strip_concat(head: Seq<char>, tail: Seq<char>)
    ensures
        strip_layout(head + tail) == strip_layout(head) + strip_layout(tail),
{
    Seq::filter_distributes_over_add(head, tail, kept());
}

/// Flattening leaves nothing of a text made of layout alone.
pub proof fn lemma_strip_layout_only(gap: Seq<char>)
    requires
        only_layout(gap),
    ensures
        strip_layout(gap) == Seq::<char>::empty(),
    decreases gap.len(),
{
    if gap.len() == 0 {
        assert(gap == Seq::<char>::empty());
        lemma_strip_empty();
    } else {
        let rest = gap.drop_last();
        assert(gap == rest.push(gap.last()));
        lemma_strip_layout_only(rest);
        lemma_strip_push(rest, gap.last());
    }
}

/// Flattening leaves a text without layout as it is: flattening twice is
/// flattening once.
pub proof fn lemma_strip_flat(text: Seq<char>)
    requires
        layout_free(text),
    ensures
        strip_layout(text) == text,
    decreases text.len(),
{
    if text.len() == 0 {
        assert(text == Seq::<char>::empty());
        lemma_strip_empty();
    } else {
        let rest = text.drop_last();
        assert(text == rest.push(text.last()));
        lemma_strip_flat(rest);
        lemma_strip_push(rest, text.last());
    }
}

/// Layout put anywhere into a text does not change what it flattens to.
pub proof fn lemma_layout_is_ignored(head: Seq<char>, gap: Seq<char>, tail: Seq<char>)
    requires
        only_layout(gap),
    ensures
        strip_layout(head + gap + tail) == strip_layout(head + tail),
{
    lemma_strip_concat(head + gap, tail);
    lemma_strip_concat(head, gap);
    lemma_strip_layout_only(gap);
    lemma_strip_concat(head, tail);
    assert(strip_layout(head) + Seq::<char>::empty() == strip_layout(head));
}

/// Any contiguous piece of a pretty-printed text, flattened, is part of the
/// flattened text.
pub proof fn lemma_flattened_piece_is_found(before: Seq<char>, piece: Seq<char>, after: Seq<char>)
    ensures
        contains(strip_layout(before + piece + after), strip_layout(piece)),
{
    lemma_strip_concat(before + piece, after);
    lemma_strip_concat(before, piece);
    let flat = strip_layout(before + piece + after);
    let found = strip_layout(piece);
    let at = strip_layout(before).len() as int;
    assert(flat == strip_layout(before) + found + strip_layout(after));
    assert(flat.subrange(at, at + found.len()) == found);
    assert(occurs_at(flat, found, at));
}

/// A marker that the pretty-printer broke in two, with indentation and a line
/// break between the halves, is found in the flattened text.
pub proof fn lemma_broken_marker_is_found(
    before: Seq<char>,
    head: Seq<char>,
    gap: Seq<char>,
    tail: Seq<char>,
    after: Seq<char>,
)
    requires
        layout_free(head),
        layout_free(tail),
        only_layout(gap),
    ensures
        contains(strip_layout(before + (head + gap + tail) + after), head + tail),
{
    lemma_flattened_piece_is_found(before, head + gap + tail, after);
    lemma_layout_is_ignored(head, gap, tail);
    assert(layout_free(head + tail));
    lemma_strip_flat(head + tail);
}

/// A marker with a space or a line feed in it is part of no flattened text.
pub proof fn lemma_layout_in_marker_never_matches(text: Seq<char>, marker: Seq<char>)
    requires
        layout_free(text),
        !layout_free(marker),
    ensures
        !contains(text, marker),
{
    if contains(text, marker) {
        let at = choose|at: int| occurs_at(text, marker, at);
        let k = choose|k: int| 0 <= k < marker.len() && is_layout(#[trigger] marker[k]);
        assert(text.subrange(at, at + marker.len())[k] == text[at + k]);
    }
}

/// Which marker is tried first is immaterial, and so is a marker that stands
/// twice: two lists with the same entries mark the same texts.
pub proof fn lemma_marker_order_is_immaterial(
    text: Seq<char>,
    markers: Seq<Seq<char>>,
    others: Seq<Seq<char>>,
)
    requires
        markers.to_set() == others.to_set(),
    ensures
        marked_by(text, markers) == marked_by(text, others),
{
    lemma_marked_by_subset(text, markers, others);
    lemma_marked_by_subset(text, others, markers);
}

/// A list that holds every entry of another marks every text that the other
/// marks.
pub proof fn lemma_marked_by_subset(
    text: Seq<char>,
    markers: Seq<Seq<char>>,
    others: Seq<Seq<char>>,
)
    requires
        markers.to_set().subset_of(others.to_set()),
    ensures
        marked_by(text, markers) ==> marked_by(text, others),
{
    if marked_by(text, markers) {
        let i = choose|i: int| 0 <= i < markers.len() && contains(text, #[trigger] markers[i]);
        assert(markers.contains(markers[i]));
        assert(markers.to_set().contains(markers[i]));
        assert(others.to_set().contains(markers[i]));
        assert(others.contains(markers[i]));
        let j = choose|j: int| 0 <= j < others.len() && others[j] == markers[i];
        assert(contains(text, others[j]));
    }
}

/// What flattening returns holds no layout character.
pub proof fn lemma_strip_layout_free(text: Seq<char>)
    ensures
        layout_free(strip_layout(text)),
{
    let flat = strip_layout(text);
    assert forall|i: int| 0 <= i < flat.len() implies !is_layout(#[trigger] flat[i]) by {
        text.lemma_filter_pred(kept(), i);
    }
}

} // verus!
