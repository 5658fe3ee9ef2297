//! The result stream.
//!
//! A batch of results is written as one aggregate: an opening bracket, the
//! elements separated by commas, a closing bracket. Each element is a pair of
//! the hash and the label, the label being `null` for unknown provenance. The
//! [`Emitter`] hands the aggregate out piece by piece, one piece per result,
//! so that no batch has to be held in memory; [`emit`] renders a whole batch
//! at once and gives the same text.

use crate::record::ClassificationResult;
use crate::record::ResultView;
use vstd::prelude::*;
use vstd::string::StringExecFns;

verus! {

/// One element of the aggregate: `["hash","label"]`, or `["hash",null]` where
/// there is no label. Hash and label stand between the quotes as they are.
pub open spec fn element(result: ResultView) -> Seq<char> {
    match result.label {
        Some(name) => "[\""@ + result.hash + "\",\""@ + name + "\"]"@,
        None => "[\""@ + result.hash + "\",null]"@,
    }
}

/// The elements of `results` in order, a comma between each two.
pub open spec fn joined(results: Seq<ResultView>) -> Seq<char>
    decreases results.len(),
{
    if results.len() == 0 {
        Seq::empty()
    } else if results.len() == 1 {
        element(results[0])
    } else {
        joined(results.drop_last()) + ","@ + element(results.last())
    }
}

/// The whole aggregate for `results`.
pub open spec fn aggregate(results: Seq<ResultView>) -> Seq<char> {
    "["@ + joined(results) + "]"@
}

/// What has been handed out once the pieces for `results` are out: nothing
/// before the first result, then the opening bracket and the elements so far.
pub open spec fn opened(results: Seq<ResultView>) -> Seq<char> {
    if results.len() == 0 {
        Seq::empty()
    } else {
        "["@ + joined(results)
    }
}

/// The piece for one result: the opening bracket before the first element, a
/// comma before every other.
pub open spec fn piece(first: bool, result: ResultView) -> Seq<char> {
    if first {
        "["@ + element(result)
    } else {
        ","@ + element(result)
    }
}

/// The piece that ends the aggregate: the closing bracket, with the opening
/// one before it where no element was written.
pub open spec fn closing(empty: bool) -> Seq<char> {
    if empty {
        "[]"@
    } else {
        "]"@
    }
}

/// The results of a batch as plain text.
pub open spec fn result_views(results: Seq<ClassificationResult>) -> Seq<ResultView> {
    Seq::new(results.len(), |i: int| results[i]@)
}

/// The text of one element.
pub fn element_text(result: &ClassificationResult) -> (text: String)
    ensures
        text@ == element(result@),
{
    let mut text = "[\"".to_owned();
    text.append(result.hash.as_str());
    match &result.label {
        Some(name) => {
            text.append("\",\"");
            text.append(name.as_str());
            text.append("\"]");
        },
        None => {
            text.append("\",null]");
        },
    }
    text
}

/// Writes an aggregate incrementally. Its view is the sequence of results
/// taken so far.
pub struct Emitter {
    started: bool,
    taken: Ghost<Seq<ResultView>>,
}

impl View for Emitter {
    type V = Seq<ResultView>;

    closed spec fn view(&self) -> Seq<ResultView> {
        self.taken@
    }
}

impl Emitter {
    #[verifier::type_invariant]
    spec fn coherent(self) -> bool {
        self.started == (self.taken@.len() > 0)
    }

    /// An emitter that has taken nothing yet.
    pub fn new() -> (emitter: Emitter)
        ensures
            emitter@ == Seq::<ResultView>::empty(),
    {
        Emitter { started: false, taken: Ghost(Seq::empty()) }
    }

    /// Takes the next result and returns the piece to write for it. The
    /// pieces returned so far, in order, are the aggregate up to and
    /// including this element.
    pub fn push(&mut self, result: &ClassificationResult) -> (text: String)
        ensures
            final(self)@ == old(self)@.push(result@),
            text@ == piece(old(self)@.len() == 0, result@),
            opened(final(self)@) == opened(old(self)@) + text@,
    {
        proof {
            use_type_invariant(&*self);
            lemma_opened_push(self@, result@);
        }
        let mut text = if self.started {
            ",".to_owned()
        } else {
            "[".to_owned()
        };
        let body = element_text(result);
        text.append(body.as_str());
        let ghost taken = self.taken@.push(result@);
        *self = Emitter { started: true, taken: Ghost(taken) };
        text
    }

    /// Ends the aggregate and returns the last piece to write. All pieces
    /// together are the aggregate of the results taken.
    pub fn finish(self) -> (text: String)
        ensures
            text@ == closing(self@.len() == 0),
            opened(self@) + text@ == aggregate(self@),
    {
        proof {
            use_type_invariant(&self);
            lemma_opened_closing(self@);
        }
        if self.started {
            "]".to_owned()
        } else {
            "[]".to_owned()
        }
    }
}

/// Renders a whole batch: the aggregate of `results`, in their order. A batch
/// without results gives the two brackets.
pub fn emit(results: &Vec<ClassificationResult>) -> (text: String)
    ensures
        text@ == aggregate(result_views(results@)),
        results.len() == 0 ==> text@ == "[]"@,
{
    let mut emitter = Emitter::new();
    let mut text = String::new();
    let mut i: usize = 0;
    while i < results.len()
        invariant
            i <= results.len(),
            emitter@ == result_views(results@).take(i as int),
            text@ == opened(emitter@),
        decreases results.len() - i,
    {
        let next = emitter.push(&results[i]);
        text.append(next.as_str());
        proof {
            let all = result_views(results@);
            assert(all.take(i + 1) == all.take(i as int).push(all[i as int]));
        }
        i += 1;
    }
    let last = emitter.finish();
    text.append(last.as_str());
    proof {
        let all = result_views(results@);
        assert(all.take(results.len() as int) == all);
        if results.len() == 0 {
            assert(all == Seq::<ResultView>::empty());
            lemma_empty_aggregate();
        }
    }
    text
}

/// Where element `i` of the aggregate for `results` starts: after the opening
/// bracket, the elements before it, and a comma for each of them.
pub open spec fn element_start(results: Seq<ResultView>, i: int) -> int
    decreases i,
{
    if i <= 0 {
        1
    } else {
        element_start(results, i - 1) + element(results[i - 1]).len() + 1
    }
}

/// The brackets and the comma, character by character.
pub proof fn lemma_delimiters()
    ensures
        "["@ == seq!['['],
        "]"@ == seq![']'],
        ","@ == seq![','],
        "[]"@ == seq!['[', ']'],
{
    reveal_strlit("[");
    reveal_strlit("]");
    reveal_strlit(",");
    reveal_strlit("[]");
    assert("["@ =~= seq!['[']);
    assert("]"@ =~= seq![']']);
    assert(","@ =~= seq![',']);
    assert("[]"@ =~= seq!['[', ']']);
}

/// The aggregate of no results is the two brackets and nothing between.
pub proof fn lemma_empty_aggregate()
    ensures
        aggregate(Seq::<ResultView>::empty()) == "[]"@,
{
    lemma_delimiters();
    assert(aggregate(Seq::<ResultView>::empty()) =~= "[]"@);
}

/// Every element starts behind the opening bracket.
pub proof fn lemma_element_start_positive(results: Seq<ResultView>, i: int)
    ensures
        element_start(results, i) >= 1,
    decreases i,
{
    if i > 0 {
        lemma_element_start_positive(results, i - 1);
    }
}

/// Where an element starts depends on the elements before it alone.
pub proof fn lemma_element_start_prefix(results: Seq<ResultView>, i: int)
    requires
        0 <= i < results.len(),
    ensures
        element_start(results.drop_last(), i) == element_start(results, i),
    decreases i,
{
    if i > 0 {
        lemma_element_start_prefix(results, i - 1);
    }
}

/// The aggregate of `n` results holds exactly `n` elements: it opens with one
/// bracket, element `i` stands at its start, a comma stands before every
/// element but the first, and the one closing bracket follows the last
/// element directly.
pub proof fn lemma_aggregate_shape(results: Seq<ResultView>)
    ensures
        aggregate(results)[0] == '[',
        aggregate(results).last() == ']',
        results.len() == 0 ==> aggregate(results).len() == 2,
        results.len() > 0 ==> aggregate(results).len() == element_start(
            results,
            results.len() as int,
        ),
        results.len() > 0 ==> element_start(results, results.len() - 1) + element(
            results.last(),
        ).len() == aggregate(results).len() - 1,
        forall|i: int|
            0 <= i < results.len() ==> {
                &&& 1 <= #[trigger] element_start(results, i)
                &&& element_start(results, i) + element(results[i]).len() < aggregate(
                    results,
                ).len()
                &&& aggregate(results).subrange(
                    element_start(results, i),
                    element_start(results, i) + element(results[i]).len(),
                ) == element(results[i])
            },
        forall|i: int|
            0 < i < results.len() ==> aggregate(results)[#[trigger] element_start(results, i) - 1]
                == ',',
    decreases results.len(),
{
    lemma_delimiters();
    let whole = aggregate(results);
    if results.len() == 0 {
        assert(whole =~= seq!['[', ']']);
    } else if results.len() == 1 {
        let only = element(results[0]);
        assert(whole =~= seq!['['] + only + seq![']']);
        assert(element_start(results, 0) == 1);
        assert(element_start(results, 1) == element_start(results, 0) + only.len() + 1);
        assert(whole.subrange(1, 1 + only.len() as int) =~= only);
    } else {
        let init = results.drop_last();
        let last = element(results.last());
        let before = aggregate(init);
        let n = results.len() as int;
        lemma_aggregate_shape(init);
        assert(whole =~= before.drop_last() + seq![','] + last + seq![']']);
        assert forall|i: int| 0 <= i < n implies element_start(init, i) == element_start(
            results,
            i,
        ) by {
            lemma_element_start_prefix(results, i);
        }
        assert(element_start(results, n) == element_start(results, n - 1) + last.len() + 1);
        assert forall|i: int| 0 <= i < n implies {
            &&& 1 <= #[trigger] element_start(results, i)
            &&& element_start(results, i) + element(results[i]).len() < whole.len()
            &&& whole.subrange(
                element_start(results, i),
                element_start(results, i) + element(results[i]).len(),
            ) == element(results[i])
        } by {
            let at = element_start(results, i);
            let it = element(results[i]);
            lemma_element_start_positive(results, i);
            if i < n - 1 {
                assert(results[i] == init[i]);
                assert(element_start(init, i) == at);
                assert(before.subrange(at, at + it.len()) == it);
                assert(whole.subrange(at, at + it.len()) =~= before.subrange(at, at + it.len()));
            } else {
                assert(at == before.len());
                assert(whole.subrange(at, at + it.len()) =~= it);
            }
        }
        assert forall|i: int| 0 < i < n implies whole[#[trigger] element_start(results, i) - 1]
            == ',' by {
            lemma_element_start_positive(results, i);
            if i < n - 1 {
                assert(element_start(init, i) == element_start(results, i));
                assert(element_start(init, i) + element(init[i]).len() < before.len());
                assert(whole[element_start(results, i) - 1] == before[element_start(init, i) - 1]);
            }
        }
    }
}

/// Taking one more result adds its piece to what is out.
pub proof fn lemma_opened_push(results: Seq<ResultView>, result: ResultView)
    ensures
        opened(results.push(result)) == opened(results) + piece(results.len() == 0, result),
{
    let more = results.push(result);
    assert(more.drop_last() == results);
    assert(more.last() == result);
    if results.len() == 0 {
        assert(opened(more) == "["@ + element(result));
        assert(opened(results) + piece(true, result) == "["@ + element(result));
    } else {
        assert(joined(more) == joined(results) + ","@ + element(result));
        assert(opened(more) == "["@ + joined(results) + (","@ + element(result)));
    }
}

/// What is out, followed by the closing piece, is the aggregate.
pub proof fn lemma_opened_closing(results: Seq<ResultView>)
    ensures
        opened(results) + closing(results.len() == 0) == aggregate(results),
{
    if results.len() == 0 {
        assert(results == Seq::<ResultView>::empty());
        lemma_empty_aggregate();
        assert(opened(results) + closing(true) == "[]"@);
    }
}

} // verus!
