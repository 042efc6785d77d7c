//! Finding the one item of a sequence that a predicate accepts.

use crate::diagnostic::{Diagnostic, DiagnosticView, ErrorKind};
use crate::span::{Span, Spanned};
use vstd::prelude::*;

verus! {

/// The predicate may answer `Ok(true)` for the item.
pub open spec fn accepts<T, F: Fn(&T) -> Result<bool, Diagnostic>>(pred: F, item: T) -> bool {
    call_ensures(pred, (&item,), Ok::<bool, Diagnostic>(true))
}

/// The predicate may answer `Ok(false)` for the item.
pub open spec fn rejects<T, F: Fn(&T) -> Result<bool, Diagnostic>>(pred: F, item: T) -> bool {
    call_ensures(pred, (&item,), Ok::<bool, Diagnostic>(false))
}

/// The predicate may fail on the item with the given diagnostic.
pub open spec fn fails_with<T, F: Fn(&T) -> Result<bool, Diagnostic>>(
    pred: F,
    item: T,
    error: Diagnostic,
) -> bool {
    call_ensures(pred, (&item,), Err::<bool, Diagnostic>(error))
}

/// The predicate rejected every item before `end` but, where `found` is an
/// index, the item at that index, which it accepted.
pub open spec fn scanned<T, F: Fn(&T) -> Result<bool, Diagnostic>>(
    pred: F,
    items: Seq<T>,
    end: int,
    found: Option<int>,
) -> bool {
    &&& 0 <= end <= items.len()
    &&& found matches Some(k) ==> 0 <= k < end && accepts(pred, items[k])
    &&& forall|i: int| 0 <= i < end && found != Some(i) ==> #[trigger] rejects(pred, items[i])
}

/// How `find_only` may end on `items`, given what the predicate answered.
pub open spec fn find_only_outcome<T: Spanned, F: Fn(&T) -> Result<bool, Diagnostic>>(
    pred: F,
    items: Seq<T>,
    message: Seq<char>,
    outcome: Result<Option<&T>, Diagnostic>,
) -> bool {
    match outcome {
        Ok(None) => scanned(pred, items, items.len() as int, None),
        Ok(Some(item)) => exists|k: int|
            #[trigger] scanned(pred, items, items.len() as int, Some(k)) && *item == items[k],
        Err(error) => exists|end: int, found: Option<int>|
            #[trigger] scanned(pred, items, end, found) && end < items.len() && {
                ||| fails_with(pred, items[end], error)
                ||| {
                    &&& found is Some
                    &&& accepts(pred, items[end])
                    &&& error@ == duplicate(message, items[end].span_of())
                }
            },
    }
}

/// What a predicate answered, as a mathematical value.
pub open spec fn answer_view(answer: Result<bool, Diagnostic>) -> Result<bool, DiagnosticView> {
    match answer {
        Ok(matched) => Ok(matched),
        Err(error) => Err(error@),
    }
}

/// The diagnostic for a second match at `span`.
pub open spec fn duplicate(message: Seq<char>, span: Span) -> DiagnosticView {
    DiagnosticView { kind: ErrorKind::DuplicateAnnotation, message, span }
}

/// The index of the only `Ok(true)` among `answers`, read in order.
///
/// `answers[i]` is what the predicate says of item `i`, and `spans[i]` is where
/// that item stands. The first failure among the answers, or the second
/// `Ok(true)`, whichever comes first, decides: the failure is handed on, the
/// second match is reported at its own location. Without either, the result
/// is the index of the one match, or `None`.
pub open spec fn unique_match(
    answers: Seq<Result<bool, DiagnosticView>>,
    spans: Seq<Span>,
    message: Seq<char>,
) -> Result<Option<int>, DiagnosticView>
    decreases answers.len(),
{
    if answers.len() == 0 {
        Ok(None)
    } else {
        let last = answers.len() - 1;
        match unique_match(answers.drop_last(), spans, message) {
            Err(error) => Err(error),
            Ok(found) => match answers[last] {
                Err(error) => Err(error),
                Ok(false) => Ok(found),
                Ok(true) => if found is Some {
                    Err(duplicate(message, spans[last]))
                } else {
                    Ok(Some(last))
                },
            },
        }
    }
}

/// The answer of a predicate that did not fail.
pub open spec fn answered(matched: bool) -> Result<bool, DiagnosticView> {
    Ok(matched)
}

/// Every answer is `Ok`, and `Ok(true)` at `found` only.
pub open spec fn matches_only(
    answers: Seq<Result<bool, DiagnosticView>>,
    found: Option<int>,
) -> bool {
    &&& found matches Some(k) ==> 0 <= k < answers.len()
    &&& forall|i: int|
        0 <= i < answers.len() ==> #[trigger] answers[i] == answered(found == Some(i))
}

/// Where no answer is a failure and at most one is `Ok(true)`, the match is
/// that one, wherever it stands.
pub proof fn lemma_unique_match_found(
    answers: Seq<Result<bool, DiagnosticView>>,
    spans: Seq<Span>,
    message: Seq<char>,
    found: Option<int>,
)
    requires
        matches_only(answers, found),
    ensures
        unique_match(answers, spans, message) matches Ok(index) && index == found,
    decreases answers.len(),
{
    if answers.len() > 0 {
        let last = answers.len() - 1;
        let before = if found == Some(last) {
            None
        } else {
            found
        };
        assert(matches_only(answers.drop_last(), before)) by {
            let shorter = answers.drop_last();
            assert forall|i: int| 0 <= i < shorter.len() implies #[trigger] shorter[i]
                == answered(before == Some(i)) by {
                assert(shorter[i] == answers[i]);
            }
        }
        lemma_unique_match_found(answers.drop_last(), spans, message, before);
        assert(answers[last] == answered(found == Some(last)));
    }
}

/// A search that ends well has seen no failure and one `Ok(true)` at most.
pub proof fn lemma_unique_match_ok(
    answers: Seq<Result<bool, DiagnosticView>>,
    spans: Seq<Span>,
    message: Seq<char>,
)
    requires
        unique_match(answers, spans, message) is Ok,
    ensures
        matches_only(answers, unique_match(answers, spans, message)->Ok_0),
    decreases answers.len(),
{
    if answers.len() > 0 {
        let last = answers.len() - 1;
        lemma_unique_match_ok(answers.drop_last(), spans, message);
        let before = unique_match(answers.drop_last(), spans, message)->Ok_0;
        let found = unique_match(answers, spans, message)->Ok_0;
        assert forall|i: int| 0 <= i < answers.len() implies #[trigger] answers[i] == answered(
            found == Some(i),
        ) by {
            if i < last {
                assert(answers.drop_last()[i] == answers[i]);
            }
        }
    }
}

/// A second `Ok(true)`, with no failure before it, ends the search with the
/// duplicate reported where the second match stands.
pub proof fn lemma_unique_match_second(
    answers: Seq<Result<bool, DiagnosticView>>,
    spans: Seq<Span>,
    message: Seq<char>,
    first: int,
    second: int,
)
    requires
        0 <= first < second < answers.len(),
        answers[second] == answered(true),
        forall|i: int| 0 <= i < second ==> #[trigger] answers[i] == answered(i == first),
    ensures
        unique_match(answers, spans, message) matches Err(error) && error == duplicate(
            message,
            spans[second],
        ),
{
    let before = answers.take(second);
    assert(matches_only(before, Some(first)));
    lemma_unique_match_found(before, spans, message, Some(first));
    assert(answers.take(second + 1).drop_last() =~= before);
    assert(answers.take(second + 1)[second] == answers[second]);
    lemma_failure_stays(answers, spans, message, second + 1, answers.len() as int);
    assert(answers.take(answers.len() as int) =~= answers);
}

/// Two `Ok(true)` among the answers never end the search well.
pub proof fn lemma_unique_match_two(
    answers: Seq<Result<bool, DiagnosticView>>,
    spans: Seq<Span>,
    message: Seq<char>,
    first: int,
    second: int,
)
    requires
        0 <= first < second < answers.len(),
        answers[first] == answered(true),
        answers[second] == answered(true),
    ensures
        unique_match(answers, spans, message) is Err,
{
    if unique_match(answers, spans, message) is Ok {
        lemma_unique_match_ok(answers, spans, message);
        assert(answers[first] is Ok);
        assert(answers[second] is Ok);
    }
}

/// `answers` and `spans` say of every item what the predicate can answer for
/// it and where it stands.
pub open spec fn answers_of<T: Spanned, F: Fn(&T) -> Result<bool, Diagnostic>>(
    pred: F,
    items: Seq<T>,
    answers: Seq<Result<bool, DiagnosticView>>,
    spans: Seq<Span>,
) -> bool {
    &&& answers.len() == items.len()
    &&& spans.len() == items.len()
    &&& forall|i: int| 0 <= i < items.len() ==> #[trigger] spans[i] == items[i].span_of()
    &&& forall|i: int, answer: Result<bool, Diagnostic>|
        0 <= i < items.len() && #[trigger] call_ensures(pred, (&items[i],), answer)
            ==> answer_view(answer) == answers[i]
}

proof fn lemma_scanned_prefix<T: Spanned, F: Fn(&T) -> Result<bool, Diagnostic>>(
    pred: F,
    items: Seq<T>,
    answers: Seq<Result<bool, DiagnosticView>>,
    spans: Seq<Span>,
    message: Seq<char>,
    end: int,
    found: Option<int>,
)
    requires
        answers_of(pred, items, answers, spans),
        scanned(pred, items, end, found),
    ensures
        unique_match(answers.take(end), spans, message) matches Ok(index) && index == found,
    decreases end,
{
    if end == 0 {
        assert(found is None);
    } else {
        let last = end - 1;
        assert(answers.take(end).drop_last() =~= answers.take(last));
        assert(answers.take(end)[last] == answers[last]);
        if found == Some(last) {
            assert(scanned(pred, items, last, None));
            lemma_scanned_prefix(pred, items, answers, spans, message, last, None);
            assert(accepts(pred, items[last]));
        } else {
            assert(rejects(pred, items[last]));
            assert(scanned(pred, items, last, found));
            lemma_scanned_prefix(pred, items, answers, spans, message, last, found);
        }
    }
}

/// Once a prefix of the answers has ended the search badly, nothing that
/// follows changes the outcome.
pub proof fn lemma_failure_stays(
    answers: Seq<Result<bool, DiagnosticView>>,
    spans: Seq<Span>,
    message: Seq<char>,
    end: int,
    longer: int,
)
    requires
        0 <= end <= longer <= answers.len(),
        unique_match(answers.take(end), spans, message) is Err,
    ensures
        unique_match(answers.take(longer), spans, message) == unique_match(
            answers.take(end),
            spans,
            message,
        ),
    decreases longer - end,
{
    if end < longer {
        assert(answers.take(longer).drop_last() =~= answers.take(longer - 1));
        lemma_failure_stays(answers, spans, message, end, longer - 1);
    }
}

/// `outcome` is `expected`, with the item in place of its index.
pub open spec fn is_match<T>(
    items: Seq<T>,
    outcome: Result<Option<&T>, Diagnostic>,
    expected: Result<Option<int>, DiagnosticView>,
) -> bool {
    match outcome {
        Ok(None) => expected matches Ok(None),
        Ok(Some(item)) => expected matches Ok(Some(k)) && 0 <= k < items.len() && *item
            == items[k],
        Err(error) => expected matches Err(e) && e == error@,
    }
}

/// Where the predicate answers each item in one way only, `find_only` returns
/// what `unique_match` says of those answers.
pub proof fn lemma_find_only_exact<T: Spanned, F: Fn(&T) -> Result<bool, Diagnostic>>(
    pred: F,
    items: Seq<T>,
    message: Seq<char>,
    outcome: Result<Option<&T>, Diagnostic>,
    answers: Seq<Result<bool, DiagnosticView>>,
    spans: Seq<Span>,
)
    requires
        find_only_outcome(pred, items, message, outcome),
        answers_of(pred, items, answers, spans),
    ensures
        is_match(items, outcome, unique_match(answers, spans, message)),
{
    let n = items.len() as int;
    assert(answers.take(n) =~= answers);
    match outcome {
        Ok(None) => {
            lemma_scanned_prefix(pred, items, answers, spans, message, n, None);
        },
        Ok(Some(item)) => {
            let k = choose|k: int| #[trigger]
                scanned(pred, items, items.len() as int, Some(k)) && *item == items[k];
            lemma_scanned_prefix(pred, items, answers, spans, message, n, Some(k));
        },
        Err(error) => {
            let (end, found) = choose|end: int, found: Option<int>| #[trigger]
                scanned(pred, items, end, found) && end < items.len() && {
                    ||| fails_with(pred, items[end], error)
                    ||| {
                        &&& found is Some
                        &&& accepts(pred, items[end])
                        &&& error@ == duplicate(message, items[end].span_of())
                    }
                };
            lemma_scanned_prefix(pred, items, answers, spans, message, end, found);
            assert(answers.take(end + 1).drop_last() =~= answers.take(end));
            assert(answers.take(end + 1)[end] == answers[end]);
            assert(spans[end] == items[end].span_of());
            assert(unique_match(answers.take(end + 1), spans, message) matches Err(e) && e
                == error@);
            lemma_failure_stays(answers, spans, message, end + 1, n);
        },
    }
}

/// Returns the item that fulfills the predicate, if there is one.
///
/// The items are asked in order. A failure of the predicate ends the search
/// and is handed on unchanged. A second item that fulfills the predicate ends
/// it too, with a `DuplicateAnnotation` diagnostic that carries the given
/// message and the location of that second item.
///
/// The first clause holds of every predicate, whatever it answers. The second
/// is for a predicate that answers each item in one way only: the outcome is
/// then what `unique_match` says of its answers.
pub fn find_only<'a, T: Spanned, F: Fn(&T) -> Result<bool, Diagnostic>>(
    items: &'a [T],
    error_message_for_multiple_matches: &str,
    pred: F,
) -> (outcome: Result<Option<&'a T>, Diagnostic>)
    requires
        forall|i: int| 0 <= i < items@.len() ==> call_requires(pred, (&#[trigger] items@[i],)),
    ensures
        find_only_outcome(pred, items@, error_message_for_multiple_matches@, outcome),
        forall|answers: Seq<Result<bool, DiagnosticView>>, spans: Seq<Span>| #[trigger]
            answers_of(pred, items@, answers, spans) ==> is_match(
                items@,
                outcome,
                unique_match(answers, spans, error_message_for_multiple_matches@),
            ),
{
    let outcome = scan(items, error_message_for_multiple_matches, pred);
    proof {
        assert forall|answers: Seq<Result<bool, DiagnosticView>>, spans: Seq<Span>| #[trigger]
            answers_of(pred, items@, answers, spans) implies is_match(
            items@,
            outcome,
            unique_match(answers, spans, error_message_for_multiple_matches@),
        ) by {
            lemma_find_only_exact(
                pred,
                items@,
                error_message_for_multiple_matches@,
                outcome,
                answers,
                spans,
            );
        }
    }
    outcome
}

/// Asks the items in order, up to the first failure or the second match.
fn scan<'a, T: Spanned, F: Fn(&T) -> Result<bool, Diagnostic>>(
    items: &'a [T],
    error_message_for_multiple_matches: &str,
    pred: F,
) -> (outcome: Result<Option<&'a T>, Diagnostic>)
    requires
        forall|i: int| 0 <= i < items@.len() ==> call_requires(pred, (&#[trigger] items@[i],)),
    ensures
        find_only_outcome(pred, items@, error_message_for_multiple_matches@, outcome),
{
    let mut result: Option<&'a T> = None;
    let ghost mut found: Option<int> = None;
    let mut index: usize = 0;
    while index < items.len()
        invariant
            scanned(pred, items@, index as int, found),
            result is Some <==> found is Some,
            result matches Some(item) ==> *item == items@[found->0],
            forall|i: int|
                0 <= i < items@.len() ==> call_requires(pred, (&#[trigger] items@[i],)),
        decreases items.len() - index,
    {
        let item = &items[index];
        match pred(item) {
            Err(error) => {
                return Err(error);
            },
            Ok(true) => {
                if result.is_some() {
                    return Err(
                        Diagnostic::new(
                            ErrorKind::DuplicateAnnotation,
                            error_message_for_multiple_matches,
                            item.span(),
                        ),
                    );
                }
                result = Some(item);
                proof {
                    found = Some(index as int);
                }
            },
            Ok(false) => {},
        }
        index = index + 1;
    }
    Ok(result)
}

} // verus!
