//! Watching a JSON file, or a file each line of which is JSON.
use vstd::prelude::*;

use crate::json::{decode_json, json_document};
use crate::loader::{
    kept, law_kept_in_order, law_kept_of_one, line_count, may_yield_all, outcome_of_failure,
    LineRead, LoadOutcome, ReadFailure,
};
use crate::serde_watch::{
    action_seen, lines_watch, text_watch, with_outcome, Run, WatchAction, WatchEvent, WatchPhase,
};
use crate::text::{blank, white_space};

verus! {

/// What loading a JSON file comes to of which `read` was read.
pub open spec fn json_outcome(read: Result<String, ReadFailure>) -> LoadOutcome<
    serde_json::Value,
> {
    match read {
        Ok(data) => match json_document(data@) {
            Ok(value) => LoadOutcome::Loaded(value),
            Err(_) => LoadOutcome::Invalid,
        },
        Err(failure) => outcome_of_failure(failure),
    }
}

/// The document on a line of a JSON Lines file. A blank line, one that is not text and one that is
/// not JSON hold none.
pub open spec fn json_line(read: LineRead) -> Option<serde_json::Value> {
    match read {
        LineRead::Line(line) => if blank(line@) {
            None
        } else {
            json_document(line@).ok()
        },
        _ => None,
    }
}

/// The documents of a JSON Lines file, where `reads` is what the attempts to read its lines came
/// to: those on the lines before the reading ended, in their order.
pub open spec fn json_lines(reads: Seq<LineRead>) -> Seq<serde_json::Value> {
    kept(reads.take(line_count(reads) as int).map_values(|read: LineRead| json_line(read)))
}

/// What loading a JSON Lines file comes to.
pub open spec fn jsonlines_outcome(reads: Result<Vec<LineRead>, ReadFailure>) -> LoadOutcome<
    Seq<serde_json::Value>,
> {
    match reads {
        Ok(reads) => LoadOutcome::Loaded(json_lines(reads@)),
        Err(failure) => outcome_of_failure(failure),
    }
}

/// Whether each of these attempts gave a line.
pub open spec fn all_lines(reads: Seq<LineRead>) -> bool {
    forall|i: int| 0 <= i < reads.len() ==> !(#[trigger] reads[i]).ends()
}

proof fn lemma_line_count_of_all(before: Seq<LineRead>, after: Seq<LineRead>)
    requires
        all_lines(before),
    ensures
        line_count(before + after) == before.len() + line_count(after),
        line_count(before) == before.len(),
    decreases before.len(),
{
    if before.len() == 0 {
        assert(before + after =~= after);
    } else {
        let rest = before.drop_first();
        assert(!before[0].ends());
        assert forall|i: int| 0 <= i < rest.len() implies !(#[trigger] rest[i]).ends() by {
            assert(!before[i + 1].ends());
        }
        lemma_line_count_of_all(rest, after);
        assert((before + after).drop_first() =~= rest + after);
    }
}

proof fn lemma_line_count_bound(reads: Seq<LineRead>)
    ensures
        line_count(reads) <= reads.len(),
    decreases reads.len(),
{
    if reads.len() > 0 {
        lemma_line_count_bound(reads.drop_first());
    }
}

/// The documents of a file are those of its first lines followed by those of the rest.
pub proof fn law_documents_in_order(before: Seq<LineRead>, after: Seq<LineRead>)
    requires
        all_lines(before),
    ensures
        json_lines(before + after) == json_lines(before) + json_lines(after),
{
    let of_line = |read: LineRead| json_line(read);
    lemma_line_count_of_all(before, after);
    lemma_line_count_bound(after);
    let rest = after.take(line_count(after) as int);
    assert((before + after).take(line_count(before + after) as int).map_values(of_line)
        =~= before.take(line_count(before) as int).map_values(of_line) + rest.map_values(of_line));
    law_kept_in_order(
        before.take(line_count(before) as int).map_values(of_line),
        rest.map_values(of_line),
    );
}

/// A line that holds no document, be it blank, not text or not JSON, is skipped, and the rest of
/// the file is processed as if the line were not there.
pub proof fn law_bad_line_is_skipped(
    before: Seq<LineRead>,
    line: LineRead,
    after: Seq<LineRead>,
)
    requires
        all_lines(before),
        !line.ends(),
        json_line(line) is None,
    ensures
        json_lines(before + seq![line] + after) == json_lines(before + after),
{
    let of_line = |read: LineRead| json_line(read);
    assert(all_lines(seq![line]));
    assert(before + seq![line] + after =~= before + (seq![line] + after));
    law_documents_in_order(before, seq![line] + after);
    law_documents_in_order(seq![line], after);
    law_documents_in_order(before, after);
    lemma_line_count_of_all(seq![line], Seq::empty());
    let values = seq![line].take(1).map_values(of_line);
    assert(values.last() is None);
    assert(values.drop_last() =~= Seq::empty());
    assert(kept(values) == kept(Seq::<Option<serde_json::Value>>::empty()));
    assert(json_lines(seq![line]) =~= Seq::empty());
    assert(Seq::empty() + json_lines(after) =~= json_lines(after));
}

/// Where reading ends, by the end of the file or by a failure, the documents are those of the lines
/// read until then.
pub proof fn law_documents_until_end(before: Seq<LineRead>, end: LineRead, after: Seq<LineRead>)
    requires
        all_lines(before),
        end.ends(),
    ensures
        json_lines(before + seq![end] + after) == json_lines(before),
{
    assert(before + seq![end] + after =~= before + (seq![end] + after));
    law_documents_in_order(before, seq![end] + after);
    assert(line_count(seq![end] + after) == 0);
    assert((seq![end] + after).take(0).map_values(|read: LineRead| json_line(read)) =~= Seq::<
        Option<serde_json::Value>,
    >::empty());
    assert(json_lines(before) + Seq::empty() =~= json_lines(before));
}

/// Where every line of a file is JSON, there is one document per line, in the order of the lines.
pub proof fn law_one_document_per_line(reads: Seq<LineRead>, documents: Seq<serde_json::Value>)
    requires
        all_lines(reads),
        documents.len() == reads.len(),
        forall|i: int|
            0 <= i < reads.len() ==> json_line(#[trigger] reads[i]) == Some(documents[i]),
    ensures
        json_lines(reads) == documents,
{
    lemma_line_count_of_all(reads, Seq::empty());
    assert(reads.take(reads.len() as int).map_values(|read: LineRead| json_line(read))
        =~= documents.map_values(|value: serde_json::Value| Some(value)));
    crate::loader::law_one_value_per_line(documents);
}

/// A line with a character that is not white space holds the document that the whole line is, where
/// it is JSON. A line of white space and one that is not text hold none.
pub proof fn law_line_is_a_document(line: String)
    ensures
        (exists|i: int| 0 <= i < line@.len() && !white_space(#[trigger] line@[i])) ==> json_line(
            LineRead::Line(line),
        ) == (match json_document(line@) {
            Ok(value) => Some(value),
            Err(_) => None,
        }),
        (forall|i: int| 0 <= i < line@.len() ==> white_space(#[trigger] line@[i])) ==> json_line(
            LineRead::Line(line),
        ) is None,
        json_line(LineRead::NotText) is None,
{
    crate::text::law_blank_is_all_white_space(line@);
}

/// The documents of a file are the one on its first line, if that holds one, followed by those of
/// the rest, whatever the text of the first line. Where the first attempt finds the end of the file
/// or fails, there are none.
pub proof fn law_documents_line_by_line(line: String, after: Seq<LineRead>)
    ensures
        json_lines(seq![LineRead::Line(line)] + after) == (if exists|i: int|
            0 <= i < line@.len() && !white_space(#[trigger] line@[i]) {
            match json_document(line@) {
                Ok(value) => seq![value],
                Err(_) => Seq::empty(),
            }
        } else {
            Seq::empty()
        }) + json_lines(after),
        json_lines(seq![LineRead::NotText] + after) == json_lines(after),
        json_lines(seq![LineRead::Eof] + after) == Seq::<serde_json::Value>::empty(),
        json_lines(seq![LineRead::Failed] + after) == Seq::<serde_json::Value>::empty(),
        json_lines(Seq::empty()) == Seq::<serde_json::Value>::empty(),
{
    let none = Seq::<LineRead>::empty();
    let read = LineRead::Line(line);
    let of_line = |read: LineRead| json_line(read);
    law_line_is_a_document(line);
    assert(none.take(0).map_values(of_line) =~= Seq::empty());
    assert(json_lines(none) =~= Seq::empty());
    assert(all_lines(none));
    assert(all_lines(seq![read]));
    law_documents_in_order(seq![read], after);
    lemma_line_count_of_all(seq![read], none);
    assert(seq![read].take(1).map_values(of_line) =~= seq![json_line(read)]);
    match json_line(read) {
        Some(value) => {
            law_kept_of_one(value);
        },
        None => {
            assert(seq![json_line(read)].drop_last() =~= Seq::empty());
            assert(kept(seq![json_line(read)]) =~= Seq::empty());
        },
    }
    law_bad_line_is_skipped(none, LineRead::NotText, after);
    assert(none + seq![LineRead::NotText] + after =~= seq![LineRead::NotText] + after);
    assert(none + after =~= after);
    law_documents_until_end(none, LineRead::Eof, after);
    law_documents_until_end(none, LineRead::Failed, after);
    assert(none + seq![LineRead::Eof] + after =~= seq![LineRead::Eof] + after);
    assert(none + seq![LineRead::Failed] + after =~= seq![LineRead::Failed] + after);
}

/// A JSON file is loaded with the document that its whole text is, and is invalid where the text is
/// not JSON. A file, of one document or of lines, that is not there is missing, and one that cannot
/// be opened or read for any other reason is invalid. A JSON Lines file that was opened is loaded
/// with the documents on its lines.
pub proof fn law_files_are_loaded(data: String, value: serde_json::Value, reads: Vec<LineRead>)
    ensures
        json_document(data@) == Ok::<serde_json::Value, Seq<char>>(value) ==> json_outcome(Ok(data))
            == LoadOutcome::Loaded(value),
        json_document(data@) is Err ==> json_outcome(Ok(data)) is Invalid,
        json_outcome(Err(ReadFailure::NotFound)) is Missing,
        json_outcome(Err(ReadFailure::Other)) is Invalid,
        jsonlines_outcome(Ok(reads)) == LoadOutcome::Loaded(json_lines(reads@)),
        jsonlines_outcome(Err(ReadFailure::NotFound)) is Missing,
        jsonlines_outcome(Err(ReadFailure::Other)) is Invalid,
{
}

/// When a JSON file has changed, the receiver's value becomes the document that the file holds. It
/// becomes `None` if the file is deleted, and does not change if the file exists but cannot be read
/// or does not parse.
pub proof fn law_json_change(run: Run<serde_json::Value>, read: Result<String, ReadFailure>)
    requires
        run.phase is Waiting,
    ensures
        run.reload(json_outcome(read)).phase is Waiting,
        run.reload(json_outcome(read)).value == (match read {
            Ok(data) => match json_document(data@) {
                Ok(value) => Some(value),
                Err(_) => run.value,
            },
            Err(ReadFailure::NotFound) => None,
            Err(ReadFailure::Other) => run.value,
        }),
{
}

/// When a JSON Lines file has changed, the receiver's value becomes the documents on its lines,
/// whatever else the lines hold. It becomes `None` if the file is deleted, and does not change if
/// the file exists but cannot be opened.
pub proof fn law_jsonlines_change(
    run: Run<Seq<serde_json::Value>>,
    reads: Result<Vec<LineRead>, ReadFailure>,
)
    requires
        run.phase is Waiting,
    ensures
        run.reload(jsonlines_outcome(reads)).phase is Waiting,
        run.reload(jsonlines_outcome(reads)).value == (match reads {
            Ok(reads) => Some(json_lines(reads@)),
            Err(ReadFailure::NotFound) => None,
            Err(ReadFailure::Other) => run.value,
        }),
{
}

/// Takes the task that watches the JSON file at `path` one event further.
///
/// The receiver's value is updated each time the file changes. If the file is deleted, it becomes
/// `None`. If the file exists but its contents cannot be parsed, it does not change.
pub fn json_watch(
    path: &str,
    phase: WatchPhase,
    event: WatchEvent<Result<String, ReadFailure>>,
) -> (next: (WatchPhase, WatchAction<serde_json::Value>))
    ensures
        next == phase.after(with_outcome(event, json_outcome(event->Loaded_0))),
        phase is Starting && event is Watching ==> (match event->Watching_0 {
            Ok(()) => next.0 is Waiting && next.1 is AwaitChange,
            Err(error) => next.0 is Stopped && next.1 == WatchAction::<serde_json::Value>::Fail(
                error,
            ),
        }),
        phase is Waiting && event is Changed ==> (match event->Changed_0 {
            Ok(()) => next.0 is Loading && next.1 is Load,
            Err(_) => next.0 is Stopped && next.1 is Stop,
        }),
        phase is Sending && event is Sent ==> (match event->Sent_0 {
            Ok(()) => next.0 is Waiting && next.1 is AwaitChange,
            Err(()) => next.0 is Stopped && next.1 is Stop,
        }),
{
    text_watch(path, phase, event, &decode_json)
}

/// Takes the task that watches the JSON Lines file at `path` one event further.
///
/// Each line of the file holds one document. A line that holds invalid JSON is skipped, and the
/// rest are processed. If the file is deleted, the receiver's value becomes `None`. If the file
/// exists but cannot be opened, it does not change.
pub fn jsonlines_watch(
    path: &str,
    phase: WatchPhase,
    event: WatchEvent<Result<Vec<LineRead>, ReadFailure>>,
) -> (next: (WatchPhase, WatchAction<Vec<serde_json::Value>>))
    ensures
        (next.0, action_seen(next.1)) == phase.after(
            with_outcome(event, jsonlines_outcome(event->Loaded_0)),
        ),
        phase is Starting && event is Watching ==> (match event->Watching_0 {
            Ok(()) => next.0 is Waiting && next.1 is AwaitChange,
            Err(error) => {
                &&& next.0 is Stopped
                &&& next.1 == WatchAction::<Vec<serde_json::Value>>::Fail(error)
            },
        }),
        phase is Waiting && event is Changed ==> (match event->Changed_0 {
            Ok(()) => next.0 is Loading && next.1 is Load,
            Err(_) => next.0 is Stopped && next.1 is Stop,
        }),
        phase is Sending && event is Sent ==> (match event->Sent_0 {
            Ok(()) => next.0 is Waiting && next.1 is AwaitChange,
            Err(()) => next.0 is Stopped && next.1 is Stop,
        }),
{
    proof {
        if event is Loaded && event->Loaded_0 is Ok {
            let reads = event->Loaded_0->Ok_0;
            lemma_line_count_bound(reads@);
            assert forall|values: Seq<Option<serde_json::Value>>| #[trigger]
                may_yield_all(decode_json, path, reads@, values) implies kept(values)
                == json_lines(reads@) by {
                assert(values =~= reads@.take(line_count(reads@) as int).map_values(
                    |read: LineRead| json_line(read),
                ));
            }
        }
    }
    lines_watch(path, phase, event, &decode_json)
}

} // verus!
