//! Turning what was read of a file into a value.
use vstd::prelude::*;

use crate::error::Error;
use crate::text::{blank, is_blank, law_blank_is_all_white_space, white_space};

verus! {

/// What loading a file comes to.
#[derive(Debug, PartialEq, Eq)]
pub enum LoadOutcome<R> {
    /// The file was read and holds this value.
    Loaded(R),
    /// There is no such file.
    Missing,
    /// There is a file, but no value could be had from it.
    Invalid,
}

/// Why a file could not be opened or read.
#[derive(Debug, Clone, Copy, PartialEq, Eq)]
pub enum ReadFailure {
    /// There is no such file.
    NotFound,
    /// Anything else.
    Other,
}

/// What an attempt to read one more line of a file comes to.
#[derive(Debug, PartialEq, Eq)]
pub enum LineRead {
    /// A line, without its line end.
    Line(String),
    /// A line that is not text: its bytes are not valid UTF-8.
    NotText,
    /// The file has no more lines.
    Eof,
    /// Reading failed.
    Failed,
}

/// How far the loading of a file has come that is read line by line.
#[derive(Debug, PartialEq, Eq)]
pub enum LinesProgress<T> {
    /// These values were had from the lines so far; one more line is to be read.
    Reading(Vec<T>),
    /// Loading has come to its end.
    Done(LoadOutcome<Vec<T>>),
}

impl LineRead {
    /// Whether no line follows.
    pub open spec fn ends(self) -> bool {
        self is Eof || self is Failed
    }

    /// Whether no line follows, so that there is nothing more to read.
    pub fn is_end(&self) -> (end: bool)
        ensures
            end == self.ends(),
            end == (self is Eof || self is Failed),
    {
        match self {
            LineRead::Eof | LineRead::Failed => true,
            LineRead::Line(_) | LineRead::NotText => false,
        }
    }
}

/// What loading comes to where a file could not be opened or read.
pub open spec fn outcome_of_failure<R>(failure: ReadFailure) -> LoadOutcome<R> {
    match failure {
        ReadFailure::NotFound => LoadOutcome::Missing,
        ReadFailure::Other => LoadOutcome::Invalid,
    }
}

/// What loading comes to where `parsed` became of the text of the file.
pub open spec fn outcome_of_parsed<T>(parsed: Result<T, Error>) -> LoadOutcome<T> {
    match parsed {
        Ok(value) => LoadOutcome::Loaded(value),
        Err(_) => LoadOutcome::Invalid,
    }
}

/// An outcome with its values seen as a sequence.
pub open spec fn outcome_seen<T>(outcome: LoadOutcome<Vec<T>>) -> LoadOutcome<Seq<T>> {
    match outcome {
        LoadOutcome::Loaded(values) => LoadOutcome::Loaded(values@),
        LoadOutcome::Missing => LoadOutcome::Missing,
        LoadOutcome::Invalid => LoadOutcome::Invalid,
    }
}

/// Whether `parse`, handed the path and this text, may return `parsed`.
pub open spec fn may_parse<T, F: Fn(&str, &str) -> Result<T, Error>>(
    parse: F,
    path: &str,
    text: Seq<char>,
    parsed: Result<T, Error>,
) -> bool {
    exists|data: &str| data@ == text && #[trigger] call_ensures(parse, (path, data), parsed)
}

/// Whether `value` may come of one line of a file: of a blank line and of one that is not text
/// comes nothing; of another what `parse` makes of it, and nothing where that is an error.
pub open spec fn may_yield<T, F: Fn(&str, &str) -> Result<T, Error>>(
    parse: F,
    path: &str,
    read: LineRead,
    value: Option<T>,
) -> bool {
    match read {
        LineRead::Line(line) => if blank(line@) {
            value is None
        } else {
            exists|parsed: Result<T, Error>| #[trigger]
                may_parse(parse, path, line@, parsed) && value == parsed.ok()
        },
        _ => value is None,
    }
}

/// Whether loading a file of which `read` was read may come to `outcome`.
pub open spec fn may_load_text<T, F: Fn(&str, &str) -> Result<T, Error>>(
    parse: F,
    path: &str,
    read: Result<String, ReadFailure>,
    outcome: LoadOutcome<T>,
) -> bool {
    match read {
        Ok(data) => exists|parsed: Result<T, Error>| #[trigger]
            may_parse(parse, path, data@, parsed) && outcome == outcome_of_parsed(parsed),
        Err(failure) => outcome == outcome_of_failure::<T>(failure),
    }
}

/// Whether `values` may come of the lines of a file, one by one, until the reading ends.
pub open spec fn may_yield_all<T, F: Fn(&str, &str) -> Result<T, Error>>(
    parse: F,
    path: &str,
    reads: Seq<LineRead>,
    values: Seq<Option<T>>,
) -> bool {
    &&& values.len() == line_count(reads)
    &&& forall|i: int|
        0 <= i < values.len() ==> may_yield(parse, path, reads[i], #[trigger] values[i])
}

/// Whether loading a file line by line, where `reads` is what the attempts to read its lines came
/// to, may come to `outcome`.
pub open spec fn may_load_lines<T, F: Fn(&str, &str) -> Result<T, Error>>(
    parse: F,
    path: &str,
    reads: Result<Vec<LineRead>, ReadFailure>,
    outcome: LoadOutcome<Seq<T>>,
) -> bool {
    match reads {
        Ok(reads) => exists|values: Seq<Option<T>>| #[trigger]
            may_yield_all(parse, path, reads@, values) && outcome == LoadOutcome::Loaded(
                kept(values),
            ),
        Err(failure) => outcome == outcome_of_failure::<Seq<T>>(failure),
    }
}

/// How many lines come before the reading ends.
pub open spec fn line_count(reads: Seq<LineRead>) -> nat
    decreases reads.len(),
{
    if reads.len() == 0 || reads.first().ends() {
        0
    } else {
        1 + line_count(reads.drop_first())
    }
}

/// The values that there are, in their order.
pub open spec fn kept<T>(values: Seq<Option<T>>) -> Seq<T>
    decreases values.len(),
{
    if values.len() == 0 {
        Seq::empty()
    } else {
        match values.last() {
            Some(value) => kept(values.drop_last()).push(value),
            None => kept(values.drop_last()),
        }
    }
}

proof fn lemma_line_count(reads: Seq<LineRead>, count: int)
    requires
        0 <= count <= reads.len(),
        forall|i: int| 0 <= i < count ==> !(#[trigger] reads[i]).ends(),
        count < reads.len() ==> reads[count].ends(),
    ensures
        line_count(reads) == count,
    decreases reads.len(),
{
    if count > 0 {
        assert(!reads[0].ends());
        let rest = reads.drop_first();
        assert forall|i: int| 0 <= i < count - 1 implies !(#[trigger] rest[i]).ends() by {
            assert(!reads[i + 1].ends());
        }
        lemma_line_count(rest, count - 1);
    }
}

proof fn lemma_kept_push<T>(values: Seq<Option<T>>, value: Option<T>)
    ensures
        kept(values.push(value)) == (match value {
            Some(value) => kept(values).push(value),
            None => kept(values),
        }),
{
    assert(values.push(value).drop_last() =~= values);
}

/// What is kept of some lines and then some more is what is kept of each, one after the other.
pub proof fn law_kept_in_order<T>(before: Seq<Option<T>>, after: Seq<Option<T>>)
    ensures
        kept(before + after) == kept(before) + kept(after),
    decreases after.len(),
{
    if after.len() == 0 {
        assert(before + after =~= before);
        assert(kept(before) + kept(after) =~= kept(before));
    } else {
        law_kept_in_order(before, after.drop_last());
        assert((before + after).drop_last() =~= before + after.drop_last());
        match after.last() {
            Some(value) => {
                assert(kept(before) + kept(after.drop_last()).push(value) =~= (kept(before) + kept(
                    after.drop_last(),
                )).push(value));
            },
            None => {},
        }
    }
}

/// A line of which nothing comes makes no difference to what is kept of the others.
pub proof fn law_skipped_line_makes_no_difference<T>(before: Seq<Option<T>>, after: Seq<Option<T>>)
    ensures
        kept(before.push(None) + after) == kept(before + after),
{
    law_kept_in_order(before.push(None), after);
    law_kept_in_order(before, after);
    lemma_kept_push(before, None);
}

/// Where a value comes of every line, there is one value per line, in the order of the lines.
pub proof fn law_one_value_per_line<T>(values: Seq<T>)
    ensures
        kept(values.map_values(|value: T| Some(value))) == values,
    decreases values.len(),
{
    let some = values.map_values(|value: T| Some(value));
    if values.len() > 0 {
        law_one_value_per_line(values.drop_last());
        assert(some.drop_last() =~= values.drop_last().map_values(|value: T| Some(value)));
        assert(values =~= values.drop_last().push(values.last()));
    } else {
        assert(values =~= Seq::empty());
    }
}

/// No line ends the reading, whatever its text, nor does one that is not text. The end of the file
/// and a failure to read do.
pub proof fn law_only_the_end_ends(line: String)
    ensures
        !LineRead::Line(line).ends(),
        !LineRead::NotText.ends(),
        LineRead::Eof.ends(),
        LineRead::Failed.ends(),
{
}

/// Every line counts, whatever its text, until the reading ends.
pub proof fn law_every_line_counts(line: String, after: Seq<LineRead>)
    ensures
        line_count(seq![LineRead::Line(line)] + after) == 1 + line_count(after),
        line_count(seq![LineRead::NotText] + after) == 1 + line_count(after),
        line_count(seq![LineRead::Eof] + after) == 0,
        line_count(seq![LineRead::Failed] + after) == 0,
        line_count(Seq::empty()) == 0,
{
    assert((seq![LineRead::Line(line)] + after).drop_first() =~= after);
    assert((seq![LineRead::NotText] + after).drop_first() =~= after);
}

/// There are no more lines than attempts to read one.
pub proof fn law_lines_are_read(reads: Seq<LineRead>)
    ensures
        line_count(reads) <= reads.len(),
    decreases reads.len(),
{
    if reads.len() > 0 {
        law_lines_are_read(reads.drop_first());
    }
}

/// Of a line with a character that is not white space comes what `parse` makes of the whole line,
/// and nothing where that is an error. Of a line of white space, and of one that is not text, comes
/// nothing.
pub proof fn law_line_is_parsed<T, F: Fn(&str, &str) -> Result<T, Error>>(
    parse: F,
    path: &str,
    line: String,
    value: Option<T>,
)
    ensures
        may_yield(parse, path, LineRead::Line(line), value) <==> if exists|i: int|
            0 <= i < line@.len() && !white_space(#[trigger] line@[i]) {
            exists|data: &str, parsed: Result<T, Error>|
                data@ == line@ && #[trigger] call_ensures(parse, (path, data), parsed) && value == (
                match parsed {
                    Ok(value) => Some(value),
                    Err(_) => None,
                })
        } else {
            value is None
        },
        may_yield(parse, path, LineRead::NotText, value) <==> value is None,
{
    law_blank_is_all_white_space(line@);
    if !blank(line@) {
        if may_yield(parse, path, LineRead::Line(line), value) {
            let parsed = choose|parsed: Result<T, Error>| #[trigger]
                may_parse(parse, path, line@, parsed) && value == parsed.ok();
            let data = choose|data: &str|
                data@ == line@ && #[trigger] call_ensures(parse, (path, data), parsed);
            assert(call_ensures(parse, (path, data), parsed));
        }
        if exists|data: &str, parsed: Result<T, Error>|
            data@ == line@ && #[trigger] call_ensures(parse, (path, data), parsed) && value == (
            match parsed {
                Ok(value) => Some(value),
                Err(_) => None,
            }) {
            let (data, parsed) = choose|data: &str, parsed: Result<T, Error>|
                data@ == line@ && #[trigger] call_ensures(parse, (path, data), parsed) && value == (
                match parsed {
                    Ok(value) => Some(value),
                    Err(_) => None,
                });
            assert(may_parse(parse, path, line@, parsed));
            assert(value == parsed.ok());
        }
    }
}

/// What is kept of one line is its value, where there is one.
pub proof fn law_kept_of_one<T>(value: T)
    ensures
        kept(seq![Some(value)]) == seq![value],
        kept(seq![None::<T>]) == Seq::<T>::empty(),
        kept(Seq::<Option<T>>::empty()) == Seq::<T>::empty(),
{
    let empty = Seq::<Option<T>>::empty();
    lemma_kept_push(empty, Some(value));
    lemma_kept_push(empty, None);
    assert(empty.push(Some(value)) =~= seq![Some(value)]);
    assert(empty.push(None) =~= seq![None::<T>]);
    assert(Seq::<T>::empty().push(value) =~= seq![value]);
}

/// A file that is not there is missing; one that cannot be read for any other reason, or whose text
/// does not parse, is invalid; otherwise what its whole text parses to is loaded.
pub proof fn law_text_is_loaded<T, F: Fn(&str, &str) -> Result<T, Error>>(
    parse: F,
    path: &str,
    read: Result<String, ReadFailure>,
    outcome: LoadOutcome<T>,
)
    ensures
        may_load_text(parse, path, read, outcome) <==> (match read {
            Ok(text) => exists|data: &str, parsed: Result<T, Error>|
                data@ == text@ && #[trigger] call_ensures(parse, (path, data), parsed) && (
                match parsed {
                    Ok(value) => outcome == LoadOutcome::Loaded(value),
                    Err(_) => outcome is Invalid,
                }),
            Err(ReadFailure::NotFound) => outcome is Missing,
            Err(ReadFailure::Other) => outcome is Invalid,
        }),
{
    if let Ok(text) = read {
        if may_load_text(parse, path, read, outcome) {
            let parsed = choose|parsed: Result<T, Error>| #[trigger]
                may_parse(parse, path, text@, parsed) && outcome == outcome_of_parsed(parsed);
            let data = choose|data: &str|
                data@ == text@ && #[trigger] call_ensures(parse, (path, data), parsed);
            assert(call_ensures(parse, (path, data), parsed));
        }
        if exists|data: &str, parsed: Result<T, Error>|
            data@ == text@ && #[trigger] call_ensures(parse, (path, data), parsed) && (
            match parsed {
                Ok(value) => outcome == LoadOutcome::Loaded(value),
                Err(_) => outcome is Invalid,
            }) {
            let (data, parsed) = choose|data: &str, parsed: Result<T, Error>|
                data@ == text@ && #[trigger] call_ensures(parse, (path, data), parsed) && (
                match parsed {
                    Ok(value) => outcome == LoadOutcome::Loaded(value),
                    Err(_) => outcome is Invalid,
                });
            assert(may_parse(parse, path, text@, parsed));
        }
    }
}

/// What became of the text of a file is loaded, or the file is invalid where it did not parse.
pub proof fn law_parsed_is_loaded<T>(value: T, error: Error)
    ensures
        outcome_of_parsed(Ok::<T, Error>(value)) == LoadOutcome::Loaded(value),
        outcome_of_parsed(Err::<T, Error>(error)) is Invalid,
        outcome_of_failure::<T>(ReadFailure::NotFound) is Missing,
        outcome_of_failure::<T>(ReadFailure::Other) is Invalid,
{
}

/// A file of lines that is not there is missing, and one that cannot be opened for any other reason
/// is invalid. One that was opened is loaded, whatever its lines hold and however their reading
/// ends.
pub proof fn law_lines_are_loaded<T, F: Fn(&str, &str) -> Result<T, Error>>(
    parse: F,
    path: &str,
    reads: Result<Vec<LineRead>, ReadFailure>,
    outcome: LoadOutcome<Seq<T>>,
)
    requires
        may_load_lines(parse, path, reads, outcome),
    ensures
        match reads {
            Ok(_) => outcome is Loaded,
            Err(ReadFailure::NotFound) => outcome is Missing,
            Err(ReadFailure::Other) => outcome is Invalid,
        },
{
}

/// Where the reading has ended, or has nothing left to read, no values follow.
pub proof fn law_nothing_after_the_end<T, F: Fn(&str, &str) -> Result<T, Error>>(
    parse: F,
    path: &str,
    reads: Vec<LineRead>,
    outcome: LoadOutcome<Seq<T>>,
)
    requires
        reads@.len() > 0 ==> reads@[0] is Eof || reads@[0] is Failed,
        may_load_lines(parse, path, Ok(reads), outcome),
    ensures
        outcome == LoadOutcome::Loaded(Seq::<T>::empty()),
{
    let values = choose|values: Seq<Option<T>>| #[trigger]
        may_yield_all(parse, path, reads@, values) && outcome == LoadOutcome::Loaded(kept(values));
    assert(values =~= Seq::empty());
}

/// The values of a file are what comes of its first line, followed by the values of the rest. A
/// first line with a character that is not white space gives what `parse` makes of it, whatever its
/// text; one of white space, one that is not text and one that does not parse give nothing.
pub proof fn law_values_line_by_line<T, F: Fn(&str, &str) -> Result<T, Error>>(
    parse: F,
    path: &str,
    reads: Vec<LineRead>,
    rest: Vec<LineRead>,
    outcome: LoadOutcome<Seq<T>>,
)
    requires
        reads@.len() > 0,
        reads@[0] is Line || reads@[0] is NotText,
        rest@ == reads@.drop_first(),
        may_load_lines(parse, path, Ok(reads), outcome),
    ensures
        exists|first: Seq<T>, others: Seq<T>|
            {
                &&& outcome == LoadOutcome::Loaded(#[trigger] (first + others))
                &&& may_load_lines(parse, path, Ok(rest), LoadOutcome::Loaded(others))
                &&& match reads@[0] {
                    LineRead::Line(line) => if exists|i: int|
                        0 <= i < line@.len() && !white_space(#[trigger] line@[i]) {
                        exists|data: &str, parsed: Result<T, Error>|
                            data@ == line@ && #[trigger] call_ensures(parse, (path, data), parsed)
                                && first == (match parsed {
                                Ok(value) => seq![value],
                                Err(_) => Seq::empty(),
                            })
                    } else {
                        first == Seq::<T>::empty()
                    },
                    _ => first == Seq::<T>::empty(),
                }
            },
{
    let values = choose|values: Seq<Option<T>>| #[trigger]
        may_yield_all(parse, path, reads@, values) && outcome == LoadOutcome::Loaded(kept(values));
    let after = values.drop_first();
    law_lines_are_read(reads@);
    assert(values.len() > 0);
    assert(values =~= seq![values[0]] + after);
    law_kept_in_order(seq![values[0]], after);
    assert forall|i: int| 0 <= i < after.len() implies may_yield(
        parse,
        path,
        rest@[i],
        #[trigger] after[i],
    ) by {
        assert(may_yield(parse, path, reads@[i + 1], values[i + 1]));
    }
    let others = kept(after);
    let others_read = Ok::<Vec<LineRead>, ReadFailure>(rest);
    assert(may_yield_all(parse, path, others_read->Ok_0@, after));
    assert(may_load_lines(parse, path, Ok(rest), LoadOutcome::Loaded(others)));
    let first = kept(seq![values[0]]);
    assert(may_yield(parse, path, reads@[0], values[0]));
    match values[0] {
        Some(value) => {
            law_kept_of_one(value);
        },
        None => {
            let empty = Seq::<Option<T>>::empty();
            lemma_kept_push(empty, None);
            assert(empty.push(None) =~= seq![values[0]]);
        },
    }
    if let LineRead::Line(line) = reads@[0] {
        law_line_is_parsed(parse, path, line, values[0]);
    }
    assert(outcome == LoadOutcome::Loaded(first + others));
}

/// Contracts see the values of an outcome, in their order.
pub proof fn law_outcome_is_seen<T>(values: Vec<T>)
    ensures
        outcome_seen(LoadOutcome::Loaded(values)) == LoadOutcome::Loaded(values@),
        outcome_seen(LoadOutcome::<Vec<T>>::Missing) is Missing,
        outcome_seen(LoadOutcome::<Vec<T>>::Invalid) is Invalid,
{
}

fn failed<R>(failure: ReadFailure) -> (outcome: LoadOutcome<R>)
    ensures
        outcome == outcome_of_failure::<R>(failure),
{
    match failure {
        ReadFailure::NotFound => LoadOutcome::Missing,
        ReadFailure::Other => LoadOutcome::Invalid,
    }
}

/// Loads a file whose whole text is one value.
pub struct StringLoader;

impl StringLoader {
    /// What became of the text of a file, as an outcome.
    pub fn loaded<T>(parsed: Result<T, Error>) -> (outcome: LoadOutcome<T>)
        ensures
            outcome == outcome_of_parsed(parsed),
    {
        match parsed {
            Ok(value) => LoadOutcome::Loaded(value),
            Err(_) => LoadOutcome::Invalid,
        }
    }

    /// Loads the value of the file at `path`, of which `read` was read.
    pub fn load<T, F: Fn(&str, &str) -> Result<T, Error>>(
        path: &str,
        read: Result<String, ReadFailure>,
        parse: &F,
    ) -> (outcome: LoadOutcome<T>)
        requires
            forall|data: &str| call_requires(*parse, (path, data)),
        ensures
            may_load_text(*parse, path, read, outcome),
    {
        match read {
            Ok(data) => {
                let parsed = parse(path, data.as_str());
                assert(may_parse(*parse, path, data@, parsed));
                Self::loaded(parsed)
            },
            Err(failure) => failed(failure),
        }
    }
}

/// Loads a file each line of which is a value of its own.
pub struct LinesLoader;

impl LinesLoader {
    /// Adds what became of a line to the values had so far.
    pub fn keep<T>(output: Vec<T>, parsed: Result<T, Error>) -> (values: Vec<T>)
        ensures
            values@ == (match parsed {
                Ok(value) => output@.push(value),
                Err(_) => output@,
            }),
    {
        let mut values = output;
        if let Ok(value) = parsed {
            values.push(value);
        }
        values
    }

    /// Goes on with one more attempt to read a line, where `output` was had from the lines so far.
    ///
    /// A blank line is passed over. A line that does not decode is skipped, be it for its JSON or
    /// because it is not even text. What was had so far is what the file holds when there are no
    /// more lines, and also when reading fails.
    pub fn next_line<T, F: Fn(&str, &str) -> Result<T, Error>>(
        path: &str,
        output: Vec<T>,
        read: &LineRead,
        parse: &F,
    ) -> (progress: LinesProgress<T>)
        requires
            forall|data: &str| call_requires(*parse, (path, data)),
        ensures
            if read.ends() {
                progress is Done && outcome_seen(progress->Done_0) == LoadOutcome::Loaded(output@)
            } else {
                progress is Reading && exists|value: Option<T>| #[trigger]
                    may_yield(*parse, path, *read, value) && progress->Reading_0@ == (match value {
                        Some(value) => output@.push(value),
                        None => output@,
                    })
            },
    {
        match read {
            LineRead::Line(line) => {
                if is_blank(line.as_str()) {
                    assert(may_yield(*parse, path, *read, None::<T>));
                    return LinesProgress::Reading(output);
                }
                let parsed = parse(path, line.as_str());
                assert(may_parse(*parse, path, line@, parsed));
                assert(may_yield(*parse, path, *read, parsed.ok()));
                LinesProgress::Reading(Self::keep(output, parsed))
            },
            LineRead::NotText => {
                assert(may_yield(*parse, path, *read, None::<T>));
                LinesProgress::Reading(output)
            },
            LineRead::Eof | LineRead::Failed => LinesProgress::Done(LoadOutcome::Loaded(output)),
        }
    }

    /// Loads the values of the file at `path`. `reads` is what the attempts to read its lines came
    /// to, in their order, or why it could not be opened.
    pub fn load<T, F: Fn(&str, &str) -> Result<T, Error>>(
        path: &str,
        reads: Result<Vec<LineRead>, ReadFailure>,
        parse: &F,
    ) -> (outcome: LoadOutcome<Vec<T>>)
        requires
            forall|data: &str| call_requires(*parse, (path, data)),
        ensures
            may_load_lines(*parse, path, reads, outcome_seen(outcome)),
    {
        let attempts = match reads {
            Ok(attempts) => attempts,
            Err(failure) => {
                return failed(failure);
            },
        };
        let mut output: Vec<T> = Vec::new();
        let ghost mut values: Seq<Option<T>> = Seq::empty();
        for i in 0..attempts.len()
            invariant
                forall|data: &str| call_requires(*parse, (path, data)),
                reads == Ok::<Vec<LineRead>, ReadFailure>(attempts),
                values.len() == i,
                output@ == kept(values),
                forall|j: int| 0 <= j < i ==> !(#[trigger] attempts@[j]).ends(),
                forall|j: int|
                    0 <= j < i ==> may_yield(*parse, path, attempts@[j], #[trigger] values[j]),
        {
            let ghost before = output@;
            match Self::next_line(path, output, &attempts[i], parse) {
                LinesProgress::Reading(more) => {
                    proof {
                        let value = choose|value: Option<T>| #[trigger]
                            may_yield(*parse, path, attempts@[i as int], value) && more@ == (
                            match value {
                                Some(value) => before.push(value),
                                None => before,
                            });
                        lemma_kept_push(values, value);
                        values = values.push(value);
                    }
                    output = more;
                },
                LinesProgress::Done(outcome) => {
                    proof {
                        lemma_line_count(attempts@, i as int);
                        assert(may_yield_all(*parse, path, reads->Ok_0@, values));
                        assert(outcome_seen(outcome) == LoadOutcome::Loaded(kept(values)));
                    }
                    return outcome;
                },
            }
        }
        proof {
            lemma_line_count(attempts@, attempts@.len() as int);
            assert(may_yield_all(*parse, path, attempts@, values));
        }
        LoadOutcome::Loaded(output)
    }
}

} // verus!
