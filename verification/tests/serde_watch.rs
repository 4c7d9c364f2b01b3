use serde_json::Value;
use std::string::FromUtf8Error;
use tokio::io::{AsyncBufReadExt, BufReader};
use tokio_file_watch::json::{decode_json, decoded};
use tokio_file_watch::loader::{
    LineRead, LinesLoader, LinesProgress, LoadOutcome, ReadFailure, StringLoader,
};
use tokio_file_watch::serde_watch::{
    lines_watch, serde_watch, start, text_watch, WatchAction, WatchEvent, WatchPhase,
};
use tokio_file_watch::{json_watch, jsonlines_watch, Error};

/// What reading the lines of a file comes to.
fn lines(contents: &[u8]) -> Vec<LineRead> {
    let runtime = tokio::runtime::Builder::new_current_thread().build().unwrap();
    runtime.block_on(async {
        let mut lines = BufReader::new(contents).lines();
        let mut reads = Vec::new();
        loop {
            reads.push(match lines.next_line().await {
                Ok(Some(line)) => LineRead::Line(line),
                Ok(None) => LineRead::Eof,
                Err(err) if err.get_ref().is_some_and(|inner| inner.is::<FromUtf8Error>()) => {
                    LineRead::NotText
                }
                Err(_) => LineRead::Failed,
            });
            if reads.last().unwrap().is_end() {
                return reads;
            }
        }
    })
}

/// A task that watches one file, with a receiver that never goes away.
struct Task<L, R> {
    step: fn(&str, WatchPhase, WatchEvent<L>) -> (WatchPhase, WatchAction<R>),
    phase: WatchPhase,
    value: Option<R>,
    sent: usize,
}

impl<L, R> Task<L, R> {
    fn start(
        step: fn(&str, WatchPhase, WatchEvent<L>) -> (WatchPhase, WatchAction<R>),
        loaded: L,
    ) -> Self {
        let (phase, action) = start::<R>();
        assert!(matches!(action, WatchAction::Load));
        let (phase, action) = step("file.txt", phase, WatchEvent::Loaded(loaded));
        let value = match action {
            WatchAction::Open(value) => value,
            _ => panic!("the channel is to be opened"),
        };
        let (phase, action) = step("file.txt", phase, WatchEvent::Watching(Ok(())));
        assert!(matches!(action, WatchAction::AwaitChange));
        Task { step, phase, value, sent: 0 }
    }

    fn change(&mut self, loaded: L) {
        let (phase, action) = (self.step)("file.txt", self.phase, WatchEvent::Changed(Ok(())));
        assert!(matches!(action, WatchAction::Load));
        let (phase, action) = (self.step)("file.txt", phase, WatchEvent::Loaded(loaded));
        self.phase = phase;
        if let WatchAction::Send(value) = action {
            self.value = value;
            self.sent += 1;
            let (phase, action) = (self.step)("file.txt", self.phase, WatchEvent::Sent(Ok(())));
            assert!(matches!(action, WatchAction::AwaitChange));
            self.phase = phase;
        } else {
            assert!(matches!(action, WatchAction::AwaitChange));
        }
        assert_eq!(self.phase, WatchPhase::Waiting);
    }
}

fn text(contents: &str) -> Result<String, ReadFailure> {
    Ok(contents.to_string())
}

#[test]
fn serde_watch_test_update() {
    let mut watcher = Task::start(json_watch, text(r#"{"message": "Hello World!"}"#));
    assert_eq!(watcher.value.as_ref().unwrap()["message"], "Hello World!");

    watcher.change(text(r#"{"message": "Hello World 2!"}"#));
    assert_eq!(watcher.value.as_ref().unwrap()["message"], "Hello World 2!");
}

#[test]
fn test_update_lines() {
    let mut watcher = Task::start(
        jsonlines_watch,
        Ok(lines(
            br#"{"message": "Hello World!"}
{"message": "Hello Again!"}"#,
        )),
    );
    let vec = watcher.value.as_ref().unwrap();
    assert_eq!(vec.len(), 2);
    assert_eq!(vec[0]["message"], "Hello World!");
    assert_eq!(vec[1]["message"], "Hello Again!");

    watcher.change(Ok(lines(
        br#"{"message": "Hello World 2!"}
{"message": "Hello Again 2!"}"#,
    )));
    let vec = watcher.value.as_ref().unwrap();
    assert_eq!(vec.len(), 2);
    assert_eq!(vec[0]["message"], "Hello World 2!");
    assert_eq!(vec[1]["message"], "Hello Again 2!");
}

#[test]
fn test_update_lines_with_some_parsing_issues() {
    let mut watcher = Task::start(
        jsonlines_watch,
        Ok(lines(
            br#"{"message": "Hello World!"}
            {"message": BROKEN}
{"message": "Hello Again!"}"#,
        )),
    );
    let vec = watcher.value.as_ref().unwrap();
    assert_eq!(vec.len(), 2);
    assert_eq!(vec[0]["message"], "Hello World!");
    assert_eq!(vec[1]["message"], "Hello Again!");

    watcher.change(Ok(lines(
        b"{\"message\":\"Hello World 2!\"}\n{\"message\": \"Hello Again 2!\"}\r\nzzzz\n{\"message\": \"Hello Again Again 2!\"}\n\r",
    )));
    let vec = watcher.value.as_ref().unwrap();
    assert_eq!(vec.len(), 3);
    assert_eq!(vec[0]["message"], "Hello World 2!");
    assert_eq!(vec[1]["message"], "Hello Again 2!");
    assert_eq!(vec[2]["message"], "Hello Again Again 2!");
}

#[test]
fn serde_watch_test_delete() {
    let mut watcher = Task::start(json_watch, text(r#"{"message": "Hello World!"}"#));
    assert_eq!(watcher.value.as_ref().unwrap()["message"], "Hello World!");

    watcher.change(Err(ReadFailure::NotFound));
    assert!(watcher.value.is_none());
}

#[test]
fn a_file_that_does_not_parse_changes_nothing() {
    let mut watcher = Task::start(json_watch, text("[1]"));
    watcher.change(text("[1"));
    watcher.change(Err(ReadFailure::Other));
    assert_eq!(watcher.value.as_ref().unwrap()[0], 1);
    assert_eq!(watcher.sent, 0);
    watcher.change(text("[2]"));
    assert_eq!(watcher.value.as_ref().unwrap()[0], 2);
    assert_eq!(watcher.sent, 1);
}

#[test]
fn a_receiver_starts_without_a_value_where_there_is_none() {
    assert!(Task::start(json_watch, Err(ReadFailure::NotFound)).value.is_none());
    assert!(Task::start(json_watch, Err(ReadFailure::Other)).value.is_none());
    assert!(Task::start(json_watch, text("nonsense")).value.is_none());
    assert!(Task::start(jsonlines_watch, Err(ReadFailure::NotFound)).value.is_none());
    assert!(Task::start(jsonlines_watch, Err(ReadFailure::Other)).value.is_none());
    assert_eq!(Task::start(jsonlines_watch, Ok(lines(b""))).value, Some(vec![]));
}

#[test]
fn a_deleted_lines_file_clears_and_an_unopened_one_keeps() {
    let mut watcher = Task::start(jsonlines_watch, Ok(lines(b"1\n2\n")));
    watcher.change(Err(ReadFailure::Other));
    assert_eq!(watcher.value, Some(vec![Value::from(1), Value::from(2)]));
    watcher.change(Err(ReadFailure::NotFound));
    assert_eq!(watcher.value, None);
    watcher.change(Ok(lines(b"3")));
    assert_eq!(watcher.value, Some(vec![Value::from(3)]));
}

#[test]
fn a_line_that_is_not_text_is_skipped() {
    let watcher = Task::start(jsonlines_watch, Ok(lines(b"1\n\"\xff\"\n\n \t\r\n2\n")));
    assert_eq!(watcher.value, Some(vec![Value::from(1), Value::from(2)]));
}

#[test]
fn a_failed_read_keeps_the_lines_before_it() {
    let reads = vec![
        LineRead::Line("1".to_string()),
        LineRead::Failed,
        LineRead::Line("2".to_string()),
    ];
    let watcher = Task::start(jsonlines_watch, Ok(reads));
    assert_eq!(watcher.value, Some(vec![Value::from(1)]));
}

#[test]
fn lines_are_loaded_one_by_one() {
    let mut asked = Vec::new();
    let mut output: Vec<usize> = Vec::new();
    let parse = |path: &str, line: &str| {
        assert_eq!(path, "p");
        line.parse::<usize>().map_err(|_| Error::WatcherStopped)
    };
    for read in lines(b"12\nx\n\n7\n") {
        match LinesLoader::next_line("p", output, &read, &parse) {
            LinesProgress::Reading(more) => output = more,
            LinesProgress::Done(outcome) => {
                assert_eq!(outcome, LoadOutcome::Loaded(vec![12, 7]));
                assert_eq!(asked.len(), 4);
                return;
            }
        }
        asked.push(read);
    }
    panic!("loading does not end");
}

#[test]
fn lines_that_cannot_be_opened_are_not_read() {
    let missing = LinesLoader::load("p", Err(ReadFailure::NotFound), &decode_json);
    assert_eq!(missing, LoadOutcome::Missing);
    let invalid = LinesLoader::load("p", Err(ReadFailure::Other), &decode_json);
    assert_eq!(invalid, LoadOutcome::Invalid);
    assert_eq!(LinesLoader::keep(vec![1], Ok(2)), vec![1, 2]);
    assert_eq!(LinesLoader::keep(vec![1], Err(Error::WatcherStopped)), vec![1]);
}

#[test]
fn a_whole_text_is_loaded_at_once() {
    let parse = |path: &str, data: &str| {
        if data == "bad" {
            Err(Error::DecodeError(path.to_string(), "bad".to_string()))
        } else {
            Ok(data.len())
        }
    };
    assert_eq!(StringLoader::load("p", text("four"), &parse), LoadOutcome::Loaded(4));
    assert_eq!(StringLoader::load("p", text("bad"), &parse), LoadOutcome::Invalid);
    assert_eq!(
        StringLoader::load("p", Err(ReadFailure::NotFound), &parse),
        LoadOutcome::Missing
    );
    assert_eq!(StringLoader::load("p", Err(ReadFailure::Other), &parse), LoadOutcome::Invalid);
}

#[test]
fn the_task_ends_on_failure() {
    let (phase, action) =
        serde_watch::<u8>(WatchPhase::Starting, WatchEvent::Watching(Err(Error::WatcherStopped)));
    assert_eq!(phase, WatchPhase::Stopped);
    assert!(matches!(action, WatchAction::Fail(Error::WatcherStopped)));
    let (phase, action) =
        serde_watch::<u8>(WatchPhase::Waiting, WatchEvent::Changed(Err(Error::WatcherStopped)));
    assert_eq!(phase, WatchPhase::Stopped);
    assert!(matches!(action, WatchAction::Stop));
    let (phase, action) = serde_watch::<u8>(WatchPhase::Sending, WatchEvent::Sent(Err(())));
    assert_eq!(phase, WatchPhase::Stopped);
    assert!(matches!(action, WatchAction::Stop));
}

#[test]
fn a_task_ends_by_what_it_does_not_wait_for() {
    let (phase, action) = serde_watch::<u8>(WatchPhase::Waiting, WatchEvent::Sent(Ok(())));
    assert_eq!(phase, WatchPhase::Stopped);
    assert!(matches!(action, WatchAction::Stop));
}

fn parse_number(path: &str, data: &str) -> Result<i32, Error> {
    data.trim().parse().map_err(|_| Error::DecodeError(path.to_string(), data.to_string()))
}

#[test]
fn a_file_of_any_kind_of_value_is_watched() {
    let step = |path: &str, phase, event| text_watch(path, phase, event, &parse_number);
    let mut watcher = Task::start(step, text("12\n"));
    assert_eq!(watcher.value, Some(12));
    watcher.change(text("x"));
    assert_eq!(watcher.value, Some(12));
    watcher.change(text("-3"));
    assert_eq!(watcher.value, Some(-3));
    watcher.change(Err(ReadFailure::Other));
    assert_eq!(watcher.value, Some(-3));
    watcher.change(Err(ReadFailure::NotFound));
    assert_eq!(watcher.value, None);
}

#[test]
fn a_file_of_lines_of_any_kind_of_value_is_watched() {
    let step = |path: &str, phase, event| lines_watch(path, phase, event, &parse_number);
    let mut watcher = Task::start(step, Ok(lines(b"1\nx\n\n2")));
    assert_eq!(watcher.value, Some(vec![1, 2]));
    watcher.change(Err(ReadFailure::Other));
    assert_eq!(watcher.value, Some(vec![1, 2]));
    watcher.change(Ok(lines(b"x\n\xff\n")));
    assert_eq!(watcher.value, Some(vec![]));
    watcher.change(Err(ReadFailure::NotFound));
    assert_eq!(watcher.value, None);
}

#[test]
fn json_decodes_or_names_the_file() {
    assert_eq!(decode_json("p", r#"{"a": [1, null]}"#).unwrap()["a"][0], 1);
    let error = decode_json("dir/p.json", "{\"message\": BROKEN}").unwrap_err();
    assert!(matches!(&error, Error::DecodeError(path, reason)
        if path == "dir/p.json" && reason == "expected value at line 1 column 13"));
    assert_eq!(
        error.message(),
        "Error decoding file: dir/p.json expected value at line 1 column 13"
    );
    assert_eq!(decoded("p", Ok::<u8, String>(3)).unwrap(), 3);
    let error = decoded::<u8>("p", Err("why".to_string())).unwrap_err();
    assert_eq!(error.message(), "Error decoding file: p why");
}
