//! Watching a file and updating a value when it changes.
//!
//! A receiver holds the value of the file, or `None`. [`serde_watch`] decides, event by event, what
//! the task that watches the file does next: load the file, open the channel to the receiver, wait
//! for a change, send a value, or end. [`text_watch`] and [`lines_watch`] load the file besides,
//! from what was read of it.
use vstd::prelude::*;

use crate::error::Error;
use crate::loader::{
    kept, may_load_lines, may_load_text, may_parse, may_yield_all, outcome_seen, LineRead,
    LinesLoader, LoadOutcome, ReadFailure, StringLoader,
};

verus! {

/// What the watching task waits for.
#[derive(Debug, Clone, Copy, PartialEq, Eq)]
pub enum WatchPhase {
    /// The file is loaded for the first time.
    FirstLoad,
    /// The channel is opened, and the watch on the file started.
    Starting,
    /// The file is to change.
    Waiting,
    /// The file has changed and is loaded.
    Loading,
    /// A value is sent to the receiver.
    Sending,
    /// Nothing: the task has ended.
    Stopped,
}

/// What the watching task is told. `L` is what loading the file gives.
#[derive(Debug)]
pub enum WatchEvent<L> {
    /// The file was loaded.
    Loaded(L),
    /// The watch was started, or could not be.
    Watching(Result<(), Error>),
    /// The file changed, or the watch ended.
    Changed(Result<(), Error>),
    /// The value was sent, or there was nobody left to receive it.
    Sent(Result<(), ()>),
}

/// What the watching task does next.
#[derive(Debug)]
pub enum WatchAction<R> {
    /// Load the file.
    Load,
    /// Open the channel with this value, and start the watch on the file.
    Open(Option<R>),
    /// Wait for the file to change.
    AwaitChange,
    /// Send this value to the receiver.
    Send(Option<R>),
    /// End, because the watch could not be started.
    Fail(Error),
    /// End.
    Stop,
}

impl WatchPhase {
    /// Whether this is something that the task may be told in this phase.
    pub open spec fn expects<L>(self, event: WatchEvent<L>) -> bool {
        match self {
            WatchPhase::FirstLoad => event is Loaded,
            WatchPhase::Starting => event is Watching,
            WatchPhase::Waiting => event is Changed,
            WatchPhase::Loading => event is Loaded,
            WatchPhase::Sending => event is Sent,
            WatchPhase::Stopped => false,
        }
    }

    /// The phase that follows, and what the task does in it. A task that is told what it does not
    /// wait for ends.
    pub open spec fn after<R>(self, event: WatchEvent<LoadOutcome<R>>) -> (
        WatchPhase,
        WatchAction<R>,
    ) {
        match (self, event) {
            (WatchPhase::FirstLoad, WatchEvent::Loaded(outcome)) => (
                WatchPhase::Starting,
                WatchAction::Open(first_value(outcome)),
            ),
            (WatchPhase::Starting, WatchEvent::Watching(Ok(()))) => (
                WatchPhase::Waiting,
                WatchAction::AwaitChange,
            ),
            (WatchPhase::Starting, WatchEvent::Watching(Err(error))) => (
                WatchPhase::Stopped,
                WatchAction::Fail(error),
            ),
            (WatchPhase::Waiting, WatchEvent::Changed(Ok(()))) => (
                WatchPhase::Loading,
                WatchAction::Load,
            ),
            (WatchPhase::Loading, WatchEvent::Loaded(outcome)) => match update(outcome) {
                Some(value) => (WatchPhase::Sending, WatchAction::Send(value)),
                None => (WatchPhase::Waiting, WatchAction::AwaitChange),
            },
            (WatchPhase::Sending, WatchEvent::Sent(Ok(()))) => (
                WatchPhase::Waiting,
                WatchAction::AwaitChange,
            ),
            _ => (WatchPhase::Stopped, WatchAction::Stop),
        }
    }
}

/// The value that the receiver starts with.
pub open spec fn first_value<R>(outcome: LoadOutcome<R>) -> Option<R> {
    match outcome {
        LoadOutcome::Loaded(value) => Some(value),
        LoadOutcome::Missing | LoadOutcome::Invalid => None,
    }
}

/// The value that the receiver is sent when the file has changed, if it is sent one.
pub open spec fn update<R>(outcome: LoadOutcome<R>) -> Option<Option<R>> {
    match outcome {
        LoadOutcome::Loaded(value) => Some(Some(value)),
        LoadOutcome::Missing => Some(None),
        LoadOutcome::Invalid => None,
    }
}

/// Takes the watching task one event further: the phase that follows, and what the task does in it.
pub fn serde_watch<R>(phase: WatchPhase, event: WatchEvent<LoadOutcome<R>>) -> (next: (
    WatchPhase,
    WatchAction<R>,
))
    ensures
        next == phase.after(event),
{
    match (phase, event) {
        (WatchPhase::FirstLoad, WatchEvent::Loaded(outcome)) => {
            let initial_value = match outcome {
                LoadOutcome::Loaded(value) => Some(value),
                LoadOutcome::Missing | LoadOutcome::Invalid => None,
            };
            (WatchPhase::Starting, WatchAction::Open(initial_value))
        },
        (WatchPhase::Starting, WatchEvent::Watching(started)) => match started {
            Ok(()) => (WatchPhase::Waiting, WatchAction::AwaitChange),
            Err(error) => (WatchPhase::Stopped, WatchAction::Fail(error)),
        },
        (WatchPhase::Waiting, WatchEvent::Changed(changed)) => match changed {
            Ok(()) => (WatchPhase::Loading, WatchAction::Load),
            Err(_) => (WatchPhase::Stopped, WatchAction::Stop),
        },
        (WatchPhase::Loading, WatchEvent::Loaded(outcome)) => match outcome {
            LoadOutcome::Loaded(value) => (WatchPhase::Sending, WatchAction::Send(Some(value))),
            LoadOutcome::Missing => (WatchPhase::Sending, WatchAction::Send(None)),
            LoadOutcome::Invalid => (WatchPhase::Waiting, WatchAction::AwaitChange),
        },
        (WatchPhase::Sending, WatchEvent::Sent(sent)) => match sent {
            Ok(()) => (WatchPhase::Waiting, WatchAction::AwaitChange),
            Err(()) => (WatchPhase::Stopped, WatchAction::Stop),
        },
        _ => (WatchPhase::Stopped, WatchAction::Stop),
    }
}

/// A watching task at work: its phase, what it does in it, and the value that its receiver holds
/// once the channel is open.
pub struct Run<R> {
    pub phase: WatchPhase,
    pub action: WatchAction<R>,
    pub value: Option<R>,
}

impl<R> Run<R> {
    /// A task that starts, with the file to be loaded.
    pub open spec fn start() -> Run<R> {
        Run { phase: WatchPhase::FirstLoad, action: WatchAction::Load, value: None }
    }

    /// The task after one more event. A value reaches the receiver when the channel is opened with
    /// it, and when sending it succeeds.
    pub open spec fn next(self, event: WatchEvent<LoadOutcome<R>>) -> Run<R> {
        let (phase, action) = self.phase.after(event);
        let value = match (action, self.action, event) {
            (WatchAction::Open(value), _, _) => value,
            (_, WatchAction::Send(value), WatchEvent::Sent(Ok(()))) => value,
            _ => self.value,
        };
        Run { phase, action, value }
    }

    /// A task that has loaded the file for the first time and has started the watch.
    pub open spec fn started(outcome: LoadOutcome<R>) -> Run<R> {
        Run::start().next(WatchEvent::Loaded(outcome)).next(WatchEvent::Watching(Ok(())))
    }

    /// The task after the file changed once more and loading it came to `outcome`, with somebody
    /// there to receive a value that is sent.
    pub open spec fn reload(self, outcome: LoadOutcome<R>) -> Run<R> {
        let loaded = self.next(WatchEvent::Changed(Ok(()))).next(WatchEvent::Loaded(outcome));
        if loaded.phase is Sending {
            loaded.next(WatchEvent::Sent(Ok(())))
        } else {
            loaded
        }
    }

    /// The task after the file changed as often as there are outcomes.
    pub open spec fn reloads(self, outcomes: Seq<LoadOutcome<R>>) -> Run<R>
        decreases outcomes.len(),
    {
        if outcomes.len() == 0 {
            self
        } else {
            self.reloads(outcomes.drop_last()).reload(outcomes.last())
        }
    }
}

/// The value of the latest loading that came to one: no file is no value, and what could not be
/// loaded does not count.
pub open spec fn latest_value<R>(first: LoadOutcome<R>, later: Seq<LoadOutcome<R>>) -> Option<R>
    decreases later.len(),
{
    if later.len() == 0 {
        first_value(first)
    } else {
        match update(later.last()) {
            Some(value) => value,
            None => latest_value(first, later.drop_last()),
        }
    }
}

/// When the watch has started the receiver holds the value of the file, or `None` where the file is
/// missing or could not be loaded.
pub proof fn law_starts_with_file<R>(outcome: LoadOutcome<R>)
    ensures
        Run::started(outcome).phase is Waiting,
        Run::started(outcome).value == first_value(outcome),
{
}

/// When the file has changed and can be loaded, the receiver gets its new value.
pub proof fn law_change_updates<R>(run: Run<R>, value: R)
    requires
        run.phase is Waiting,
    ensures
        run.reload(LoadOutcome::Loaded(value)).phase is Waiting,
        run.reload(LoadOutcome::Loaded(value)).value == Some(value),
{
}

/// When the file is deleted, the receiver's value becomes `None`.
pub proof fn law_delete_clears<R>(run: Run<R>)
    requires
        run.phase is Waiting,
    ensures
        run.reload(LoadOutcome::Missing).phase is Waiting,
        run.reload(LoadOutcome::Missing).value is None,
{
}

/// When the file has changed but cannot be loaded, the receiver's value does not change, and the
/// receiver is sent nothing.
pub proof fn law_invalid_keeps<R>(run: Run<R>)
    requires
        run.phase is Waiting,
    ensures
        run.reload(LoadOutcome::Invalid).phase is Waiting,
        run.reload(LoadOutcome::Invalid).value == run.value,
        run.next(WatchEvent::Changed(Ok(()))).next(WatchEvent::Loaded(LoadOutcome::Invalid)).action
            !is Send,
{
}

/// However often the file changes, the receiver holds its latest value, and the task goes on
/// waiting for the next change.
pub proof fn law_receiver_follows_file<R>(first: LoadOutcome<R>, later: Seq<LoadOutcome<R>>)
    ensures
        Run::started(first).reloads(later).phase is Waiting,
        Run::started(first).reloads(later).value == latest_value(first, later),
    decreases later.len(),
{
    if later.len() > 0 {
        law_receiver_follows_file(first, later.drop_last());
    }
}

/// The task ends exactly when the watch cannot be started, when the watch ends, or when nobody is
/// left to receive a value.
pub proof fn law_ends_on_failure_only<R>(phase: WatchPhase, event: WatchEvent<LoadOutcome<R>>)
    requires
        phase.expects(event),
    ensures
        phase.after(event).0 is Stopped <==> (match event {
            WatchEvent::Loaded(_) => false,
            WatchEvent::Watching(started) => started is Err,
            WatchEvent::Changed(changed) => changed is Err,
            WatchEvent::Sent(sent) => sent is Err,
        }),
{
}

/// The same event, with what loading the file gave replaced by what it comes to.
pub open spec fn with_outcome<L, R>(
    event: WatchEvent<L>,
    outcome: LoadOutcome<R>,
) -> WatchEvent<LoadOutcome<R>> {
    match event {
        WatchEvent::Loaded(_) => WatchEvent::Loaded(outcome),
        WatchEvent::Watching(started) => WatchEvent::Watching(started),
        WatchEvent::Changed(changed) => WatchEvent::Changed(changed),
        WatchEvent::Sent(sent) => WatchEvent::Sent(sent),
    }
}

/// An action with its values seen as a sequence.
pub open spec fn action_seen<T>(action: WatchAction<Vec<T>>) -> WatchAction<Seq<T>> {
    match action {
        WatchAction::Load => WatchAction::Load,
        WatchAction::Open(Some(values)) => WatchAction::Open(Some(values@)),
        WatchAction::Open(None) => WatchAction::Open(None),
        WatchAction::AwaitChange => WatchAction::AwaitChange,
        WatchAction::Send(Some(values)) => WatchAction::Send(Some(values@)),
        WatchAction::Send(None) => WatchAction::Send(None),
        WatchAction::Fail(error) => WatchAction::Fail(error),
        WatchAction::Stop => WatchAction::Stop,
    }
}

/// What the task is told besides the loading of the file is passed on as it is, and a loading as
/// what it comes to.
pub proof fn law_events_are_passed_on<L, R>(
    loaded: L,
    result: Result<(), Error>,
    sent: Result<(), ()>,
    outcome: LoadOutcome<R>,
)
    ensures
        with_outcome(WatchEvent::<L>::Watching(result), outcome) == WatchEvent::<
            LoadOutcome<R>,
        >::Watching(result),
        with_outcome(WatchEvent::<L>::Changed(result), outcome) == WatchEvent::<
            LoadOutcome<R>,
        >::Changed(result),
        with_outcome(WatchEvent::<L>::Sent(sent), outcome) == WatchEvent::<LoadOutcome<R>>::Sent(
            sent,
        ),
        with_outcome(WatchEvent::Loaded(loaded), outcome) == WatchEvent::Loaded(outcome),
{
}

/// A task whose watch could not be started ends with the error, whatever it is. One whose watch was
/// started waits for a change.
pub proof fn law_start_error_is_reported<L, R>(error: Error, outcome: LoadOutcome<R>)
    ensures
        WatchPhase::Starting.after(
            with_outcome(WatchEvent::<L>::Watching(Err(error)), outcome),
        ) == (WatchPhase::Stopped, WatchAction::<R>::Fail(error)),
        WatchPhase::Starting.after(with_outcome(WatchEvent::<L>::Watching(Ok(())), outcome)) == (
            WatchPhase::Waiting,
            WatchAction::<R>::AwaitChange,
        ),
{
}

/// The channel is opened with the value of the file when it was loaded for the first time, and
/// without a value where it is missing or could not be loaded.
pub proof fn law_channel_opens_with_file<L, R>(loaded: L, value: R)
    ensures
        WatchPhase::FirstLoad.after(
            with_outcome(WatchEvent::Loaded(loaded), LoadOutcome::Loaded(value)),
        ) == (WatchPhase::Starting, WatchAction::Open(Some(value))),
        WatchPhase::FirstLoad.after(
            with_outcome(WatchEvent::Loaded(loaded), LoadOutcome::<R>::Missing),
        ) == (WatchPhase::Starting, WatchAction::<R>::Open(None)),
        WatchPhase::FirstLoad.after(
            with_outcome(WatchEvent::Loaded(loaded), LoadOutcome::<R>::Invalid),
        ) == (WatchPhase::Starting, WatchAction::<R>::Open(None)),
{
}

/// When the file has changed, it is loaded. Its value is sent, or that there is none where the file
/// is missing. Nothing is sent where it could not be loaded.
pub proof fn law_change_is_sent<L, R>(loaded: L, value: R, outcome: LoadOutcome<R>)
    ensures
        WatchPhase::Waiting.after(with_outcome(WatchEvent::<L>::Changed(Ok(())), outcome)) == (
            WatchPhase::Loading,
            WatchAction::<R>::Load,
        ),
        WatchPhase::Loading.after(
            with_outcome(WatchEvent::Loaded(loaded), LoadOutcome::Loaded(value)),
        ) == (WatchPhase::Sending, WatchAction::Send(Some(value))),
        WatchPhase::Loading.after(
            with_outcome(WatchEvent::Loaded(loaded), LoadOutcome::<R>::Missing),
        ) == (WatchPhase::Sending, WatchAction::<R>::Send(None)),
        WatchPhase::Loading.after(
            with_outcome(WatchEvent::Loaded(loaded), LoadOutcome::<R>::Invalid),
        ) == (WatchPhase::Waiting, WatchAction::<R>::AwaitChange),
        WatchPhase::Sending.after(with_outcome(WatchEvent::<L>::Sent(Ok(())), outcome)) == (
            WatchPhase::Waiting,
            WatchAction::<R>::AwaitChange,
        ),
{
}

/// The task ends when the watch has ended, whatever the error, and when nobody is left to receive a
/// value.
pub proof fn law_end_is_quiet<L, R>(error: Error, outcome: LoadOutcome<R>)
    ensures
        WatchPhase::Waiting.after(with_outcome(WatchEvent::<L>::Changed(Err(error)), outcome)) == (
            WatchPhase::Stopped,
            WatchAction::<R>::Stop,
        ),
        WatchPhase::Sending.after(with_outcome(WatchEvent::<L>::Sent(Err(())), outcome)) == (
            WatchPhase::Stopped,
            WatchAction::<R>::Stop,
        ),
{
}

/// A task that is told something that it does not wait for ends, and one that has ended stays so.
pub proof fn law_unexpected_event_ends<R>(phase: WatchPhase, event: WatchEvent<LoadOutcome<R>>)
    requires
        match event {
            WatchEvent::Loaded(_) => phase !is FirstLoad && phase !is Loading,
            WatchEvent::Watching(_) => phase !is Starting,
            WatchEvent::Changed(_) => phase !is Waiting,
            WatchEvent::Sent(_) => phase !is Sending,
        },
    ensures
        phase.after(event) == (WatchPhase::Stopped, WatchAction::<R>::Stop),
{
}

/// A task starts with loading the file. When the watch has started its receiver holds the value of
/// the file, or `None` where the file is missing or could not be loaded.
pub proof fn law_receiver_starts_with_file<R>(value: R)
    ensures
        Run::<R>::start().phase is FirstLoad,
        Run::<R>::start().action is Load,
        Run::started(LoadOutcome::Loaded(value)).value == Some(value),
        Run::<R>::started(LoadOutcome::Missing).value is None,
        Run::<R>::started(LoadOutcome::Invalid).value is None,
{
}

/// After any number of changes the receiver holds the value of the last loading that was not
/// invalid: what was loaded then, or `None` where the file was missing.
pub proof fn law_receiver_holds_last_valid<R>(
    first: LoadOutcome<R>,
    later: Seq<LoadOutcome<R>>,
    last: int,
)
    requires
        0 <= last < later.len(),
        later[last] !is Invalid,
        forall|i: int| last < i < later.len() ==> #[trigger] later[i] is Invalid,
    ensures
        Run::started(first).reloads(later).value == (match later[last] {
            LoadOutcome::Loaded(value) => Some(value),
            _ => None,
        }),
    decreases later.len(),
{
    law_receiver_follows_file(first, later);
    if last < later.len() - 1 {
        law_receiver_follows_file(first, later.drop_last());
        law_receiver_holds_last_valid(first, later.drop_last(), last);
    }
}

/// As long as no loading succeeds, the receiver holds what it started with.
pub proof fn law_receiver_keeps_first<R>(first: LoadOutcome<R>, later: Seq<LoadOutcome<R>>)
    requires
        forall|i: int| 0 <= i < later.len() ==> #[trigger] later[i] is Invalid,
    ensures
        Run::started(first).reloads(later).value == (match first {
            LoadOutcome::Loaded(value) => Some(value),
            _ => None,
        }),
    decreases later.len(),
{
    law_receiver_follows_file(first, later);
    if later.len() > 0 {
        law_receiver_follows_file(first, later.drop_last());
        law_receiver_keeps_first(first, later.drop_last());
    }
}

/// A value reaches the receiver when sending it succeeds, and not before.
pub proof fn law_value_arrives_when_sent<R>(run: Run<R>, value: Option<R>)
    requires
        run.phase is Sending,
        run.action == WatchAction::Send(value),
    ensures
        run.next(WatchEvent::Sent(Ok(()))).value == value,
        run.next(WatchEvent::Sent(Err(()))).value == run.value,
{
}

/// Contracts see the values of an action, in their order, and all else of it as it is.
pub proof fn law_action_is_seen<T>(values: Vec<T>, error: Error)
    ensures
        action_seen(WatchAction::Open(Some(values))) == WatchAction::Open(Some(values@)),
        action_seen(WatchAction::Send(Some(values))) == WatchAction::Send(Some(values@)),
        action_seen(WatchAction::<Vec<T>>::Open(None)) == WatchAction::<Seq<T>>::Open(None),
        action_seen(WatchAction::<Vec<T>>::Send(None)) == WatchAction::<Seq<T>>::Send(None),
        action_seen(WatchAction::<Vec<T>>::Fail(error)) == WatchAction::<Seq<T>>::Fail(error),
        action_seen(WatchAction::<Vec<T>>::Load) is Load,
        action_seen(WatchAction::<Vec<T>>::AwaitChange) is AwaitChange,
        action_seen(WatchAction::<Vec<T>>::Stop) is Stop,
{
}

/// The task that watches a file starts with loading it.
pub fn start<R>() -> (next: (WatchPhase, WatchAction<R>))
    ensures
        next == (Run::<R>::start().phase, Run::<R>::start().action),
        next == (WatchPhase::FirstLoad, WatchAction::<R>::Load),
{
    (WatchPhase::FirstLoad, WatchAction::Load)
}

/// Takes the task that watches the file at `path` one event further, where the whole text of the
/// file is one value, which `parse` turns it into.
pub fn text_watch<T, F: Fn(&str, &str) -> Result<T, Error>>(
    path: &str,
    phase: WatchPhase,
    event: WatchEvent<Result<String, ReadFailure>>,
    parse: &F,
) -> (next: (WatchPhase, WatchAction<T>))
    requires
        forall|data: &str| call_requires(*parse, (path, data)),
    ensures
        exists|outcome: LoadOutcome<T>|
            {
                &&& event is Loaded ==> may_load_text(*parse, path, event->Loaded_0, outcome)
                &&& next == phase.after(#[trigger] with_outcome(event, outcome))
            },
        phase is Starting && event is Watching ==> (match event->Watching_0 {
            Ok(()) => next.0 is Waiting && next.1 is AwaitChange,
            Err(error) => next.0 is Stopped && next.1 == WatchAction::<T>::Fail(error),
        }),
        phase is Waiting && event is Changed ==> (match event->Changed_0 {
            Ok(()) => next.0 is Loading && next.1 is Load,
            Err(_) => next.0 is Stopped && next.1 is Stop,
        }),
        phase is Sending && event is Sent ==> (match event->Sent_0 {
            Ok(()) => next.0 is Waiting && next.1 is AwaitChange,
            Err(()) => next.0 is Stopped && next.1 is Stop,
        }),
{
    let ghost given = event;
    let event = match event {
        WatchEvent::Loaded(read) => WatchEvent::Loaded(StringLoader::load(path, read, parse)),
        WatchEvent::Watching(started) => WatchEvent::Watching(started),
        WatchEvent::Changed(changed) => WatchEvent::Changed(changed),
        WatchEvent::Sent(sent) => WatchEvent::Sent(sent),
    };
    assert(event == with_outcome(
        given,
        if event is Loaded {
            event->Loaded_0
        } else {
            LoadOutcome::<T>::Missing
        },
    ));
    serde_watch(phase, event)
}

/// Takes the task that watches the file at `path` one event further, where each line of the file
/// is a value, which `parse` turns it into.
pub fn lines_watch<T, F: Fn(&str, &str) -> Result<T, Error>>(
    path: &str,
    phase: WatchPhase,
    event: WatchEvent<Result<Vec<LineRead>, ReadFailure>>,
    parse: &F,
) -> (next: (WatchPhase, WatchAction<Vec<T>>))
    requires
        forall|data: &str| call_requires(*parse, (path, data)),
    ensures
        exists|outcome: LoadOutcome<Seq<T>>|
            {
                &&& event is Loaded ==> may_load_lines(*parse, path, event->Loaded_0, outcome)
                &&& (next.0, action_seen(next.1)) == phase.after(
                    #[trigger] with_outcome(event, outcome),
                )
            },
        phase is Starting && event is Watching ==> (match event->Watching_0 {
            Ok(()) => next.0 is Waiting && next.1 is AwaitChange,
            Err(error) => next.0 is Stopped && next.1 == WatchAction::<Vec<T>>::Fail(error),
        }),
        phase is Waiting && event is Changed ==> (match event->Changed_0 {
            Ok(()) => next.0 is Loading && next.1 is Load,
            Err(_) => next.0 is Stopped && next.1 is Stop,
        }),
        phase is Sending && event is Sent ==> (match event->Sent_0 {
            Ok(()) => next.0 is Waiting && next.1 is AwaitChange,
            Err(()) => next.0 is Stopped && next.1 is Stop,
        }),
{
    let ghost given = event;
    let event = match event {
        WatchEvent::Loaded(reads) => WatchEvent::Loaded(LinesLoader::load(path, reads, parse)),
        WatchEvent::Watching(started) => WatchEvent::Watching(started),
        WatchEvent::Changed(changed) => WatchEvent::Changed(changed),
        WatchEvent::Sent(sent) => WatchEvent::Sent(sent),
    };
    let ghost outcome = if event is Loaded {
        outcome_seen(event->Loaded_0)
    } else {
        LoadOutcome::<Seq<T>>::Missing
    };
    let next = serde_watch(phase, event);
    assert((next.0, action_seen(next.1)) == phase.after(with_outcome(given, outcome)));
    next
}

/// When a file has changed whose whole text is one value, the receiver gets the value that the text
/// parses to. Its value becomes `None` if the file is deleted, and does not change if the file
/// exists but cannot be read or does not parse.
pub proof fn law_text_change<T, F: Fn(&str, &str) -> Result<T, Error>>(
    run: Run<T>,
    parse: F,
    path: &str,
    read: Result<String, ReadFailure>,
    outcome: LoadOutcome<T>,
)
    requires
        run.phase is Waiting,
        may_load_text(parse, path, read, outcome),
    ensures
        run.reload(outcome).phase is Waiting,
        match read {
            Ok(data) => exists|parsed: Result<T, Error>| #[trigger]
                may_parse(parse, path, data@, parsed) && run.reload(outcome).value == (
                match parsed {
                    Ok(value) => Some(value),
                    Err(_) => run.value,
                }),
            Err(ReadFailure::NotFound) => run.reload(outcome).value is None,
            Err(ReadFailure::Other) => run.reload(outcome).value == run.value,
        },
{
}

/// When a file has changed each line of which is a value, the receiver gets the values that the
/// lines parse to, without the lines that do not. Its value becomes `None` if the file is deleted,
/// and does not change if the file exists but cannot be opened.
pub proof fn law_lines_change<T, F: Fn(&str, &str) -> Result<T, Error>>(
    run: Run<Seq<T>>,
    parse: F,
    path: &str,
    reads: Result<Vec<LineRead>, ReadFailure>,
    outcome: LoadOutcome<Seq<T>>,
)
    requires
        run.phase is Waiting,
        may_load_lines(parse, path, reads, outcome),
    ensures
        run.reload(outcome).phase is Waiting,
        match reads {
            Ok(reads) => exists|values: Seq<Option<T>>| #[trigger]
                may_yield_all(parse, path, reads@, values) && run.reload(outcome).value == Some(
                    kept(values),
                ),
            Err(ReadFailure::NotFound) => run.reload(outcome).value is None,
            Err(ReadFailure::Other) => run.reload(outcome).value == run.value,
        },
{
}

} // verus!
