//! Working through the events that a debouncer reports together.
//!
//! [`AsyncFsWatch::next_action`] says what is to be done for a batch of events: resolve a path, or
//! tell the receiver of a change. [`AsyncFsWatch::after_resolve`] and
//! [`AsyncFsWatch::after_notify`] take the batch on from there.
use vstd::prelude::*;

use crate::fs_watch::{law_match_decides, AsyncFsWatch, Matching, Probe, Query, Watched};
use crate::path::{found, paths_of, FilePath, Part};
use notify::Error as NotifyError;

verus! {

/// Events that came together, and how far they have been looked at: those before `index` are
/// done with, and the match of the one at `index` stands at `query`.
#[derive(Debug)]
pub struct EventBatch {
    pub events: Vec<FilePath>,
    pub index: usize,
    pub query: Query,
}

/// A batch of events as contracts speak of it.
pub struct Batch {
    pub events: Seq<Seq<Part>>,
    pub index: int,
    pub query: Matching,
}

impl View for EventBatch {
    type V = Batch;

    open spec fn view(&self) -> Batch {
        Batch { events: paths_of(self.events@), index: self.index as int, query: self.query@ }
    }
}

/// What is to be done next for a batch of events.
#[derive(Debug, PartialEq, Eq)]
pub enum BatchAction {
    /// Resolve the path that the match of the event with this index waits for.
    Resolve(usize),
    /// Tell the receiver that the event with this index changed a watched file.
    Notify(usize),
    /// Nothing: all events have been looked at.
    Done,
}

impl Batch {
    /// The batch is done with, or the match of its next event waits for a path or has found that
    /// the event concerns a watched file.
    pub open spec fn well_formed(self, watched: Watched) -> bool {
        &&& 0 <= self.index <= self.events.len()
        &&& self.index < self.events.len() ==> self.query.asks(watched) || self.query
            == Matching::Verdict(true)
    }

    /// The batch at its event `index`, which is still to be looked at.
    pub open spec fn at(events: Seq<Seq<Part>>, index: int, watched: Watched) -> Batch {
        if index < events.len() {
            Batch { events, index, query: watched.first_question(events[index]) }
        } else {
            Batch { events, index, query: Matching::Verdict(false) }
        }
    }

    /// The batch when the path that its match waits for resolves to `answer`, or, with `None`, does
    /// not resolve. An event that concerns no watched file is passed over.
    pub open spec fn resolved(self, watched: Watched, answer: Option<Seq<Part>>) -> Batch {
        let query = watched.next_question(self.events[self.index], self.query, answer);
        if query == Matching::Verdict(false) {
            Batch::at(self.events, self.index + 1, watched)
        } else {
            Batch { query, ..self }
        }
    }

    /// The events that the receiver is told of from here on, where `answers` says for each event
    /// what each path resolves to.
    pub open spec fn notifications(
        self,
        watched: Watched,
        answers: spec_fn(int, Probe) -> Option<Seq<Part>>,
    ) -> Seq<int>
        decreases self.events.len() - self.index, self.query.questions_left(watched),
    {
        if !self.well_formed(watched) || self.index >= self.events.len() {
            Seq::empty()
        } else if self.query == Matching::Verdict(true) {
            seq![self.index] + Batch::at(self.events, self.index + 1, watched).notifications(
                watched,
                answers,
            )
        } else {
            self.resolved(watched, answers(self.index, self.query.probe())).notifications(
                watched,
                answers,
            )
        }
    }
}

impl Watched {
    /// The events from `index` on that concern a watched file, in their order.
    pub open spec fn concerning(
        self,
        events: Seq<Seq<Part>>,
        index: int,
        answers: spec_fn(int, Probe) -> Option<Seq<Part>>,
    ) -> Seq<int>
        decreases events.len() - index,
    {
        if index < 0 || index >= events.len() {
            Seq::empty()
        } else if self.concerns(events[index], |probe: Probe| answers(index, probe)) {
            seq![index] + self.concerning(events, index + 1, answers)
        } else {
            self.concerning(events, index + 1, answers)
        }
    }
}

/// Whether the receiver is told of the event that the batch stands at is the verdict of its match.
proof fn lemma_notifications_follow_verdict(
    watched: Watched,
    batch: Batch,
    answers: spec_fn(int, Probe) -> Option<Seq<Part>>,
)
    requires
        batch.well_formed(watched),
        batch.index < batch.events.len(),
    ensures
        ({
            let rest = Batch::at(batch.events, batch.index + 1, watched).notifications(
                watched,
                answers,
            );
            let verdict = watched.verdict(
                batch.events[batch.index],
                batch.query,
                |probe: Probe| answers(batch.index, probe),
            );
            batch.notifications(watched, answers) == if verdict {
                seq![batch.index] + rest
            } else {
                rest
            }
        }),
    decreases batch.query.questions_left(watched),
{
    let event = batch.events[batch.index];
    let of_event = |probe: Probe| answers(batch.index, probe);
    if batch.query.asks(watched) {
        let answer = answers(batch.index, batch.query.probe());
        assert(of_event(batch.query.probe()) == answer);
        let query = watched.next_question(event, batch.query, answer);
        let next = batch.resolved(watched, answer);
        assert(watched.verdict(event, batch.query, of_event) == watched.verdict(
            event,
            query,
            of_event,
        ));
        assert(batch.notifications(watched, answers) == next.notifications(watched, answers));
        if next.index == batch.index {
            lemma_notifications_follow_verdict(watched, next, answers);
        }
    }
}

proof fn lemma_notifications_from(
    watched: Watched,
    events: Seq<Seq<Part>>,
    index: int,
    answers: spec_fn(int, Probe) -> Option<Seq<Part>>,
)
    requires
        0 <= index <= events.len(),
    ensures
        Batch::at(events, index, watched).notifications(watched, answers) == watched.concerning(
            events,
            index,
            answers,
        ),
    decreases events.len() - index,
{
    if index < events.len() {
        let batch = Batch::at(events, index, watched);
        lemma_notifications_follow_verdict(watched, batch, answers);
        law_match_decides(watched, events[index], |probe: Probe| answers(index, probe));
        lemma_notifications_from(watched, events, index + 1, answers);
    }
}

/// A batch, led through to its end, tells the receiver once of each event that concerns a watched
/// file, in the order of the events, and of no other.
pub proof fn law_batch_notifies(
    watched: Watched,
    events: Seq<Seq<Part>>,
    answers: spec_fn(int, Probe) -> Option<Seq<Part>>,
)
    ensures
        Batch::at(events, 0, watched).notifications(watched, answers) == watched.concerning(
            events,
            0,
            answers,
        ),
{
    lemma_notifications_from(watched, events, 0, answers);
}

proof fn lemma_concerning_ascends(
    watched: Watched,
    events: Seq<Seq<Part>>,
    index: int,
    answers: spec_fn(int, Probe) -> Option<Seq<Part>>,
)
    ensures
        ({
            let told = watched.concerning(events, index, answers);
            &&& forall|i: int| 0 <= i < told.len() ==> index <= #[trigger] told[i] < events.len()
            &&& forall|i: int, j: int| 0 <= i < j < told.len() ==> told[i] < told[j]
        }),
    decreases events.len() - index,
{
    if 0 <= index < events.len() {
        lemma_concerning_ascends(watched, events, index + 1, answers);
        let rest = watched.concerning(events, index + 1, answers);
        let whole = seq![index] + rest;
        assert forall|i: int| 0 <= i < whole.len() implies index <= #[trigger] whole[i]
            < events.len() by {
            if i > 0 {
                assert(whole[i] == rest[i - 1]);
            }
        }
        assert forall|i: int, j: int| 0 <= i < j < whole.len() implies whole[i] < whole[j] by {
            assert(whole[j] == rest[j - 1]);
            if i > 0 {
                assert(whole[i] == rest[i - 1]);
            }
        }
    }
}

/// The receiver is told of the events of a batch in their order, and of none twice.
pub proof fn law_batch_notifies_in_order(
    watched: Watched,
    events: Seq<Seq<Part>>,
    answers: spec_fn(int, Probe) -> Option<Seq<Part>>,
)
    ensures
        ({
            let told = Batch::at(events, 0, watched).notifications(watched, answers);
            &&& forall|i: int| 0 <= i < told.len() ==> 0 <= #[trigger] told[i] < events.len()
            &&& forall|i: int, j: int| 0 <= i < j < told.len() ==> told[i] < told[j]
        }),
{
    law_batch_notifies(watched, events, answers);
    lemma_concerning_ascends(watched, events, 0, answers);
}

/// A batch that comes to an event starts the match of that event, in its folder where it has one,
/// and has all its events still. Behind its last event there is no match.
pub proof fn law_batch_comes_to_event(
    watched: Watched,
    events: Seq<Seq<Part>>,
    index: int,
    folder: Seq<Part>,
    part: Part,
)
    requires
        0 <= index < events.len(),
        events[index] == folder.push(part),
    ensures
        ({
            let batch = Batch::at(events, index, watched);
            &&& batch.events == events
            &&& batch.index == index
            &&& batch.query == (match part {
                Part::Prefix(_) | Part::RootDir => Matching::Event,
                Part::CurDir | Part::ParentDir | Part::Normal(_) => Matching::Parent,
            })
            &&& batch.well_formed(watched)
        }),
        ({
            let done = Batch::at(events, events.len() as int, watched);
            done.events == events && done.index == events.len() && done.well_formed(watched)
        }),
{
    crate::fs_watch::law_match_starts_in_folder(watched, folder, part);
}

/// A batch goes on to the next event exactly when the match has found that this one is to be
/// ignored. As long as the match goes on, and when it has noticed the event, the batch stays at it.
/// No event is lost.
pub proof fn law_batch_passes_over_ignored(
    watched: Watched,
    batch: Batch,
    answer: Option<Seq<Part>>,
)
    requires
        0 <= batch.index < batch.events.len(),
    ensures
        ({
            let next = batch.resolved(watched, answer);
            let query = watched.next_question(batch.events[batch.index], batch.query, answer);
            &&& next.events == batch.events
            &&& query == Matching::Verdict(false) ==> next.index == batch.index + 1 && next
                == Batch::at(batch.events, batch.index + 1, watched)
            &&& query != Matching::Verdict(false) ==> next.index == batch.index && next.query
                == query
        }),
{
}

/// A batch that is not done with stands at one of its events, whose match waits for a path that
/// there is or has noticed the event; never at one that was ignored.
pub proof fn law_batch_stands_at_event(watched: Watched, batch: Batch)
    ensures
        batch.well_formed(watched) <==> {
            ||| batch.index == batch.events.len()
            ||| 0 <= batch.index < batch.events.len() && (match batch.query {
                Matching::Parent | Matching::Event => true,
                Matching::File(_, index) => 0 <= index < watched.files.len(),
                Matching::Verdict(noticed) => noticed,
            })
        },
{
}

/// Contracts see each event of a batch and how far the batch has come.
pub proof fn law_batch_is_seen(batch: EventBatch)
    ensures
        batch@.events.len() == batch.events@.len(),
        forall|i: int|
            0 <= i < batch.events@.len() ==> #[trigger] batch@.events[i] == batch.events@[i]@,
        batch@.index == batch.index,
        batch@.query == batch.query@,
{
}

impl AsyncFsWatch {
    /// The batch at its event `index`.
    fn batch_at(&self, events: Vec<FilePath>, index: usize) -> (batch: EventBatch)
        requires
            index <= events.len(),
        ensures
            batch@ == Batch::at(paths_of(events@), index as int, self@),
            batch@.well_formed(self@),
    {
        assert(paths_of(events@).len() == events@.len());
        let query = if index < events.len() {
            self.start_match(&events[index])
        } else {
            Query::Verdict(false)
        };
        EventBatch { events, index, query }
    }

    /// Starts on what the debouncer reports: a batch of events, or an error, which changes nothing.
    pub fn start_batch(&self, reported: Result<Vec<FilePath>, NotifyError>) -> (batch: EventBatch)
        ensures
            batch@ == Batch::at(
                match reported {
                    Ok(events) => paths_of(events@),
                    Err(_) => Seq::empty(),
                },
                0,
                self@,
            ),
            batch@.well_formed(self@),
    {
        match reported {
            Ok(events) => self.batch_at(events, 0),
            Err(_) => {
                let batch = self.batch_at(Vec::new(), 0);
                assert(batch@.events =~= Seq::empty());
                batch
            },
        }
    }

    /// What is to be done next for the batch.
    pub fn next_action(&self, batch: &EventBatch) -> (action: BatchAction)
        requires
            batch@.well_formed(self@),
        ensures
            action == (if batch.index == batch@.events.len() {
                BatchAction::Done
            } else if batch@.query.asks(self@) {
                BatchAction::Resolve(batch.index)
            } else {
                BatchAction::Notify(batch.index)
            }),
    {
        assert(batch@.events.len() == batch.events.len());
        if batch.index == batch.events.len() {
            BatchAction::Done
        } else {
            match &batch.query {
                Query::Verdict(_) => BatchAction::Notify(batch.index),
                _ => BatchAction::Resolve(batch.index),
            }
        }
    }

    /// Goes on with a batch when the path that its match waits for resolves to `answer`, or, with
    /// `None`, does not resolve.
    pub fn after_resolve(&self, batch: EventBatch, answer: Option<FilePath>) -> (next: EventBatch)
        requires
            batch@.well_formed(self@),
            batch.index < batch@.events.len(),
            batch@.query.asks(self@),
        ensures
            next@ == batch@.resolved(self@, found(answer)),
            next@.well_formed(self@),
    {
        assert(batch@.events.len() == batch.events.len());
        let EventBatch { events, index, query } = batch;
        let next = self.is_watched(&events[index], query, answer);
        match next {
            Query::Verdict(false) => self.batch_at(events, index + 1),
            _ => EventBatch { events, index, query: next },
        }
    }

    /// Goes on with a batch after the receiver was told of an event. That nobody received the
    /// notification makes no difference.
    pub fn after_notify(&self, batch: EventBatch) -> (next: EventBatch)
        requires
            batch@.well_formed(self@),
            batch.index < batch@.events.len(),
            batch@.query == Matching::Verdict(true),
        ensures
            next@ == Batch::at(batch@.events, batch.index + 1, self@),
            next@.well_formed(self@),
    {
        assert(batch@.events.len() == batch.events.len());
        self.batch_at(batch.events, batch.index + 1)
    }
}

} // verus!
