//! Deciding which file events concern the watched files.
//!
//! A folder is watched rather than a file, so that a file that does not exist yet is noticed when
//! it is created. The events of the folder are then matched against the watched names. The match
//! has to resolve paths on disk: [`AsyncFsWatch::is_watched`] says which path to resolve next, is
//! handed what came of it, and ends in a verdict.
use vstd::prelude::*;

use crate::error::Error;
use crate::path::{
    copy_bytes, copy_names, file_name_of, found, names_of, parent_of, same_bytes, FilePath, Part,
};

verus! {

/// The watched files: a folder, by its resolved path, and names in it.
#[derive(Debug)]
pub struct AsyncFsWatch {
    pub dir: FilePath,
    pub files: Vec<Vec<u8>>,
}

/// The watched files as contracts speak of them.
pub struct Watched {
    pub dir: Seq<Part>,
    pub files: Seq<Seq<u8>>,
}

impl View for AsyncFsWatch {
    type V = Watched;

    open spec fn view(&self) -> Watched {
        Watched { dir: self.dir@, files: names_of(self.files@) }
    }
}

impl Clone for AsyncFsWatch {
    fn clone(&self) -> (copy: Self)
        ensures
            copy@ == self@,
    {
        AsyncFsWatch { dir: self.dir.clone(), files: copy_names(&self.files) }
    }
}

/// How far the match of one event has come.
#[derive(Debug)]
pub enum Query {
    /// The folder that the event happened in is to be resolved.
    Parent,
    /// The path that the event happened to is to be resolved.
    Event,
    /// The event's path resolved to this path; the watched file with this index is to be resolved,
    /// in the watched folder.
    File(FilePath, usize),
    /// Whether the event concerns a watched file.
    Verdict(bool),
}

/// The state of a match as contracts speak of it.
pub enum Matching {
    Parent,
    Event,
    File(Seq<Part>, int),
    Verdict(bool),
}

impl View for Query {
    type V = Matching;

    open spec fn view(&self) -> Matching {
        match self {
            Query::Parent => Matching::Parent,
            Query::Event => Matching::Event,
            Query::File(event, index) => Matching::File(event@, *index as int),
            Query::Verdict(watched) => Matching::Verdict(*watched),
        }
    }
}

/// A path that a match may need resolved.
pub enum Probe {
    /// The folder that the event happened in.
    Parent,
    /// The path that the event happened to.
    Event,
    /// The watched file with this index, in the watched folder.
    File(int),
}

/// A path to be resolved.
#[derive(Debug, PartialEq, Eq)]
pub enum Wanted {
    /// This path.
    Path(FilePath),
    /// What this name leads to from the watched folder.
    Named(Vec<u8>),
}

/// A path to be resolved as contracts speak of it.
pub enum WantedPath {
    Path(Seq<Part>),
    Named(Seq<u8>),
}

/// The view of a path to be resolved, if there is one.
pub open spec fn wanted_seen(wanted: Option<Wanted>) -> Option<WantedPath> {
    match wanted {
        Some(Wanted::Path(path)) => Some(WantedPath::Path(path@)),
        Some(Wanted::Named(name)) => Some(WantedPath::Named(name@)),
        None => None,
    }
}

impl WantedPath {
    /// The path itself, where `join` puts a name into the watched folder.
    pub open spec fn joined(self, join: spec_fn(Seq<u8>) -> Seq<Part>) -> Seq<Part> {
        match self {
            WantedPath::Path(path) => path,
            WantedPath::Named(name) => join(name),
        }
    }
}

impl Probe {
    /// The path that stands behind the question, if there is one.
    pub open spec fn wanted(self, watched: Watched, event: Seq<Part>) -> Option<WantedPath> {
        match self {
            Probe::Parent => match parent_of(event) {
                Some(parent) => Some(WantedPath::Path(parent)),
                None => None,
            },
            Probe::Event => Some(WantedPath::Path(event)),
            Probe::File(index) => if 0 <= index < watched.files.len() {
                Some(WantedPath::Named(watched.files[index]))
            } else {
                None
            },
        }
    }
}

impl Matching {
    /// Whether the match still waits for a path, one that there is.
    pub open spec fn asks(self, watched: Watched) -> bool {
        match self {
            Matching::Parent | Matching::Event => true,
            Matching::File(_, index) => 0 <= index < watched.files.len(),
            Matching::Verdict(_) => false,
        }
    }

    /// The path that the match waits for.
    pub open spec fn probe(self) -> Probe
        recommends
            self !is Verdict,
    {
        match self {
            Matching::File(_, index) => Probe::File(index),
            Matching::Event => Probe::Event,
            _ => Probe::Parent,
        }
    }

    /// How many more paths the match can ask for.
    pub open spec fn questions_left(self, watched: Watched) -> nat {
        match self {
            Matching::Parent => watched.files.len() + 2,
            Matching::Event => watched.files.len() + 1,
            Matching::File(_, index) => if index < watched.files.len() {
                (watched.files.len() - index) as nat
            } else {
                0
            },
            Matching::Verdict(_) => 0,
        }
    }
}

impl Watched {
    /// Whether the event's path ends in a watched name.
    pub open spec fn has_name_of(self, event: Seq<Part>) -> bool {
        file_name_of(event) is Some && self.files.contains(file_name_of(event)->0)
    }

    /// Where the match of an event starts: a path without a parent is in no folder.
    pub open spec fn first_question(self, event: Seq<Part>) -> Matching {
        if parent_of(event) is Some {
            Matching::Parent
        } else {
            Matching::Event
        }
    }

    /// Where the match goes when the path that it waits for resolves to `answer`, or, with `None`,
    /// does not resolve.
    pub open spec fn next_question(
        self,
        event: Seq<Part>,
        query: Matching,
        answer: Option<Seq<Part>>,
    ) -> Matching {
        match query {
            Matching::Parent => if answer == Some(self.dir) && self.has_name_of(event) {
                Matching::Verdict(true)
            } else {
                Matching::Event
            },
            Matching::Event => if answer is Some && self.files.len() > 0 {
                Matching::File(answer->0, 0)
            } else {
                Matching::Verdict(false)
            },
            Matching::File(target, index) => if answer == Some(target) {
                Matching::Verdict(true)
            } else if index + 1 < self.files.len() {
                Matching::File(target, index + 1)
            } else {
                Matching::Verdict(false)
            },
            Matching::Verdict(_) => query,
        }
    }

    /// Whether the event happened, by name, to a watched file: its folder resolves to the watched
    /// folder and its name is a watched one.
    pub open spec fn matches_name(
        self,
        event: Seq<Part>,
        answers: spec_fn(Probe) -> Option<Seq<Part>>,
    ) -> bool {
        &&& parent_of(event) is Some
        &&& answers(Probe::Parent) == Some(self.dir)
        &&& self.has_name_of(event)
    }

    /// Whether the event's path resolves to the same path as a watched file does.
    pub open spec fn matches_target(
        self,
        answers: spec_fn(Probe) -> Option<Seq<Part>>,
    ) -> bool {
        &&& answers(Probe::Event) is Some
        &&& exists|index: int|
            0 <= index < self.files.len() && #[trigger] answers(Probe::File(index)) == answers(
                Probe::Event,
            )
    }

    /// Whether an event concerns a watched file, where `answers` says what each path resolves to.
    pub open spec fn concerns(
        self,
        event: Seq<Part>,
        answers: spec_fn(Probe) -> Option<Seq<Part>>,
    ) -> bool {
        self.matches_name(event, answers) || self.matches_target(answers)
    }

    /// The verdict that a match comes to from `query` on, where `answers` says what each path
    /// resolves to.
    pub open spec fn verdict(
        self,
        event: Seq<Part>,
        query: Matching,
        answers: spec_fn(Probe) -> Option<Seq<Part>>,
    ) -> bool
        decreases query.questions_left(self),
    {
        if query.asks(self) {
            self.verdict(event, self.next_question(event, query, answers(query.probe())), answers)
        } else {
            query == Matching::Verdict(true)
        }
    }
}

/// From the point where the watched files are resolved one by one, the verdict is whether one that
/// is still to come resolves to the target.
proof fn lemma_verdict_of_files(
    watched: Watched,
    event: Seq<Part>,
    target: Seq<Part>,
    index: int,
    answers: spec_fn(Probe) -> Option<Seq<Part>>,
)
    requires
        0 <= index < watched.files.len(),
    ensures
        watched.verdict(event, Matching::File(target, index), answers) == exists|i: int|
            index <= i < watched.files.len() && #[trigger] answers(Probe::File(i)) == Some(target),
    decreases watched.files.len() - index,
{
    let query = Matching::File(target, index);
    let next = watched.next_question(event, query, answers(Probe::File(index)));
    assert(watched.verdict(event, query, answers) == watched.verdict(event, next, answers));
    if answers(Probe::File(index)) != Some(target) && index + 1 < watched.files.len() {
        lemma_verdict_of_files(watched, event, target, index + 1, answers);
    }
}

/// A match that is led through to its end finds this out: an event concerns a watched file exactly
/// when it happened under a watched name in the watched folder, or to the file that a watched name
/// leads to.
pub proof fn law_match_decides(
    watched: Watched,
    event: Seq<Part>,
    answers: spec_fn(Probe) -> Option<Seq<Part>>,
)
    ensures
        watched.verdict(event, watched.first_question(event), answers) == watched.concerns(
            event,
            answers,
        ),
{
    let at_event = Matching::Event;
    let after_event = watched.next_question(event, at_event, answers(Probe::Event));
    assert(watched.verdict(event, at_event, answers) == watched.verdict(
        event,
        after_event,
        answers,
    ));
    if answers(Probe::Event) is Some && watched.files.len() > 0 {
        lemma_verdict_of_files(watched, event, answers(Probe::Event)->0, 0, answers);
    }
    assert(watched.verdict(event, at_event, answers) == watched.matches_target(answers));
    if parent_of(event) is Some {
        let after_parent = watched.next_question(
            event,
            Matching::Parent,
            answers(Probe::Parent),
        );
        assert(watched.verdict(event, Matching::Parent, answers) == watched.verdict(
            event,
            after_parent,
            answers,
        ));
    }
}

/// An event under a watched name in the watched folder is noticed, whatever else resolves: so a
/// file is noticed when it is created or written, and also when it is deleted and its path no
/// longer resolves.
pub proof fn law_watched_name_is_noticed(
    watched: Watched,
    event: Seq<Part>,
    answers: spec_fn(Probe) -> Option<Seq<Part>>,
)
    requires
        watched.has_name_of(event),
        answers(Probe::Parent) == Some(watched.dir),
    ensures
        watched.verdict(event, watched.first_question(event), answers),
{
    law_match_decides(watched, event, answers);
}

/// A change to the file that a watched name links to is noticed.
pub proof fn law_link_target_is_noticed(
    watched: Watched,
    event: Seq<Part>,
    index: int,
    answers: spec_fn(Probe) -> Option<Seq<Part>>,
)
    requires
        0 <= index < watched.files.len(),
        answers(Probe::Event) is Some,
        answers(Probe::File(index)) == answers(Probe::Event),
    ensures
        watched.verdict(event, watched.first_question(event), answers),
{
    law_match_decides(watched, event, answers);
}

/// An event that happened neither under a watched name nor to the file that a watched name leads
/// to is ignored.
pub proof fn law_other_files_are_ignored(
    watched: Watched,
    event: Seq<Part>,
    answers: spec_fn(Probe) -> Option<Seq<Part>>,
)
    requires
        !watched.has_name_of(event) || answers(Probe::Parent) != Some(watched.dir),
        answers(Probe::Event) is Some ==> forall|index: int|
            0 <= index < watched.files.len() ==> #[trigger] answers(Probe::File(index)) != answers(
                Probe::Event,
            ),
    ensures
        !watched.verdict(event, watched.first_question(event), answers),
{
    law_match_decides(watched, event, answers);
}

/// The name of an event is a watched one exactly when the event's path ends in a name that is, byte
/// for byte, one of those watched.
pub proof fn law_watched_names_are_whole_names(watched: Watched, event: Seq<Part>)
    ensures
        watched.has_name_of(event) <==> event.len() > 0 && exists|i: int|
            0 <= i < watched.files.len() && event.last() == Part::Normal(
                #[trigger] watched.files[i],
            ),
{
    if watched.has_name_of(event) {
        let i = choose|i: int|
            0 <= i < watched.files.len() && watched.files[i] == file_name_of(event)->0;
        assert(event.last() == Part::Normal(watched.files[i]));
    }
}

/// An event is noticed exactly when its folder resolves to the watched folder and it ends in a
/// watched name, or when its path resolves, and to the same path as a watched file.
pub proof fn law_noticed_exactly(
    watched: Watched,
    event: Seq<Part>,
    answers: spec_fn(Probe) -> Option<Seq<Part>>,
)
    ensures
        watched.verdict(event, watched.first_question(event), answers) <==> {
            ||| event.len() > 0 && answers(Probe::Parent) == Some(watched.dir) && exists|i: int|
                0 <= i < watched.files.len() && event.last() == Part::Normal(
                    #[trigger] watched.files[i],
                )
            ||| answers(Probe::Event) is Some && exists|i: int|
                0 <= i < watched.files.len() && #[trigger] answers(Probe::File(i)) == answers(
                    Probe::Event,
                )
        },
{
    law_match_decides(watched, event, answers);
    law_watched_names_are_whole_names(watched, event);
}

/// A neighbour of the watched files is ignored: an event in the watched folder whose file name
/// differs from every watched name, and whose path resolves to nothing that a watched name resolves
/// to.
pub proof fn law_neighbour_is_ignored(
    watched: Watched,
    event: Seq<Part>,
    name: Seq<u8>,
    answers: spec_fn(Probe) -> Option<Seq<Part>>,
)
    requires
        file_name_of(event) == Some(name),
        forall|i: int| 0 <= i < watched.files.len() ==> #[trigger] watched.files[i] != name,
        answers(Probe::Event) is Some ==> forall|i: int|
            0 <= i < watched.files.len() ==> #[trigger] answers(Probe::File(i)) != answers(
                Probe::Event,
            ),
    ensures
        !watched.verdict(event, watched.first_question(event), answers),
{
    law_noticed_exactly(watched, event, answers);
}

/// The match of an event starts in its folder, where it has one.
pub proof fn law_match_starts_in_folder(watched: Watched, folder: Seq<Part>, part: Part)
    ensures
        watched.first_question(folder.push(part)) == (match part {
            Part::Prefix(_) | Part::RootDir => Matching::Event,
            Part::CurDir | Part::ParentDir | Part::Normal(_) => Matching::Parent,
        }),
        watched.first_question(Seq::empty()) == Matching::Event,
{
    crate::path::law_parent_drops_last(folder, part);
}

/// When the folder of an event has been resolved, the event is noticed at once where the folder is
/// the watched one and the event ends in a watched name; otherwise its own path is resolved.
pub proof fn law_folder_resolved(watched: Watched, event: Seq<Part>, answer: Option<Seq<Part>>)
    ensures
        watched.next_question(event, Matching::Parent, answer) == (if answer == Some(watched.dir)
            && event.len() > 0 && exists|i: int|
            0 <= i < watched.files.len() && event.last() == Part::Normal(
                #[trigger] watched.files[i],
            ) {
            Matching::Verdict(true)
        } else {
            Matching::Event
        }),
{
    law_watched_names_are_whole_names(watched, event);
}

/// When the path of an event has been resolved, the watched files are resolved one by one, from the
/// first on. There is nothing to resolve where the event's path does not resolve or no names are
/// watched, and the event is ignored.
pub proof fn law_event_resolved(watched: Watched, event: Seq<Part>, target: Seq<Part>)
    ensures
        watched.next_question(event, Matching::Event, None) == Matching::Verdict(false),
        watched.files.len() == 0 ==> watched.next_question(event, Matching::Event, Some(target))
            == Matching::Verdict(false),
        watched.files.len() > 0 ==> watched.next_question(event, Matching::Event, Some(target))
            == Matching::File(target, 0),
{
}

/// When a watched file has been resolved, the event is noticed where both are one file. Otherwise
/// it is the turn of the next watched file, and after the last one the event is ignored.
pub proof fn law_file_resolved(
    watched: Watched,
    event: Seq<Part>,
    target: Seq<Part>,
    index: int,
    answer: Option<Seq<Part>>,
)
    requires
        0 <= index < watched.files.len(),
    ensures
        ({
            let next = watched.next_question(event, Matching::File(target, index), answer);
            &&& next == Matching::Verdict(true) <==> answer == Some(target)
            &&& next == Matching::File(target, index + 1) <==> answer != Some(target) && index
                != watched.files.len() - 1
            &&& next == Matching::Verdict(false) <==> answer != Some(target) && index
                == watched.files.len() - 1
        }),
{
}

/// As long as a match has not ended it waits for a path. This is the folder of the event at first,
/// the event's own path after that, and what each of the watched names leads to in the end.
pub proof fn law_match_waits_for(
    watched: Watched,
    folder: Seq<Part>,
    part: Part,
    target: Seq<Part>,
    index: int,
    verdict: bool,
)
    requires
        0 <= index < watched.files.len(),
    ensures
        ({
            let event = folder.push(part);
            &&& Matching::Parent.asks(watched)
            &&& Matching::Event.asks(watched)
            &&& Matching::File(target, index).asks(watched)
            &&& !Matching::File(target, watched.files.len() as int).asks(watched)
            &&& !Matching::Verdict(verdict).asks(watched)
            &&& Matching::Parent.probe().wanted(watched, event) == (match part {
                Part::Prefix(_) | Part::RootDir => None,
                _ => Some(WantedPath::Path(folder)),
            })
            &&& Matching::Event.probe().wanted(watched, event) == Some(WantedPath::Path(event))
            &&& Matching::File(target, index).probe().wanted(watched, event) == Some(
                WantedPath::Named(watched.files[index]),
            )
            &&& Matching::File(target, watched.files.len() as int).probe().wanted(
                watched,
                event,
            ) is None
        }),
{
    crate::path::law_parent_drops_last(folder, part);
}

/// Contracts see the folder and each of the names that are watched.
pub proof fn law_watched_files_are_seen(watch: AsyncFsWatch)
    ensures
        watch@.dir == watch.dir@,
        watch@.files.len() == watch.files@.len(),
        forall|i: int|
            0 <= i < watch.files@.len() ==> #[trigger] watch@.files[i] == watch.files@[i]@,
{
}

/// Contracts see how far a match has come, and the path that it waits for, as they are.
pub proof fn law_match_is_seen(target: FilePath, index: usize, verdict: bool, name: Vec<u8>)
    ensures
        Query::Parent@ == Matching::Parent,
        Query::Event@ == Matching::Event,
        Query::File(target, index)@ == Matching::File(target@, index as int),
        Query::Verdict(verdict)@ == Matching::Verdict(verdict),
        wanted_seen(Some(Wanted::Path(target))) == Some(WantedPath::Path(target@)),
        wanted_seen(Some(Wanted::Named(name))) == Some(WantedPath::Named(name@)),
        wanted_seen(None) is None,
{
}

impl AsyncFsWatch {
    /// Whether the event's path ends in a watched name.
    fn has_name_of(&self, event_path: &FilePath) -> (has: bool)
        ensures
            has == self@.has_name_of(event_path@),
    {
        let name = match event_path.file_name() {
            Some(name) => name,
            None => {
                return false;
            },
        };
        for i in 0..self.files.len()
            invariant
                file_name_of(event_path@) == Some(name@),
                forall|j: int| 0 <= j < i ==> self@.files[j] != name@,
        {
            if same_bytes(&self.files[i], &name) {
                assert(self@.files[i as int] == name@);
                return true;
            }
        }
        false
    }

    /// Starts to match an event with the watched files.
    pub fn start_match(&self, event_path: &FilePath) -> (query: Query)
        ensures
            query@ == self@.first_question(event_path@),
            query@.asks(self@),
    {
        match event_path.parent() {
            Some(_) => Query::Parent,
            None => Query::Event,
        }
    }

    /// The path that the match of an event waits for. One that has come to its end waits for none.
    pub fn wanted(&self, event_path: &FilePath, query: &Query) -> (wanted: Option<Wanted>)
        ensures
            wanted_seen(wanted) == (if query@ is Verdict {
                None
            } else {
                query@.probe().wanted(self@, event_path@)
            }),
    {
        match query {
            Query::Parent => match event_path.parent() {
                Some(parent) => Some(Wanted::Path(parent)),
                None => None,
            },
            Query::Event => Some(Wanted::Path(event_path.clone())),
            Query::File(_, index) => {
                assert(self@.files.len() == self.files.len());
                if *index < self.files.len() {
                    Some(Wanted::Named(copy_bytes(&self.files[*index])))
                } else {
                    None
                }
            },
            Query::Verdict(_) => None,
        }
    }

    /// Takes the match of an event one path further, towards the verdict whether the event path is
    /// one of the watched files. `answer` is what the path that `query` waits for resolves to, or
    /// `None` where it does not resolve.
    ///
    /// The first match is by name. Only the folder is resolved for it, because the file may not
    /// exist any more: it finds deletes. The second match is by resolved target. It finds changes
    /// to a file that a watched name links to. The watched files are resolved anew for each event,
    /// because a link can change to a different target.
    pub fn is_watched(
        &self,
        event_path: &FilePath,
        query: Query,
        answer: Option<FilePath>,
    ) -> (next: Query)
        requires
            query@.asks(self@),
        ensures
            next@ == self@.next_question(event_path@, query@, found(answer)),
            next@ is Verdict || next@.asks(self@),
            next@.questions_left(self@) < query@.questions_left(self@),
    {
        match query {
            Query::Parent => {
                let same_dir = match &answer {
                    Some(dir) => dir.same_as(&self.dir),
                    None => false,
                };
                if same_dir && self.has_name_of(event_path) {
                    Query::Verdict(true)
                } else {
                    Query::Event
                }
            },
            Query::Event => match answer {
                Some(target) => {
                    if self.files.len() > 0 {
                        Query::File(target, 0)
                    } else {
                        Query::Verdict(false)
                    }
                },
                None => Query::Verdict(false),
            },
            Query::File(target, index) => {
                assert(self@.files.len() == self.files.len());
                let same_target = match &answer {
                    Some(file) => file.same_as(&target),
                    None => false,
                };
                if same_target {
                    Query::Verdict(true)
                } else if index + 1 < self.files.len() {
                    Query::File(target, index + 1)
                } else {
                    Query::Verdict(false)
                }
            },
            Query::Verdict(watched) => Query::Verdict(watched),
        }
    }
}

impl AsyncFsWatch {
    /// What a wait for the next change comes to: the watcher tells of one, or, with an error, it
    /// has stopped.
    pub fn changed(received: Result<(), ()>) -> (changed: Result<(), Error>)
        ensures
            received is Ok ==> changed == Ok::<(), Error>(()),
            received is Err ==> changed == Err::<(), Error>(Error::WatcherStopped),
    {
        match received {
            Ok(()) => Ok(()),
            Err(()) => Err(Error::WatcherStopped),
        }
    }
}

} // verus!
