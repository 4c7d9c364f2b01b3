//! What matches come to on a disk.
//!
//! A disk is what paths resolve to: `canon` gives for each path the path that it resolves to, or
//! `None`. `join` puts a name into the watched folder.
use vstd::prelude::*;

use crate::event_batch::Batch;
use crate::fs_watch::{law_match_decides, law_noticed_exactly, Probe, Watched};
use crate::path::{file_name_of, parent_of, Part};

verus! {

/// What a path, if there is one, resolves to.
pub open spec fn resolved(
    path: Option<Seq<Part>>,
    canon: spec_fn(Seq<Part>) -> Option<Seq<Part>>,
) -> Option<Seq<Part>> {
    match path {
        Some(path) => canon(path),
        None => None,
    }
}

impl Watched {
    /// The answers that a disk gives to the questions of a match.
    pub open spec fn answers_on(
        self,
        event: Seq<Part>,
        join: spec_fn(Seq<u8>) -> Seq<Part>,
        canon: spec_fn(Seq<Part>) -> Option<Seq<Part>>,
    ) -> spec_fn(Probe) -> Option<Seq<Part>> {
        |probe: Probe|
            match probe.wanted(self, event) {
                Some(wanted) => canon(wanted.joined(join)),
                None => None,
            }
    }

    /// The verdict that the match of an event comes to on a disk.
    pub open spec fn verdict_on(
        self,
        event: Seq<Part>,
        join: spec_fn(Seq<u8>) -> Seq<Part>,
        canon: spec_fn(Seq<Part>) -> Option<Seq<Part>>,
    ) -> bool {
        self.verdict(event, self.first_question(event), self.answers_on(event, join, canon))
    }

    /// Whether the event happened in the watched folder under a watched name.
    pub open spec fn is_named_by(
        self,
        event: Seq<Part>,
        canon: spec_fn(Seq<Part>) -> Option<Seq<Part>>,
    ) -> bool {
        resolved(parent_of(event), canon) == Some(self.dir) && self.has_name_of(event)
    }

    /// Whether the event happened to the file that a watched name leads to.
    pub open spec fn is_led_to(
        self,
        event: Seq<Part>,
        join: spec_fn(Seq<u8>) -> Seq<Part>,
        canon: spec_fn(Seq<Part>) -> Option<Seq<Part>>,
    ) -> bool {
        canon(event) is Some && exists|name: Seq<u8>| #[trigger]
            self.files.contains(name) && canon(join(name)) == canon(event)
    }
}

/// On a disk, an event concerns a watched file exactly when its folder resolves to the watched
/// folder and its file name is a watched one, or when its path resolves, and to the same path as a
/// watched name in the watched folder.
pub proof fn law_match_on_disk(
    watched: Watched,
    event: Seq<Part>,
    join: spec_fn(Seq<u8>) -> Seq<Part>,
    canon: spec_fn(Seq<Part>) -> Option<Seq<Part>>,
)
    ensures
        watched.verdict_on(event, join, canon) == (watched.is_named_by(event, canon)
            || watched.is_led_to(event, join, canon)),
{
    let answers = watched.answers_on(event, join, canon);
    law_match_decides(watched, event, answers);
    assert(answers(Probe::Event) == canon(event));
    assert forall|index: int| 0 <= index < watched.files.len() implies #[trigger] answers(
        Probe::File(index),
    ) == canon(join(watched.files[index])) && watched.files.contains(watched.files[index]) by {}
    if watched.is_led_to(event, join, canon) {
        let name = choose|name: Seq<u8>| #[trigger]
            watched.files.contains(name) && canon(join(name)) == canon(event);
        let index = choose|index: int|
            0 <= index < watched.files.len() && watched.files[index] == name;
        assert(answers(Probe::File(index)) == answers(Probe::Event));
    }
}

/// On a disk, an event is noticed exactly when it ends in a watched name and the rest of its path
/// resolves to the watched folder, or when its path resolves, and to the same path as a watched
/// name put into the watched folder.
pub proof fn law_noticed_on_disk(
    watched: Watched,
    event: Seq<Part>,
    join: spec_fn(Seq<u8>) -> Seq<Part>,
    canon: spec_fn(Seq<Part>) -> Option<Seq<Part>>,
)
    ensures
        watched.verdict_on(event, join, canon) <==> {
            ||| event.len() > 0 && canon(event.drop_last()) == Some(watched.dir) && exists|i: int|
                0 <= i < watched.files.len() && event.last() == Part::Normal(
                    #[trigger] watched.files[i],
                )
            ||| canon(event) is Some && exists|i: int|
                0 <= i < watched.files.len() && canon(join(#[trigger] watched.files[i])) == canon(
                    event,
                )
        },
{
    let answers = watched.answers_on(event, join, canon);
    law_noticed_exactly(watched, event, answers);
    assert(answers(Probe::Event) == canon(event));
    assert forall|i: int|
        #![trigger answers(Probe::File(i))]
        #![trigger watched.files[i]]
        0 <= i < watched.files.len() implies answers(Probe::File(i)) == canon(
        join(watched.files[i]),
    ) by {}
    if event.len() > 0 && event.last() is Normal {
        assert(answers(Probe::Parent) == canon(event.drop_last()));
    }
}

/// On a disk, a match is told what the path that it waits for resolves to, and nothing where there
/// is no such path.
pub proof fn law_disk_answers(
    watched: Watched,
    folder: Seq<Part>,
    part: Part,
    index: int,
    join: spec_fn(Seq<u8>) -> Seq<Part>,
    canon: spec_fn(Seq<Part>) -> Option<Seq<Part>>,
)
    requires
        0 <= index < watched.files.len(),
    ensures
        ({
            let event = folder.push(part);
            let answers = watched.answers_on(event, join, canon);
            &&& answers(Probe::Parent) == (match part {
                Part::Prefix(_) | Part::RootDir => None,
                _ => canon(folder),
            })
            &&& answers(Probe::Event) == canon(event)
            &&& answers(Probe::File(index)) == canon(join(watched.files[index]))
        }),
{
    crate::path::law_parent_drops_last(folder, part);
}

/// To watch two lists of names together is to watch each: an event concerns one of all the files
/// exactly when it concerns one of the first list or one of the second.
pub proof fn law_lists_of_names_add_up(
    dir: Seq<Part>,
    first: Seq<Seq<u8>>,
    second: Seq<Seq<u8>>,
    event: Seq<Part>,
    join: spec_fn(Seq<u8>) -> Seq<Part>,
    canon: spec_fn(Seq<Part>) -> Option<Seq<Part>>,
)
    ensures
        (Watched { dir, files: first + second }).verdict_on(event, join, canon) == ((Watched {
            dir,
            files: first,
        }).verdict_on(event, join, canon) || (Watched { dir, files: second }).verdict_on(
            event,
            join,
            canon,
        )),
{
    let both = Watched { dir, files: first + second };
    let left = Watched { dir, files: first };
    let right = Watched { dir, files: second };
    law_match_on_disk(both, event, join, canon);
    law_match_on_disk(left, event, join, canon);
    law_match_on_disk(right, event, join, canon);
    assert forall|name: Seq<u8>|
        #![trigger both.files.contains(name)]
        #![trigger left.files.contains(name)]
        #![trigger right.files.contains(name)]
        both.files.contains(name) == (left.files.contains(name) || right.files.contains(
            name,
        )) by {
        if left.files.contains(name) {
            let i = choose|i: int| 0 <= i < first.len() && first[i] == name;
            assert(both.files[i] == name);
        }
        if right.files.contains(name) {
            let i = choose|i: int| 0 <= i < second.len() && second[i] == name;
            assert(both.files[first.len() + i] == name);
        }
    }
}

/// Where no names are watched, no event concerns a watched file, whatever resolves.
pub proof fn law_no_names_no_match(
    dir: Seq<Part>,
    event: Seq<Part>,
    answers: spec_fn(Probe) -> Option<Seq<Part>>,
)
    ensures
        ({
            let watched = Watched { dir, files: Seq::empty() };
            !watched.verdict(event, watched.first_question(event), answers)
        }),
{
    law_match_decides(Watched { dir, files: Seq::empty() }, event, answers);
}

/// Where no names are watched, the receiver is never told of an event.
pub proof fn law_no_names_no_notification(
    dir: Seq<Part>,
    events: Seq<Seq<Part>>,
    answers: spec_fn(int, Probe) -> Option<Seq<Part>>,
)
    ensures
        ({
            let watched = Watched { dir, files: Seq::empty() };
            Batch::at(events, 0, watched).notifications(watched, answers) == Seq::<int>::empty()
        }),
{
    let watched = Watched { dir, files: Seq::empty() };
    crate::event_batch::law_batch_notifies(watched, events, answers);
    lemma_none_concerning(watched, events, 0, answers);
}

proof fn lemma_none_concerning(
    watched: Watched,
    events: Seq<Seq<Part>>,
    index: int,
    answers: spec_fn(int, Probe) -> Option<Seq<Part>>,
)
    requires
        watched.files.len() == 0,
        0 <= index,
    ensures
        watched.concerning(events, index, answers) == Seq::<int>::empty(),
    decreases events.len() - index,
{
    if index < events.len() {
        lemma_none_concerning(watched, events, index + 1, answers);
    }
}

/// How the path of an event is written makes no difference: two paths with one file name, whose
/// folders resolve alike and which themselves resolve alike, get one verdict.
pub proof fn law_spelling_makes_no_difference(
    watched: Watched,
    event: Seq<Part>,
    other: Seq<Part>,
    join: spec_fn(Seq<u8>) -> Seq<Part>,
    canon: spec_fn(Seq<Part>) -> Option<Seq<Part>>,
)
    requires
        file_name_of(event) == file_name_of(other),
        resolved(parent_of(event), canon) == resolved(parent_of(other), canon),
        canon(event) == canon(other),
    ensures
        watched.verdict_on(event, join, canon) == watched.verdict_on(other, join, canon),
{
    law_match_on_disk(watched, event, join, canon);
    law_match_on_disk(watched, other, join, canon);
}

/// A link that changes its target is followed anew: whatever it led to before, an event is noticed
/// that happens to the file that it leads to now. An event of the file that it led to before is
/// noticed only if it is named by a watched name or one still leads there.
pub proof fn law_link_is_followed_anew(
    watched: Watched,
    link: Seq<u8>,
    event: Seq<Part>,
    join: spec_fn(Seq<u8>) -> Seq<Part>,
    before: spec_fn(Seq<Part>) -> Option<Seq<Part>>,
    after: spec_fn(Seq<Part>) -> Option<Seq<Part>>,
)
    requires
        watched.files.contains(link),
        before(join(link)) is Some,
        after(join(link)) is Some,
        before(join(link)) != after(join(link)),
    ensures
        after(event) == after(join(link)) ==> watched.verdict_on(event, join, after),
        after(event) == before(join(link)) ==> (watched.verdict_on(event, join, after) ==> (
        watched.is_named_by(event, after) || exists|name: Seq<u8>| #[trigger]
            watched.files.contains(name) && name != link && after(join(name)) == after(event))),
{
    law_match_on_disk(watched, event, join, after);
    if after(event) == before(join(link)) && watched.is_led_to(event, join, after) {
        let name = choose|name: Seq<u8>| #[trigger]
            watched.files.contains(name) && after(join(name)) == after(event);
        assert(watched.files.contains(name) && name != link);
    }
}

proof fn lemma_concerning_contains(
    watched: Watched,
    events: Seq<Seq<Part>>,
    start: int,
    index: int,
    answers: spec_fn(int, Probe) -> Option<Seq<Part>>,
)
    requires
        0 <= start,
    ensures
        watched.concerning(events, start, answers).contains(index) <==> start <= index
            < events.len() && watched.concerns(
            events[index],
            |probe: Probe| answers(index, probe),
        ),
    decreases events.len() - start,
{
    if start < events.len() {
        let rest = watched.concerning(events, start + 1, answers);
        lemma_concerning_contains(watched, events, start + 1, index, answers);
        let whole = seq![start] + rest;
        assert(whole.contains(index) <==> index == start || rest.contains(index)) by {
            assert(whole[0] == start);
            if rest.contains(index) {
                let i = choose|i: int| 0 <= i < rest.len() && rest[i] == index;
                assert(whole[i + 1] == index);
            }
            if whole.contains(index) && index != start {
                let i = choose|i: int| 0 <= i < whole.len() && whole[i] == index;
                assert(rest[i - 1] == index);
            }
        }
    }
}

/// Of a batch of events the receiver is told of exactly those that happened in the watched folder
/// under a watched name or to the file that a watched name leads to. The disk may change between
/// the events: `canon` is told which event the path is resolved for.
pub proof fn law_batch_on_disk(
    watched: Watched,
    events: Seq<Seq<Part>>,
    index: int,
    join: spec_fn(Seq<u8>) -> Seq<Part>,
    canon: spec_fn(int, Seq<Part>) -> Option<Seq<Part>>,
)
    ensures
        ({
            let answers = |event: int, probe: Probe|
                watched.answers_on(events[event], join, |path: Seq<Part>| canon(event, path))(
                    probe,
                );
            let disk = |path: Seq<Part>| canon(index, path);
            Batch::at(events, 0, watched).notifications(watched, answers).contains(index) <==> {
                &&& 0 <= index < events.len()
                &&& watched.is_named_by(events[index], disk) || watched.is_led_to(
                    events[index],
                    join,
                    disk,
                )
            }
        }),
{
    let answers = |event: int, probe: Probe|
        watched.answers_on(events[event], join, |path: Seq<Part>| canon(event, path))(probe);
    let disk = |path: Seq<Part>| canon(index, path);
    crate::event_batch::law_batch_notifies(watched, events, answers);
    lemma_concerning_contains(watched, events, 0, index, answers);
    if 0 <= index < events.len() {
        let event = events[index];
        assert((|probe: Probe| answers(index, probe)) =~= watched.answers_on(event, join, disk));
        law_match_decides(watched, event, watched.answers_on(event, join, disk));
        law_match_on_disk(watched, event, join, disk);
    }
}

/// Of a batch of events the receiver is told of an event exactly when that event ends in a watched
/// name and the rest of its path resolves to the watched folder, or when its path resolves, and to
/// the same path as a watched name put into the watched folder. The disk may change between the
/// events.
pub proof fn law_told_on_disk(
    watched: Watched,
    events: Seq<Seq<Part>>,
    index: int,
    join: spec_fn(Seq<u8>) -> Seq<Part>,
    canon: spec_fn(int, Seq<Part>) -> Option<Seq<Part>>,
)
    ensures
        ({
            let answers = |event: int, probe: Probe|
                watched.answers_on(events[event], join, |path: Seq<Part>| canon(event, path))(
                    probe,
                );
            let event = events[index];
            Batch::at(events, 0, watched).notifications(watched, answers).contains(index) <==> {
                &&& 0 <= index < events.len()
                &&& {
                    ||| event.len() > 0 && canon(index, event.drop_last()) == Some(watched.dir)
                        && exists|i: int|
                        0 <= i < watched.files.len() && event.last() == Part::Normal(
                            #[trigger] watched.files[i],
                        )
                    ||| canon(index, event) is Some && exists|i: int|
                        0 <= i < watched.files.len() && canon(
                            index,
                            join(#[trigger] watched.files[i]),
                        ) == canon(index, event)
                }
            }
        }),
{
    let disk = |path: Seq<Part>| canon(index, path);
    law_batch_on_disk(watched, events, index, join, canon);
    law_match_on_disk(watched, events[index], join, disk);
    law_noticed_on_disk(watched, events[index], join, disk);
}

} // verus!
