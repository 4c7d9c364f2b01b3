//! Setting a watch up.
//!
//! The folder is created where it is missing, then resolved; then the debouncer is started, and
//! told to watch the folder. [`WatchSetup::work`] is the work to do next; [`WatchSetup::advance`]
//! is handed what came of it.
use vstd::prelude::*;

use crate::error::{Error, Fault};
use crate::fs_watch::{AsyncFsWatch, Probe, Watched};
use crate::path::{copy_names, file_name_of, names_of, parent_of, FilePath, Part};
use notify::Error as NotifyError;

verus! {

/// For how long events are gathered before they are reported.
#[derive(Debug, Clone, Copy, PartialEq, Eq)]
pub struct Delay {
    pub secs: u64,
    pub nanos: u32,
}

/// The delay of a watch for which none was asked for: half a second.
pub const DEFAULT_DELAY_NANOS: u32 = 500_000_000;

/// The work that a setup waits for.
#[derive(Debug)]
pub enum SetupStep {
    /// Create the folder, and those above it, where they are missing.
    CreateFolder,
    /// Resolve the folder's path.
    ResolveFolder,
    /// Start a debouncer, whose events are to be matched with these files.
    StartDebouncer(AsyncFsWatch),
    /// Have the debouncer, whose events are matched with these files, watch the folder itself, not
    /// what lies deeper.
    StartWatcher(AsyncFsWatch),
}

/// A watch that is being set up.
#[derive(Debug)]
pub struct WatchSetup {
    pub folder: FilePath,
    pub files: Vec<Vec<u8>>,
    pub debounce: Delay,
    pub step: SetupStep,
}

/// How much of a folder is watched.
#[derive(Debug, Clone, Copy, PartialEq, Eq)]
pub enum Depth {
    /// The folder itself, not what lies deeper.
    FolderOnly,
    /// The folder and everything below it.
    All,
}

/// A piece of work of a setup, with all that it is done with.
#[derive(Debug)]
pub enum SetupWork {
    /// Create this folder, and those above it, where they are missing.
    CreateFolder(FilePath),
    /// Resolve the path of this folder.
    ResolveFolder(FilePath),
    /// Start a debouncer that gathers events for this long, and match its events with these files.
    StartDebouncer(Delay, AsyncFsWatch),
    /// Have the debouncer watch this folder, so deep.
    WatchFolder(FilePath, Depth),
}

/// What came of the work. A text says why it failed.
#[derive(Debug)]
pub enum SetupEvent {
    FolderCreated(Result<(), String>),
    FolderResolved(Result<FilePath, String>),
    DebouncerStarted(Result<(), NotifyError>),
    WatcherStarted(Result<(), NotifyError>),
}

/// How far a setup has come.
#[derive(Debug)]
pub enum SetupProgress {
    /// There is more to do.
    More(WatchSetup),
    /// The watch is set up.
    Ready(AsyncFsWatch),
}

/// The work of a setup as contracts speak of it.
pub enum Step {
    CreateFolder,
    ResolveFolder,
    StartDebouncer(Watched),
    StartWatcher(Watched),
}

/// A setup as contracts speak of it.
pub struct Setup {
    pub folder: Seq<Part>,
    pub files: Seq<Seq<u8>>,
    pub debounce: Delay,
    pub step: Step,
}

/// A piece of work as contracts speak of it.
pub enum Work {
    CreateFolder(Seq<Part>),
    ResolveFolder(Seq<Part>),
    StartDebouncer(Delay, Watched),
    WatchFolder(Seq<Part>, Depth),
}

/// What came of the work, as contracts speak of it.
pub enum Happened {
    FolderCreated(Result<(), Seq<char>>),
    FolderResolved(Result<Seq<Part>, Seq<char>>),
    DebouncerStarted(Result<(), NotifyError>),
    WatcherStarted(Result<(), NotifyError>),
}

/// How far a setup has come, as contracts speak of it.
pub enum Progress {
    More(Setup),
    Ready(Watched),
    Failed(Fault),
}

impl Step {
    /// How many steps come before this one.
    pub open spec fn rank(self) -> int {
        match self {
            Step::CreateFolder => 0,
            Step::ResolveFolder => 1,
            Step::StartDebouncer(_) => 2,
            Step::StartWatcher(_) => 3,
        }
    }
}

impl View for SetupStep {
    type V = Step;

    open spec fn view(&self) -> Step {
        match self {
            SetupStep::CreateFolder => Step::CreateFolder,
            SetupStep::ResolveFolder => Step::ResolveFolder,
            SetupStep::StartDebouncer(watch) => Step::StartDebouncer(watch@),
            SetupStep::StartWatcher(watch) => Step::StartWatcher(watch@),
        }
    }
}

impl View for WatchSetup {
    type V = Setup;

    open spec fn view(&self) -> Setup {
        Setup {
            folder: self.folder@,
            files: names_of(self.files@),
            debounce: self.debounce,
            step: self.step@,
        }
    }
}

impl View for SetupWork {
    type V = Work;

    open spec fn view(&self) -> Work {
        match self {
            SetupWork::CreateFolder(folder) => Work::CreateFolder(folder@),
            SetupWork::ResolveFolder(folder) => Work::ResolveFolder(folder@),
            SetupWork::StartDebouncer(delay, watch) => Work::StartDebouncer(*delay, watch@),
            SetupWork::WatchFolder(folder, depth) => Work::WatchFolder(folder@, *depth),
        }
    }
}

impl View for SetupEvent {
    type V = Happened;

    open spec fn view(&self) -> Happened {
        match *self {
            SetupEvent::FolderCreated(Ok(())) => Happened::FolderCreated(Ok(())),
            SetupEvent::FolderCreated(Err(reason)) => Happened::FolderCreated(Err(reason@)),
            SetupEvent::FolderResolved(Ok(dir)) => Happened::FolderResolved(Ok(dir@)),
            SetupEvent::FolderResolved(Err(reason)) => Happened::FolderResolved(Err(reason@)),
            SetupEvent::DebouncerStarted(started) => Happened::DebouncerStarted(started),
            SetupEvent::WatcherStarted(started) => Happened::WatcherStarted(started),
        }
    }
}

/// How far a setup has come when its last step ended in `result`.
pub open spec fn progress(result: Result<SetupProgress, Error>) -> Progress {
    match result {
        Ok(SetupProgress::More(setup)) => Progress::More(setup@),
        Ok(SetupProgress::Ready(watch)) => Progress::Ready(watch@),
        Err(error) => Progress::Failed(error@),
    }
}

impl Setup {
    /// The work that the setup waits for. It is the folder as it was given that is watched, not the
    /// path that it resolves to nor the files in it, and not what lies deeper.
    pub open spec fn work(self) -> Work {
        match self.step {
            Step::CreateFolder => Work::CreateFolder(self.folder),
            Step::ResolveFolder => Work::ResolveFolder(self.folder),
            Step::StartDebouncer(watched) => Work::StartDebouncer(self.debounce, watched),
            Step::StartWatcher(_) => Work::WatchFolder(self.folder, Depth::FolderOnly),
        }
    }

    /// How far the setup comes by `event`, where `shown` is how its folder is written in messages.
    /// What comes of other work than the setup waits for changes nothing.
    pub open spec fn after(self, shown: Seq<char>, event: Happened) -> Progress {
        match (self.step, event) {
            (Step::CreateFolder, Happened::FolderCreated(Ok(()))) => Progress::More(
                Setup { step: Step::ResolveFolder, ..self },
            ),
            (Step::CreateFolder, Happened::FolderCreated(Err(reason))) => Progress::Failed(
                Fault::InvalidPath("Could not create "@ + shown + ": "@ + reason),
            ),
            (Step::ResolveFolder, Happened::FolderResolved(Ok(dir))) => Progress::More(
                Setup { step: Step::StartDebouncer(Watched { dir, files: self.files }), ..self },
            ),
            (Step::ResolveFolder, Happened::FolderResolved(Err(reason))) => Progress::Failed(
                Fault::InvalidPath("Could not canonicalize "@ + shown + ": "@ + reason),
            ),
            (Step::StartDebouncer(watched), Happened::DebouncerStarted(Ok(()))) => Progress::More(
                Setup { step: Step::StartWatcher(watched), ..self },
            ),
            (Step::StartDebouncer(_), Happened::DebouncerStarted(Err(err))) => Progress::Failed(
                Fault::WatchError(err),
            ),
            (Step::StartWatcher(watched), Happened::WatcherStarted(Ok(()))) => Progress::Ready(
                watched,
            ),
            (Step::StartWatcher(_), Happened::WatcherStarted(Err(err))) => Progress::Failed(
                Fault::WatchError(err),
            ),
            _ => Progress::More(self),
        }
    }
}

impl Progress {
    /// The work that is done next, if the setup goes on.
    pub open spec fn work(self) -> Seq<Work> {
        match self {
            Progress::More(setup) => seq![setup.work()],
            _ => Seq::empty(),
        }
    }

    /// How far a setup comes by one more event. One that is ready or has failed stays so.
    pub open spec fn and_then(self, shown: Seq<char>, event: Happened) -> Progress {
        match self {
            Progress::More(setup) => setup.after(shown, event),
            _ => self,
        }
    }
}

/// A setup that starts with its folder to be created.
pub open spec fn new_setup(folder: Seq<Part>, files: Seq<Seq<u8>>, debounce: Delay) -> Setup {
    Setup { folder, files, debounce, step: Step::CreateFolder }
}

/// A setup, led through to its end, comes to watch the given files in the folder's resolved path
/// when each of its four steps succeeds; otherwise it fails by its first step that does.
pub proof fn law_setup_ends(
    folder: Seq<Part>,
    files: Seq<Seq<u8>>,
    debounce: Delay,
    shown: Seq<char>,
    created: Result<(), Seq<char>>,
    resolved: Result<Seq<Part>, Seq<char>>,
    debouncer: Result<(), NotifyError>,
    watcher: Result<(), NotifyError>,
)
    ensures
        Progress::More(new_setup(folder, files, debounce)).and_then(
            shown,
            Happened::FolderCreated(created),
        ).and_then(shown, Happened::FolderResolved(resolved)).and_then(
            shown,
            Happened::DebouncerStarted(debouncer),
        ).and_then(shown, Happened::WatcherStarted(watcher)) == (match (
            created,
            resolved,
            debouncer,
            watcher,
        ) {
            (Err(reason), _, _, _) => Progress::Failed(
                Fault::InvalidPath("Could not create "@ + shown + ": "@ + reason),
            ),
            (_, Err(reason), _, _) => Progress::Failed(
                Fault::InvalidPath("Could not canonicalize "@ + shown + ": "@ + reason),
            ),
            (_, _, Err(err), _) => Progress::Failed(Fault::WatchError(err)),
            (_, _, _, Err(err)) => Progress::Failed(Fault::WatchError(err)),
            (_, Ok(dir), _, _) => Progress::Ready(Watched { dir, files }),
        }),
{
}

/// A setup whose steps succeed does each piece of work once: it creates the folder, resolves it,
/// starts one debouncer, with the delay that was asked for and its events matched with the given
/// files in the resolved folder, and registers one watch with it, on the folder as it was given and
/// not on what lies deeper.
pub proof fn law_setup_works_once(
    folder: Seq<Part>,
    files: Seq<Seq<u8>>,
    debounce: Delay,
    shown: Seq<char>,
    dir: Seq<Part>,
)
    ensures
        ({
            let start = Progress::More(new_setup(folder, files, debounce));
            let created = start.and_then(shown, Happened::FolderCreated(Ok(())));
            let resolved = created.and_then(shown, Happened::FolderResolved(Ok(dir)));
            let debounced = resolved.and_then(shown, Happened::DebouncerStarted(Ok(())));
            let watching = debounced.and_then(shown, Happened::WatcherStarted(Ok(())));
            &&& start.work() + created.work() + resolved.work() + debounced.work()
                + watching.work() == seq![
                Work::CreateFolder(folder),
                Work::ResolveFolder(folder),
                Work::StartDebouncer(debounce, Watched { dir, files }),
                Work::WatchFolder(folder, Depth::FolderOnly),
            ]
            &&& watching == Progress::Ready(Watched { dir, files })
        }),
{
}

/// A setup goes from one piece of work to the next, and does none again: what comes after a step
/// that succeeded is later work, and nothing comes after one that failed.
pub proof fn law_setup_goes_forward(setup: Setup, shown: Seq<char>, event: Happened)
    requires
        setup.after(shown, event) != Progress::More(setup),
    ensures
        match setup.after(shown, event) {
            Progress::More(next) => {
                &&& next.step.rank() == setup.step.rank() + 1
                &&& next.folder == setup.folder
                &&& next.files == setup.files
                &&& next.debounce == setup.debounce
            },
            Progress::Ready(_) => setup.step is StartWatcher,
            Progress::Failed(_) => true,
        },
{
}

/// The folder to watch for the sake of a path: its parent, or, where it has none, the path itself.
pub open spec fn folder_for(path: Seq<Part>) -> Seq<Part> {
    match parent_of(path) {
        Some(parent) => parent,
        None => path,
    }
}

/// The folder that is watched for the sake of a path is the one that the path's file name is in.
pub proof fn law_watched_folder_holds_path(path: Seq<Part>, name: Seq<u8>)
    requires
        path.len() > 0,
        path.last() == Part::Normal(name),
    ensures
        folder_for(path).push(Part::Normal(name)) == path,
{
    assert(path.drop_last().push(path.last()) =~= path);
}

/// For the sake of any path in a folder, it is that folder that is watched.
pub proof fn law_watched_folder_of_name(folder: Seq<Part>, name: Seq<u8>)
    ensures
        folder_for(folder.push(Part::Normal(name))) == folder,
        file_name_of(folder.push(Part::Normal(name))) == Some(name),
{
    crate::path::law_parent_of_name(folder, name);
}

/// A watch for which no delay was asked for gathers events for half a second.
pub proof fn law_default_delay()
    ensures
        2 * DEFAULT_DELAY_NANOS == 1_000_000_000,
{
}

/// A new setup is for the folder, the files and the delay that were asked for, and starts with
/// creating the folder.
pub proof fn law_new_setup_starts(folder: Seq<Part>, files: Seq<Seq<u8>>, debounce: Delay)
    ensures
        new_setup(folder, files, debounce).folder == folder,
        new_setup(folder, files, debounce).files == files,
        new_setup(folder, files, debounce).debounce == debounce,
        new_setup(folder, files, debounce).work() == Work::CreateFolder(folder),
{
}

/// A step that failed ends the setup, with a text that names the folder and says why, or with the
/// error that the watcher gave.
pub proof fn law_failed_step_ends_setup(
    setup: Setup,
    shown: Seq<char>,
    reason: Seq<char>,
    err: NotifyError,
)
    ensures
        setup.step is CreateFolder ==> setup.after(shown, Happened::FolderCreated(Err(reason)))
            == Progress::Failed(
            Fault::InvalidPath("Could not create "@ + shown + ": "@ + reason),
        ),
        setup.step is ResolveFolder ==> setup.after(shown, Happened::FolderResolved(Err(reason)))
            == Progress::Failed(
            Fault::InvalidPath("Could not canonicalize "@ + shown + ": "@ + reason),
        ),
        setup.step is StartDebouncer ==> setup.after(shown, Happened::DebouncerStarted(Err(err)))
            == Progress::Failed(Fault::WatchError(err)),
        setup.step is StartWatcher ==> setup.after(shown, Happened::WatcherStarted(Err(err)))
            == Progress::Failed(Fault::WatchError(err)),
{
}

/// After a step that succeeded comes the next piece of work, with the same folder, files and delay:
/// the folder is resolved once it is there, the debouncer started once the folder is resolved, and
/// the folder as it was given, and no deeper, is watched once the debouncer runs. When that is done
/// the watch is ready, for the given files in the resolved folder.
pub proof fn law_next_work(setup: Setup, shown: Seq<char>, dir: Seq<Part>)
    ensures
        setup.step is CreateFolder ==> {
            let next = setup.after(shown, Happened::FolderCreated(Ok(())));
            &&& next is More
            &&& next->More_0.work() == Work::ResolveFolder(setup.folder)
            &&& next->More_0.folder == setup.folder
            &&& next->More_0.files == setup.files
            &&& next->More_0.debounce == setup.debounce
        },
        setup.step is ResolveFolder ==> {
            let next = setup.after(shown, Happened::FolderResolved(Ok(dir)));
            &&& next is More
            &&& next->More_0.work() == Work::StartDebouncer(
                setup.debounce,
                Watched { dir, files: setup.files },
            )
            &&& next->More_0.folder == setup.folder
            &&& next->More_0.files == setup.files
            &&& next->More_0.debounce == setup.debounce
        },
        setup.step is StartDebouncer ==> {
            let next = setup.after(shown, Happened::DebouncerStarted(Ok(())));
            &&& next is More
            &&& next->More_0.work() == Work::WatchFolder(setup.folder, Depth::FolderOnly)
            &&& next->More_0.step == Step::StartWatcher(setup.step->StartDebouncer_0)
            &&& next->More_0.folder == setup.folder
            &&& next->More_0.files == setup.files
            &&& next->More_0.debounce == setup.debounce
        },
        setup.step is StartWatcher ==> setup.after(shown, Happened::WatcherStarted(Ok(())))
            == Progress::Ready(setup.step->StartWatcher_0),
{
}

/// What came of other work than a setup waits for changes nothing.
pub proof fn law_other_work_changes_nothing(setup: Setup, shown: Seq<char>, event: Happened)
    requires
        match event {
            Happened::FolderCreated(_) => setup.work() !is CreateFolder,
            Happened::FolderResolved(_) => setup.work() !is ResolveFolder,
            Happened::DebouncerStarted(_) => setup.work() !is StartDebouncer,
            Happened::WatcherStarted(_) => setup.work() !is WatchFolder,
        },
    ensures
        setup.after(shown, event) == Progress::More(setup),
{
}

/// Contracts see a setup and how far it has come as they are.
pub proof fn law_setup_is_seen(setup: WatchSetup, watch: AsyncFsWatch, error: Error)
    ensures
        setup@.folder == setup.folder@,
        setup@.files.len() == setup.files@.len(),
        forall|i: int|
            0 <= i < setup.files@.len() ==> #[trigger] setup@.files[i] == setup.files@[i]@,
        setup@.debounce == setup.debounce,
        setup@.step == (match setup.step {
            SetupStep::CreateFolder => Step::CreateFolder,
            SetupStep::ResolveFolder => Step::ResolveFolder,
            SetupStep::StartDebouncer(watch) => Step::StartDebouncer(watch@),
            SetupStep::StartWatcher(watch) => Step::StartWatcher(watch@),
        }),
        progress(Ok(SetupProgress::More(setup))) == Progress::More(setup@),
        progress(Ok(SetupProgress::Ready(watch))) == Progress::Ready(watch@),
        progress(Err(error)) == Progress::Failed(error@),
{
}

/// Contracts see the work of a setup, and what came of it, as they are.
pub proof fn law_work_is_seen(
    folder: FilePath,
    delay: Delay,
    watch: AsyncFsWatch,
    depth: Depth,
    reason: String,
    started: Result<(), NotifyError>,
)
    ensures
        SetupWork::CreateFolder(folder)@ == Work::CreateFolder(folder@),
        SetupWork::ResolveFolder(folder)@ == Work::ResolveFolder(folder@),
        SetupWork::StartDebouncer(delay, watch)@ == Work::StartDebouncer(delay, watch@),
        SetupWork::WatchFolder(folder, depth)@ == Work::WatchFolder(folder@, depth),
        SetupEvent::FolderCreated(Ok(()))@ == Happened::FolderCreated(Ok(())),
        SetupEvent::FolderCreated(Err(reason))@ == Happened::FolderCreated(Err(reason@)),
        SetupEvent::FolderResolved(Ok(folder))@ == Happened::FolderResolved(Ok(folder@)),
        SetupEvent::FolderResolved(Err(reason))@ == Happened::FolderResolved(Err(reason@)),
        SetupEvent::DebouncerStarted(started)@ == Happened::DebouncerStarted(started),
        SetupEvent::WatcherStarted(started)@ == Happened::WatcherStarted(started),
{
}

/// A path that is watched is noticed: once its folder resolves to `dir`, an event in that folder
/// under the path's file name concerns a watched file.
pub proof fn law_watched_path_is_noticed(
    path: Seq<Part>,
    dir: Seq<Part>,
    event: Seq<Part>,
    answers: spec_fn(Probe) -> Option<Seq<Part>>,
)
    requires
        file_name_of(path) is Some,
        file_name_of(event) == file_name_of(path),
        answers(Probe::Parent) == Some(dir),
    ensures
        ({
            let watched = Watched { dir, files: seq![file_name_of(path)->0] };
            watched.verdict(event, watched.first_question(event), answers)
        }),
{
    let watched = Watched { dir, files: seq![file_name_of(path)->0] };
    assert(watched.files[0] == file_name_of(event)->0);
    crate::fs_watch::law_watched_name_is_noticed(watched, event, answers);
}

impl AsyncFsWatch {
    /// Starts to watch a path. `shown` is how the path is written in messages.
    ///
    /// The folder of the path is what is watched: if the path does not exist yet, it is noticed
    /// when it is created. A path that ends in no file name cannot be watched.
    pub fn watch(path: &FilePath, shown: &str) -> (setup: Result<WatchSetup, Error>)
        ensures
            setup is Ok <==> file_name_of(path@) is Some,
            match setup {
                Ok(setup) => setup@ == new_setup(
                    folder_for(path@),
                    seq![file_name_of(path@)->0],
                    Delay { secs: 0, nanos: DEFAULT_DELAY_NANOS },
                ),
                Err(error) => error@ == Fault::InvalidPath("Path has no filename: "@ + shown@),
            },
            setup is Ok <==> path@.len() > 0 && path@.last() is Normal,
            setup matches Ok(setup) ==> {
                &&& setup@.files.len() == 1
                &&& setup@.folder.push(Part::Normal(setup@.files[0])) == path@
                &&& setup@.debounce.secs == 0
                &&& 2 * setup@.debounce.nanos == 1_000_000_000
            },
    {
        proof {
            if path@.len() > 0 && path@.last() is Normal {
                law_watched_folder_holds_path(path@, path@.last()->Normal_0);
            }
        }
        let folder = match path.parent() {
            Some(parent) => parent,
            None => path.clone(),
        };
        match path.file_name() {
            Some(name) => {
                let mut files: Vec<Vec<u8>> = Vec::new();
                files.push(name);
                assert(names_of(files@) =~= seq![name@]);
                Ok(
                    Self::watch_with_debounce(
                        folder,
                        files,
                        Delay { secs: 0, nanos: DEFAULT_DELAY_NANOS },
                    ),
                )
            },
            None => Err(
                Error::InvalidPath("Path has no filename: ".to_owned().concat(shown)),
            ),
        }
    }

    /// Starts to watch the given files in a folder.
    pub fn watch_with_debounce(
        folder: FilePath,
        files: Vec<Vec<u8>>,
        debounce: Delay,
    ) -> (setup: WatchSetup)
        ensures
            setup@ == new_setup(folder@, names_of(files@), debounce),
    {
        WatchSetup { folder, files, debounce, step: SetupStep::CreateFolder }
    }
}

impl WatchSetup {
    /// The work that the setup waits for.
    pub fn work(&self) -> (work: SetupWork)
        ensures
            work@ == self@.work(),
    {
        match &self.step {
            SetupStep::CreateFolder => SetupWork::CreateFolder(self.folder.clone()),
            SetupStep::ResolveFolder => SetupWork::ResolveFolder(self.folder.clone()),
            SetupStep::StartDebouncer(watch) => {
                SetupWork::StartDebouncer(self.debounce, watch.clone())
            },
            SetupStep::StartWatcher(_) => {
                SetupWork::WatchFolder(self.folder.clone(), Depth::FolderOnly)
            },
        }
    }

    /// Goes on with the setup by what came of its last step. `shown` is how the folder is written
    /// in messages.
    pub fn advance(self, shown: &str, event: SetupEvent) -> (result: Result<SetupProgress, Error>)
        ensures
            progress(result) == self@.after(shown@, event@),
    {
        let WatchSetup { folder, files, debounce, step } = self;
        match (step, event) {
            (SetupStep::CreateFolder, SetupEvent::FolderCreated(created)) => match created {
                Ok(()) => Ok(
                    SetupProgress::More(
                        WatchSetup { folder, files, debounce, step: SetupStep::ResolveFolder },
                    ),
                ),
                Err(reason) => Err(
                    Error::InvalidPath(
                        "Could not create ".to_owned().concat(shown).concat(": ").concat(
                            reason.as_str(),
                        ),
                    ),
                ),
            },
            (SetupStep::ResolveFolder, SetupEvent::FolderResolved(resolved)) => match resolved {
                Ok(dir) => {
                    let watch = AsyncFsWatch { dir, files: copy_names(&files) };
                    let step = SetupStep::StartDebouncer(watch);
                    Ok(SetupProgress::More(WatchSetup { folder, files, debounce, step }))
                },
                Err(reason) => Err(
                    Error::InvalidPath(
                        "Could not canonicalize ".to_owned().concat(shown).concat(": ").concat(
                            reason.as_str(),
                        ),
                    ),
                ),
            },
            (SetupStep::StartDebouncer(watch), SetupEvent::DebouncerStarted(started)) => {
                match started {
                    Ok(()) => {
                        let step = SetupStep::StartWatcher(watch);
                        Ok(SetupProgress::More(WatchSetup { folder, files, debounce, step }))
                    },
                    Err(err) => Err(Error::from(err)),
                }
            },
            (SetupStep::StartWatcher(watch), SetupEvent::WatcherStarted(started)) => match started {
                Ok(()) => Ok(SetupProgress::Ready(watch)),
                Err(err) => Err(Error::from(err)),
            },
            (step, _) => Ok(SetupProgress::More(WatchSetup { folder, files, debounce, step })),
        }
    }
}

} // verus!
