use tokio_file_watch::event_batch::BatchAction;
use tokio_file_watch::fs_watch::{Query, Wanted};
use tokio_file_watch::path::{Component, FilePath};
use tokio_file_watch::setup::{
    Delay, Depth, SetupEvent, SetupProgress, SetupStep, SetupWork,
};
use tokio_file_watch::{AsyncFsWatch, Error};

use std::path::Path;

/// The components of a path, as the standard library takes it apart.
fn path(text: &str) -> FilePath {
    let mut components = Vec::new();
    for component in Path::new(text).components() {
        let bytes = component.as_os_str().as_encoded_bytes().to_vec();
        components.push(match component {
            std::path::Component::Prefix(_) => Component::Prefix(bytes),
            std::path::Component::RootDir => Component::RootDir,
            std::path::Component::CurDir => Component::CurDir,
            std::path::Component::ParentDir => Component::ParentDir,
            std::path::Component::Normal(_) => Component::Normal(bytes),
        });
    }
    FilePath::new(components)
}

/// How a path of names is written.
fn text(path: &FilePath) -> String {
    let mut text = String::new();
    for component in &path.components {
        match component {
            Component::RootDir => text.push('/'),
            Component::Normal(name) => {
                if !text.is_empty() && text != "/" {
                    text.push('/');
                }
                text.push_str(std::str::from_utf8(name).unwrap());
            }
            other => panic!("{other:?}"),
        }
    }
    text
}

/// A disk: what paths resolve to. A path that is not listed does not resolve.
struct Disk {
    paths: Vec<(&'static str, &'static str)>,
}

impl Disk {
    fn resolve(&self, text: &str) -> Option<FilePath> {
        for (name, target) in &self.paths {
            if *name == text {
                return Some(path(target));
            }
        }
        None
    }
}

/// Sets a watch on a path up, with every step going well. The folder resolves to `dir`.
fn watch(watched: &str, dir: &str) -> AsyncFsWatch {
    let mut setup = AsyncFsWatch::watch(&path(watched), watched).unwrap();
    loop {
        let event = match setup.step {
            SetupStep::CreateFolder => SetupEvent::FolderCreated(Ok(())),
            SetupStep::ResolveFolder => SetupEvent::FolderResolved(Ok(path(dir))),
            SetupStep::StartDebouncer(_) => SetupEvent::DebouncerStarted(Ok(())),
            SetupStep::StartWatcher(_) => SetupEvent::WatcherStarted(Ok(())),
        };
        match setup.advance(dir, event).unwrap() {
            SetupProgress::More(more) => setup = more,
            SetupProgress::Ready(watch) => return watch,
        }
    }
}

/// The events of a batch that the receiver is told of, and the paths that were resolved.
fn notified(
    watch: &AsyncFsWatch,
    dir: &str,
    events: &[&str],
    disk: &Disk,
) -> (Vec<usize>, Vec<String>) {
    let mut notified = Vec::new();
    let mut resolved = Vec::new();
    let mut batch = watch.start_batch(Ok(events.iter().map(|event| path(event)).collect()));
    loop {
        match watch.next_action(&batch) {
            BatchAction::Done => return (notified, resolved),
            BatchAction::Notify(index) => {
                notified.push(index);
                batch = watch.after_notify(batch);
            }
            BatchAction::Resolve(index) => {
                let wanted = match watch.wanted(&batch.events[index], &batch.query).unwrap() {
                    Wanted::Path(wanted) => text(&wanted),
                    Wanted::Named(name) => format!("{dir}/{}", std::str::from_utf8(&name).unwrap()),
                };
                let answer = disk.resolve(&wanted);
                resolved.push(wanted);
                batch = watch.after_resolve(batch, answer);
            }
        }
    }
}

#[test]
fn fs_watch_test_update() {
    let watcher = watch("/tmp/dir/file.txt", "/tmp/dir");
    let disk = Disk {
        paths: vec![("/tmp/dir", "/tmp/dir"), ("/tmp/dir/file.txt", "/tmp/dir/file.txt")],
    };
    let (told, resolved) = notified(&watcher, "/tmp/dir", &["/tmp/dir/file.txt"], &disk);
    assert_eq!(told, vec![0]);
    // The name decides: nothing but the folder is looked at.
    assert_eq!(resolved, vec!["/tmp/dir"]);
}

#[test]
fn test_create() {
    // The file does not exist when the watch starts.
    let watcher = watch("/tmp/dir/file.txt", "/tmp/dir");
    let before = Disk { paths: vec![("/tmp/dir", "/tmp/dir")] };
    assert_eq!(notified(&watcher, "/tmp/dir", &[], &before).0, Vec::<usize>::new());
    let after = Disk {
        paths: vec![("/tmp/dir", "/tmp/dir"), ("/tmp/dir/file.txt", "/tmp/dir/file.txt")],
    };
    assert_eq!(notified(&watcher, "/tmp/dir", &["/tmp/dir/file.txt"], &after).0, vec![0]);
}

#[test]
fn fs_watch_test_delete() {
    let watcher = watch("/tmp/dir/file.txt", "/tmp/dir");
    // The deleted file does not resolve any more.
    let disk = Disk { paths: vec![("/tmp/dir", "/tmp/dir")] };
    assert_eq!(notified(&watcher, "/tmp/dir", &["/tmp/dir/file.txt"], &disk).0, vec![0]);
}

#[test]
fn test_symlink_target_write() {
    let watcher = watch("/tmp/dir/config.json", "/tmp/dir");
    let disk = Disk {
        paths: vec![
            ("/tmp/dir", "/tmp/dir"),
            ("/tmp/dir/config.v2.json", "/tmp/dir/config.v2.json"),
            ("/tmp/dir/config.json", "/tmp/dir/config.v2.json"),
        ],
    };
    let (told, resolved) = notified(&watcher, "/tmp/dir", &["/tmp/dir/config.v2.json"], &disk);
    assert_eq!(told, vec![0], "no change seen for symlink target");
    assert_eq!(resolved, vec!["/tmp/dir", "/tmp/dir/config.v2.json", "/tmp/dir/config.json"]);
}

#[test]
fn test_symlink_write_through_link() {
    let watcher = watch("/tmp/dir/config.json", "/tmp/dir");
    let disk = Disk {
        paths: vec![
            ("/tmp/dir", "/tmp/dir"),
            ("/tmp/dir/config.v2.json", "/tmp/dir/config.v2.json"),
            ("/tmp/dir/config.json", "/tmp/dir/config.v2.json"),
        ],
    };
    // The write is reported for the target, or for the link, or for both.
    for events in [
        vec!["/tmp/dir/config.v2.json"],
        vec!["/tmp/dir/config.json"],
        vec!["/tmp/dir/config.json", "/tmp/dir/config.v2.json"],
    ] {
        let told = notified(&watcher, "/tmp/dir", &events, &disk).0;
        assert_eq!(
            told,
            (0..events.len()).collect::<Vec<usize>>(),
            "no change seen when writing through symlink"
        );
    }
}

#[test]
fn test_missing_folder() {
    // The folder is created first, so that it can be watched.
    let setup = AsyncFsWatch::watch(&path("/tmp/dir/foo/file.txt"), "").unwrap();
    assert_eq!(setup.folder, path("/tmp/dir/foo"));
    assert!(matches!(setup.step, SetupStep::CreateFolder));
    let watcher = watch("/tmp/dir/foo/file.txt", "/tmp/dir/foo");
    let disk = Disk {
        paths: vec![
            ("/tmp/dir/foo", "/tmp/dir/foo"),
            ("/tmp/dir/foo/file.txt", "/tmp/dir/foo/file.txt"),
        ],
    };
    assert_eq!(notified(&watcher, "/tmp/dir/foo", &["/tmp/dir/foo/file.txt"], &disk).0, vec![0]);
}

#[test]
fn other_files_and_other_folders_are_ignored() {
    let watcher = watch("/tmp/dir/file.txt", "/tmp/dir");
    let disk = Disk {
        paths: vec![
            ("/tmp/dir", "/tmp/dir"),
            ("/tmp/other", "/tmp/other"),
            ("/tmp/dir/file.txt", "/tmp/dir/file.txt"),
            ("/tmp/dir/else.txt", "/tmp/dir/else.txt"),
            ("/tmp/other/file.txt", "/tmp/other/file.txt"),
        ],
    };
    let events = [
        "/tmp/dir/else.txt",
        "/tmp/dir/file.txt",
        "/tmp/other/file.txt",
        "/tmp/dir/gone.txt",
        "/gone/file.txt",
        "/",
        "",
    ];
    let (told, _) = notified(&watcher, "/tmp/dir", &events, &disk);
    assert_eq!(told, vec![1]);
}

#[test]
fn an_event_in_a_linked_folder_counts() {
    // The event names the folder by a link.
    let watcher = watch("/link/file.txt", "/tmp/dir");
    let disk = Disk { paths: vec![("/link", "/tmp/dir")] };
    assert_eq!(notified(&watcher, "/tmp/dir", &["/link/file.txt"], &disk).0, vec![0]);
}

#[test]
fn each_watched_file_is_tried_until_one_leads_to_the_target() {
    let mut setup = AsyncFsWatch::watch_with_debounce(
        path("/d"),
        vec![b"a".to_vec(), b"b".to_vec(), b"c".to_vec()],
        Delay { secs: 2, nanos: 1 },
    );
    assert_eq!(setup.debounce, Delay { secs: 2, nanos: 1 });
    let watcher = loop {
        let event = match setup.step {
            SetupStep::CreateFolder => SetupEvent::FolderCreated(Ok(())),
            SetupStep::ResolveFolder => SetupEvent::FolderResolved(Ok(path("/d"))),
            SetupStep::StartDebouncer(_) => SetupEvent::DebouncerStarted(Ok(())),
            SetupStep::StartWatcher(_) => SetupEvent::WatcherStarted(Ok(())),
        };
        match setup.advance("", event).unwrap() {
            SetupProgress::More(more) => setup = more,
            SetupProgress::Ready(watch) => break watch,
        }
    };
    let disk = Disk {
        paths: vec![("/d", "/d"), ("/d/t", "/d/t"), ("/d/a", "/d/x"), ("/d/b", "/d/t")],
    };
    let (told, resolved) = notified(&watcher, "/d", &["/d/t"], &disk);
    assert_eq!(told, vec![0]);
    assert_eq!(resolved, vec!["/d", "/d/t", "/d/a", "/d/b"]);
    let (told, resolved) = notified(&watcher, "/d", &["/d/u", "/d/c"], &disk);
    assert_eq!(told, vec![1]);
    assert_eq!(resolved, vec!["/d", "/d/u", "/d"]);
}

#[test]
fn without_files_nothing_is_watched() {
    let watcher = AsyncFsWatch { dir: path("/d"), files: vec![] };
    let disk = Disk { paths: vec![("/d", "/d"), ("/d/t", "/d/t")] };
    let (told, resolved) = notified(&watcher, "/d", &["/d/t"], &disk);
    assert_eq!(told, Vec::<usize>::new());
    assert_eq!(resolved, vec!["/d", "/d/t"]);
}

#[test]
fn an_error_report_changes_nothing() {
    let watcher = watch("/tmp/dir/file.txt", "/tmp/dir");
    let batch = watcher.start_batch(Err(notify::Error::generic("broken")));
    assert_eq!(watcher.next_action(&batch), BatchAction::Done);
}

#[test]
fn a_single_match_runs_to_its_end() {
    let watcher = watch("/tmp/dir/file.txt", "/tmp/dir");
    let event = path("/tmp/dir/file.txt");
    let query = watcher.start_match(&event);
    assert!(matches!(query, Query::Parent));
    let query = watcher.is_watched(&event, query, None);
    assert!(matches!(query, Query::Event));
    let query = watcher.is_watched(&event, query, Some(path("/a")));
    assert!(matches!(&query, Query::File(target, 0) if *target == path("/a")));
    let query = watcher.is_watched(&event, query, Some(path("/b")));
    assert!(matches!(query, Query::Verdict(false)));
    assert!(matches!(watcher.start_match(&path("/")), Query::Event));
}

#[test]
fn a_match_says_which_path_it_waits_for() {
    let watcher = AsyncFsWatch { dir: path("/d"), files: vec![b"a".to_vec(), b"b".to_vec()] };
    let event = path("/e/x");
    assert_eq!(watcher.wanted(&event, &Query::Parent), Some(Wanted::Path(path("/e"))));
    assert_eq!(watcher.wanted(&event, &Query::Event), Some(Wanted::Path(path("/e/x"))));
    let file = |index| Query::File(path("/t"), index);
    assert_eq!(watcher.wanted(&event, &file(0)), Some(Wanted::Named(b"a".to_vec())));
    assert_eq!(watcher.wanted(&event, &file(1)), Some(Wanted::Named(b"b".to_vec())));
    assert_eq!(watcher.wanted(&event, &file(2)), None);
    assert_eq!(watcher.wanted(&event, &Query::Verdict(true)), None);
    assert_eq!(watcher.wanted(&path("/"), &Query::Parent), None);
}

#[test]
fn two_lists_of_names_are_watched_as_one() {
    let disk = Disk {
        paths: vec![
            ("/d", "/d"), ("/d/a", "/d/t"), ("/d/t", "/d/t"), ("/d/u", "/d/u"), ("/d/b", "/d/b"),
        ],
    };
    let events = ["/d/a", "/d/t", "/d/u", "/d/b"];
    let told = |files: &[&[u8]]| {
        let files = files.iter().map(|file| file.to_vec()).collect();
        notified(&AsyncFsWatch { dir: path("/d"), files }, "/d", &events, &disk).0
    };
    assert_eq!(told(&[b"a"]), vec![0, 1]);
    assert_eq!(told(&[b"b"]), vec![3]);
    assert_eq!(told(&[b"a", b"b"]), vec![0, 1, 3]);
}

#[test]
fn the_spelling_of_an_event_makes_no_difference() {
    let watcher = watch("/d/link", "/d");
    let disk = Disk {
        paths: vec![
            ("/d", "/d"), ("/same", "/d"), ("/d/t", "/d/t"), ("/same/t", "/d/t"),
            ("/d/link", "/d/t"),
        ],
    };
    let events = ["/d/t", "/same/t", "/d/link", "/same/link"];
    assert_eq!(notified(&watcher, "/d", &events, &disk).0, vec![0, 1, 2, 3]);
}

#[test]
fn a_link_that_changes_its_target_is_followed_anew() {
    let watcher = watch("/d/link", "/d");
    let before = Disk {
        paths: vec![
            ("/d", "/d"), ("/d/one", "/d/one"), ("/d/two", "/d/two"), ("/d/link", "/d/one"),
        ],
    };
    let after = Disk {
        paths: vec![
            ("/d", "/d"), ("/d/one", "/d/one"), ("/d/two", "/d/two"), ("/d/link", "/d/two"),
        ],
    };
    assert_eq!(notified(&watcher, "/d", &["/d/one", "/d/two"], &before).0, vec![0]);
    assert_eq!(notified(&watcher, "/d", &["/d/one", "/d/two"], &after).0, vec![1]);
}

#[test]
fn a_setup_stays_where_it_is_by_what_it_does_not_wait_for() {
    let setup = AsyncFsWatch::watch(&path("/d/f"), "").unwrap();
    let same = setup.advance("", SetupEvent::FolderResolved(Ok(path("/e"))));
    assert!(matches!(same, Ok(SetupProgress::More(setup))
        if matches!(setup.step, SetupStep::CreateFolder)));
}

#[test]
fn paths_come_apart_as_in_the_standard_library() {
    for text in [
        "/tmp/dir/file.txt", "file.txt", "./config.json", "dir/", "dir/.", "dir/..", "..", ".",
        "/", "", "//a//b", "a/./b", "/.", "../x",
    ] {
        let std_path = Path::new(text);
        assert_eq!(path(text).parent(), std_path.parent().map(|p| path(p.to_str().unwrap())));
        assert_eq!(
            path(text).file_name(),
            std_path.file_name().map(|n| n.as_encoded_bytes().to_vec())
        );
    }
    for left in ["a/b", "a//b", "/a/b", "a/c", "a", ""] {
        for right in ["a/b", "a/b/", "/a/b", "b", ""] {
            assert_eq!(path(left).same_as(&path(right)), Path::new(left) == Path::new(right));
        }
    }
    assert_eq!(path("/a/b").clone(), path("/a/b"));
}

#[test]
fn watch_plans_for_the_parent_folder() {
    let setup = AsyncFsWatch::watch(&path("./config.json"), "\"./config.json\"").unwrap();
    assert_eq!(setup.folder, path("."));
    assert_eq!(setup.files, vec![b"config.json".to_vec()]);
    assert_eq!(setup.debounce, Delay { secs: 0, nanos: 500_000_000 });
    let setup = AsyncFsWatch::watch(&path("config.json"), "").unwrap();
    assert_eq!(setup.folder, path(""));
}

#[test]
fn a_path_without_a_file_name_is_refused() {
    for text in ["/", "..", "dir/..", "", "."] {
        let shown = format!("{:?}", Path::new(text));
        let error = AsyncFsWatch::watch(&path(text), &shown).unwrap_err();
        assert!(matches!(&error, Error::InvalidPath(reason)
            if *reason == format!("Path has no filename: {:?}", Path::new(text))));
        assert_eq!(
            error.message(),
            format!("Invalid path to watch: Path has no filename: {:?}", Path::new(text))
        );
    }
}

#[test]
fn a_setup_fails_by_its_first_failing_step() {
    let start = || AsyncFsWatch::watch(&path("/d/f"), "\"/d/f\"").unwrap();
    let more = |progress: Result<SetupProgress, Error>| match progress {
        Ok(SetupProgress::More(setup)) => setup,
        other => panic!("{other:?}"),
    };
    let error = start().advance("\"/d\"", SetupEvent::FolderCreated(Err("full".to_string())));
    assert!(matches!(error, Err(Error::InvalidPath(reason))
        if reason == "Could not create \"/d\": full"));

    let created = more(start().advance("\"/d\"", SetupEvent::FolderCreated(Ok(()))));
    assert!(matches!(created.step, SetupStep::ResolveFolder));
    let error = created.advance("\"/d\"", SetupEvent::FolderResolved(Err("gone".to_string())));
    assert!(matches!(error, Err(Error::InvalidPath(reason))
        if reason == "Could not canonicalize \"/d\": gone"));

    let created = more(start().advance("\"/d\"", SetupEvent::FolderCreated(Ok(()))));
    let resolved = more(created.advance("\"/d\"", SetupEvent::FolderResolved(Ok(path("/e")))));
    assert!(matches!(&resolved.step, SetupStep::StartDebouncer(watch)
        if watch.dir == path("/e") && watch.files == [b"f"]));
    let error = resolved
        .advance("\"/d\"", SetupEvent::DebouncerStarted(Err(notify::Error::generic("no inotify"))));
    assert_eq!(error.unwrap_err().message(), "Error creating watch: no inotify");

    let created = more(start().advance("\"/d\"", SetupEvent::FolderCreated(Ok(()))));
    let resolved = more(created.advance("\"/d\"", SetupEvent::FolderResolved(Ok(path("/e")))));
    let debounced = more(resolved.advance("\"/d\"", SetupEvent::DebouncerStarted(Ok(()))));
    assert!(matches!(&debounced.step, SetupStep::StartWatcher(watch) if watch.dir == path("/e")));
    let error = debounced
        .advance("\"/d\"", SetupEvent::WatcherStarted(Err(notify::Error::path_not_found())));
    assert!(matches!(&error, Err(Error::WatchError(_))));
    assert_eq!(error.unwrap_err().message(), "Error creating watch: No path was found.");

    let ready = watch("/d/f", "/e");
    assert_eq!(ready.dir, path("/e"));
    assert_eq!(ready.files, vec![b"f".to_vec()]);
}

#[test]
fn a_setup_does_each_piece_of_work_once() {
    let delay = Delay { secs: 7, nanos: 9 };
    let mut setup = AsyncFsWatch::watch_with_debounce(path("link/d"), vec![b"f".to_vec()], delay);
    let mut done = Vec::new();
    loop {
        let event = match setup.work() {
            SetupWork::CreateFolder(folder) => {
                assert_eq!(folder, path("link/d"));
                done.push("create");
                SetupEvent::FolderCreated(Ok(()))
            }
            SetupWork::ResolveFolder(folder) => {
                assert_eq!(folder, path("link/d"));
                done.push("resolve");
                SetupEvent::FolderResolved(Ok(path("/real/d")))
            }
            SetupWork::StartDebouncer(asked, watch) => {
                assert_eq!(asked, delay);
                assert_eq!(watch.dir, path("/real/d"));
                assert_eq!(watch.files, vec![b"f".to_vec()]);
                done.push("debounce");
                SetupEvent::DebouncerStarted(Ok(()))
            }
            SetupWork::WatchFolder(folder, depth) => {
                assert_eq!(folder, path("link/d"));
                assert_eq!(depth, Depth::FolderOnly);
                done.push("watch");
                SetupEvent::WatcherStarted(Ok(()))
            }
        };
        match setup.advance("", event).unwrap() {
            SetupProgress::More(more) => setup = more,
            SetupProgress::Ready(_) => break,
        }
    }
    assert_eq!(done, vec!["create", "resolve", "debounce", "watch"]);
}

#[test]
fn a_stopped_watcher_is_an_error() {
    assert!(AsyncFsWatch::changed(Ok(())).is_ok());
    let error = AsyncFsWatch::changed(Err(())).unwrap_err();
    assert!(matches!(error, Error::WatcherStopped));
    assert_eq!(error.message(), "Watcher stopped watching");
}

#[test]
fn a_watcher_error_becomes_a_watch_error() {
    let error = Error::from(notify::Error::generic("Some error"));
    assert_eq!(error.message(), "Error creating watch: Some error");
}
