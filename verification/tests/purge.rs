use tangle_mcp_blueprint::destroy::{Teardown, TeardownAction, TeardownEvent};
use tangle_mcp_blueprint::purge::{DirEntry, Purge, PurgeAction, PurgeEvent};
use tangle_mcp_blueprint::request::MyContext;

/// A filesystem in memory: the paths that exist. A directory lists what it
/// holds in the order of the paths.
struct FakeFs {
    files: Vec<String>,
    dirs: Vec<String>,
    /// A path whose listing or removal fails.
    broken: Option<String>,
    log: Vec<String>,
}

impl FakeFs {
    fn new(dirs: &[&str], files: &[&str]) -> FakeFs {
        FakeFs {
            files: files.iter().map(|path| path.to_string()).collect(),
            dirs: dirs.iter().map(|path| path.to_string()).collect(),
            broken: None,
            log: Vec::new(),
        }
    }

    fn children(&self, dir: &str) -> Vec<DirEntry> {
        let is_child = |path: &String| {
            path.strip_prefix(dir)
                .and_then(|rest| rest.strip_prefix('/'))
                .is_some_and(|name| !name.is_empty() && !name.contains('/'))
        };
        let mut entries: Vec<DirEntry> = Vec::new();
        for path in self.dirs.iter().filter(|path| is_child(path)) {
            entries.push(DirEntry { path: path.clone(), is_dir: true });
        }
        for path in self.files.iter().filter(|path| is_child(path)) {
            entries.push(DirEntry { path: path.clone(), is_dir: false });
        }
        entries.sort_by(|a, b| a.path.cmp(&b.path));
        entries
    }

    fn is_broken(&self, path: &str) -> bool {
        self.broken.as_deref() == Some(path)
    }

    fn count(&self, prefix: &str) -> usize {
        self.log.iter().filter(|entry| entry.starts_with(prefix)).count()
    }
}

/// Performs what the purge asks for until it asks to finish.
fn purge(fs: &mut FakeFs, root: &str) -> Option<bool> {
    let mut purge = Purge::new(root.to_string());
    let mut action = purge.pending();
    loop {
        let target = purge.target().cloned().unwrap_or_default();
        let event = match action {
            PurgeAction::ListDir => {
                if !fs.dirs.contains(&target) {
                    PurgeEvent::Missing
                } else if fs.is_broken(&target) {
                    fs.log.push(format!("ls! {}", target));
                    PurgeEvent::ListFailed
                } else {
                    fs.log.push(format!("ls {}", target));
                    PurgeEvent::Listed { entries: fs.children(&target) }
                }
            }
            PurgeAction::RemoveFile => {
                fs.log.push(format!("rm {}", target));
                let ok = !fs.is_broken(&target) && fs.files.contains(&target);
                fs.files.retain(|path| !ok || *path != target);
                PurgeEvent::Removed { ok }
            }
            PurgeAction::RemoveDir => {
                fs.log.push(format!("rmdir {}", target));
                let ok = !fs.is_broken(&target) && fs.children(&target).is_empty();
                fs.dirs.retain(|path| !ok || *path != target);
                PurgeEvent::Removed { ok }
            }
            PurgeAction::Finish => break,
        };
        action = purge.step(event);
    }
    assert!(purge.is_finished());
    assert_eq!(purge.target(), None);
    purge.outcome()
}

fn texts(items: &[&str]) -> Vec<String> {
    items.iter().map(|item| item.to_string()).collect()
}

#[test]
fn a_fresh_purge_lists_its_root() {
    let purge = Purge::new("/data/workspaces/42".to_string());
    assert_eq!(purge.pending(), PurgeAction::ListDir);
    assert_eq!(purge.target().map(String::as_str), Some("/data/workspaces/42"));
    assert_eq!(purge.remaining(), 1);
    assert_eq!(purge.outcome(), None);
    assert!(!purge.is_finished());
}

#[test]
fn a_missing_directory_is_purged_already() {
    let mut fs = FakeFs::new(&["/data"], &[]);
    assert_eq!(purge(&mut fs, "/data/workspaces/42"), Some(true));
    assert!(fs.log.is_empty());
    assert_eq!(fs.dirs, texts(&["/data"]));
}

#[test]
fn an_empty_directory_is_removed() {
    let mut fs = FakeFs::new(&["/d"], &[]);
    assert_eq!(purge(&mut fs, "/d"), Some(true));
    assert_eq!(fs.log, texts(&["ls /d", "rmdir /d"]));
    assert!(fs.dirs.is_empty());
}

#[test]
fn files_are_removed_in_listing_order_and_then_the_directory() {
    let mut fs = FakeFs::new(&["/d"], &["/d/a", "/d/b", "/d/c"]);
    assert_eq!(purge(&mut fs, "/d"), Some(true));
    assert_eq!(fs.log, texts(&["ls /d", "rm /d/a", "rm /d/b", "rm /d/c", "rmdir /d"]));
    assert!(fs.files.is_empty());
    assert!(fs.dirs.is_empty());
}

#[test]
fn a_tree_is_removed_from_the_leaves_up() {
    let mut fs = FakeFs::new(
        &["/d", "/d/a", "/d/a/x", "/d/m"],
        &["/d/a/f", "/d/a/x/g", "/d/k", "/d/m/h", "/other"],
    );
    assert_eq!(purge(&mut fs, "/d"), Some(true));
    assert_eq!(
        fs.log,
        texts(&[
            "ls /d",
            "ls /d/a",
            "rm /d/a/f",
            "ls /d/a/x",
            "rm /d/a/x/g",
            "rmdir /d/a/x",
            "rmdir /d/a",
            "rm /d/k",
            "ls /d/m",
            "rm /d/m/h",
            "rmdir /d/m",
            "rmdir /d",
        ])
    );
    assert_eq!(fs.files, texts(&["/other"]));
    assert!(fs.dirs.is_empty());
}

#[test]
fn a_removal_that_fails_ends_the_purge() {
    let mut fs = FakeFs::new(&["/d"], &["/d/a", "/d/b", "/d/c"]);
    fs.broken = Some("/d/b".to_string());
    assert_eq!(purge(&mut fs, "/d"), Some(false));
    assert_eq!(fs.log, texts(&["ls /d", "rm /d/a", "rm /d/b"]));
    assert_eq!(fs.files, texts(&["/d/b", "/d/c"]));
    assert_eq!(fs.dirs, texts(&["/d"]));
}

#[test]
fn a_listing_that_fails_ends_the_purge() {
    let mut fs = FakeFs::new(&["/d", "/d/a"], &["/d/a/f"]);
    fs.broken = Some("/d/a".to_string());
    assert_eq!(purge(&mut fs, "/d"), Some(false));
    assert_eq!(fs.log, texts(&["ls /d", "ls! /d/a"]));
}

#[test]
fn purge_events_that_answer_nothing_are_ignored() {
    let mut purge = Purge::new("/d".to_string());
    assert_eq!(purge.step(PurgeEvent::Removed { ok: true }), PurgeAction::ListDir);
    assert_eq!(purge.step(PurgeEvent::Removed { ok: false }), PurgeAction::ListDir);
    assert_eq!(purge.remaining(), 1);
    let entries = vec![DirEntry { path: "/d/f".to_string(), is_dir: false }];
    assert_eq!(purge.step(PurgeEvent::Listed { entries }), PurgeAction::RemoveFile);
    assert_eq!(purge.step(PurgeEvent::Missing), PurgeAction::RemoveFile);
    assert_eq!(purge.step(PurgeEvent::ListFailed), PurgeAction::RemoveFile);
    assert_eq!(purge.target().map(String::as_str), Some("/d/f"));
    assert_eq!(purge.step(PurgeEvent::Removed { ok: true }), PurgeAction::RemoveDir);
    assert_eq!(purge.target().map(String::as_str), Some("/d"));
    assert_eq!(purge.step(PurgeEvent::Removed { ok: true }), PurgeAction::Finish);
    assert_eq!(purge.outcome(), Some(true));
    assert_eq!(purge.step(PurgeEvent::ListFailed), PurgeAction::Finish);
    assert_eq!(purge.outcome(), Some(true));
}

#[test]
fn destroying_a_workspace_leaves_nothing_at_or_below_its_directory() {
    let mut fs = FakeFs::new(
        &[
            "/data",
            "/data/workspaces",
            "/data/workspaces/42",
            "/data/workspaces/42/cache",
            "/data/workspaces/42/cache/deep",
            "/data/workspaces/42/empty",
            "/data/workspaces/43",
        ],
        &[
            "/data/workspaces/42/notes",
            "/data/workspaces/42/cache/a",
            "/data/workspaces/42/cache/deep/b",
            "/data/workspaces/43/notes",
        ],
    );
    let ctx = MyContext::new(Some("/data".to_string()));
    let mut teardown = Teardown::workspace(&ctx, 42);
    assert_eq!(teardown.pending(), TeardownAction::ListContainers);
    assert_eq!(
        teardown.step(TeardownEvent::Listed { containers: Vec::new() }),
        TeardownAction::PurgeDataDir
    );
    let dir = teardown.data_dir().cloned().unwrap();
    assert_eq!(dir, "/data/workspaces/42");
    let purged = purge(&mut fs, &dir);
    assert_eq!(purged, Some(true));
    assert_eq!(
        teardown.step(TeardownEvent::Purged { ok: purged == Some(true) }),
        TeardownAction::Finish
    );
    assert_eq!(teardown.outcome(), Some(Ok(true)));

    let left = |path: &String| path == &dir || path.starts_with("/data/workspaces/42/");
    assert!(!fs.dirs.iter().any(left));
    assert!(!fs.files.iter().any(left));
    assert_eq!(fs.dirs, texts(&["/data", "/data/workspaces", "/data/workspaces/43"]));
    assert_eq!(fs.files, texts(&["/data/workspaces/43/notes"]));
    // Everything below a directory went before the directory itself.
    assert_eq!(fs.log.last().map(String::as_str), Some("rmdir /data/workspaces/42"));
    assert_eq!(fs.count("rm "), 3);
    assert_eq!(fs.count("rmdir "), 4);
}
