use std::collections::{BTreeMap, BTreeSet};

use rc_copy::config::CopyConfiguration;
use rc_copy::dispatch::{join_path, plan_level, DirEntry, LevelStep, LevelWalk, PendingCounter};
use rc_copy::engine::{Action, FileCopy};

/// An in-memory tree: directories and files with contents.
struct Tree {
    dirs: BTreeSet<String>,
    files: BTreeMap<String, Vec<u8>>,
}

impl Tree {
    fn children(&self, dir: &str) -> Vec<DirEntry> {
        let prefix = format!("{}/", dir);
        let mut out = Vec::new();
        for d in &self.dirs {
            if let Some(rest) = d.strip_prefix(&prefix) {
                if !rest.contains('/') {
                    out.push(DirEntry { name: rest.to_string(), is_dir: true });
                }
            }
        }
        for f in self.files.keys() {
            if let Some(rest) = f.strip_prefix(&prefix) {
                if !rest.contains('/') {
                    out.push(DirEntry { name: rest.to_string(), is_dir: false });
                }
            }
        }
        out
    }

    fn copy_file(&mut self, src: &str, dst: &str, cfg: CopyConfiguration) {
        let mut fc = FileCopy::new(cfg);
        let mut a = fc.start(self.files.contains_key(dst));
        let data = self.files[src].clone();
        let mut done = false;
        loop {
            a = match a {
                Action::OpenSource | Action::CreateDest => fc.opened(),
                Action::Read => {
                    if done {
                        fc.read_chunk(&[])
                    } else {
                        done = true;
                        fc.read_chunk(&data)
                    }
                }
                Action::Write { len } => {
                    assert_eq!(len, data.len());
                    fc.wrote()
                }
                Action::Flush => {
                    self.files.insert(dst.to_string(), data.clone());
                    fc.flushed()
                }
                Action::Finish(_) => return,
                _ => panic!("unexpected step"),
            };
        }
    }

    /// Walks one level; the queue is drained by `threads` simulated workers
    /// taking items round-robin in reverse order.
    fn walk(&mut self, src: &str, dst: &str, cfg: CopyConfiguration, threads: usize) {
        self.dirs.insert(dst.to_string());
        let entries = self.children(src);
        let mut walk = LevelWalk::new(src, dst, &entries);
        let mut counter = PendingCounter::new();
        let mut queue = Vec::new();
        while let Some(step) = walk.next_step() {
            match step {
                LevelStep::Descend(w) => self.walk(&w.source, &w.destination, cfg, threads),
                LevelStep::Enqueue(w) => {
                    counter.increment();
                    queue.push(w);
                }
            }
        }
        assert!(walk.is_closed());
        assert_eq!(walk.queued_count(), queue.len());
        if threads > 1 {
            queue.reverse();
        }
        for w in queue {
            self.copy_file(&w.source, &w.destination, cfg);
            counter.decrement();
        }
        assert!(counter.is_drained());
        assert_eq!(counter.get(), 0);
    }
}

fn sample_tree() -> Tree {
    let mut t = Tree { dirs: BTreeSet::new(), files: BTreeMap::new() };
    t.dirs.insert("/src".to_string());
    t.dirs.insert("/src/sub".to_string());
    t.files.insert("/src/a.txt".to_string(), b"hello".to_vec());
    t.files.insert("/src/sub/b.txt".to_string(), b"world".to_vec());
    t
}

#[test]
fn recursive_copy_mirrors_tree() {
    let mut t = sample_tree();
    let mut cfg = CopyConfiguration::new();
    cfg.recursive = true;
    t.walk("/src", "/dst", cfg, 1);
    assert_eq!(t.files["/dst/a.txt"], b"hello".to_vec());
    assert_eq!(t.files["/dst/sub/b.txt"], b"world".to_vec());
    assert!(t.dirs.contains("/dst/sub"));
}

#[test]
fn recursive_completeness_nested() {
    let mut t = Tree { dirs: BTreeSet::new(), files: BTreeMap::new() };
    for d in ["/r", "/r/x", "/r/x/y", "/r/z"] {
        t.dirs.insert(d.to_string());
    }
    let files = ["/r/1", "/r/x/2", "/r/x/3", "/r/x/y/4", "/r/z/5", "/r/z/6"];
    for (i, f) in files.iter().enumerate() {
        t.files.insert(f.to_string(), vec![i as u8; i + 1]);
    }
    t.walk("/r", "/m", CopyConfiguration::new(), 2);
    for (i, f) in files.iter().enumerate() {
        let mirrored = format!("/m{}", &f[2..]);
        assert_eq!(t.files[&mirrored], vec![i as u8; i + 1]);
    }
    assert_eq!(t.files.len(), 12);
}

#[test]
fn thread_count_does_not_change_result() {
    let mut one = sample_tree();
    let mut many = sample_tree();
    for i in 0..5u8 {
        one.files.insert(format!("/src/f{}", i), vec![i; 3]);
        many.files.insert(format!("/src/f{}", i), vec![i; 3]);
    }
    one.walk("/src", "/dst", CopyConfiguration::new(), 1);
    many.walk("/src", "/dst", CopyConfiguration::new(), 4);
    assert_eq!(one.files, many.files);
    assert_eq!(one.dirs, many.dirs);
}

#[test]
fn plan_level_mirrors_children() {
    let entries = vec![
        DirEntry { name: "a.txt".to_string(), is_dir: false },
        DirEntry { name: "sub".to_string(), is_dir: true },
    ];
    let steps = plan_level("/src", "/dst/", &entries);
    assert_eq!(steps.len(), 2);
    match &steps[0] {
        LevelStep::Enqueue(w) => {
            assert_eq!(w.source, "/src/a.txt");
            assert_eq!(w.destination, "/dst/a.txt");
        }
        _ => panic!("expected a queued file"),
    }
    match &steps[1] {
        LevelStep::Descend(w) => {
            assert_eq!(w.source, "/src/sub");
            assert_eq!(w.destination, "/dst/sub");
        }
        _ => panic!("expected a descent"),
    }
    assert!(plan_level("/src", "/dst", &Vec::new()).is_empty());
}

#[test]
fn join_path_cases() {
    assert_eq!(join_path("/a", "b"), "/a/b");
    assert_eq!(join_path("/a/", "b"), "/a/b");
    assert_eq!(join_path("", "b"), "b");
    assert_eq!(join_path("/a", "/etc"), "/etc");
}

#[test]
fn pending_counter_counts() {
    let mut c = PendingCounter::new();
    assert!(c.is_drained());
    c.increment();
    c.increment();
    assert_eq!(c.get(), 2);
    assert!(!c.is_drained());
    c.decrement();
    c.decrement();
    assert!(c.is_drained());
}
