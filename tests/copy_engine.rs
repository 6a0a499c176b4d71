use std::collections::HashMap;

use rc_copy::config::CopyConfiguration;
use rc_copy::engine::{
    folded_is_affirmative, is_affirmative, Action, CopyOutcome, CopyPhase, FileCopy, SkipReason,
    Stage,
};
use rc_copy::orchestrate::{outcome_result, CopyError};

/// An in-memory volume: path -> (content, modification time).
type Files = HashMap<String, (Vec<u8>, i128)>;

/// Where the simulated I/O fails, if anywhere.
#[derive(Clone, Copy, PartialEq)]
enum Fault {
    Clean,
    OpenSource,
    Write,
}

/// Runs one file copy against `files`, reading `chunk` bytes at a time.
fn run(files: &mut Files, src: &str, dst: &str, cfg: CopyConfiguration, reply: &str, chunk: usize, now: i128, fault: Fault) -> Result<(), CopyError> {
    let mut fc = FileCopy::new(cfg);
    let mut action = fc.start(files.contains_key(dst));
    let mut data: Vec<u8> = Vec::new();
    let mut pos = 0usize;
    let mut out: Vec<u8> = Vec::new();
    let mut last = 0usize;
    loop {
        action = match action {
            Action::Prompt => fc.answer(is_affirmative(reply)),
            Action::CompareTimes => fc.times(files[src].1, files[dst].1),
            Action::OpenSource => {
                if fault == Fault::OpenSource || !files.contains_key(src) {
                    fc.failed()
                } else {
                    data = files[src].0.clone();
                    fc.opened()
                }
            }
            Action::CreateDest => {
                out.clear();
                fc.opened()
            }
            Action::Read => {
                let end = usize::min(pos + chunk, data.len());
                let piece = data[pos..end].to_vec();
                last = pos;
                pos = end;
                fc.read_chunk(&piece)
            }
            Action::Write { len } => {
                if fault == Fault::Write {
                    fc.failed()
                } else {
                    out.extend_from_slice(&data[last..last + len]);
                    fc.wrote()
                }
            }
            Action::Flush => {
                files.insert(dst.to_string(), (out.clone(), now));
                fc.flushed()
            }
            Action::Finish(o) => {
                assert_eq!(fc.stage(), Stage::Done);
                assert_eq!(fc.outcome(), Some(o));
                return outcome_result(o);
            }
        };
    }
}

fn files_with(entries: &[(&str, &[u8], i128)]) -> Files {
    entries.iter().map(|(p, c, t)| (p.to_string(), (c.to_vec(), *t))).collect()
}

#[test]
fn copy_is_byte_identical() {
    let content: Vec<u8> = (0..1000u32).map(|i| (i * 7 % 251) as u8).collect();
    let mut files = files_with(&[("/s", &content, 1)]);
    let r = run(&mut files, "/s", "/d", CopyConfiguration::new(), "", 64, 5, Fault::Clean);
    assert_eq!(r, Ok(()));
    assert_eq!(files["/d"].0, content);
    assert_eq!(files["/d"].0.len(), 1000);
}

#[test]
fn empty_source_copies_empty() {
    let mut files = files_with(&[("/s", b"", 1)]);
    assert_eq!(run(&mut files, "/s", "/d", CopyConfiguration::new(), "", 8, 5, Fault::Clean), Ok(()));
    assert_eq!(files["/d"].0, Vec::<u8>::new());
}

#[test]
fn forced_copy_twice_same_content() {
    let mut files = files_with(&[("/s", b"payload", 1), ("/d", b"old", 9)]);
    let mut cfg = CopyConfiguration::new();
    cfg.force = true;
    assert_eq!(run(&mut files, "/s", "/d", cfg, "", 3, 10, Fault::Clean), Ok(()));
    let first = files["/d"].0.clone();
    assert_eq!(run(&mut files, "/s", "/d", cfg, "", 3, 11, Fault::Clean), Ok(()));
    assert_eq!(files["/d"].0, first);
    assert_eq!(first, b"payload".to_vec());
}

#[test]
fn default_policy_refuses_existing() {
    let mut files = files_with(&[("/s", b"new", 1), ("/d", b"old", 1)]);
    let r = run(&mut files, "/s", "/d", CopyConfiguration::new(), "", 4, 5, Fault::Clean);
    assert_eq!(r, Err(CopyError::AlreadyExists));
    assert_eq!(files["/d"].0, b"old".to_vec());
}

#[test]
fn no_clobber_keeps_existing() {
    let mut files = files_with(&[("/s", b"new", 1), ("/d", b"old", 1)]);
    let mut cfg = CopyConfiguration::new();
    cfg.no_clobber = true;
    assert_eq!(run(&mut files, "/s", "/d", cfg, "", 4, 5, Fault::Clean), Ok(()));
    assert_eq!(files["/d"].0, b"old".to_vec());
}

#[test]
fn update_keeps_newer_destination() {
    let mut files = files_with(&[("/s", b"new", 1), ("/d", b"old", 7)]);
    let mut cfg = CopyConfiguration::new();
    cfg.update = true;
    cfg.force = true;
    assert_eq!(run(&mut files, "/s", "/d", cfg, "", 4, 9, Fault::Clean), Ok(()));
    assert_eq!(files["/d"].0, b"old".to_vec());
    // equal times do not update either
    let mut files = files_with(&[("/s", b"new", 7), ("/d", b"old", 7)]);
    assert_eq!(run(&mut files, "/s", "/d", cfg, "", 4, 9, Fault::Clean), Ok(()));
    assert_eq!(files["/d"].0, b"old".to_vec());
}

#[test]
fn update_replaces_older_destination() {
    let mut files = files_with(&[("/s", b"newer", 8), ("/d", b"old", 2)]);
    let mut cfg = CopyConfiguration::new();
    cfg.update = true;
    cfg.force = true;
    assert_eq!(run(&mut files, "/s", "/d", cfg, "", 2, 9, Fault::Clean), Ok(()));
    assert_eq!(files["/d"].0, b"newer".to_vec());
}

#[test]
fn update_under_default_policy_still_refuses() {
    let mut files = files_with(&[("/s", b"newer", 8), ("/d", b"old", 2)]);
    let mut cfg = CopyConfiguration::new();
    cfg.update = true;
    assert_eq!(run(&mut files, "/s", "/d", cfg, "", 2, 9, Fault::Clean), Err(CopyError::AlreadyExists));
    assert_eq!(files["/d"].0, b"old".to_vec());
}

#[test]
fn interactive_answers() {
    let mut cfg = CopyConfiguration::new();
    cfg.interactive = true;
    let mut files = files_with(&[("/s", b"new", 1), ("/d", b"old", 1)]);
    assert_eq!(run(&mut files, "/s", "/d", cfg, "n\n", 4, 5, Fault::Clean), Ok(()));
    assert_eq!(files["/d"].0, b"old".to_vec());
    assert_eq!(run(&mut files, "/s", "/d", cfg, "  S \n", 4, 5, Fault::Clean), Ok(()));
    assert_eq!(files["/d"].0, b"new".to_vec());
}

#[test]
fn interactive_decline_outcome() {
    let mut cfg = CopyConfiguration::new();
    cfg.interactive = true;
    cfg.no_clobber = true;
    let mut fc = FileCopy::new(cfg);
    assert_eq!(fc.start(true), Action::Prompt);
    assert_eq!(fc.answer(false), Action::Finish(CopyOutcome::Skipped(SkipReason::Declined)));
}

#[test]
fn missing_destination_skips_policy() {
    let mut cfg = CopyConfiguration::new();
    cfg.update = true;
    let mut fc = FileCopy::new(cfg);
    assert_eq!(fc.start(false), Action::OpenSource);
    assert_eq!(fc.opened(), Action::CreateDest);
    assert_eq!(fc.opened(), Action::Read);
    assert_eq!(fc.read_chunk(&[1, 2, 3]), Action::Write { len: 3 });
    assert_eq!(fc.wrote(), Action::Read);
    assert_eq!(fc.read_chunk(&[]), Action::Flush);
    assert_eq!(fc.flushed(), Action::Finish(CopyOutcome::Copied));
}

#[test]
fn failures_are_tagged() {
    let mut files = files_with(&[("/s", b"abc", 1)]);
    assert_eq!(
        run(&mut files, "/s", "/d", CopyConfiguration::new(), "", 2, 5, Fault::OpenSource),
        Err(CopyError::FileCopy(CopyPhase::OpenSource))
    );
    assert_eq!(
        run(&mut files, "/s", "/d", CopyConfiguration::new(), "", 2, 5, Fault::Write),
        Err(CopyError::FileCopy(CopyPhase::Write))
    );
    let mut fc = FileCopy::new(CopyConfiguration::new());
    fc.start(false);
    fc.opened();
    assert_eq!(fc.failed(), Action::Finish(CopyOutcome::Failed(CopyPhase::CreateDest)));
    let mut fc = FileCopy::new(CopyConfiguration::new());
    fc.start(false);
    fc.opened();
    fc.opened();
    assert_eq!(fc.failed(), Action::Finish(CopyOutcome::Failed(CopyPhase::Read)));
    let mut fc = FileCopy::new(CopyConfiguration::new());
    fc.start(false);
    fc.opened();
    fc.opened();
    fc.read_chunk(&[]);
    assert_eq!(fc.failed(), Action::Finish(CopyOutcome::Failed(CopyPhase::Flush)));
}

#[test]
fn affirmative_token() {
    assert!(is_affirmative("s"));
    assert!(is_affirmative(" S\n"));
    assert!(!is_affirmative("si"));
    assert!(!is_affirmative("n"));
    assert!(!is_affirmative(""));
    assert!(folded_is_affirmative("s"));
    assert!(!folded_is_affirmative("S"));
    assert!(!folded_is_affirmative(" s"));
}
