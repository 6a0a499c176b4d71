use vstd::prelude::*;
use crate::config::CopyConfiguration;

verus! {

/// The step of a single-file copy in which an operation failed.
#[derive(Clone, Copy, Debug, PartialEq, Eq, Structural)]
pub enum CopyPhase {
    /// Writing the overwrite prompt or reading its answer.
    Prompt,
    /// Reading the modification times for the update comparison.
    Metadata,
    OpenSource,
    CreateDest,
    Read,
    Write,
    Flush,
}

/// Why a copy ended successfully without touching the destination.
#[derive(Clone, Copy, Debug, PartialEq, Eq, Structural)]
pub enum SkipReason {
    /// The user did not answer the overwrite prompt affirmatively.
    Declined,
    /// `no_clobber` kept an existing destination.
    NoClobber,
    /// `update` found the destination at least as new as the source.
    NotNewer,
}

/// How a single-file copy ended.
#[derive(Clone, Copy, Debug, PartialEq, Eq, Structural)]
pub enum CopyOutcome {
    Copied,
    Skipped(SkipReason),
    /// The default policy refused to overwrite an existing destination.
    AlreadyExists,
    Failed(CopyPhase),
}

impl CopyOutcome {
    /// Whether the copy reports success to its caller.
    pub fn is_success(&self) -> (r: bool)
        ensures
            r == (*self is Copied || *self is Skipped),
    {
        match self {
            CopyOutcome::Copied => true,
            CopyOutcome::Skipped(_) => true,
            _ => false,
        }
    }
}

/// What the caller must do next for a single-file copy.
#[derive(Clone, Copy, Debug, PartialEq, Eq, Structural)]
pub enum Action {
    /// Ask whether to overwrite the destination; report with `answer`.
    Prompt,
    /// Read both modification times; report with `times`.
    CompareTimes,
    /// Open the source for reading; report with `opened`.
    OpenSource,
    /// Create or truncate the destination; report with `opened`.
    CreateDest,
    /// Read the next chunk of the source; report with `read_chunk`.
    Read,
    /// Write the first `len` bytes of the chunk just read; report with `wrote`.
    Write { len: usize },
    /// Flush the destination; report with `flushed`.
    Flush,
    /// The copy is over.
    Finish(CopyOutcome),
}

/// Where a single-file copy stands.
#[derive(Clone, Copy, Debug, PartialEq, Eq, Structural)]
pub enum Stage {
    Start,
    AwaitAnswer,
    AwaitTimes,
    Opening,
    Creating,
    Reading,
    Writing,
    Flushing,
    Done,
}

/// The size of the transfer buffer: 8 MiB.
pub const BUFFER_SIZE: usize = 8388608;

/// What follows once the overwrite policy lets the copy go on.
pub open spec fn after_policy(config: CopyConfiguration, dest_exists: bool) -> Action {
    if config.update && dest_exists {
        Action::CompareTimes
    } else {
        Action::OpenSource
    }
}

/// The first step, once it is known whether the destination exists.
pub open spec fn start_action(config: CopyConfiguration, dest_exists: bool) -> Action {
    if dest_exists && !config.force {
        if config.interactive {
            Action::Prompt
        } else if config.no_clobber {
            Action::Finish(CopyOutcome::Skipped(SkipReason::NoClobber))
        } else {
            Action::Finish(CopyOutcome::AlreadyExists)
        }
    } else {
        after_policy(config, dest_exists)
    }
}

/// The step after the overwrite prompt was answered.
pub open spec fn answer_action(
    config: CopyConfiguration,
    dest_exists: bool,
    affirmative: bool,
) -> Action {
    if affirmative {
        after_policy(config, dest_exists)
    } else {
        Action::Finish(CopyOutcome::Skipped(SkipReason::Declined))
    }
}

/// The step after the update comparison: copy only a strictly newer source.
pub open spec fn times_action(source_modified: i128, dest_modified: i128) -> Action {
    if source_modified <= dest_modified {
        Action::Finish(CopyOutcome::Skipped(SkipReason::NotNewer))
    } else {
        Action::OpenSource
    }
}

/// The stage that waits for the report on `a`.
pub open spec fn stage_of(a: Action) -> Stage {
    match a {
        Action::Prompt => Stage::AwaitAnswer,
        Action::CompareTimes => Stage::AwaitTimes,
        Action::OpenSource => Stage::Opening,
        Action::CreateDest => Stage::Creating,
        Action::Read => Stage::Reading,
        Action::Write { .. } => Stage::Writing,
        Action::Flush => Stage::Flushing,
        Action::Finish(_) => Stage::Done,
    }
}

/// The outcome recorded once `a` is handed out: set by a `Finish` only.
pub open spec fn outcome_of(a: Action) -> Option<CopyOutcome> {
    match a {
        Action::Finish(o) => Some(o),
        _ => None,
    }
}

/// The phase that a failure reported in stage `s` belongs to.
pub open spec fn failure_phase(s: Stage) -> CopyPhase {
    match s {
        Stage::AwaitAnswer => CopyPhase::Prompt,
        Stage::AwaitTimes => CopyPhase::Metadata,
        Stage::Opening => CopyPhase::OpenSource,
        Stage::Creating => CopyPhase::CreateDest,
        Stage::Reading => CopyPhase::Read,
        Stage::Writing => CopyPhase::Write,
        _ => CopyPhase::Flush,
    }
}

/// The decision procedure as a whole: the action at which it stops deciding,
/// either `OpenSource` (the transfer starts) or a `Finish`.
pub open spec fn copy_decision(
    config: CopyConfiguration,
    dest_exists: bool,
    affirmative: bool,
    source_modified: i128,
    dest_modified: i128,
) -> Action {
    let first = start_action(config, dest_exists);
    let second = if first == Action::Prompt {
        answer_action(config, dest_exists, affirmative)
    } else {
        first
    };
    if second == Action::CompareTimes {
        times_action(source_modified, dest_modified)
    } else {
        second
    }
}

/// The state of one single-file copy: the decision procedure, then the
/// chunked transfer. The caller performs each action and reports its result.
pub struct FileCopy {
    config: CopyConfiguration,
    stage: Stage,
    dest_exists: bool,
    outcome: Option<CopyOutcome>,
    /// The bytes read from the source so far.
    read: Ghost<Seq<u8>>,
    /// The bytes handed out to be written to the destination so far.
    written: Ghost<Seq<u8>>,
}

impl FileCopy {
    pub closed spec fn config(&self) -> CopyConfiguration {
        self.config
    }

    pub closed spec fn stage_spec(&self) -> Stage {
        self.stage
    }

    pub closed spec fn dest_exists(&self) -> bool {
        self.dest_exists
    }

    pub closed spec fn outcome_spec(&self) -> Option<CopyOutcome> {
        self.outcome
    }

    /// The bytes read from the source so far.
    pub closed spec fn source_bytes(&self) -> Seq<u8> {
        self.read@
    }

    /// The bytes written to the destination so far.
    pub closed spec fn dest_bytes(&self) -> Seq<u8> {
        self.written@
    }

    /// What was written is what was read, in order: all of it outside a write
    /// and after a successful copy, a prefix during a write or after a failure.
    pub closed spec fn wf(&self) -> bool {
        &&& self.written@.len() <= self.read@.len()
        &&& self.written@ == self.read@.subrange(0, self.written@.len() as int)
        &&& (self.stage != Stage::Writing && self.stage != Stage::Done) ==> self.written@
            == self.read@
        &&& self.outcome == Some(CopyOutcome::Copied) ==> self.written@ == self.read@
        &&& (self.stage == Stage::Done) <==> self.outcome is Some
    }

    /// A copy that has not started yet.
    pub fn new(config: CopyConfiguration) -> (r: FileCopy)
        ensures
            r.wf(),
            r.config() == config,
            r.stage_spec() == Stage::Start,
            r.outcome_spec() is None,
            r.source_bytes() == Seq::<u8>::empty(),
            r.dest_bytes() == Seq::<u8>::empty(),
    {
        let r = FileCopy {
            config,
            stage: Stage::Start,
            dest_exists: false,
            outcome: None,
            read: Ghost(Seq::empty()),
            written: Ghost(Seq::empty()),
        };
        assert(r.read@.subrange(0, 0) =~= r.written@);
        r
    }

    pub fn stage(&self) -> (r: Stage)
        ensures
            r == self.stage_spec(),
    {
        self.stage
    }

    pub fn outcome(&self) -> (r: Option<CopyOutcome>)
        ensures
            r == self.outcome_spec(),
    {
        self.outcome
    }

    /// Moves to the stage that waits for `a` and records a final outcome.
    fn enter(&mut self, a: Action)
        requires
            old(self).written@.len() <= old(self).read@.len(),
            old(self).written@ == old(self).read@.subrange(0, old(self).written@.len() as int),
            a is Finish && !(a->Finish_0 is Copied) || old(self).written@ == old(self).read@,
        ensures
            final(self).wf(),
            final(self).stage == stage_of(a),
            final(self).outcome == (match a {
                Action::Finish(o) => Some(o),
                _ => None::<CopyOutcome>,
            }),
            final(self).config == old(self).config,
            final(self).dest_exists == old(self).dest_exists,
            final(self).read == old(self).read,
            final(self).written == old(self).written,
    {
        self.stage = match a {
            Action::Prompt => Stage::AwaitAnswer,
            Action::CompareTimes => Stage::AwaitTimes,
            Action::OpenSource => Stage::Opening,
            Action::CreateDest => Stage::Creating,
            Action::Read => Stage::Reading,
            Action::Write { .. } => Stage::Writing,
            Action::Flush => Stage::Flushing,
            Action::Finish(_) => Stage::Done,
        };
        self.outcome = match a {
            Action::Finish(o) => Some(o),
            _ => None,
        };
        assert(self.read@.subrange(0, self.read@.len() as int) =~= self.read@);
    }

    fn next_after_policy(&self) -> (r: Action)
        ensures
            r == after_policy(self.config, self.dest_exists),
    {
        if self.config.update && self.dest_exists {
            Action::CompareTimes
        } else {
            Action::OpenSource
        }
    }

    /// Starts the decision procedure once the caller knows whether the
    /// destination exists.
    pub fn start(&mut self, dest_exists: bool) -> (r: Action)
        requires
            old(self).wf(),
            old(self).stage_spec() == Stage::Start,
        ensures
            final(self).wf(),
            r == start_action(old(self).config(), dest_exists),
            final(self).stage_spec() == stage_of(r),
            final(self).outcome_spec() == outcome_of(r),
            final(self).config() == old(self).config(),
            final(self).dest_exists() == dest_exists,
            final(self).source_bytes() == old(self).source_bytes(),
            final(self).dest_bytes() == old(self).dest_bytes(),
    {
        self.dest_exists = dest_exists;
        let a = if dest_exists && !self.config.force {
            if self.config.interactive {
                Action::Prompt
            } else if self.config.no_clobber {
                Action::Finish(CopyOutcome::Skipped(SkipReason::NoClobber))
            } else {
                Action::Finish(CopyOutcome::AlreadyExists)
            }
        } else {
            self.next_after_policy()
        };
        self.enter(a);
        a
    }

    /// Goes on after the overwrite prompt; `affirmative` says whether the
    /// answer was the affirmative token.
    pub fn answer(&mut self, affirmative: bool) -> (r: Action)
        requires
            old(self).wf(),
            old(self).stage_spec() == Stage::AwaitAnswer,
        ensures
            final(self).wf(),
            r == answer_action(old(self).config(), old(self).dest_exists(), affirmative),
            final(self).stage_spec() == stage_of(r),
            final(self).outcome_spec() == outcome_of(r),
            final(self).config() == old(self).config(),
            final(self).dest_exists() == old(self).dest_exists(),
            final(self).source_bytes() == old(self).source_bytes(),
            final(self).dest_bytes() == old(self).dest_bytes(),
    {
        let a = if affirmative {
            self.next_after_policy()
        } else {
            Action::Finish(CopyOutcome::Skipped(SkipReason::Declined))
        };
        self.enter(a);
        a
    }

    /// Goes on after the update comparison, given both modification times (in
    /// nanoseconds from any common origin).
    pub fn times(&mut self, source_modified: i128, dest_modified: i128) -> (r: Action)
        requires
            old(self).wf(),
            old(self).stage_spec() == Stage::AwaitTimes,
        ensures
            final(self).wf(),
            r == times_action(source_modified, dest_modified),
            final(self).stage_spec() == stage_of(r),
            final(self).outcome_spec() == outcome_of(r),
            final(self).config() == old(self).config(),
            final(self).dest_exists() == old(self).dest_exists(),
            final(self).source_bytes() == old(self).source_bytes(),
            final(self).dest_bytes() == old(self).dest_bytes(),
    {
        let a = if source_modified <= dest_modified {
            Action::Finish(CopyOutcome::Skipped(SkipReason::NotNewer))
        } else {
            Action::OpenSource
        };
        self.enter(a);
        a
    }

    /// Goes on after the source was opened (then the destination is created)
    /// or the destination was created (then the transfer starts).
    pub fn opened(&mut self) -> (r: Action)
        requires
            old(self).wf(),
            old(self).stage_spec() == Stage::Opening || old(self).stage_spec() == Stage::Creating,
        ensures
            final(self).wf(),
            r == (if old(self).stage_spec() == Stage::Opening {
                Action::CreateDest
            } else {
                Action::Read
            }),
            final(self).stage_spec() == stage_of(r),
            final(self).outcome_spec() == outcome_of(r),
            final(self).config() == old(self).config(),
            final(self).dest_exists() == old(self).dest_exists(),
            final(self).source_bytes() == old(self).source_bytes(),
            final(self).dest_bytes() == old(self).dest_bytes(),
    {
        let a = if self.stage == Stage::Opening {
            Action::CreateDest
        } else {
            Action::Read
        };
        self.enter(a);
        a
    }

    /// Takes the chunk just read from the source: an empty chunk ends the
    /// source, any other is to be written whole.
    pub fn read_chunk(&mut self, chunk: &[u8]) -> (r: Action)
        requires
            old(self).wf(),
            old(self).stage_spec() == Stage::Reading,
        ensures
            final(self).wf(),
            r == (if chunk@.len() == 0 {
                Action::Flush
            } else {
                Action::Write { len: chunk@.len() as usize }
            }),
            final(self).stage_spec() == stage_of(r),
            final(self).outcome_spec() == outcome_of(r),
            final(self).config() == old(self).config(),
            final(self).dest_exists() == old(self).dest_exists(),
            final(self).source_bytes() == old(self).source_bytes() + chunk@,
            final(self).dest_bytes() == old(self).dest_bytes(),
    {
        let len = chunk.len();
        if len == 0 {
            proof {
                assert(self.read@ + chunk@ =~= self.read@);
            }
            self.enter(Action::Flush);
            Action::Flush
        } else {
            self.stage = Stage::Writing;
            self.read = Ghost(self.read@ + chunk@);
            assert(self.written@ =~= self.read@.subrange(0, self.written@.len() as int));
            assert(self.written@.len() <= self.read@.len());
            Action::Write { len }
        }
    }

    /// Records that the chunk handed out by the last `Write` was written.
    pub fn wrote(&mut self) -> (r: Action)
        requires
            old(self).wf(),
            old(self).stage_spec() == Stage::Writing,
        ensures
            final(self).wf(),
            r == Action::Read,
            final(self).stage_spec() == Stage::Reading,
            final(self).config() == old(self).config(),
            final(self).dest_exists() == old(self).dest_exists(),
            final(self).source_bytes() == old(self).source_bytes(),
            final(self).dest_bytes() == old(self).source_bytes(),
    {
        self.written = Ghost(self.read@);
        self.stage = Stage::Reading;
        assert(self.read@.subrange(0, self.read@.len() as int) =~= self.read@);
        Action::Read
    }

    /// Finishes after the destination was flushed: the copy succeeded, and
    /// the destination holds exactly the bytes read from the source.
    pub fn flushed(&mut self) -> (r: Action)
        requires
            old(self).wf(),
            old(self).stage_spec() == Stage::Flushing,
        ensures
            final(self).wf(),
            r == Action::Finish(CopyOutcome::Copied),
            final(self).stage_spec() == Stage::Done,
            final(self).outcome_spec() == Some(CopyOutcome::Copied),
            final(self).config() == old(self).config(),
            final(self).dest_exists() == old(self).dest_exists(),
            final(self).source_bytes() == old(self).source_bytes(),
            final(self).dest_bytes() == final(self).source_bytes(),
    {
        let a = Action::Finish(CopyOutcome::Copied);
        self.enter(a);
        a
    }

    /// Finishes after the operation of the current stage failed; the outcome
    /// names the phase it failed in.
    pub fn failed(&mut self) -> (r: Action)
        requires
            old(self).wf(),
            old(self).stage_spec() != Stage::Start,
            old(self).stage_spec() != Stage::Done,
        ensures
            final(self).wf(),
            r == Action::Finish(CopyOutcome::Failed(failure_phase(old(self).stage_spec()))),
            final(self).stage_spec() == Stage::Done,
            final(self).outcome_spec() == Some(CopyOutcome::Failed(failure_phase(old(self).stage_spec()))),
            final(self).config() == old(self).config(),
            final(self).dest_exists() == old(self).dest_exists(),
            final(self).source_bytes() == old(self).source_bytes(),
            final(self).dest_bytes() == old(self).dest_bytes(),
    {
        let phase = match self.stage {
            Stage::AwaitAnswer => CopyPhase::Prompt,
            Stage::AwaitTimes => CopyPhase::Metadata,
            Stage::Opening => CopyPhase::OpenSource,
            Stage::Creating => CopyPhase::CreateDest,
            Stage::Reading => CopyPhase::Read,
            Stage::Writing => CopyPhase::Write,
            _ => CopyPhase::Flush,
        };
        let a = Action::Finish(CopyOutcome::Failed(phase));
        self.enter(a);
        a
    }
}

/// What `str::trim` returns for a string.
pub uninterp spec fn trim_of(s: Seq<char>) -> Seq<char>;

/// What `str::to_lowercase` returns for a string.
pub uninterp spec fn lower_of(s: Seq<char>) -> Seq<char>;

/// Relies on `str::trim`: the string without leading and trailing white
/// space, which depends on the characters alone.
#[verifier::external_body]
fn trim_text(s: &str) -> (r: String)
    ensures
        r@ == trim_of(s@),
{
    s.trim().to_string()
}

/// Relies on `str::to_lowercase`: the lower-case form of the string, which
/// depends on the characters alone.
#[verifier::external_body]
fn lowercase(s: &str) -> (r: String)
    ensures
        r@ == lower_of(s@),
{
    s.to_lowercase()
}

/// The affirmative answer to the overwrite prompt.
pub open spec fn affirmative_token() -> Seq<char> {
    seq!['s']
}

/// Whether an answer that is already trimmed and lower-cased is the
/// affirmative token.
pub fn folded_is_affirmative(folded: &str) -> (r: bool)
    ensures
        r == (folded@ == affirmative_token()),
{
    if folded.unicode_len() != 1 {
        return false;
    }
    let c = folded.get_char(0);
    if c == 's' {
        assert(folded@ =~= affirmative_token());
        true
    } else {
        false
    }
}

/// Whether a line typed at the overwrite prompt accepts the overwrite: once
/// trimmed and lower-cased it must be the affirmative token.
pub fn is_affirmative(response: &str) -> (r: bool)
    ensures
        r == (lower_of(trim_of(response@)) == affirmative_token()),
{
    let t = trim_text(response);
    let folded = lowercase(t.as_str());
    folded_is_affirmative(folded.as_str())
}

/// What the destination holds after a copy whose decision procedure stopped
/// at `decision`, given the source and the destination before the call, when
/// the transfer itself succeeds.
pub open spec fn content_after(decision: Action, source: Seq<u8>, before: Seq<u8>) -> Seq<u8> {
    if decision == Action::OpenSource {
        source
    } else {
        before
    }
}

/// A copy that finished successfully wrote to the destination exactly the
/// bytes it read from the source: same length, same content.
pub proof fn lemma_copy_is_exact(c: FileCopy)
    requires
        c.wf(),
        c.outcome_spec() == Some(CopyOutcome::Copied),
    ensures
        c.dest_bytes() == c.source_bytes(),
        c.dest_bytes().len() == c.source_bytes().len(),
{
}

/// Repeating a forced copy of the same source to the same destination leaves
/// the destination as the first copy left it. Where the first copy did not
/// write, the second sees the same modification times.
pub proof fn lemma_forced_copy_idempotent(
    config: CopyConfiguration,
    source: Seq<u8>,
    before: Seq<u8>,
    dest_exists: bool,
    first_answer: bool,
    second_answer: bool,
    first_times: (i128, i128),
    second_times: (i128, i128),
)
    requires
        config.force,
        copy_decision(config, dest_exists, first_answer, first_times.0, first_times.1)
            != Action::OpenSource ==> second_times == first_times,
    ensures
        ({
            let first = content_after(
                copy_decision(config, dest_exists, first_answer, first_times.0, first_times.1),
                source,
                before,
            );
            content_after(
                copy_decision(config, true, second_answer, second_times.0, second_times.1),
                source,
                first,
            ) == first
        }),
{
}

/// With `no_clobber` set (and neither `force` nor `interactive`, which come
/// first), an existing destination is kept and the call succeeds.
pub proof fn lemma_no_clobber_keeps_destination(
    config: CopyConfiguration,
    source: Seq<u8>,
    before: Seq<u8>,
    answer: bool,
    source_modified: i128,
    dest_modified: i128,
)
    requires
        config.no_clobber,
        !config.force,
        !config.interactive,
    ensures
        copy_decision(config, true, answer, source_modified, dest_modified) == Action::Finish(
            CopyOutcome::Skipped(SkipReason::NoClobber),
        ),
        content_after(
            copy_decision(config, true, answer, source_modified, dest_modified),
            source,
            before,
        ) == before,
{
}

/// With `update` set, a destination newer than the source is left unchanged,
/// whatever the other flags.
pub proof fn lemma_update_keeps_newer_destination(
    config: CopyConfiguration,
    source: Seq<u8>,
    before: Seq<u8>,
    answer: bool,
    source_modified: i128,
    dest_modified: i128,
)
    requires
        config.update,
        dest_modified > source_modified,
    ensures
        copy_decision(config, true, answer, source_modified, dest_modified) != Action::OpenSource,
        content_after(
            copy_decision(config, true, answer, source_modified, dest_modified),
            source,
            before,
        ) == before,
{
}

/// With `update` set, a destination older than the source becomes a copy of
/// the source, wherever the overwrite policy lets it be replaced: under
/// `force`, or when the prompt was answered affirmatively.
pub proof fn lemma_update_replaces_older_destination(
    config: CopyConfiguration,
    source: Seq<u8>,
    before: Seq<u8>,
    answer: bool,
    source_modified: i128,
    dest_modified: i128,
)
    requires
        config.update,
        dest_modified < source_modified,
        config.force || (config.interactive && answer),
    ensures
        copy_decision(config, true, answer, source_modified, dest_modified) == Action::OpenSource,
        content_after(
            copy_decision(config, true, answer, source_modified, dest_modified),
            source,
            before,
        ) == source,
{
}

/// Under the default policy (no `force`, `interactive` or `no_clobber`), an
/// existing destination is refused with `AlreadyExists` and left unchanged.
pub proof fn lemma_default_refuses_overwrite(
    config: CopyConfiguration,
    source: Seq<u8>,
    before: Seq<u8>,
    answer: bool,
    source_modified: i128,
    dest_modified: i128,
)
    requires
        !config.force,
        !config.interactive,
        !config.no_clobber,
    ensures
        copy_decision(config, true, answer, source_modified, dest_modified) == Action::Finish(
            CopyOutcome::AlreadyExists,
        ),
        content_after(
            copy_decision(config, true, answer, source_modified, dest_modified),
            source,
            before,
        ) == before,
{
}

} // verus!
