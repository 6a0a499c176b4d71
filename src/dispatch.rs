use vstd::prelude::*;

verus! {

/// One outstanding file copy: a source path and a destination path.
#[derive(Clone, Debug)]
pub struct WorkItem {
    pub source: String,
    pub destination: String,
}

/// A child of a source directory, as listed: its file name and whether it is
/// itself a directory.
#[derive(Clone, Debug)]
pub struct DirEntry {
    pub name: String,
    pub is_dir: bool,
}

/// What the dispatcher does with one child of a directory.
#[derive(Clone, Debug)]
pub enum LevelStep {
    /// Walk this subdirectory, synchronously, before going on.
    Descend(WorkItem),
    /// Count this file as pending and queue it for the workers.
    Enqueue(WorkItem),
}

impl LevelStep {
    pub open spec fn item(self) -> WorkItem {
        match self {
            LevelStep::Descend(w) => w,
            LevelStep::Enqueue(w) => w,
        }
    }
}

/// A path joined with a child name, as a Unix path join does: an absolute
/// name replaces the path, and a separator is put between the two unless the
/// path is empty or already ends with one.
pub open spec fn joined(dir: Seq<char>, name: Seq<char>) -> Seq<char> {
    if name.len() > 0 && name[0] == '/' {
        name
    } else if dir.len() == 0 || dir.last() == '/' {
        dir + name
    } else {
        dir + seq!['/'] + name
    }
}

/// The step that the child `e` of `source_dir` gives, mirrored under
/// `dest_dir`.
pub open spec fn step_matches(
    s: LevelStep,
    source_dir: Seq<char>,
    dest_dir: Seq<char>,
    e: DirEntry,
) -> bool {
    &&& (s is Descend <==> e.is_dir)
    &&& s.item().source@ == joined(source_dir, e.name@)
    &&& s.item().destination@ == joined(dest_dir, e.name@)
}

/// Relies on `String::push_str`: appends `t` to the end of `s`.
#[verifier::external_body]
fn append(s: &mut String, t: &str)
    ensures
        final(s)@ == old(s)@ + t@,
{
    s.push_str(t)
}

/// Joins a directory path and a child name.
pub fn join_path(dir: &str, name: &str) -> (r: String)
    ensures
        r@ == joined(dir@, name@),
{
    let n = name.unicode_len();
    if n > 0 && name.get_char(0) == '/' {
        return name.to_owned();
    }
    let d = dir.unicode_len();
    let mut r = dir.to_owned();
    if d > 0 && dir.get_char(d - 1) != '/' {
        append(&mut r, "/");
        proof {
            reveal_strlit("/");
        }
        assert("/"@ =~= seq!['/']);
    }
    append(&mut r, name);
    r
}

/// Plans one directory level: for each listed child, in the order listed,
/// a descent into a subdirectory or a queued file copy, with the destination
/// at the mirrored path.
pub fn plan_level(source_dir: &str, dest_dir: &str, entries: &Vec<DirEntry>) -> (r: Vec<LevelStep>)
    ensures
        r@.len() == entries@.len(),
        forall|i: int|
            0 <= i < entries@.len() ==> step_matches(#[trigger] r@[i], source_dir@, dest_dir@, entries@[i]),
{
    let mut steps: Vec<LevelStep> = Vec::new();
    let mut i: usize = 0;
    while i < entries.len()
        invariant
            i <= entries@.len(),
            steps@.len() == i,
            forall|j: int|
                0 <= j < i ==> step_matches(#[trigger] steps@[j], source_dir@, dest_dir@, entries@[j]),
        decreases entries.len() - i,
    {
        let e = &entries[i];
        let item = WorkItem {
            source: join_path(source_dir, e.name.as_str()),
            destination: join_path(dest_dir, e.name.as_str()),
        };
        if e.is_dir {
            steps.push(LevelStep::Descend(item));
        } else {
            steps.push(LevelStep::Enqueue(item));
        }
        i = i + 1;
    }
    steps
}

/// The number of file children (work items) among the first `n` entries.
pub open spec fn files_in(entries: Seq<DirEntry>, n: int) -> nat
    decreases n,
{
    if n <= 0 || n > entries.len() {
        0
    } else {
        files_in(entries, n - 1) + if entries[n - 1].is_dir {
            0nat
        } else {
            1nat
        }
    }
}

/// The count of outstanding work items of one directory level.
pub struct PendingCounter {
    count: u64,
    /// Items counted in so far.
    added: Ghost<nat>,
    /// Items counted out so far.
    removed: Ghost<nat>,
}

impl PendingCounter {
    pub closed spec fn value(&self) -> nat {
        self.count as nat
    }

    pub closed spec fn added(&self) -> nat {
        self.added@
    }

    pub closed spec fn removed(&self) -> nat {
        self.removed@
    }

    /// The count is the number of items counted in and not yet out.
    pub closed spec fn wf(&self) -> bool {
        &&& self.removed@ <= self.added@
        &&& self.count as nat == self.added@ - self.removed@
    }

    pub fn new() -> (r: PendingCounter)
        ensures
            r.wf(),
            r.value() == 0,
            r.added() == 0,
            r.removed() == 0,
    {
        PendingCounter { count: 0, added: Ghost(0), removed: Ghost(0) }
    }

    /// Counts in one item, before it is queued.
    pub fn increment(&mut self)
        requires
            old(self).wf(),
            old(self).value() < u64::MAX,
        ensures
            final(self).wf(),
            final(self).value() == old(self).value() + 1,
            final(self).added() == old(self).added() + 1,
            final(self).removed() == old(self).removed(),
    {
        self.count = self.count + 1;
        self.added = Ghost(self.added@ + 1);
    }

    /// Counts out one item, once a worker has handled it, whatever the
    /// outcome.
    pub fn decrement(&mut self)
        requires
            old(self).wf(),
            old(self).value() > 0,
        ensures
            final(self).wf(),
            final(self).value() == old(self).value() - 1,
            final(self).added() == old(self).added(),
            final(self).removed() == old(self).removed() + 1,
    {
        self.count = self.count - 1;
        self.removed = Ghost(self.removed@ + 1);
    }

    pub fn get(&self) -> (r: u64)
        ensures
            r as nat == self.value(),
    {
        self.count
    }

    /// Whether every item counted in has been counted out.
    pub fn is_drained(&self) -> (r: bool)
        requires
            self.wf(),
        ensures
            r == (self.value() == 0),
            r == (self.removed() == self.added()),
    {
        self.count == 0
    }
}

/// The dispatching side of one directory level: hands out the planned steps
/// in order and counts the files it queues.
pub struct LevelWalk {
    steps: Vec<LevelStep>,
    position: usize,
    queued: usize,
    entries: Ghost<Seq<DirEntry>>,
}

impl LevelWalk {
    pub closed spec fn steps(&self) -> Seq<LevelStep> {
        self.steps@
    }

    pub closed spec fn entries(&self) -> Seq<DirEntry> {
        self.entries@
    }

    pub closed spec fn position(&self) -> nat {
        self.position as nat
    }

    pub closed spec fn queued(&self) -> nat {
        self.queued as nat
    }

    /// The steps mirror the listed children, and the files handed out so far
    /// are those among the children before the current position.
    pub closed spec fn wf(&self) -> bool {
        &&& self.steps@.len() == self.entries@.len()
        &&& self.position <= self.steps@.len()
        &&& forall|i: int|
            0 <= i < self.steps@.len() ==> (#[trigger] self.steps@[i] is Descend
                <==> self.entries@[i].is_dir)
        &&& self.queued as nat == files_in(self.entries@, self.position as int)
    }

    /// Starts a level over the listed children of `source_dir`, mirrored
    /// under `dest_dir`.
    pub fn new(source_dir: &str, dest_dir: &str, entries: &Vec<DirEntry>) -> (r: LevelWalk)
        ensures
            r.wf(),
            r.entries() == entries@,
            r.position() == 0,
            r.steps().len() == entries@.len(),
            forall|i: int|
                0 <= i < entries@.len() ==> step_matches(
                    #[trigger] r.steps()[i],
                    source_dir@,
                    dest_dir@,
                    entries@[i],
                ),
    {
        let steps = plan_level(source_dir, dest_dir, entries);
        let r = LevelWalk { steps, position: 0, queued: 0, entries: Ghost(entries@) };
        assert forall|i: int| 0 <= i < r.steps@.len() implies (#[trigger] r.steps@[i] is Descend
            <==> r.entries@[i].is_dir) by {
            assert(step_matches(r.steps@[i], source_dir@, dest_dir@, entries@[i]));
        }
        r
    }

    /// The next step, or `None` once every child was handed out: the queue
    /// is then closed and the level waits for its counter to drain. A file
    /// step is counted as queued.
    pub fn next_step(&mut self) -> (r: Option<LevelStep>)
        requires
            old(self).wf(),
        ensures
            final(self).wf(),
            final(self).steps() == old(self).steps(),
            final(self).entries() == old(self).entries(),
            old(self).position() < old(self).steps().len() ==> r is Some && same_step(
                r->Some_0,
                old(self).steps()[old(self).position() as int],
            ) && final(self).position() == old(self).position() + 1,
            old(self).position() == old(self).steps().len() ==> r is None && final(self).position()
                == old(self).position(),
            final(self).queued() == files_in(final(self).entries(), final(self).position() as int),
    {
        if self.position < self.steps.len() {
            let s = match &self.steps[self.position] {
                LevelStep::Descend(w) => LevelStep::Descend(copy_item(w)),
                LevelStep::Enqueue(w) => {
                    proof {
                        lemma_files_in_bounded(self.entries@, self.position as int);
                    }
                    self.queued = self.queued + 1;
                    LevelStep::Enqueue(copy_item(w))
                },
            };
            self.position = self.position + 1;
            Some(s)
        } else {
            None
        }
    }

    /// Whether every child was handed out.
    pub fn is_closed(&self) -> (r: bool)
        requires
            self.wf(),
        ensures
            r == (self.position() == self.steps().len()),
    {
        self.position == self.steps.len()
    }

    /// The number of files queued so far.
    pub fn queued_count(&self) -> (r: usize)
        ensures
            r as nat == self.queued(),
    {
        self.queued
    }
}

/// Two steps of the same kind with the same paths.
pub open spec fn same_step(a: LevelStep, b: LevelStep) -> bool {
    &&& (a is Descend <==> b is Descend)
    &&& a.item().source@ == b.item().source@
    &&& a.item().destination@ == b.item().destination@
}

/// A copy of a work item with the same paths.
pub fn copy_item(w: &WorkItem) -> (r: WorkItem)
    ensures
        r.source@ == w.source@,
        r.destination@ == w.destination@,
{
    WorkItem { source: w.source.clone(), destination: w.destination.clone() }
}

proof fn lemma_files_in_bounded(entries: Seq<DirEntry>, n: int)
    requires
        0 <= n <= entries.len(),
    ensures
        files_in(entries, n) <= n,
    decreases n,
{
    if n > 0 {
        lemma_files_in_bounded(entries, n - 1);
    }
}

/// Joining one directory with two relative names gives two different paths
/// when the names differ.
pub proof fn lemma_join_injective(dir: Seq<char>, a: Seq<char>, b: Seq<char>)
    requires
        a.len() == 0 || a[0] != '/',
        b.len() == 0 || b[0] != '/',
        joined(dir, a) == joined(dir, b),
    ensures
        a == b,
{
    let p = if dir.len() == 0 || dir.last() == '/' {
        dir
    } else {
        dir + seq!['/']
    };
    assert(joined(dir, a) == p + a);
    assert(joined(dir, b) == p + b);
    assert((p + a).subrange(p.len() as int, (p + a).len() as int) =~= a);
    assert((p + b).subrange(p.len() as int, (p + b).len() as int) =~= b);
}

/// A directory level is complete: once every child was handed out and the
/// workers have counted out every file that was counted in, the pending count
/// is exactly zero, every file child was queued exactly once at its mirrored
/// destination, and every subdirectory was descended into at its mirrored
/// destination.
pub proof fn lemma_level_complete(
    source_dir: Seq<char>,
    dest_dir: Seq<char>,
    walk: LevelWalk,
    counter: PendingCounter,
)
    requires
        walk.wf(),
        counter.wf(),
        forall|i: int|
            0 <= i < walk.entries().len() ==> step_matches(
                #[trigger] walk.steps()[i],
                source_dir,
                dest_dir,
                walk.entries()[i],
            ),
        walk.position() == walk.steps().len(),
        counter.added() == walk.queued(),
        counter.removed() == counter.added(),
    ensures
        counter.value() == 0,
        walk.queued() == files_in(walk.entries(), walk.entries().len() as int),
        forall|i: int|
            0 <= i < walk.entries().len() ==> (#[trigger] walk.steps()[i] is Enqueue
                <==> !walk.entries()[i].is_dir) && walk.steps()[i].item().destination@ == joined(
                dest_dir,
                walk.entries()[i].name@,
            ) && walk.steps()[i].item().source@ == joined(source_dir, walk.entries()[i].name@),
{
}

/// Copying a level with any number of workers gives the same result: when the
/// listed names are distinct relative names, the queued items have pairwise
/// distinct sources and destinations, so no two workers touch the same file
/// and the order in which they take items does not matter.
pub proof fn lemma_items_independent(
    source_dir: Seq<char>,
    dest_dir: Seq<char>,
    entries: Seq<DirEntry>,
    steps: Seq<LevelStep>,
)
    requires
        steps.len() == entries.len(),
        forall|i: int|
            0 <= i < entries.len() ==> step_matches(#[trigger] steps[i], source_dir, dest_dir, entries[i]),
        forall|i: int|
            0 <= i < entries.len() ==> (#[trigger] entries[i]).name@.len() == 0
                || entries[i].name@[0] != '/',
        forall|i: int, j: int|
            0 <= i < j < entries.len() ==> (#[trigger] entries[i]).name@ != (#[trigger] entries[j]).name@,
    ensures
        forall|i: int, j: int|
            0 <= i < j < steps.len() ==> (#[trigger] steps[i]).item().destination@ != (
            #[trigger] steps[j]).item().destination@ && steps[i].item().source@
                != steps[j].item().source@,
{
    assert forall|i: int, j: int| 0 <= i < j < steps.len() implies (#[trigger] steps[i]).item().destination@
        != (#[trigger] steps[j]).item().destination@ && steps[i].item().source@
        != steps[j].item().source@ by {
        assert(step_matches(steps[i], source_dir, dest_dir, entries[i]));
        assert(step_matches(steps[j], source_dir, dest_dir, entries[j]));
        assert(entries[i].name@.len() == 0 || entries[i].name@[0] != '/');
        assert(entries[j].name@.len() == 0 || entries[j].name@[0] != '/');
        if steps[i].item().destination@ == steps[j].item().destination@ {
            lemma_join_injective(dest_dir, entries[i].name@, entries[j].name@);
        }
        if steps[i].item().source@ == steps[j].item().source@ {
            lemma_join_injective(source_dir, entries[i].name@, entries[j].name@);
        }
    }
}

} // verus!
