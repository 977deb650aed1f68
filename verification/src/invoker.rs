//! One run of the tool under mutual exclusion. A tool that can wait for
//! other instances is run with its wait flag. An older tool is run while an
//! exclusive lock on [`LOCK_FILE`] is held, taken without blocking and
//! retried a bounded number of times.
//!
//! The types here say what to do next; the caller opens the file, tries the
//! lock, starts the process, and reports back.
use crate::failure::{Failure, FailureView};
use crate::iptables::IPTables;
use crate::outcome::{Outcome, OutcomeView};
use crate::pattern::texts;
use vstd::prelude::*;
use vstd::string::StringExecFns;

verus! {

/// The file whose lock serialises runs of a tool that cannot wait. It is
/// created if missing and never removed.
pub const LOCK_FILE: &'static str = "/var/run/xtables_old.lock";

/// The flag that makes the tool wait for other instances.
pub const WAIT_FLAG: &'static str = "--wait";

/// How often a contended lock is tried again: with the first try, one try
/// more than this.
pub const RETRIES: u8 = 10;

/// How runs of the tool are kept from overlapping.
#[derive(Debug, Clone, Copy, PartialEq, Eq)]
pub enum Exclusion {
    /// The tool waits for other instances itself.
    NativeWait,
    /// The caller holds the lock on [`LOCK_FILE`] while the tool runs.
    FileLock,
}

/// What came of one try to take the lock without blocking.
#[derive(Debug, Clone, Copy, PartialEq, Eq)]
pub enum Attempt {
    /// The lock is held now.
    Acquired,
    /// Another holder has it.
    Contended,
    /// The file could not be opened, or the lock failed for another reason.
    Failed,
}

/// A run that waits for the lock.
#[derive(Debug, PartialEq, Eq)]
pub struct Locking {
    args: Vec<String>,
    retries: u8,
}

/// A run whose process is to be started.
#[derive(Debug, PartialEq, Eq)]
pub struct Running {
    args: Vec<String>,
    locked: bool,
}

/// What a run needs next.
#[derive(Debug, PartialEq, Eq)]
pub enum Invocation {
    /// Try once to lock [`LOCK_FILE`] exclusively, without blocking, and
    /// report with [`Locking::attempted`].
    Lock(Locking),
    /// Start the tool with [`Running::command`] and report with
    /// [`Running::finished`].
    Spawn(Running),
    /// The run is over before the tool was started.
    Fail(Failure),
}

/// The end of a run.
#[derive(Debug, PartialEq, Eq)]
pub struct Finished {
    /// Whether the lock is held and has to be released before `result` is
    /// passed on.
    pub release: bool,
    /// The outcome of the process, or why there is none.
    pub result: Result<Outcome, Failure>,
}

/// A run waiting for the lock, as a mathematical value.
pub struct LockingView {
    pub args: Seq<Seq<char>>,
    pub retries: nat,
}

/// A run about to start its process, as a mathematical value.
pub struct RunningView {
    pub args: Seq<Seq<char>>,
    pub locked: bool,
}

/// What a run needs next, as a mathematical value.
pub enum InvocationView {
    Lock(LockingView),
    Spawn(RunningView),
    Fail(FailureView),
}

impl View for Locking {
    type V = LockingView;

    closed spec fn view(&self) -> LockingView {
        LockingView { args: texts(self.args@), retries: self.retries as nat }
    }
}

impl View for Running {
    type V = RunningView;

    closed spec fn view(&self) -> RunningView {
        RunningView { args: texts(self.args@), locked: self.locked }
    }
}

impl View for Invocation {
    type V = InvocationView;

    open spec fn view(&self) -> InvocationView {
        match *self {
            Invocation::Lock(l) => InvocationView::Lock(l@),
            Invocation::Spawn(r) => InvocationView::Spawn(r@),
            Invocation::Fail(e) => InvocationView::Fail(e@),
        }
    }
}

/// How a run with `args` starts: a tool that can wait is started at once
/// with the wait flag added; for another, the lock is asked for first.
pub open spec fn start(has_wait: bool, args: Seq<Seq<char>>) -> InvocationView {
    if has_wait {
        InvocationView::Spawn(RunningView { args: args.push(WAIT_FLAG@), locked: false })
    } else {
        InvocationView::Lock(LockingView { args, retries: RETRIES as nat })
    }
}

impl LockingView {
    /// What follows one try at the lock. Once it is held the tool is
    /// started, with the arguments as they are. A contended lock is tried
    /// again while tries are left; without one, and after any other
    /// failure, the run ends with a lock timeout.
    pub open spec fn after(self, attempt: Attempt) -> InvocationView {
        match attempt {
            Attempt::Acquired => InvocationView::Spawn(
                RunningView { args: self.args, locked: true },
            ),
            Attempt::Contended => if self.retries > 0 {
                InvocationView::Lock(
                    LockingView { args: self.args, retries: (self.retries - 1) as nat },
                )
            } else {
                InvocationView::Fail(FailureView::LockTimeout)
            },
            Attempt::Failed => InvocationView::Fail(FailureView::LockTimeout),
        }
    }
}

impl RunningView {
    /// The result of the run: the outcome of the process, or a spawn failure
    /// if it could not be started.
    pub open spec fn result(self, outcome: Option<OutcomeView>) -> Result<OutcomeView, FailureView> {
        match outcome {
            Some(o) => Ok(o),
            None => Err(FailureView::SpawnFailure),
        }
    }
}

/// The view of what came of starting the process.
pub open spec fn spawned(outcome: Option<Outcome>) -> Option<OutcomeView> {
    match outcome {
        Some(o) => Some(o@),
        None => None,
    }
}

/// The view of a run's result.
pub open spec fn result_view(result: Result<Outcome, Failure>) -> Result<OutcomeView, FailureView> {
    match result {
        Ok(o) => Ok(o@),
        Err(e) => Err(e@),
    }
}

fn copy_of(words: &Vec<String>) -> (r: Vec<String>)
    ensures
        texts(r@) == texts(words@),
{
    let mut r: Vec<String> = Vec::new();
    let mut i: usize = 0;
    while i < words.len()
        invariant
            i <= words.len(),
            r.len() == i,
            forall|k: int| 0 <= k < i ==> (#[trigger] r@[k])@ == words@[k]@,
        decreases words.len() - i,
    {
        r.push(words[i].clone());
        i += 1;
    }
    assert(texts(r@) =~= texts(words@));
    r
}

impl IPTables {
    /// How this handle keeps runs from overlapping: by the tool's own
    /// waiting where the tool has it, else by the lock file.
    pub fn exclusion(&self) -> (e: Exclusion)
        ensures
            e == if self.has_wait {
                Exclusion::NativeWait
            } else {
                Exclusion::FileLock
            },
    {
        if self.has_wait {
            Exclusion::NativeWait
        } else {
            Exclusion::FileLock
        }
    }

    /// Begins one run of the tool with `args`.
    pub fn run(&self, args: &Vec<String>) -> (next: Invocation)
        ensures
            next@ == start(self.has_wait, texts(args@)),
    {
        let mut args = copy_of(args);
        match self.exclusion() {
            Exclusion::NativeWait => {
                let ghost before = texts(args@);
                args.push(String::from_str(WAIT_FLAG));
                assert(texts(args@) =~= before.push(WAIT_FLAG@));
                Invocation::Spawn(Running { args, locked: false })
            },
            Exclusion::FileLock => Invocation::Lock(Locking { args, retries: RETRIES }),
        }
    }
}

impl Locking {
    /// The file to lock.
    pub fn file(&self) -> (path: &'static str)
        ensures
            path@ == LOCK_FILE@,
    {
        LOCK_FILE
    }

    /// How many more times a contended lock will be tried after the try
    /// that is due.
    pub fn retries(&self) -> (n: u8)
        ensures
            n == self@.retries,
    {
        self.retries
    }

    /// Takes the result of one try at the lock and says what follows.
    pub fn attempted(self, attempt: Attempt) -> (next: Invocation)
        ensures
            next@ == self@.after(attempt),
    {
        match attempt {
            Attempt::Acquired => Invocation::Spawn(Running { args: self.args, locked: true }),
            Attempt::Contended => if self.retries > 0 {
                Invocation::Lock(Locking { args: self.args, retries: self.retries - 1 })
            } else {
                Invocation::Fail(Failure::LockTimeout)
            },
            Attempt::Failed => Invocation::Fail(Failure::LockTimeout),
        }
    }
}

impl Running {
    /// The arguments to start the tool with.
    pub fn command(&self) -> (args: &Vec<String>)
        ensures
            texts(args@) == self@.args,
    {
        &self.args
    }

    /// Whether the lock is held for this run.
    pub fn locked(&self) -> (b: bool)
        ensures
            b == self@.locked,
    {
        self.locked
    }

    /// Ends the run with what came of starting the tool: its outcome, or
    /// `None` if it could not be started. Either way a lock that is held is
    /// to be released.
    pub fn finished(self, outcome: Option<Outcome>) -> (end: Finished)
        ensures
            end.release == self@.locked,
            result_view(end.result) == self@.result(spawned(outcome)),
    {
        let result = match outcome {
            Some(o) => Ok(o),
            None => Err(Failure::SpawnFailure),
        };
        Finished { release: self.locked, result }
    }
}

} // verus!
