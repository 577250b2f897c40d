//! Process lifecycle supervision: the handle state machine
//! `Starting -> Running -> {Exited | Killed | Failed}` and the registry of
//! active handles. The OS work of spawning, killing and waiting happens
//! outside the library; the handle consumes the observed events and keeps
//! the state consistent.

use vstd::prelude::*;
use crate::auth::Account;
use crate::error::LauncherError;
use crate::layout::{get_crash_reports_dir, get_log_path};
use crate::maven::spec_under;

verus! {

/// Status of a supervised process.
#[derive(Debug, Clone, PartialEq, Eq)]
pub enum ProcessStatus {
    /// The process is starting up.
    Starting,
    /// The process is running.
    Running,
    /// The process has exited with the given code.
    Exited(i32),
    /// The process was killed.
    Killed,
    /// The process failed to start or could not be observed.
    Failed(String),
}

/// The mathematical content of a process status.
pub ghost enum ProcessStatusView {
    /// Starting up.
    Starting,
    /// Running.
    Running,
    /// Exited with a code.
    Exited(int),
    /// Killed.
    Killed,
    /// Failed, with the reason.
    Failed(Seq<char>),
}

impl View for ProcessStatus {
    type V = ProcessStatusView;

    open spec fn view(&self) -> ProcessStatusView {
        match self {
            ProcessStatus::Starting => ProcessStatusView::Starting,
            ProcessStatus::Running => ProcessStatusView::Running,
            ProcessStatus::Exited(c) => ProcessStatusView::Exited(*c as int),
            ProcessStatus::Killed => ProcessStatusView::Killed,
            ProcessStatus::Failed(m) => ProcessStatusView::Failed(m@),
        }
    }
}

/// A status from which the process will never run again.
pub open spec fn is_terminal(s: ProcessStatusView) -> bool {
    s is Exited || s is Killed || s is Failed
}

/// The observed way a tracked-child process came to an end.
#[derive(Debug, Clone)]
pub enum ExitOutcome {
    /// The process exited; the code is 0 on a clean exit, the exit code
    /// otherwise, or -1 when the system reports none.
    Exited(i32),
    /// Waiting for the process failed, with the reason.
    WaitFailed(String),
}

/// The status that recording an exit outcome produces.
pub open spec fn status_of_outcome(o: ExitOutcome) -> ProcessStatusView {
    match o {
        ExitOutcome::Exited(c) => ProcessStatusView::Exited(c as int),
        ExitOutcome::WaitFailed(m) => ProcessStatusView::Failed(m@),
    }
}

/// A supervised process handle: the command that was launched, the account
/// snapshot, the state machine, and whether an OS child is still held.
#[derive(Debug)]
pub struct MinecraftProcess {
    /// Java executable that was launched.
    pub java_path: String,
    /// Arguments the process was launched with.
    pub args: Vec<String>,
    /// Working directory of the process.
    pub working_dir: String,
    /// Read-only account snapshot used for this launch.
    pub account: Account,
    /// Current status.
    pub status: ProcessStatus,
    /// OS process id, while one is known.
    pub pid: Option<u32>,
    /// Whether an OS child is still held by this handle.
    pub has_child: bool,
}

impl MinecraftProcess {
    /// A fresh handle for a process about to be spawned: status Starting,
    /// no pid, no held child.
    pub fn new(java_path: String, args: Vec<String>, working_dir: String, account: Account) -> (r:
        Self)
        ensures
            r.java_path == java_path,
            r.args == args,
            r.working_dir == working_dir,
            r.account == account,
            r.status@ is Starting,
            r.pid is None,
            r.has_child == false,
    {
        MinecraftProcess {
            java_path,
            args,
            working_dir,
            account,
            status: ProcessStatus::Starting,
            pid: None,
            has_child: false,
        }
    }

    /// Record a successful spawn: the handle transitions to Running and
    /// tracks the child under the given pid.
    pub fn on_spawned(&mut self, pid: u32)
        ensures
            final(self).status@ is Running,
            final(self).pid == Some(pid),
            final(self).has_child == true,
            final(self).java_path == old(self).java_path,
            final(self).args == old(self).args,
            final(self).working_dir == old(self).working_dir,
            final(self).account == old(self).account,
    {
        self.status = ProcessStatus::Running;
        self.pid = Some(pid);
        self.has_child = true;
    }

    /// Record a failed spawn: the handle transitions to Failed with the
    /// reason and tracks nothing.
    pub fn on_spawn_failed(&mut self, reason: String)
        ensures
            final(self).status@ == ProcessStatusView::Failed(reason@),
            final(self).pid is None,
            final(self).has_child == false,
            final(self).java_path == old(self).java_path,
            final(self).args == old(self).args,
            final(self).working_dir == old(self).working_dir,
            final(self).account == old(self).account,
    {
        self.status = ProcessStatus::Failed(reason);
        self.pid = None;
        self.has_child = false;
    }

    /// Record a kill: with no held process this is a "no process" error
    /// and the handle is unchanged; otherwise the observed outcome is
    /// recorded, the pid is cleared, and the resulting status is terminal.
    pub fn kill_with(&mut self, outcome: ExitOutcome) -> (r: Result<(), LauncherError>)
        ensures
            old(self).has_child == false ==> (r matches Err(e) && (e matches
                LauncherError::Launch(m) && m@ == "No process to kill"@)) && *final(self)
                == *old(self),
            old(self).has_child == true ==> r is Ok && final(self).status@ == status_of_outcome(
                outcome,
            ) && is_terminal(final(self).status@) && final(self).pid is None
                && final(self).has_child == false,
            final(self).java_path == old(self).java_path,
            final(self).args == old(self).args,
            final(self).working_dir == old(self).working_dir,
            final(self).account == old(self).account,
    {
        if !self.has_child {
            return Err(LauncherError::process(String::from_str("No process to kill")));
        }
        match outcome {
            ExitOutcome::Exited(code) => {
                self.status = ProcessStatus::Exited(code);
            },
            ExitOutcome::WaitFailed(reason) => {
                self.status = ProcessStatus::Failed(reason);
            },
        }
        self.pid = None;
        self.has_child = false;
        Ok(())
    }

    /// Record a natural termination observed by a wait: with no held
    /// process this is a "no process" error; an observed exit is recorded
    /// and returned; a failed wait records Failed and surfaces the error.
    pub fn wait_with(&mut self, outcome: ExitOutcome) -> (r: Result<
        ProcessStatus,
        LauncherError,
    >)
        ensures
            old(self).has_child == false ==> (r matches Err(e) && (e matches
                LauncherError::Launch(m) && m@ == "No process to wait for"@))
                && *final(self) == *old(self),
            old(self).has_child == true ==> final(self).status@ == status_of_outcome(outcome)
                && is_terminal(final(self).status@) && final(self).has_child == false && match r {
                Ok(s) => outcome is Exited && s@ == status_of_outcome(outcome),
                Err(e) => outcome is WaitFailed && e is Launch,
            },
            final(self).pid == old(self).pid,
            final(self).java_path == old(self).java_path,
            final(self).args == old(self).args,
            final(self).working_dir == old(self).working_dir,
            final(self).account == old(self).account,
    {
        if !self.has_child {
            return Err(LauncherError::process(String::from_str("No process to wait for")));
        }
        self.has_child = false;
        match outcome {
            ExitOutcome::Exited(code) => {
                self.status = ProcessStatus::Exited(code);
                Ok(ProcessStatus::Exited(code))
            },
            ExitOutcome::WaitFailed(reason) => {
                let mut msg = String::from_str("Failed to wait for process: ");
                msg.append(reason.as_str());
                self.status = ProcessStatus::Failed(reason);
                Err(LauncherError::process(msg))
            },
        }
    }

    /// The has_child process id, or a "not started" error when none is known.
    pub fn get_pid(&self) -> (r: Result<u32, LauncherError>)
        ensures
            match r {
                Ok(p) => self.pid == Some(p),
                Err(e) => self.pid is None && (e matches LauncherError::Launch(m) && m@
                    == "Process not started"@),
            },
    {
        match self.pid {
            Some(p) => Ok(p),
            None => Err(LauncherError::process(String::from_str("Process not started"))),
        }
    }

    /// A snapshot of the current status.
    pub fn get_status(&self) -> (r: ProcessStatus)
        ensures
            r@ == self.status@,
    {
        match &self.status {
            ProcessStatus::Starting => ProcessStatus::Starting,
            ProcessStatus::Running => ProcessStatus::Running,
            ProcessStatus::Exited(c) => ProcessStatus::Exited(*c),
            ProcessStatus::Killed => ProcessStatus::Killed,
            ProcessStatus::Failed(m) => ProcessStatus::Failed(crate::text::clone_string(m)),
        }
    }

    /// Whether an OS child is still held.
    pub fn is_running(&self) -> (r: bool)
        ensures
            r == self.has_child,
    {
        self.has_child
    }

    /// The account snapshot of this launch.
    pub fn get_account(&self) -> (r: &Account)
        ensures
            r == self.account,
    {
        &self.account
    }

    /// The working directory of the process.
    pub fn get_working_dir(&self) -> (r: &String)
        ensures
            r == self.working_dir,
    {
        &self.working_dir
    }

    /// The log file path of this instance: `logs/latest.log` under the
    /// working directory.
    pub fn get_log_path(&self) -> (r: String)
        ensures
            r@ == spec_under(spec_under(self.working_dir@, "logs"@), "latest.log"@),
    {
        get_log_path(self.working_dir.as_str())
    }

    /// The crash-reports directory of this instance.
    pub fn get_crash_reports_dir(&self) -> (r: String)
        ensures
            r@ == spec_under(self.working_dir@, "crash-reports"@),
    {
        get_crash_reports_dir(self.working_dir.as_str())
    }
}

/// An argument as it may be logged: one that carries an access token is
/// cut to its first twenty characters and marked redacted; any other
/// argument is kept whole.
pub open spec fn spec_redacted(arg: Seq<char>) -> Seq<char> {
    if crate::text::spec_contains(arg, "accessToken"@) || crate::text::spec_contains(
        arg,
        "access_token"@,
    ) {
        arg.subrange(0, if arg.len() < 20 { arg.len() as int } else { 20 })
            + "...***REDACTED***"@
    } else {
        arg
    }
}

/// The launch arguments with token-carrying values redacted, safe to log.
pub fn redact_sensitive_args(args: &Vec<String>) -> (r: Vec<String>)
    ensures
        r@.len() == args@.len(),
        forall|i: int| 0 <= i < args@.len() ==> r@[i]@ == spec_redacted(args@[i]@),
{
    let n = args.len();
    let mut r: Vec<String> = Vec::new();
    for i in 0..n
        invariant
            n == args@.len(),
            r@.len() == i,
            forall|j: int| 0 <= j < i ==> r@[j]@ == spec_redacted(args@[j]@),
    {
        let arg = args[i].as_str();
        if crate::text::contains_sub(arg, "accessToken") || crate::text::contains_sub(
            arg,
            "access_token",
        ) {
            let len = arg.unicode_len();
            let cut = if len < 20 {
                len
            } else {
                20
            };
            let mut red = String::from_str(arg.substring_char(0, cut));
            red.append("...***REDACTED***");
            r.push(red);
        } else {
            r.push(crate::text::clone_string(&args[i]));
        }
    }
    r
}

/// The occupied slot indices of a registry, from position `i` on.
pub open spec fn spec_ids_from(slots: Seq<Option<MinecraftProcess>>, i: int) -> Seq<int>
    decreases slots.len() - i,
{
    if i < 0 || i >= slots.len() {
        Seq::empty()
    } else {
        (if slots[i] is Some {
            seq![i]
        } else {
            Seq::<int>::empty()
        }) + spec_ids_from(slots, i + 1)
    }
}

/// An arena of process handles, indexed by the identifier that insertion
/// returned: insert on launch, remove on kill, lookup by id.
#[derive(Debug)]
pub struct ProcessRegistry {
    /// The slots; a removed handle leaves its slot empty.
    pub slots: Vec<Option<MinecraftProcess>>,
}

impl ProcessRegistry {
    /// An empty registry.
    pub fn new() -> (r: Self)
        ensures
            r.slots@.len() == 0,
    {
        ProcessRegistry { slots: Vec::new() }
    }

    /// Insert a handle and return its identifier.
    pub fn insert(&mut self, p: MinecraftProcess) -> (id: usize)
        ensures
            final(self).slots@ == old(self).slots@.push(Some(p)),
            id == old(self).slots@.len(),
    {
        let id = self.slots.len();
        self.slots.push(Some(p));
        id
    }

    /// Remove and return the handle of an identifier; an unknown or
    /// already-removed identifier yields nothing and changes nothing.
    pub fn remove(&mut self, id: usize) -> (r: Option<MinecraftProcess>)
        ensures
            id < old(self).slots@.len() && old(self).slots@[id as int] is Some ==> r == old(
                self,
            ).slots@[id as int] && final(self).slots@ == old(self).slots@.update(id as int, None),
            !(id < old(self).slots@.len() && old(self).slots@[id as int] is Some) ==> r is None
                && *final(self) == *old(self),
    {
        if id < self.slots.len() {
            if self.slots[id].is_some() {
                let mut taken: Option<MinecraftProcess> = None;
                core::mem::swap(&mut self.slots[id], &mut taken);
                return taken;
            }
            return None;
        }
        None
    }

    /// The handle of an identifier, while it is present.
    pub fn get(&self, id: usize) -> (r: Option<&MinecraftProcess>)
        ensures
            match r {
                Some(p) => id < self.slots@.len() && self.slots@[id as int] == Some(*p),
                None => !(id < self.slots@.len() && self.slots@[id as int] is Some),
            },
    {
        if id < self.slots.len() {
            match &self.slots[id] {
                Some(p) => Some(p),
                None => None,
            }
        } else {
            None
        }
    }

    /// The identifiers of the present handles, in insertion order.
    pub fn ids(&self) -> (r: Vec<usize>)
        ensures
            r@.map_values(|x: usize| x as int) == spec_ids_from(self.slots@, 0),
    {
        let n = self.slots.len();
        let mut r: Vec<usize> = Vec::new();
        assert(r@.map_values(|x: usize| x as int) =~= Seq::<int>::empty());
        for i in 0..n
            invariant
                n == self.slots@.len(),
                r@.map_values(|x: usize| x as int) + spec_ids_from(self.slots@, i as int)
                    =~= spec_ids_from(self.slots@, 0),
        {
            if self.slots[i].is_some() {
                let ghost pre = r@.map_values(|x: usize| x as int);
                r.push(i);
                assert(r@.map_values(|x: usize| x as int) =~= pre.push(i as int));
            }
        }
        assert(spec_ids_from(self.slots@, n as int) =~= Seq::<int>::empty());
        r
    }

    /// The number of slots ever used, present or not.
    pub fn capacity(&self) -> (r: usize)
        ensures
            r == self.slots@.len(),
    {
        self.slots.len()
    }
}

} // verus!
