use vstd::prelude::*;

use crate::container::Container;

verus! {

/// The shell that runs a container's command.
pub open spec fn shell() -> Seq<char> {
    "/bin/sh"@
}

/// The search path handed to the command.
pub open spec fn path_env() -> Seq<char> {
    "PATH=/bin/:/usr/bin/:/usr/local/bin:/sbin:/usr/sbin"@
}

/// The environment variable that fixes the command's locale.
pub open spec fn locale_env() -> Seq<char> {
    "LC_ALL=C"@
}

/// What the child process executes: a program, its argument vector and its
/// whole environment.
#[derive(Debug)]
pub struct ExecSpec {
    pub program: String,
    pub argv: Vec<String>,
    pub env: Vec<String>,
}

#[derive(Debug, Clone, Copy, PartialEq, Eq, Structural)]
pub enum ExecError {
    /// The command holds a NUL character, which no exec argument can carry.
    NulInCommand,
}

/// How the child changed state, as reported by a wait.
#[derive(Debug, Clone, Copy, PartialEq, Eq, Structural)]
pub enum ChildStatus {
    Exited { code: i32 },
    Signaled { signal: i32 },
    Stopped { signal: i32 },
    Traced,
    Continued,
    StillAlive,
}

/// How the supervisor reads the child's end.
#[derive(Debug, Clone, Copy, PartialEq, Eq, Structural)]
pub enum Termination {
    /// The child exited with this status code.
    Exited { code: i32 },
    /// The child was killed by this signal.
    Signaled { signal: i32 },
    /// The child changed state without ending (stopped, traced, continued).
    Unexpected,
}

/// Sorts a wait result: an exit or a signal ends the child; anything else is
/// unexpected but leaves the supervisor running.
pub fn classify(status: ChildStatus) -> (t: Termination)
    ensures
        match status {
            ChildStatus::Exited { code } => t == Termination::Exited { code },
            ChildStatus::Signaled { signal } => t == Termination::Signaled { signal },
            _ => t == Termination::Unexpected,
        },
{
    match status {
        ChildStatus::Exited { code } => Termination::Exited { code },
        ChildStatus::Signaled { signal } => Termination::Signaled { signal },
        _ => Termination::Unexpected,
    }
}

/// A fatal failure of supervision; the process must stop with a message.
#[derive(Debug, Clone, Copy, PartialEq, Eq, Structural)]
pub enum Fault {
    ForkFailed,
    WaitFailed,
    MountFailed,
    ExecFailed,
    /// An event that cannot happen in the current phase.
    OutOfOrder,
}

/// Where a supervised run stands.
#[derive(Debug, Clone, Copy, PartialEq, Eq, Structural)]
pub enum Phase {
    /// Prepared, not forked yet.
    Ready,
    /// Parent side: waiting for `child`.
    Supervising { child: i32 },
    /// Child side: creating the `proc` directory.
    MakingProcDir,
    /// Child side: mounting procfs.
    MountingProc,
    /// Child side: replacing itself with the command.
    Executing,
    /// Parent side: the child ended or changed state as given.
    Finished { end: Termination },
    /// Supervision stopped on a fatal failure.
    Failed { fault: Fault },
}

/// What the host reports back after performing an action.
#[derive(Debug, Clone, Copy, PartialEq, Eq, Structural)]
pub enum Event {
    ForkedParent { child: i32 },
    ForkedChild,
    ForkFailed,
    Waited { status: ChildStatus },
    WaitFailed,
    ProcDirMade,
    /// Creating the `proc` directory failed (this is tolerated).
    ProcDirFailed,
    ProcMounted,
    MountFailed,
    ExecFailed,
}

/// What the host does next.
#[derive(Debug, Clone, Copy, PartialEq, Eq, Structural)]
pub enum Action {
    Wait { child: i32 },
    MakeProcDir,
    MountProc,
    Exec,
    /// Report how the child ended; supervision is over.
    Report { end: Termination },
    /// Stop the process with a message naming the fault.
    Abort { fault: Fault },
}

/// The supervisor's decision on `event` in `phase`: the next phase and action.
/// The parent waits on the child it forked and reports how it ended; the child
/// creates `proc` (a failure there is tolerated), mounts procfs and executes
/// the command. A failed fork, wait, mount or exec is fatal, as is any event
/// that the phase does not expect.
pub fn supervise(phase: Phase, event: Event) -> (r: (Phase, Action))
    ensures
        match (phase, event) {
            (Phase::Ready, Event::ForkedParent { child }) => r == (Phase::Supervising { child }, Action::Wait { child }),
            (Phase::Ready, Event::ForkedChild) => r == (Phase::MakingProcDir, Action::MakeProcDir),
            (Phase::Ready, Event::ForkFailed) => r == (Phase::Failed { fault: Fault::ForkFailed }, Action::Abort { fault: Fault::ForkFailed }),
            (Phase::Supervising { .. }, Event::Waited { status }) => exists|end: Termination|
                r == (Phase::Finished { end }, Action::Report { end }) && match status {
                    ChildStatus::Exited { code } => end == Termination::Exited { code },
                    ChildStatus::Signaled { signal } => end == Termination::Signaled { signal },
                    _ => end == Termination::Unexpected,
                },
            (Phase::Supervising { .. }, Event::WaitFailed) => r == (Phase::Failed { fault: Fault::WaitFailed }, Action::Abort { fault: Fault::WaitFailed }),
            (Phase::MakingProcDir, Event::ProcDirMade) => r == (Phase::MountingProc, Action::MountProc),
            (Phase::MakingProcDir, Event::ProcDirFailed) => r == (Phase::MountingProc, Action::MountProc),
            (Phase::MountingProc, Event::ProcMounted) => r == (Phase::Executing, Action::Exec),
            (Phase::MountingProc, Event::MountFailed) => r == (Phase::Failed { fault: Fault::MountFailed }, Action::Abort { fault: Fault::MountFailed }),
            (Phase::Executing, Event::ExecFailed) => r == (Phase::Failed { fault: Fault::ExecFailed }, Action::Abort { fault: Fault::ExecFailed }),
            _ => r == (Phase::Failed { fault: Fault::OutOfOrder }, Action::Abort { fault: Fault::OutOfOrder }),
        },
{
    match (phase, event) {
        (Phase::Ready, Event::ForkedParent { child }) => (Phase::Supervising { child }, Action::Wait { child }),
        (Phase::Ready, Event::ForkedChild) => (Phase::MakingProcDir, Action::MakeProcDir),
        (Phase::Ready, Event::ForkFailed) => (Phase::Failed { fault: Fault::ForkFailed }, Action::Abort { fault: Fault::ForkFailed }),
        (Phase::Supervising { .. }, Event::Waited { status }) => {
            let end = classify(status);
            (Phase::Finished { end }, Action::Report { end })
        },
        (Phase::Supervising { .. }, Event::WaitFailed) => (Phase::Failed { fault: Fault::WaitFailed }, Action::Abort { fault: Fault::WaitFailed }),
        (Phase::MakingProcDir, Event::ProcDirMade) => (Phase::MountingProc, Action::MountProc),
        (Phase::MakingProcDir, Event::ProcDirFailed) => (Phase::MountingProc, Action::MountProc),
        (Phase::MountingProc, Event::ProcMounted) => (Phase::Executing, Action::Exec),
        (Phase::MountingProc, Event::MountFailed) => (Phase::Failed { fault: Fault::MountFailed }, Action::Abort { fault: Fault::MountFailed }),
        (Phase::Executing, Event::ExecFailed) => (Phase::Failed { fault: Fault::ExecFailed }, Action::Abort { fault: Fault::ExecFailed }),
        _ => (Phase::Failed { fault: Fault::OutOfOrder }, Action::Abort { fault: Fault::OutOfOrder }),
    }
}

fn has_nul(s: &str) -> (r: bool)
    ensures
        r == s@.contains('\0'),
{
    let n = s.unicode_len();
    let mut i: usize = 0;
    while i < n
        invariant
            i <= n,
            n == s@.len(),
            forall|k: int| 0 <= k < i ==> s@[k] != '\0',
        decreases n - i,
    {
        if s.get_char(i) == '\0' {
            return true;
        }
        i = i + 1;
    }
    false
}

impl Container {
    /// The exec of the child: the shell, given the whole command as the single
    /// argument after `-c`, with only the locale and search path in its
    /// environment.
    pub fn exec_spec(&self) -> (r: Result<ExecSpec, ExecError>)
        ensures
            match r {
                Ok(e) => !self.command@.contains('\0') && e.program@ == shell() && e.argv@.len() == 3
                    && e.argv@[0]@ == shell() && e.argv@[1]@ == "-c"@ && e.argv@[2]@
                    == self.command@ && e.env@.len() == 2 && e.env@[0]@ == locale_env()
                    && e.env@[1]@ == path_env(),
                Err(err) => err == ExecError::NulInCommand && self.command@.contains('\0'),
            },
    {
        if has_nul(self.command.as_str()) {
            return Err(ExecError::NulInCommand);
        }
        let mut argv: Vec<String> = Vec::new();
        argv.push("/bin/sh".to_owned());
        argv.push("-c".to_owned());
        argv.push(self.command.clone());
        let mut env: Vec<String> = Vec::new();
        env.push("LC_ALL=C".to_owned());
        env.push("PATH=/bin/:/usr/bin/:/usr/local/bin:/sbin:/usr/sbin".to_owned());
        Ok(ExecSpec { program: "/bin/sh".to_owned(), argv, env })
    }
}

} // verus!
