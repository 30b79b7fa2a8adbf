//! The vocabulary that the launcher and its driver share: what the driver is
//! asked to do, what it reports back, and how far a stage has come.
use crate::namespaces::NamespaceSet;
use vstd::prelude::*;

verus! {

/// What the driver reports after it has carried out an action.
#[derive(Debug, Clone, Copy, PartialEq, Eq, Structural)]
pub enum Outcome {
    /// The action succeeded.
    Done,
    /// The action failed. After `Action::Exec` this is the only report there
    /// can be: a successful image replacement does not return.
    Failed,
    /// Answer to `Action::Probe`: the path exists.
    Present,
    /// Answer to `Action::Probe`: the path does not exist.
    Absent,
    /// Answer to `Action::Wait`: the child terminated with this exit code.
    Exited(i32),
    /// Answer to `Action::Wait`: the child terminated without an exit code,
    /// as one that a signal killed.
    Signaled,
}

/// The step at which a stage gave up.
#[derive(Debug, Clone, Copy, PartialEq, Eq, Structural)]
pub enum Fault {
    /// The request for new namespaces was refused.
    Namespaces,
    /// The next stage could not be created.
    Spawn,
    /// The next stage could not be waited for.
    Wait,
    /// The host name could not be set.
    Hostname,
    /// The root directory could not be changed.
    ChangeRoot,
    /// The working directory could not be changed to the new root.
    ChangeDir,
    /// `/proc` was missing under the new root and could not be created.
    CreateProcDir,
    /// The `proc` filesystem could not be mounted.
    MountProc,
    /// The image could not be replaced by the command.
    Exec,
    /// The driver resumed a stage where that stage cannot be, or with a report
    /// that the pending action cannot have.
    Protocol,
}

/// How far a stage has come: the action it is waiting for.
#[derive(Debug, Clone, Copy, PartialEq, Eq, Structural)]
pub enum Progress {
    /// Nothing has been asked for yet.
    Entry,
    /// Between fork and image load: new namespaces are being requested.
    Unsharing,
    /// Host and relay: the next stage is being created.
    Spawning,
    /// Host and relay: the next stage runs and is waited for.
    Waiting,
    /// Init: the host name is being set.
    NamingHost,
    /// Init: the root directory is being changed.
    ChangingRoot,
    /// Init: the working directory is being changed to the new root.
    ChangingDir,
    /// Init: `/proc` is being looked for under the new root.
    ProbingProc,
    /// Init: `/proc` is being created.
    CreatingProc,
    /// Init: the `proc` filesystem is being mounted.
    MountingProc,
    /// Init: the image is being replaced by the command.
    Replacing,
    /// The stage has asked to exit. Nothing follows.
    Finished,
}

/// What the driver is asked to do next.
#[derive(Debug, Clone, PartialEq, Eq)]
pub enum Action {
    /// Create a child that runs `program` with `args`. After the fork and
    /// before `program` is loaded, the child goes through the namespace hook
    /// with `unshare`.
    Spawn { program: String, args: Vec<String>, unshare: NamespaceSet },
    /// Block until the child that was spawned terminates.
    Wait,
    /// Leave the namespaces of the kinds in `namespaces` for new ones, all in
    /// one call.
    Unshare { namespaces: NamespaceSet },
    /// Set the host name of the UTS namespace the process is in.
    SetHostname { name: String },
    /// Make `path` the root directory of the process.
    ChangeRoot { path: String },
    /// Make `path` the working directory of the process.
    ChangeDir { path: String },
    /// Find out whether `path` exists.
    Probe { path: String },
    /// Create the directory `path`, with the parents it lacks.
    CreateDir { path: String },
    /// Mount a filesystem of type `fstype` from `source` on `target`, with the
    /// mount flags `flags` and the filesystem's own options `data`.
    Mount { source: String, target: String, fstype: String, flags: u64, data: Option<String> },
    /// Replace the process image by `command`, keeping process identifier,
    /// open files and environment.
    Exec { command: String },
    /// Terminate with `code`; `fault` is the reason where the stage itself
    /// failed, and `None` where it passes on how its child ended.
    Exit { code: i32, fault: Option<Fault> },
}

/// An action with its texts as sequences of characters.
pub enum ActionView {
    Spawn { program: Seq<char>, args: Seq<Seq<char>>, unshare: NamespaceSet },
    Wait,
    Unshare { namespaces: NamespaceSet },
    SetHostname { name: Seq<char> },
    ChangeRoot { path: Seq<char> },
    ChangeDir { path: Seq<char> },
    Probe { path: Seq<char> },
    CreateDir { path: Seq<char> },
    Mount {
        source: Seq<char>,
        target: Seq<char>,
        fstype: Seq<char>,
        flags: u64,
        data: Option<Seq<char>>,
    },
    Exec { command: Seq<char> },
    Exit { code: i32, fault: Option<Fault> },
}

/// The texts of a list of arguments, in order.
pub open spec fn texts(args: Seq<String>) -> Seq<Seq<char>> {
    Seq::new(args.len(), |i: int| args[i]@)
}

impl View for Action {
    type V = ActionView;

    open spec fn view(&self) -> ActionView {
        match *self {
            Action::Spawn { program, args, unshare } => ActionView::Spawn {
                program: program@,
                args: texts(args@),
                unshare,
            },
            Action::Wait => ActionView::Wait,
            Action::Unshare { namespaces } => ActionView::Unshare { namespaces },
            Action::SetHostname { name } => ActionView::SetHostname { name: name@ },
            Action::ChangeRoot { path } => ActionView::ChangeRoot { path: path@ },
            Action::ChangeDir { path } => ActionView::ChangeDir { path: path@ },
            Action::Probe { path } => ActionView::Probe { path: path@ },
            Action::CreateDir { path } => ActionView::CreateDir { path: path@ },
            Action::Mount { source, target, fstype, flags, data } => ActionView::Mount {
                source: source@,
                target: target@,
                fstype: fstype@,
                flags,
                data: match data {
                    Some(text) => Some(text@),
                    None => None,
                },
            },
            Action::Exec { command } => ActionView::Exec { command: command@ },
            Action::Exit { code, fault } => ActionView::Exit { code, fault },
        }
    }
}

/// What one part of a stage answers when it is resumed.
#[derive(Debug, Clone, PartialEq, Eq)]
pub enum Step {
    /// Carry out `action`, then resume the part at `next`.
    Perform { next: Progress, action: Action },
    /// The part has done all it had to do.
    Complete,
    /// The part failed: the stage must exit.
    Fatal { fault: Fault },
}

/// A step with its action's texts as sequences of characters.
pub enum StepView {
    Perform { next: Progress, action: ActionView },
    Complete,
    Fatal { fault: Fault },
}

impl View for Step {
    type V = StepView;

    open spec fn view(&self) -> StepView {
        match *self {
            Step::Perform { next, action } => StepView::Perform { next, action: action@ },
            Step::Complete => StepView::Complete,
            Step::Fatal { fault } => StepView::Fatal { fault },
        }
    }
}

/// The exit status of a stage that failed.
pub const FAILURE: i32 = 1;

/// How a stage ends after a failure of its own: it exits with status 1 and
/// names the step that failed.
pub open spec fn give_up(fault: Fault) -> (Progress, ActionView) {
    (Progress::Finished, ActionView::Exit { code: FAILURE, fault: Some(fault) })
}

/// How a stage ends after a failure of its own.
pub fn abort(fault: Fault) -> (end: (Progress, Action))
    ensures
        (end.0, end.1@) == give_up(fault),
{
    (Progress::Finished, Action::Exit { code: FAILURE, fault: Some(fault) })
}

impl Fault {
    /// The diagnostic that names the failed step.
    pub open spec fn spec_message(self) -> Seq<char> {
        match self {
            Fault::Namespaces => "failed to unshare namespaces"@,
            Fault::Spawn => "failed to spawn child process"@,
            Fault::Wait => "failed to wait on child process"@,
            Fault::Hostname => "failed to set hostname"@,
            Fault::ChangeRoot => "failed to chroot"@,
            Fault::ChangeDir => "failed to change directory to /"@,
            Fault::CreateProcDir => "failed to create /proc directory"@,
            Fault::MountProc => "failed to mount /proc"@,
            Fault::Exec => "failed to execute command"@,
            Fault::Protocol => "stage resumed out of order"@,
        }
    }

    /// The diagnostic that names the failed step. It is a constant text:
    /// asking for it allocates nothing.
    pub fn message(&self) -> (text: &'static str)
        ensures
            text@ == self.spec_message(),
    {
        match self {
            Fault::Namespaces => "failed to unshare namespaces",
            Fault::Spawn => "failed to spawn child process",
            Fault::Wait => "failed to wait on child process",
            Fault::Hostname => "failed to set hostname",
            Fault::ChangeRoot => "failed to chroot",
            Fault::ChangeDir => "failed to change directory to /",
            Fault::CreateProcDir => "failed to create /proc directory",
            Fault::MountProc => "failed to mount /proc",
            Fault::Exec => "failed to execute command",
            Fault::Protocol => "stage resumed out of order",
        }
    }
}

} // verus!
