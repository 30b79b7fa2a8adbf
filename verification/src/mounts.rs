//! The filesystem jail: rooting the process at a directory and making `/proc`
//! available inside it.
use crate::step::{Action, ActionView, Fault, Outcome, Progress, Step, StepView};
use nix::mount::MsFlags;
use vstd::prelude::*;

verus! {

/// How much the jail sets up.
#[derive(Debug, Clone, Copy, PartialEq, Eq, Structural)]
pub enum JailPolicy {
    /// Change the root directory and the working directory, nothing else. The
    /// old root stays in the mount table: a process with enough privilege can
    /// leave such a jail.
    Minimal,
    /// As `Minimal`, then see to it that `/proc` exists under the new root and
    /// mount a fresh `proc` filesystem there.
    Extended,
}

impl JailPolicy {
    /// The policy in force where none is chosen.
    pub open spec fn standard() -> JailPolicy {
        JailPolicy::Extended
    }
}

impl Default for JailPolicy {
    fn default() -> (policy: JailPolicy)
        ensures
            policy == JailPolicy::standard(),
    {
        JailPolicy::Extended
    }
}

/// The directory a jailed process works in: its new root.
pub open spec fn root_dir() -> Seq<char> {
    "/"@
}

/// Where the `proc` filesystem goes, seen from inside the jail.
pub open spec fn proc_dir() -> Seq<char> {
    "/proc"@
}

/// Source and type of the `proc` filesystem.
pub open spec fn proc_fs() -> Seq<char> {
    "proc"@
}

/// The mount of a fresh `proc` filesystem on `/proc`, with no mount flag set
/// and no option of its own.
pub open spec fn proc_mount() -> ActionView {
    ActionView::Mount {
        source: proc_fs(),
        target: proc_dir(),
        fstype: proc_fs(),
        flags: 0,
        data: None,
    }
}

/// The steps that only the extended policy has.
pub open spec fn about_proc(at: Progress) -> bool {
    at == Progress::ProbingProc || at == Progress::CreatingProc || at == Progress::MountingProc
}

/// What the jail does at `at`, told `outcome` of the action it was waiting
/// for.
///
/// The root is changed first, then the working directory. Under the extended
/// policy `/proc` is then looked for, created if it is absent, and mounted;
/// under the minimal policy the jail is never at one of those steps. Nothing
/// is tried twice and nothing is undone: the first action that does not
/// succeed ends the jail with the fault of that action.
pub open spec fn jail_step(
    rootfs: Seq<char>,
    policy: JailPolicy,
    at: Progress,
    outcome: Outcome,
) -> StepView {
    if policy == JailPolicy::Minimal && about_proc(at) {
        StepView::Fatal { fault: Fault::Protocol }
    } else {
        match at {
            Progress::Entry => StepView::Perform {
                next: Progress::ChangingRoot,
                action: ActionView::ChangeRoot { path: rootfs },
            },
            Progress::ChangingRoot => if outcome == Outcome::Done {
                StepView::Perform {
                    next: Progress::ChangingDir,
                    action: ActionView::ChangeDir { path: root_dir() },
                }
            } else {
                StepView::Fatal { fault: Fault::ChangeRoot }
            },
            Progress::ChangingDir => if outcome != Outcome::Done {
                StepView::Fatal { fault: Fault::ChangeDir }
            } else if policy == JailPolicy::Minimal {
                StepView::Complete
            } else {
                StepView::Perform {
                    next: Progress::ProbingProc,
                    action: ActionView::Probe { path: proc_dir() },
                }
            },
            Progress::ProbingProc => if outcome == Outcome::Present {
                StepView::Perform { next: Progress::MountingProc, action: proc_mount() }
            } else if outcome == Outcome::Absent {
                StepView::Perform {
                    next: Progress::CreatingProc,
                    action: ActionView::CreateDir { path: proc_dir() },
                }
            } else {
                StepView::Fatal { fault: Fault::Protocol }
            },
            Progress::CreatingProc => if outcome == Outcome::Done {
                StepView::Perform { next: Progress::MountingProc, action: proc_mount() }
            } else {
                StepView::Fatal { fault: Fault::CreateProcDir }
            },
            Progress::MountingProc => if outcome == Outcome::Done {
                StepView::Complete
            } else {
                StepView::Fatal { fault: Fault::MountProc }
            },
            _ => StepView::Fatal { fault: Fault::Protocol },
        }
    }
}

/// The mount of a fresh `proc` filesystem on `/proc`.
fn mount_proc() -> (action: Action)
    ensures
        action@ == proc_mount(),
{
    Action::Mount {
        source: "proc".to_owned(),
        target: "/proc".to_owned(),
        fstype: "proc".to_owned(),
        flags: no_mount_flags(),
        data: None,
    }
}

/// Roots the process at `rootfs` and, under the extended policy, makes
/// `/proc` available there, one action at a time.
///
/// Call it with `Progress::Entry` to begin, then with the progress it gave
/// and the outcome of the action it asked for, until it answers
/// `Step::Complete` or `Step::Fatal`.
pub fn setup_rootfs(rootfs: &str, policy: JailPolicy, at: Progress, outcome: Outcome) -> (step:
    Step)
    ensures
        step@ == jail_step(rootfs@, policy, at, outcome),
{
    match (policy, at) {
        (_, Progress::Entry) => Step::Perform {
            next: Progress::ChangingRoot,
            action: Action::ChangeRoot { path: rootfs.to_owned() },
        },
        (_, Progress::ChangingRoot) => match outcome {
            Outcome::Done => Step::Perform {
                next: Progress::ChangingDir,
                action: Action::ChangeDir { path: "/".to_owned() },
            },
            _ => Step::Fatal { fault: Fault::ChangeRoot },
        },
        (_, Progress::ChangingDir) => match outcome {
            Outcome::Done => match policy {
                JailPolicy::Minimal => Step::Complete,
                JailPolicy::Extended => Step::Perform {
                    next: Progress::ProbingProc,
                    action: Action::Probe { path: "/proc".to_owned() },
                },
            },
            _ => Step::Fatal { fault: Fault::ChangeDir },
        },
        (JailPolicy::Extended, Progress::ProbingProc) => match outcome {
            Outcome::Present => Step::Perform {
                next: Progress::MountingProc,
                action: mount_proc(),
            },
            Outcome::Absent => Step::Perform {
                next: Progress::CreatingProc,
                action: Action::CreateDir { path: "/proc".to_owned() },
            },
            _ => Step::Fatal { fault: Fault::Protocol },
        },
        (JailPolicy::Extended, Progress::CreatingProc) => match outcome {
            Outcome::Done => Step::Perform { next: Progress::MountingProc, action: mount_proc() },
            _ => Step::Fatal { fault: Fault::CreateProcDir },
        },
        (JailPolicy::Extended, Progress::MountingProc) => match outcome {
            Outcome::Done => Step::Complete,
            _ => Step::Fatal { fault: Fault::MountProc },
        },
        _ => Step::Fatal { fault: Fault::Protocol },
    }
}

/// `nix::mount::MsFlags::empty()`, as `bits()` gives it: the mount flags with
/// none set, which is the word 0.
#[verifier::external_body]
fn no_mount_flags() -> (bits: u64)
    ensures
        bits == 0,
{
    MsFlags::empty().bits() as u64
}

} // verus!
