//! The three stages of a launch, each as a function from where the stage is
//! and what just happened to where it goes and what to do next.
use crate::config::{ConfigView, ContainerConfig};
use crate::invocation::{marshal, marshal_spec, Invocation, InvocationView, Role};
use crate::mounts::{jail_step, setup_rootfs, JailPolicy};
use crate::namespaces::{hostname_step, set_hostname, NamespaceSet};
use crate::step::{
    abort, give_up, Action, ActionView, Fault, Outcome, Progress, Step, StepView, FAILURE,
};
use vstd::prelude::*;

verus! {

/// The program a stage runs to start the next one: the launcher itself.
pub open spec fn self_exe() -> Seq<char> {
    "/proc/self/exe"@
}

/// What a stage that only starts the next one does at `at`, told `outcome`.
///
/// It creates the launcher again as `next`, with the whole configuration in
/// the arguments and the hook set to `unshare`, waits for that child, and
/// exits as the child did: with the child's exit code, or with status 1 where
/// the child left none. It creates one child and waits once; a failure to do
/// either ends the stage.
pub open spec fn supervise_step(
    next: Role,
    unshare: NamespaceSet,
    config: ConfigView,
    at: Progress,
    outcome: Outcome,
) -> (Progress, ActionView) {
    match at {
        Progress::Entry => (
            Progress::Spawning,
            ActionView::Spawn { program: self_exe(), args: marshal_spec(next, config), unshare },
        ),
        Progress::Spawning => if outcome == Outcome::Done {
            (Progress::Waiting, ActionView::Wait)
        } else {
            give_up(Fault::Spawn)
        },
        Progress::Waiting => match outcome {
            Outcome::Exited(code) => (Progress::Finished, ActionView::Exit { code, fault: None }),
            Outcome::Signaled => (
                Progress::Finished,
                ActionView::Exit { code: FAILURE, fault: None },
            ),
            _ => give_up(Fault::Wait),
        },
        _ => give_up(Fault::Protocol),
    }
}

/// The host stage: it starts the relay, whose hook asks for all five
/// namespaces.
pub open spec fn start_step(config: ConfigView, at: Progress, outcome: Outcome) -> (
    Progress,
    ActionView,
) {
    supervise_step(Role::Relay, NamespaceSet::spec_all(), config, at, outcome)
}

/// The relay stage: it starts init and asks for no namespace. The relay has
/// asked for a new PID namespace already, and that is where its child goes.
pub open spec fn child_step(config: ConfigView, at: Progress, outcome: Outcome) -> (
    Progress,
    ActionView,
) {
    supervise_step(Role::Init, NamespaceSet::spec_none(), config, at, outcome)
}

/// What a stage does with the answer of one of its parts: it follows the
/// part, exits where the part failed, and goes on to `then` where the part
/// is complete.
pub open spec fn follow(step: StepView, then: (Progress, ActionView)) -> (Progress, ActionView) {
    match step {
        StepView::Perform { next, action } => (next, action),
        StepView::Complete => then,
        StepView::Fatal { fault } => give_up(fault),
    }
}

/// The last thing init does: it becomes the command.
pub open spec fn become_command(config: ConfigView) -> (Progress, ActionView) {
    (Progress::Replacing, ActionView::Exec { command: config.command })
}

/// The init stage: host name, then the jail under `policy`, then the
/// command. Each part begins when the one before it is complete. If the image
/// replacement reports back at all, it has failed.
pub open spec fn init_step(
    config: ConfigView,
    policy: JailPolicy,
    at: Progress,
    outcome: Outcome,
) -> (Progress, ActionView) {
    match at {
        Progress::Entry | Progress::NamingHost => follow(
            hostname_step(config.hostname, at, outcome),
            follow(
                jail_step(config.rootfs, policy, Progress::Entry, outcome),
                become_command(config),
            ),
        ),
        Progress::ChangingRoot
        | Progress::ChangingDir
        | Progress::ProbingProc
        | Progress::CreatingProc
        | Progress::MountingProc => follow(
            jail_step(config.rootfs, policy, at, outcome),
            become_command(config),
        ),
        Progress::Replacing => give_up(Fault::Exec),
        _ => give_up(Fault::Protocol),
    }
}

/// What the stage of `invocation` does at `at`, told `outcome`: each role has
/// one behaviour, and init jails under the standard policy.
pub open spec fn stage_step(invocation: InvocationView, at: Progress, outcome: Outcome) -> (
    Progress,
    ActionView,
) {
    match invocation.role {
        Role::Host => start_step(invocation.config, at, outcome),
        Role::Relay => child_step(invocation.config, at, outcome),
        Role::Init => init_step(invocation.config, JailPolicy::standard(), at, outcome),
    }
}

/// One step of a stage that only starts the next one.
fn supervise(
    next: Role,
    unshare: NamespaceSet,
    config: &ContainerConfig,
    at: Progress,
    outcome: Outcome,
) -> (step: (Progress, Action))
    ensures
        (step.0, step.1@) == supervise_step(next, unshare, config@, at, outcome),
{
    match at {
        Progress::Entry => (
            Progress::Spawning,
            Action::Spawn {
                program: "/proc/self/exe".to_owned(),
                args: marshal(next, config),
                unshare,
            },
        ),
        Progress::Spawning => match outcome {
            Outcome::Done => (Progress::Waiting, Action::Wait),
            _ => abort(Fault::Spawn),
        },
        Progress::Waiting => match outcome {
            Outcome::Exited(code) => (Progress::Finished, Action::Exit { code, fault: None }),
            Outcome::Signaled => (Progress::Finished, Action::Exit { code: FAILURE, fault: None }),
            _ => abort(Fault::Wait),
        },
        _ => abort(Fault::Protocol),
    }
}

/// One step of the host stage.
///
/// Call it with `Progress::Entry` to begin, then with the progress it gave
/// and the outcome of the action it asked for, until the action is
/// `Action::Exit`.
pub fn start(config: &ContainerConfig, at: Progress, outcome: Outcome) -> (step: (Progress, Action))
    ensures
        (step.0, step.1@) == start_step(config@, at, outcome),
{
    supervise(Role::Relay, NamespaceSet::all(), config, at, outcome)
}

/// One step of the relay stage.
pub fn child(config: &ContainerConfig, at: Progress, outcome: Outcome) -> (step: (Progress, Action))
    ensures
        (step.0, step.1@) == child_step(config@, at, outcome),
{
    supervise(Role::Init, NamespaceSet::none(), config, at, outcome)
}

/// Follows a part of init, or becomes the command where the part is
/// complete.
fn proceed(step: Step, config: &ContainerConfig) -> (out: (Progress, Action))
    ensures
        (out.0, out.1@) == follow(step@, become_command(config@)),
{
    match step {
        Step::Perform { next, action } => (next, action),
        Step::Complete => (Progress::Replacing, Action::Exec { command: config.command().clone() }),
        Step::Fatal { fault } => abort(fault),
    }
}

/// One step of the init stage, with the jail under `policy`.
pub fn init(
    config: &ContainerConfig,
    policy: JailPolicy,
    at: Progress,
    outcome: Outcome,
) -> (step: (Progress, Action))
    ensures
        (step.0, step.1@) == init_step(config@, policy, at, outcome),
{
    match at {
        Progress::Entry | Progress::NamingHost => match set_hostname(
            config.hostname().as_str(),
            at,
            outcome,
        ) {
            Step::Perform { next, action } => (next, action),
            Step::Complete => proceed(
                setup_rootfs(config.rootfs().as_str(), policy, Progress::Entry, outcome),
                config,
            ),
            Step::Fatal { fault } => abort(fault),
        },
        Progress::ChangingRoot
        | Progress::ChangingDir
        | Progress::ProbingProc
        | Progress::CreatingProc
        | Progress::MountingProc => proceed(
            setup_rootfs(config.rootfs().as_str(), policy, at, outcome),
            config,
        ),
        Progress::Replacing => abort(Fault::Exec),
        _ => abort(Fault::Protocol),
    }
}

/// One step of the stage that `invocation` selects.
pub fn dispatch(invocation: &Invocation, at: Progress, outcome: Outcome) -> (step: (
    Progress,
    Action,
))
    ensures
        (step.0, step.1@) == stage_step(invocation@, at, outcome),
{
    match invocation.role {
        Role::Host => start(&invocation.config, at, outcome),
        Role::Relay => child(&invocation.config, at, outcome),
        Role::Init => init(&invocation.config, JailPolicy::default(), at, outcome),
    }
}

} // verus!
