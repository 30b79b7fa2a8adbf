//! What holds of a stage over a whole run, whatever the driver reports.
use crate::config::ConfigView;
use crate::container::{child_step, init_step, stage_step, start_step};
use crate::invocation::{lemma_round_trip, parse_spec, InvocationView, Role, UsageError};
use crate::mounts::JailPolicy;
use crate::step::{ActionView, Outcome, Progress, FAILURE};
use vstd::prelude::*;

verus! {

/// How far along a stage is at `at`: every step of every stage leads to a
/// higher rank.
pub open spec fn rank(at: Progress) -> nat {
    match at {
        Progress::Entry => 0,
        Progress::Unsharing | Progress::Spawning | Progress::NamingHost => 1,
        Progress::Waiting | Progress::ChangingRoot => 2,
        Progress::ChangingDir => 3,
        Progress::ProbingProc => 4,
        Progress::CreatingProc => 5,
        Progress::MountingProc => 6,
        Progress::Replacing => 7,
        Progress::Finished => 8,
    }
}

/// Where the stage of `invocation` is after the driver has called it once
/// for each of `outcomes`, in order, beginning at `Progress::Entry`. The
/// first call begins the stage, so the first outcome reports nothing.
pub open spec fn progress_after(invocation: InvocationView, outcomes: Seq<Outcome>) -> Progress
    decreases outcomes.len(),
{
    if outcomes.len() == 0 {
        Progress::Entry
    } else {
        stage_step(
            invocation,
            progress_after(invocation, outcomes.drop_last()),
            outcomes.last(),
        ).0
    }
}

/// What the stage of `invocation` asks for in the last of the calls that the
/// driver makes for `outcomes`.
pub open spec fn action_after(invocation: InvocationView, outcomes: Seq<Outcome>) -> ActionView
    recommends
        outcomes.len() > 0,
{
    stage_step(invocation, progress_after(invocation, outcomes.drop_last()), outcomes.last()).1
}

/// Whether, in the run that `outcomes` tells, the stage was at `at` and the
/// action it waited for there was reported done.
pub open spec fn succeeded(
    invocation: InvocationView,
    outcomes: Seq<Outcome>,
    at: Progress,
) -> bool {
    exists|k: int|
        0 <= k < outcomes.len() && #[trigger] progress_after(invocation, outcomes.take(k)) == at
            && outcomes[k] == Outcome::Done
}

/// A stage never goes back and never stays: a step leads to a higher rank,
/// and it asks to exit exactly when it leads to `Finished`. From `Finished`
/// a stage does not move.
pub proof fn lemma_stage_advances(invocation: InvocationView, at: Progress, outcome: Outcome)
    ensures
        at != Progress::Finished ==> rank(at) < rank(stage_step(invocation, at, outcome).0),
        at == Progress::Finished ==> stage_step(invocation, at, outcome).0 == Progress::Finished,
        stage_step(invocation, at, outcome).0 == Progress::Finished <==> stage_step(
            invocation,
            at,
            outcome,
        ).1 is Exit,
{
}

/// Whatever the driver reports, a stage has asked to exit by its eighth step:
/// nothing is retried and nothing loops.
pub proof fn lemma_stage_ends(invocation: InvocationView, outcomes: Seq<Outcome>)
    ensures
        rank(progress_after(invocation, outcomes)) >= outcomes.len() || progress_after(
            invocation,
            outcomes,
        ) == Progress::Finished,
        outcomes.len() >= 8 ==> progress_after(invocation, outcomes) == Progress::Finished,
    decreases outcomes.len(),
{
    if outcomes.len() > 0 {
        lemma_stage_ends(invocation, outcomes.drop_last());
        lemma_stage_advances(
            invocation,
            progress_after(invocation, outcomes.drop_last()),
            outcomes.last(),
        );
    }
}

/// A stage creates one child at most, as the first thing it does, and init
/// creates none: the process that the relay creates is the only one that it
/// puts into the new PID namespace.
pub proof fn lemma_one_child(invocation: InvocationView, outcomes: Seq<Outcome>)
    requires
        outcomes.len() > 0,
        action_after(invocation, outcomes) is Spawn,
    ensures
        outcomes.len() == 1,
        invocation.role != Role::Init,
{
    lemma_stage_ends(invocation, outcomes.drop_last());
}

/// A failure is fatal where it happens: a stage that is told that the action
/// it waited for has failed asks to exit with status 1 and names a fault. It
/// asks for nothing else first, so nothing is undone.
pub proof fn lemma_failure_is_fatal(invocation: InvocationView, at: Progress)
    requires
        at != Progress::Entry,
    ensures
        stage_step(invocation, at, Outcome::Failed).0 == Progress::Finished,
        stage_step(invocation, at, Outcome::Failed).1 matches ActionView::Exit { code, fault }
            && code == FAILURE && fault is Some,
{
}

/// A stage exits without naming a fault only to pass on how its child ended,
/// and then it is the host or the relay, waiting.
pub proof fn lemma_clean_exit_is_passed_on(
    invocation: InvocationView,
    at: Progress,
    outcome: Outcome,
)
    requires
        stage_step(invocation, at, outcome).1 matches ActionView::Exit { code, fault }
            && fault is None,
    ensures
        invocation.role != Role::Init,
        at == Progress::Waiting,
        stage_step(invocation, at, outcome).1 matches ActionView::Exit { code, .. } && (outcome
            == Outcome::Exited(code) || (outcome == Outcome::Signaled && code == FAILURE)),
{
}

/// The exit code of the command reaches the user: when init's process ends
/// with `code`, the relay exits with `code`, and when the relay ends with
/// `code`, so does the host.
pub proof fn lemma_exit_code_is_passed_up(config: ConfigView, code: i32)
    ensures
        child_step(config, Progress::Waiting, Outcome::Exited(code)) == (
            Progress::Finished,
            ActionView::Exit { code, fault: None },
        ),
        start_step(config, Progress::Waiting, Outcome::Exited(code)) == (
            Progress::Finished,
            ActionView::Exit { code, fault: None },
        ),
{
}

/// A child that leaves no exit code, as one that a signal killed, makes its
/// parent exit with status 1, which the host passes up as it is.
pub proof fn lemma_missing_exit_code_is_failure(config: ConfigView)
    ensures
        child_step(config, Progress::Waiting, Outcome::Signaled) == (
            Progress::Finished,
            ActionView::Exit { code: FAILURE, fault: None },
        ),
        start_step(config, Progress::Waiting, Outcome::Signaled) == (
            Progress::Finished,
            ActionView::Exit { code: FAILURE, fault: None },
        ),
        start_step(config, Progress::Waiting, Outcome::Exited(FAILURE)) == (
            Progress::Finished,
            ActionView::Exit { code: FAILURE, fault: None },
        ),
{
}

/// Host and relay touch nothing: all they ask for is to create a child, to
/// wait for it and to exit. Init, in turn, creates no process and asks for no
/// namespace.
pub proof fn lemma_duties(invocation: InvocationView, at: Progress, outcome: Outcome)
    ensures
        invocation.role != Role::Init ==> {
            let action = stage_step(invocation, at, outcome).1;
            action is Spawn || action is Wait || action is Exit
        },
        invocation.role == Role::Init ==> {
            let action = stage_step(invocation, at, outcome).1;
            !(action is Spawn) && !(action is Wait) && !(action is Unshare)
        },
{
}

/// The configuration crosses both process boundaries unchanged: the arguments
/// that the host gives the relay spell the relay with the host's
/// configuration, and those that the relay gives init spell init with it.
pub proof fn lemma_next_stage_gets_the_configuration(config: ConfigView, outcome: Outcome)
    requires
        config.well_formed(),
    ensures
        start_step(config, Progress::Entry, outcome).1 matches ActionView::Spawn { args, .. }
            && parse_spec(args) == Ok::<InvocationView, UsageError>(
            InvocationView { role: Role::Relay, config },
        ),
        child_step(config, Progress::Entry, outcome).1 matches ActionView::Spawn { args, .. }
            && parse_spec(args) == Ok::<InvocationView, UsageError>(
            InvocationView { role: Role::Init, config },
        ),
{
    lemma_round_trip(Role::Relay, config);
    lemma_round_trip(Role::Init, config);
}

/// The parts of init whose success the later parts build on.
pub open spec fn milestone(at: Progress) -> bool {
    at == Progress::NamingHost || at == Progress::ChangingRoot || at == Progress::ChangingDir
        || at == Progress::MountingProc
}

/// Init builds on success only: when it has come further than a milestone,
/// it was at that milestone and the action it waited for there was reported
/// done.
pub proof fn lemma_init_builds_on_success(
    invocation: InvocationView,
    outcomes: Seq<Outcome>,
    passed: Progress,
)
    requires
        invocation.role == Role::Init,
        milestone(passed),
        rank(passed) < rank(progress_after(invocation, outcomes)) < rank(Progress::Finished),
    ensures
        succeeded(invocation, outcomes, passed),
    decreases outcomes.len(),
{
    if outcomes.len() > 0 {
        let before = outcomes.drop_last();
        let at = progress_after(invocation, before);
        let last: int = outcomes.len() - 1;
        assert(outcomes.take(last) == before);
        if at == passed && outcomes[last] == Outcome::Done {
            assert(progress_after(invocation, outcomes.take(last)) == passed);
        } else {
            lemma_init_builds_on_success(invocation, before, passed);
            let k: int = choose|k: int|
                0 <= k < before.len() && #[trigger] progress_after(invocation, before.take(k))
                    == passed && before[k] == Outcome::Done;
            assert(before.take(k) == outcomes.take(k));
            assert(progress_after(invocation, outcomes.take(k)) == passed);
        }
    }
}

/// The `proc` filesystem is mounted inside the jail or not at all: when init
/// asks for the mount, root and working directory have been changed with
/// success.
pub proof fn lemma_mount_follows_root_switch(invocation: InvocationView, outcomes: Seq<Outcome>)
    requires
        invocation.role == Role::Init,
        outcomes.len() > 0,
        action_after(invocation, outcomes) is Mount,
    ensures
        succeeded(invocation, outcomes, Progress::ChangingRoot),
        succeeded(invocation, outcomes, Progress::ChangingDir),
{
    lemma_init_builds_on_success(invocation, outcomes, Progress::ChangingRoot);
    lemma_init_builds_on_success(invocation, outcomes, Progress::ChangingDir);
}

/// The command runs in a finished container or not at all: when init asks for
/// the image to be replaced, the host name has been set, root and working
/// directory have been changed and the `proc` filesystem has been mounted,
/// each with success.
pub proof fn lemma_command_runs_in_finished_container(
    invocation: InvocationView,
    outcomes: Seq<Outcome>,
)
    requires
        invocation.role == Role::Init,
        outcomes.len() > 0,
        action_after(invocation, outcomes) is Exec,
    ensures
        action_after(invocation, outcomes) == (ActionView::Exec {
            command: invocation.config.command,
        }),
        succeeded(invocation, outcomes, Progress::NamingHost),
        succeeded(invocation, outcomes, Progress::ChangingRoot),
        succeeded(invocation, outcomes, Progress::ChangingDir),
        succeeded(invocation, outcomes, Progress::MountingProc),
{
    lemma_init_builds_on_success(invocation, outcomes, Progress::NamingHost);
    lemma_init_builds_on_success(invocation, outcomes, Progress::ChangingRoot);
    lemma_init_builds_on_success(invocation, outcomes, Progress::ChangingDir);
    lemma_init_builds_on_success(invocation, outcomes, Progress::MountingProc);
}

/// Under the minimal policy the jail ends with the working directory: init
/// then goes from there to the command and asks for no mount.
pub proof fn lemma_minimal_jail_mounts_nothing(config: ConfigView, at: Progress, outcome: Outcome)
    ensures
        !(init_step(config, JailPolicy::Minimal, at, outcome).1 is Mount),
        !(init_step(config, JailPolicy::Minimal, at, outcome).1 is Probe),
        !(init_step(config, JailPolicy::Minimal, at, outcome).1 is CreateDir),
        init_step(config, JailPolicy::Minimal, Progress::ChangingDir, Outcome::Done) == (
            Progress::Replacing,
            ActionView::Exec { command: config.command },
        ),
{
}

} // verus!
