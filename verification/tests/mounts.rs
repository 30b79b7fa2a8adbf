use nix::mount::MsFlags;
use rustyrun::mounts::{setup_rootfs, JailPolicy};
use rustyrun::step::{Action, Fault, Outcome, Progress, Step};

const BOTH: [JailPolicy; 2] = [JailPolicy::Minimal, JailPolicy::Extended];

const NOT_DONE: [Outcome; 6] = [
    Outcome::Failed,
    Outcome::Present,
    Outcome::Absent,
    Outcome::Exited(0),
    Outcome::Exited(3),
    Outcome::Signaled,
];

fn proc_mount() -> Action {
    Action::Mount {
        source: String::from("proc"),
        target: String::from("/proc"),
        fstype: String::from("proc"),
        flags: 0,
        data: None,
    }
}

fn jail(policy: JailPolicy, at: Progress, outcome: Outcome) -> Step {
    setup_rootfs(&String::from("/tmp/alpine"), policy, at, outcome)
}

#[test]
fn standard_policy_is_extended() {
    assert_eq!(JailPolicy::default(), JailPolicy::Extended);
}

#[test]
fn jail_begins_with_the_root() {
    for policy in BOTH {
        for outcome in [Outcome::Done, Outcome::Failed, Outcome::Absent] {
            assert_eq!(
                jail(policy, Progress::Entry, outcome),
                Step::Perform {
                    next: Progress::ChangingRoot,
                    action: Action::ChangeRoot { path: String::from("/tmp/alpine") },
                }
            );
        }
    }
}

#[test]
fn jail_hands_the_root_on_as_it_is() {
    let odd = String::from("relative dir/with space/../and\ttab");
    assert_eq!(
        setup_rootfs(&odd, JailPolicy::Extended, Progress::Entry, Outcome::Done),
        Step::Perform {
            next: Progress::ChangingRoot,
            action: Action::ChangeRoot { path: odd.clone() },
        }
    );
}

#[test]
fn working_directory_follows_the_root() {
    for policy in BOTH {
        assert_eq!(
            jail(policy, Progress::ChangingRoot, Outcome::Done),
            Step::Perform {
                next: Progress::ChangingDir,
                action: Action::ChangeDir { path: String::from("/") },
            }
        );
    }
}

#[test]
fn failed_root_switch_is_fatal_with_no_fallback() {
    for policy in BOTH {
        for outcome in NOT_DONE {
            assert_eq!(
                jail(policy, Progress::ChangingRoot, outcome),
                Step::Fatal { fault: Fault::ChangeRoot }
            );
        }
    }
}

#[test]
fn failed_directory_change_is_fatal() {
    for policy in BOTH {
        for outcome in NOT_DONE {
            assert_eq!(
                jail(policy, Progress::ChangingDir, outcome),
                Step::Fatal { fault: Fault::ChangeDir }
            );
        }
    }
}

#[test]
fn minimal_jail_is_complete_with_the_working_directory() {
    assert_eq!(jail(JailPolicy::Minimal, Progress::ChangingDir, Outcome::Done), Step::Complete);
}

#[test]
fn minimal_jail_is_never_about_proc() {
    for at in [Progress::ProbingProc, Progress::CreatingProc, Progress::MountingProc] {
        for outcome in [Outcome::Done, Outcome::Present, Outcome::Absent, Outcome::Failed] {
            assert_eq!(
                jail(JailPolicy::Minimal, at, outcome),
                Step::Fatal { fault: Fault::Protocol }
            );
        }
    }
}

#[test]
fn extended_jail_looks_for_proc() {
    assert_eq!(
        jail(JailPolicy::Extended, Progress::ChangingDir, Outcome::Done),
        Step::Perform {
            next: Progress::ProbingProc,
            action: Action::Probe { path: String::from("/proc") },
        }
    );
}

#[test]
fn present_proc_is_mounted_on() {
    assert_eq!(
        jail(JailPolicy::Extended, Progress::ProbingProc, Outcome::Present),
        Step::Perform { next: Progress::MountingProc, action: proc_mount() }
    );
}

#[test]
fn absent_proc_is_created_first() {
    assert_eq!(
        jail(JailPolicy::Extended, Progress::ProbingProc, Outcome::Absent),
        Step::Perform {
            next: Progress::CreatingProc,
            action: Action::CreateDir { path: String::from("/proc") },
        }
    );
    assert_eq!(
        jail(JailPolicy::Extended, Progress::CreatingProc, Outcome::Done),
        Step::Perform { next: Progress::MountingProc, action: proc_mount() }
    );
}

#[test]
fn probe_answers_present_or_absent_only() {
    for outcome in [Outcome::Done, Outcome::Failed, Outcome::Exited(0), Outcome::Signaled] {
        assert_eq!(
            jail(JailPolicy::Extended, Progress::ProbingProc, outcome),
            Step::Fatal { fault: Fault::Protocol }
        );
    }
}

#[test]
fn failed_creation_of_proc_is_fatal() {
    for outcome in NOT_DONE {
        assert_eq!(
            jail(JailPolicy::Extended, Progress::CreatingProc, outcome),
            Step::Fatal { fault: Fault::CreateProcDir }
        );
    }
}

#[test]
fn failed_mount_is_fatal() {
    for outcome in NOT_DONE {
        assert_eq!(
            jail(JailPolicy::Extended, Progress::MountingProc, outcome),
            Step::Fatal { fault: Fault::MountProc }
        );
    }
}

#[test]
fn extended_jail_is_complete_with_the_mount() {
    assert_eq!(jail(JailPolicy::Extended, Progress::MountingProc, Outcome::Done), Step::Complete);
}

#[test]
fn mount_has_no_flags_and_no_data() {
    match jail(JailPolicy::Extended, Progress::ProbingProc, Outcome::Present) {
        Step::Perform { action: Action::Mount { flags, data, .. }, .. } => {
            assert_eq!(flags, 0);
            assert_eq!(MsFlags::from_bits(flags as _), Some(MsFlags::empty()));
            assert_eq!(data, None);
        }
        other => panic!("no mount: {:?}", other),
    }
}

#[test]
fn jail_is_out_of_order_where_it_has_no_business() {
    let elsewhere = [
        Progress::Unsharing,
        Progress::Spawning,
        Progress::Waiting,
        Progress::NamingHost,
        Progress::Replacing,
        Progress::Finished,
    ];
    for policy in BOTH {
        for at in elsewhere {
            for outcome in [Outcome::Done, Outcome::Failed, Outcome::Present] {
                assert_eq!(jail(policy, at, outcome), Step::Fatal { fault: Fault::Protocol });
            }
        }
    }
}
