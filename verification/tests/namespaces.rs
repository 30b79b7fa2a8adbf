use nix::sched::CloneFlags;
use rustyrun::namespaces::{namespace_hook, set_hostname, NamespaceKind, NamespaceSet};
use rustyrun::step::{Action, Fault, Outcome, Progress, Step};

const KINDS: [NamespaceKind; 5] = [
    NamespaceKind::Mount,
    NamespaceKind::Uts,
    NamespaceKind::Ipc,
    NamespaceKind::Net,
    NamespaceKind::Pid,
];

const OUTCOMES: [Outcome; 8] = [
    Outcome::Done,
    Outcome::Failed,
    Outcome::Present,
    Outcome::Absent,
    Outcome::Exited(0),
    Outcome::Exited(1),
    Outcome::Exited(-7),
    Outcome::Signaled,
];

const PLACES: [Progress; 12] = [
    Progress::Entry,
    Progress::Unsharing,
    Progress::Spawning,
    Progress::Waiting,
    Progress::NamingHost,
    Progress::ChangingRoot,
    Progress::ChangingDir,
    Progress::ProbingProc,
    Progress::CreatingProc,
    Progress::MountingProc,
    Progress::Replacing,
    Progress::Finished,
];

fn set_of(index: u32) -> NamespaceSet {
    NamespaceSet {
        mount: index & 1 != 0,
        uts: index & 2 != 0,
        ipc: index & 4 != 0,
        net: index & 8 != 0,
        pid: index & 16 != 0,
    }
}

#[test]
fn none_holds_nothing_and_all_holds_everything() {
    for kind in KINDS {
        assert!(!NamespaceSet::none().has(kind));
        assert!(NamespaceSet::all().has(kind));
    }
    assert!(NamespaceSet::none().is_empty());
    assert!(!NamespaceSet::all().is_empty());
}

#[test]
fn has_reads_the_field_of_the_kind() {
    let only_net = NamespaceSet { mount: false, uts: false, ipc: false, net: true, pid: false };
    assert!(only_net.has(NamespaceKind::Net));
    assert!(!only_net.has(NamespaceKind::Mount));
    assert!(!only_net.has(NamespaceKind::Uts));
    assert!(!only_net.has(NamespaceKind::Ipc));
    assert!(!only_net.has(NamespaceKind::Pid));
    assert!(!only_net.is_empty());
}

#[test]
fn only_the_empty_set_is_empty() {
    for index in 0..32 {
        assert_eq!(set_of(index).is_empty(), index == 0);
    }
}

#[test]
fn flag_word_of_each_kind() {
    let none = NamespaceSet::none();
    assert_eq!(none.bits(), 0);
    assert_eq!(NamespaceSet { mount: true, ..none }.bits(), 0x0002_0000);
    assert_eq!(NamespaceSet { uts: true, ..none }.bits(), 0x0400_0000);
    assert_eq!(NamespaceSet { ipc: true, ..none }.bits(), 0x0800_0000);
    assert_eq!(NamespaceSet { pid: true, ..none }.bits(), 0x2000_0000);
    assert_eq!(NamespaceSet { net: true, ..none }.bits(), 0x4000_0000);
}

#[test]
fn flag_word_of_the_isolating_request() {
    assert_eq!(NamespaceSet::all().bits(), 0x6c02_0000);
    let flags = CloneFlags::CLONE_NEWNS
        | CloneFlags::CLONE_NEWUTS
        | CloneFlags::CLONE_NEWIPC
        | CloneFlags::CLONE_NEWNET
        | CloneFlags::CLONE_NEWPID;
    assert_eq!(NamespaceSet::all().bits(), flags.bits());
    assert_eq!(CloneFlags::from_bits(NamespaceSet::all().bits()), Some(flags));
}

#[test]
fn flag_word_is_the_union_of_the_flags() {
    for index in 0..32 {
        let set = set_of(index);
        let mut flags = CloneFlags::empty();
        flags.set(CloneFlags::CLONE_NEWNS, set.mount);
        flags.set(CloneFlags::CLONE_NEWUTS, set.uts);
        flags.set(CloneFlags::CLONE_NEWIPC, set.ipc);
        flags.set(CloneFlags::CLONE_NEWNET, set.net);
        flags.set(CloneFlags::CLONE_NEWPID, set.pid);
        assert_eq!(set.bits(), flags.bits());
        let back = CloneFlags::from_bits(set.bits()).unwrap();
        assert_eq!(back.contains(CloneFlags::CLONE_NEWNS), set.mount);
        assert_eq!(back.contains(CloneFlags::CLONE_NEWUTS), set.uts);
        assert_eq!(back.contains(CloneFlags::CLONE_NEWIPC), set.ipc);
        assert_eq!(back.contains(CloneFlags::CLONE_NEWNET), set.net);
        assert_eq!(back.contains(CloneFlags::CLONE_NEWPID), set.pid);
    }
}

#[test]
fn flag_words_tell_the_sets_apart() {
    for a in 0..32 {
        for b in 0..32 {
            assert_eq!(set_of(a).bits() == set_of(b).bits(), a == b);
        }
    }
}

#[test]
fn hook_asks_for_the_whole_set_in_one_request() {
    for index in 1..32 {
        let set = set_of(index);
        for outcome in OUTCOMES {
            assert_eq!(
                namespace_hook(set, Progress::Entry, outcome),
                Step::Perform {
                    next: Progress::Unsharing,
                    action: Action::Unshare { namespaces: set },
                }
            );
        }
    }
}

#[test]
fn hook_with_nothing_to_ask_is_complete_at_once() {
    for outcome in OUTCOMES {
        assert_eq!(namespace_hook(NamespaceSet::none(), Progress::Entry, outcome), Step::Complete);
    }
}

#[test]
fn hook_is_complete_when_the_request_is_done() {
    assert_eq!(
        namespace_hook(NamespaceSet::all(), Progress::Unsharing, Outcome::Done),
        Step::Complete
    );
}

#[test]
fn hook_is_fatal_when_the_request_is_not_done() {
    for outcome in OUTCOMES {
        if outcome != Outcome::Done {
            assert_eq!(
                namespace_hook(NamespaceSet::all(), Progress::Unsharing, outcome),
                Step::Fatal { fault: Fault::Namespaces }
            );
        }
    }
}

#[test]
fn hook_elsewhere_is_out_of_order() {
    for at in PLACES {
        if at != Progress::Entry && at != Progress::Unsharing {
            for outcome in OUTCOMES {
                assert_eq!(
                    namespace_hook(NamespaceSet::all(), at, outcome),
                    Step::Fatal { fault: Fault::Protocol }
                );
            }
        }
    }
}

#[test]
fn set_hostname_asks_for_the_name() {
    let name = String::from("test1");
    for outcome in OUTCOMES {
        assert_eq!(
            set_hostname(&name, Progress::Entry, outcome),
            Step::Perform {
                next: Progress::NamingHost,
                action: Action::SetHostname { name: String::from("test1") },
            }
        );
    }
}

#[test]
fn set_hostname_is_complete_when_done() {
    let name = String::from("test1");
    assert_eq!(set_hostname(&name, Progress::NamingHost, Outcome::Done), Step::Complete);
}

#[test]
fn set_hostname_is_fatal_when_not_done() {
    let name = String::from("a name that the kernel may well refuse \u{0}");
    for outcome in OUTCOMES {
        if outcome != Outcome::Done {
            assert_eq!(
                set_hostname(&name, Progress::NamingHost, outcome),
                Step::Fatal { fault: Fault::Hostname }
            );
        }
    }
}

#[test]
fn set_hostname_elsewhere_is_out_of_order() {
    let name = String::from("h");
    for at in PLACES {
        if at != Progress::Entry && at != Progress::NamingHost {
            for outcome in OUTCOMES {
                assert_eq!(
                    set_hostname(&name, at, outcome),
                    Step::Fatal { fault: Fault::Protocol }
                );
            }
        }
    }
}
