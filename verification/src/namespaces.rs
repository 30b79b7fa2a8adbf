//! The namespaces a container leaves the host through, and the flag word that
//! asks the kernel for them.
use crate::step::{Action, ActionView, Fault, Outcome, Progress, Step, StepView};
use nix::sched::CloneFlags;
use vstd::prelude::*;

verus! {

/// One kind of Linux namespace that the launcher isolates.
#[derive(Debug, Clone, Copy, PartialEq, Eq, Structural)]
pub enum NamespaceKind {
    /// The mount table.
    Mount,
    /// Host and domain name.
    Uts,
    /// System V IPC objects and POSIX message queues.
    Ipc,
    /// The network stack.
    Net,
    /// The process identifiers.
    Pid,
}

impl NamespaceKind {
    /// The bit that asks for a new namespace of this kind in the flag word of
    /// `unshare(2)`.
    pub open spec fn flag(self) -> int {
        match self {
            NamespaceKind::Mount => 0x0002_0000,
            NamespaceKind::Uts => 0x0400_0000,
            NamespaceKind::Ipc => 0x0800_0000,
            NamespaceKind::Pid => 0x2000_0000,
            NamespaceKind::Net => 0x4000_0000,
        }
    }
}

/// The namespace kinds that one request asks for together.
#[derive(Debug, Clone, Copy, PartialEq, Eq, Structural)]
pub struct NamespaceSet {
    pub mount: bool,
    pub uts: bool,
    pub ipc: bool,
    pub net: bool,
    pub pid: bool,
}

impl NamespaceSet {
    /// Whether the set holds `kind`.
    pub open spec fn contains(self, kind: NamespaceKind) -> bool {
        match kind {
            NamespaceKind::Mount => self.mount,
            NamespaceKind::Uts => self.uts,
            NamespaceKind::Ipc => self.ipc,
            NamespaceKind::Net => self.net,
            NamespaceKind::Pid => self.pid,
        }
    }

    /// The set of no kind at all.
    pub open spec fn spec_none() -> NamespaceSet {
        NamespaceSet { mount: false, uts: false, ipc: false, net: false, pid: false }
    }

    /// The set of all five kinds.
    pub open spec fn spec_all() -> NamespaceSet {
        NamespaceSet { mount: true, uts: true, ipc: true, net: true, pid: true }
    }

    /// What `kind` adds to the flag word of this set.
    pub open spec fn share(self, kind: NamespaceKind) -> int {
        if self.contains(kind) {
            kind.flag()
        } else {
            0
        }
    }

    /// The flag word of the set: the flags of its kinds, which are distinct
    /// bits, taken together.
    pub open spec fn flag_word(self) -> int {
        self.share(NamespaceKind::Mount) + self.share(NamespaceKind::Uts) + self.share(
            NamespaceKind::Ipc,
        ) + self.share(NamespaceKind::Pid) + self.share(NamespaceKind::Net)
    }

    /// The request that asks for nothing.
    #[verifier::when_used_as_spec(spec_none)]
    pub fn none() -> (set: NamespaceSet)
        ensures
            set == Self::spec_none(),
            forall|kind: NamespaceKind| !set.contains(kind),
    {
        NamespaceSet { mount: false, uts: false, ipc: false, net: false, pid: false }
    }

    /// The request that isolates a container: mount, UTS, IPC, network and
    /// PID namespace, all in one.
    #[verifier::when_used_as_spec(spec_all)]
    pub fn all() -> (set: NamespaceSet)
        ensures
            set == Self::spec_all(),
            forall|kind: NamespaceKind| set.contains(kind),
    {
        NamespaceSet { mount: true, uts: true, ipc: true, net: true, pid: true }
    }

    /// Whether the set asks for nothing.
    pub fn is_empty(&self) -> (empty: bool)
        ensures
            empty == (*self == Self::spec_none()),
            empty == (forall|kind: NamespaceKind| !self.contains(kind)),
    {
        let empty = !self.mount && !self.uts && !self.ipc && !self.net && !self.pid;
        proof {
            if !empty {
                let witness = if self.mount {
                    NamespaceKind::Mount
                } else if self.uts {
                    NamespaceKind::Uts
                } else if self.ipc {
                    NamespaceKind::Ipc
                } else if self.net {
                    NamespaceKind::Net
                } else {
                    NamespaceKind::Pid
                };
                assert(self.contains(witness));
            }
        }
        empty
    }

    /// Whether the set holds `kind`.
    pub fn has(&self, kind: NamespaceKind) -> (held: bool)
        ensures
            held == self.contains(kind),
    {
        match kind {
            NamespaceKind::Mount => self.mount,
            NamespaceKind::Uts => self.uts,
            NamespaceKind::Ipc => self.ipc,
            NamespaceKind::Net => self.net,
            NamespaceKind::Pid => self.pid,
        }
    }

    /// The flag word to hand to `unshare(2)` for this set, built from the flag
    /// values that `nix` exports.
    pub fn bits(&self) -> (word: i32)
        ensures
            word == self.flag_word(),
    {
        let mut word: i32 = 0;
        if self.mount {
            proof {
                lemma_join(word, 0x0002_0000);
            }
            word = word | newns_bits();
        }
        if self.uts {
            proof {
                lemma_join(word, 0x0400_0000);
            }
            word = word | newuts_bits();
        }
        if self.ipc {
            proof {
                lemma_join(word, 0x0800_0000);
            }
            word = word | newipc_bits();
        }
        if self.pid {
            proof {
                lemma_join(word, 0x2000_0000);
            }
            word = word | newpid_bits();
        }
        if self.net {
            proof {
                lemma_join(word, 0x4000_0000);
            }
            word = word | newnet_bits();
        }
        word
    }

    /// The flag word tells the sets apart: two sets with the same word hold the
    /// same kinds.
    pub proof fn lemma_flag_word_injective(a: NamespaceSet, b: NamespaceSet)
        requires
            a.flag_word() == b.flag_word(),
        ensures
            a == b,
    {
    }

    /// The word of the full set is the five flags together, and the word of the
    /// empty set is zero.
    pub proof fn lemma_flag_word_bounds(set: NamespaceSet)
        ensures
            0 <= set.flag_word() <= 0x6c02_0000,
            set.flag_word() == 0 <==> set == Self::spec_none(),
            set.flag_word() == 0x6c02_0000 <==> set == Self::spec_all(),
    {
    }
}

/// What the namespace hook does at `at`, told `outcome` of the request it was
/// waiting for.
///
/// The hook asks for all of `unshare` in a single request, so that either
/// every namespace is new or none is. With nothing to ask for it is done at
/// once. A request that does not succeed is fatal: the child must end before
/// any image is loaded.
pub open spec fn hook_step(unshare: NamespaceSet, at: Progress, outcome: Outcome) -> StepView {
    match at {
        Progress::Entry => if unshare == NamespaceSet::spec_none() {
            StepView::Complete
        } else {
            StepView::Perform {
                next: Progress::Unsharing,
                action: ActionView::Unshare { namespaces: unshare },
            }
        },
        Progress::Unsharing => if outcome == Outcome::Done {
            StepView::Complete
        } else {
            StepView::Fatal { fault: Fault::Namespaces }
        },
        _ => StepView::Fatal { fault: Fault::Protocol },
    }
}

/// The hook that a freshly forked child runs before its image is loaded.
///
/// It allocates nothing, so it may run between `fork` and `exec`.
pub fn namespace_hook(unshare: NamespaceSet, at: Progress, outcome: Outcome) -> (step: Step)
    ensures
        step@ == hook_step(unshare, at, outcome),
{
    match at {
        Progress::Entry => if unshare.is_empty() {
            Step::Complete
        } else {
            Step::Perform {
                next: Progress::Unsharing,
                action: Action::Unshare { namespaces: unshare },
            }
        },
        Progress::Unsharing => match outcome {
            Outcome::Done => Step::Complete,
            _ => Step::Fatal { fault: Fault::Namespaces },
        },
        _ => Step::Fatal { fault: Fault::Protocol },
    }
}

/// What the host name setter does at `at`, told `outcome` of the action it
/// was waiting for: it asks for `hostname` to be set, and a request that does
/// not succeed is fatal.
pub open spec fn hostname_step(hostname: Seq<char>, at: Progress, outcome: Outcome) -> StepView {
    match at {
        Progress::Entry => StepView::Perform {
            next: Progress::NamingHost,
            action: ActionView::SetHostname { name: hostname },
        },
        Progress::NamingHost => if outcome == Outcome::Done {
            StepView::Complete
        } else {
            StepView::Fatal { fault: Fault::Hostname }
        },
        _ => StepView::Fatal { fault: Fault::Protocol },
    }
}

/// Sets the host name of the UTS namespace that the process is in.
///
/// Call it with `Progress::Entry` to begin, then with the progress it gave
/// and the outcome of the action it asked for.
pub fn set_hostname(hostname: &str, at: Progress, outcome: Outcome) -> (step: Step)
    ensures
        step@ == hostname_step(hostname@, at, outcome),
{
    match at {
        Progress::Entry => Step::Perform {
            next: Progress::NamingHost,
            action: Action::SetHostname { name: hostname.to_owned() },
        },
        Progress::NamingHost => match outcome {
            Outcome::Done => Step::Complete,
            _ => Step::Fatal { fault: Fault::Hostname },
        },
        _ => Step::Fatal { fault: Fault::Protocol },
    }
}

/// Joining one of the five flags to a word below it: no bit of the word is
/// the flag's, so the union is the sum.
proof fn lemma_join(word: i32, flag: i32)
    by (bit_vector)
    requires
        0 <= word < flag,
        flag == 0x0002_0000 || flag == 0x0400_0000 || flag == 0x0800_0000 || flag == 0x2000_0000
            || flag == 0x4000_0000,
    ensures
        word | flag == word + flag,
{
}

/// `nix::sched::CloneFlags::CLONE_NEWNS`, as `bits()` gives it: the flag of
/// a new mount namespace, which `nix` takes from `libc` and which is 0x20000 on
/// Linux.
#[verifier::external_body]
fn newns_bits() -> (bits: i32)
    ensures
        bits == NamespaceKind::Mount.flag(),
{
    CloneFlags::CLONE_NEWNS.bits()
}

/// `nix::sched::CloneFlags::CLONE_NEWUTS`, as `bits()` gives it: the flag of
/// a new UTS namespace, 0x4000000 on Linux.
#[verifier::external_body]
fn newuts_bits() -> (bits: i32)
    ensures
        bits == NamespaceKind::Uts.flag(),
{
    CloneFlags::CLONE_NEWUTS.bits()
}

/// `nix::sched::CloneFlags::CLONE_NEWIPC`, as `bits()` gives it: the flag of
/// a new IPC namespace, 0x8000000 on Linux.
#[verifier::external_body]
fn newipc_bits() -> (bits: i32)
    ensures
        bits == NamespaceKind::Ipc.flag(),
{
    CloneFlags::CLONE_NEWIPC.bits()
}

/// `nix::sched::CloneFlags::CLONE_NEWPID`, as `bits()` gives it: the flag of
/// a new PID namespace, 0x20000000 on Linux.
#[verifier::external_body]
fn newpid_bits() -> (bits: i32)
    ensures
        bits == NamespaceKind::Pid.flag(),
{
    CloneFlags::CLONE_NEWPID.bits()
}

/// `nix::sched::CloneFlags::CLONE_NEWNET`, as `bits()` gives it: the flag of
/// a new network namespace, 0x40000000 on Linux.
#[verifier::external_body]
fn newnet_bits() -> (bits: i32)
    ensures
        bits == NamespaceKind::Net.flag(),
{
    CloneFlags::CLONE_NEWNET.bits()
}

} // verus!
