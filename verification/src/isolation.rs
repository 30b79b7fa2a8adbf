//! Where the processes of a launch live.
//!
//! This is a model of how Linux places a process in namespaces, as
//! `unshare(2)`, `fork(2)` and `pid_namespaces(7)` describe it. On it rests
//! the reason for three stages: a request for a new PID namespace moves the
//! children that the process has from then on, never the process itself. What
//! is proved here is proved of the model and of the requests that the stages
//! make; that the kernel behaves as the model says is taken from its manual.
use crate::config::ConfigView;
use crate::container::{child_step, start_step};
use crate::namespaces::{hook_step, NamespaceKind, NamespaceSet};
use crate::step::{ActionView, Outcome, Progress, StepView};
use vstd::prelude::*;

verus! {

/// The namespaces of one process, each named by a number.
pub struct Residence {
    pub mount: nat,
    pub uts: nat,
    pub ipc: nat,
    pub net: nat,
    /// The PID namespace that the process is in.
    pub pid: nat,
    /// The PID namespace that the children of the process are created in.
    pub pid_for_children: nat,
    /// Whether the process has created no child in `pid_for_children` yet and
    /// that namespace has no process: its next child is the first there.
    pub next_child_is_first: bool,
    /// Whether the process is the first of its PID namespace, process 1.
    pub first: bool,
}

/// The numbers of the namespaces that a request would create, by kind.
pub struct Fresh {
    pub mount: nat,
    pub uts: nat,
    pub ipc: nat,
    pub net: nat,
    pub pid: nat,
}

impl Residence {
    /// The namespace of `kind` that the process is in.
    pub open spec fn of(self, kind: NamespaceKind) -> nat {
        match kind {
            NamespaceKind::Mount => self.mount,
            NamespaceKind::Uts => self.uts,
            NamespaceKind::Ipc => self.ipc,
            NamespaceKind::Net => self.net,
            NamespaceKind::Pid => self.pid,
        }
    }

    /// A process that has asked for no PID namespace: its children are
    /// created where it is, beside it.
    pub open spec fn settled(self) -> bool {
        self.pid_for_children == self.pid && !self.next_child_is_first
    }
}

impl Fresh {
    /// The new namespace of `kind`.
    pub open spec fn of(self, kind: NamespaceKind) -> nat {
        match kind {
            NamespaceKind::Mount => self.mount,
            NamespaceKind::Uts => self.uts,
            NamespaceKind::Ipc => self.ipc,
            NamespaceKind::Net => self.net,
            NamespaceKind::Pid => self.pid,
        }
    }

    /// New namespaces are new: none is one that `process` is in.
    pub open spec fn new_to(self, process: Residence) -> bool {
        &&& forall|kind: NamespaceKind| #[trigger] self.of(kind) != process.of(kind)
        &&& self.pid != process.pid_for_children
    }
}

/// The process after its request for the kinds in `set` has succeeded. For
/// mount, UTS, IPC and network the process is in the new namespace at once.
/// For PID it stays where it is, and the new namespace, which is empty, is
/// where its children go from then on.
pub open spec fn unshared(process: Residence, set: NamespaceSet, fresh: Fresh) -> Residence {
    Residence {
        mount: if set.mount {
            fresh.mount
        } else {
            process.mount
        },
        uts: if set.uts {
            fresh.uts
        } else {
            process.uts
        },
        ipc: if set.ipc {
            fresh.ipc
        } else {
            process.ipc
        },
        net: if set.net {
            fresh.net
        } else {
            process.net
        },
        pid: process.pid,
        pid_for_children: if set.pid {
            fresh.pid
        } else {
            process.pid_for_children
        },
        next_child_is_first: set.pid || process.next_child_is_first,
        first: process.first,
    }
}

/// The child that `parent` creates: it is where its parent is, but for the
/// PID namespace, which is the one that the parent's children go to.
pub open spec fn forked(parent: Residence) -> Residence {
    Residence {
        pid: parent.pid_for_children,
        first: parent.next_child_is_first,
        next_child_is_first: false,
        ..parent
    }
}

/// What the namespace hook asks for when it begins with `unshare`.
pub open spec fn requested(unshare: NamespaceSet, outcome: Outcome) -> NamespaceSet {
    match hook_step(unshare, Progress::Entry, outcome) {
        StepView::Perform { action: ActionView::Unshare { namespaces }, .. } => namespaces,
        _ => NamespaceSet::spec_none(),
    }
}

/// The process that `action` of `parent` creates, as it is when its
/// namespace hook is complete and its image is loaded.
pub open spec fn spawned(parent: Residence, action: ActionView, fresh: Fresh) -> Residence
    recommends
        action is Spawn,
{
    match action {
        ActionView::Spawn { unshare, .. } => unshared(
            forked(parent),
            requested(unshare, Outcome::Done),
            fresh,
        ),
        _ => parent,
    }
}

/// The relay of a launch that the process `host` begins.
pub open spec fn relay_of(host: Residence, config: ConfigView, fresh: Fresh) -> Residence {
    spawned(host, start_step(config, Progress::Entry, Outcome::Done).1, fresh)
}

/// Init of a launch that the process `host` begins. If the relay asked for
/// namespaces of its own, they would be `more`.
pub open spec fn init_of(
    host: Residence,
    config: ConfigView,
    fresh: Fresh,
    more: Fresh,
) -> Residence {
    spawned(
        relay_of(host, config, fresh),
        child_step(config, Progress::Entry, Outcome::Done).1,
        more,
    )
}

/// The hook asks once, for all that it was given, or not at all: a request
/// is never split, so the namespaces of a container are new together.
pub proof fn lemma_hook_asks_once(unshare: NamespaceSet, at: Progress, outcome: Outcome)
    ensures
        requested(unshare, outcome) == unshare,
        hook_step(unshare, at, outcome) matches StepView::Perform { next, action } ==> at
            == Progress::Entry && next == Progress::Unsharing && action == (ActionView::Unshare {
            namespaces: unshare,
        }),
        hook_step(unshare, Progress::Unsharing, outcome) is Complete <==> outcome == Outcome::Done,
{
}

/// The relay has left the host's mount, UTS, IPC and network namespaces, but
/// not its PID namespace: there it still is, under the identifier it was
/// created with, and it is not process 1. Only its child will be.
pub proof fn lemma_relay_is_half_way(host: Residence, config: ConfigView, fresh: Fresh)
    requires
        host.settled(),
        fresh.new_to(host),
    ensures
        ({
            let relay = relay_of(host, config, fresh);
            &&& relay.mount != host.mount
            &&& relay.uts != host.uts
            &&& relay.ipc != host.ipc
            &&& relay.net != host.net
            &&& relay.pid == host.pid
            &&& !relay.first
            &&& relay.pid_for_children == fresh.pid
            &&& relay.next_child_is_first
        }),
{
    assert(fresh.of(NamespaceKind::Mount) != host.of(NamespaceKind::Mount));
    assert(fresh.of(NamespaceKind::Uts) != host.of(NamespaceKind::Uts));
    assert(fresh.of(NamespaceKind::Ipc) != host.of(NamespaceKind::Ipc));
    assert(fresh.of(NamespaceKind::Net) != host.of(NamespaceKind::Net));
}

/// Init shares no namespace with the host, of any of the five kinds, and is
/// process 1 of its PID namespace. It is in the very namespaces that the one
/// request of the relay's hook created.
pub proof fn lemma_init_is_isolated(host: Residence, config: ConfigView, fresh: Fresh, more: Fresh)
    requires
        host.settled(),
        fresh.new_to(host),
    ensures
        ({
            let init = init_of(host, config, fresh, more);
            &&& forall|kind: NamespaceKind| #[trigger] init.of(kind) != host.of(kind)
            &&& forall|kind: NamespaceKind| #[trigger] init.of(kind) == fresh.of(kind)
            &&& init.first
            &&& init.settled()
        }),
{
    lemma_relay_is_half_way(host, config, fresh);
    let init = init_of(host, config, fresh, more);
    assert forall|kind: NamespaceKind| #[trigger] init.of(kind) == fresh.of(kind) by {}
    assert forall|kind: NamespaceKind| #[trigger] init.of(kind) != host.of(kind) by {
        assert(fresh.of(kind) != host.of(kind));
    }
}

/// What changes the container's surroundings is asked for by init alone:
/// the host name, the root, the mount of `/proc` and the command are requests
/// of a process that shares no namespace with the host. Host and relay ask
/// for none of them.
pub proof fn lemma_setup_stays_inside(
    host: Residence,
    config: ConfigView,
    fresh: Fresh,
    more: Fresh,
    at: Progress,
    outcome: Outcome,
)
    requires
        host.settled(),
        fresh.new_to(host),
    ensures
        ({
            let by_host = start_step(config, at, outcome).1;
            let by_relay = child_step(config, at, outcome).1;
            &&& !(by_host is SetHostname) && !(by_host is ChangeRoot) && !(by_host is Mount)
                && !(by_host is Exec)
            &&& !(by_relay is SetHostname) && !(by_relay is ChangeRoot) && !(by_relay is Mount)
                && !(by_relay is Exec)
        }),
        init_of(host, config, fresh, more).uts != host.uts,
        init_of(host, config, fresh, more).mount != host.mount,
        init_of(host, config, fresh, more).pid != host.pid,
        init_of(host, config, fresh, more).first,
{
    lemma_init_is_isolated(host, config, fresh, more);
    let init = init_of(host, config, fresh, more);
    assert(init.of(NamespaceKind::Uts) != host.of(NamespaceKind::Uts));
    assert(init.of(NamespaceKind::Mount) != host.of(NamespaceKind::Mount));
    assert(init.of(NamespaceKind::Pid) != host.of(NamespaceKind::Pid));
}

} // verus!
