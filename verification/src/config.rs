//! The configuration that travels from process to process.
use vstd::prelude::*;

verus! {

/// What a container is made of: the directory that becomes its root, the
/// program that runs in it and the host name it sees. All three are there:
/// none is empty, and none changes once the configuration is made.
#[derive(Debug, PartialEq, Eq)]
pub struct ContainerConfig {
    rootfs: String,
    command: String,
    hostname: String,
}

/// A configuration as three sequences of characters.
pub struct ConfigView {
    /// Path of the directory that becomes `/` inside the container.
    pub rootfs: Seq<char>,
    /// Path of the program that init replaces itself with.
    pub command: Seq<char>,
    /// Host name set inside the container's UTS namespace.
    pub hostname: Seq<char>,
}

impl ConfigView {
    /// Every field is present: none of the three is empty.
    pub open spec fn well_formed(self) -> bool {
        &&& self.rootfs.len() > 0
        &&& self.command.len() > 0
        &&& self.hostname.len() > 0
    }
}

impl View for ContainerConfig {
    type V = ConfigView;

    closed spec fn view(&self) -> ConfigView {
        ConfigView { rootfs: self.rootfs@, command: self.command@, hostname: self.hostname@ }
    }
}

impl ContainerConfig {
    #[verifier::type_invariant]
    spec fn present(self) -> bool {
        self@.well_formed()
    }

    /// Collects the three fields, each exactly as given. None may be empty.
    pub fn new(rootfs: String, command: String, hostname: String) -> (config: Self)
        requires
            rootfs@.len() > 0,
            command@.len() > 0,
            hostname@.len() > 0,
        ensures
            config@ == (ConfigView { rootfs: rootfs@, command: command@, hostname: hostname@ }),
            config@.well_formed(),
    {
        ContainerConfig { rootfs, command, hostname }
    }

    /// Collects the three fields, each exactly as given, unless one of them
    /// is empty.
    pub fn try_new(rootfs: String, command: String, hostname: String) -> (config: Option<Self>)
        ensures
            config is Some <==> rootfs@.len() > 0 && command@.len() > 0 && hostname@.len() > 0,
            config matches Some(made) ==> made@ == (ConfigView {
                rootfs: rootfs@,
                command: command@,
                hostname: hostname@,
            }) && made@.well_formed(),
    {
        if rootfs.as_str().is_empty() || command.as_str().is_empty()
            || hostname.as_str().is_empty() {
            None
        } else {
            Some(ContainerConfig::new(rootfs, command, hostname))
        }
    }

    /// Path of the directory that becomes `/` inside the container.
    pub fn rootfs(&self) -> (text: &String)
        ensures
            text@ == self@.rootfs,
            text@.len() > 0,
    {
        proof {
            use_type_invariant(self);
        }
        &self.rootfs
    }

    /// Path of the program that init replaces itself with.
    pub fn command(&self) -> (text: &String)
        ensures
            text@ == self@.command,
            text@.len() > 0,
    {
        proof {
            use_type_invariant(self);
        }
        &self.command
    }

    /// Host name set inside the container's UTS namespace.
    pub fn hostname(&self) -> (text: &String)
        ensures
            text@ == self@.hostname,
            text@.len() > 0,
    {
        proof {
            use_type_invariant(self);
        }
        &self.hostname
    }
}

impl Clone for ContainerConfig {
    /// A second configuration with the same three fields.
    fn clone(&self) -> (copy: Self)
        ensures
            copy@ == self@,
            copy@.well_formed(),
    {
        proof {
            use_type_invariant(self);
        }
        ContainerConfig {
            rootfs: self.rootfs.clone(),
            command: self.command.clone(),
            hostname: self.hostname.clone(),
        }
    }
}

} // verus!
