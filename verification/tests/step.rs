use rustyrun::step::Fault;

#[test]
fn every_fault_names_its_step() {
    assert_eq!(Fault::Namespaces.message(), "failed to unshare namespaces");
    assert_eq!(Fault::Spawn.message(), "failed to spawn child process");
    assert_eq!(Fault::Wait.message(), "failed to wait on child process");
    assert_eq!(Fault::Hostname.message(), "failed to set hostname");
    assert_eq!(Fault::ChangeRoot.message(), "failed to chroot");
    assert_eq!(Fault::ChangeDir.message(), "failed to change directory to /");
    assert_eq!(Fault::CreateProcDir.message(), "failed to create /proc directory");
    assert_eq!(Fault::MountProc.message(), "failed to mount /proc");
    assert_eq!(Fault::Exec.message(), "failed to execute command");
    assert_eq!(Fault::Protocol.message(), "stage resumed out of order");
}

#[test]
fn fault_messages_differ() {
    let faults = [
        Fault::Namespaces,
        Fault::Spawn,
        Fault::Wait,
        Fault::Hostname,
        Fault::ChangeRoot,
        Fault::ChangeDir,
        Fault::CreateProcDir,
        Fault::MountProc,
        Fault::Exec,
        Fault::Protocol,
    ];
    for (i, a) in faults.iter().enumerate() {
        for (j, b) in faults.iter().enumerate() {
            assert_eq!(a.message() == b.message(), i == j);
        }
    }
}
