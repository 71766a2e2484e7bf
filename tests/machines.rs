use flatpak_sync::{
    CommandOutput, ConnectError, ConnectStage, CredentialHandle, CredentialProvisioner, ExecError,
    Flatpak, GuiMessage, ProvisionError, ProvisionPhase, ProvisionStep, RemoteSession,
    RemoteTarget, RunAction, RunError, RunPhase, SessionState, SyncRun, GUI,
};

fn credential() -> CredentialHandle {
    CredentialHandle {
        key_file_path: String::from("/keys/desk.local_sync-key"),
        host_identifier: String::from("desk.local"),
    }
}

fn target() -> RemoteTarget {
    RemoteTarget::new("alice", "desk.local", 22)
}

fn output(status: i32, stderr: &str) -> CommandOutput {
    CommandOutput { stdout: String::new(), stderr: String::from(stderr), exit_status: status }
}

#[test]
fn execute_while_disconnected_is_refused() {
    let s = RemoteSession::new();
    assert!(matches!(s.execute("flatpak list"), Err(ExecError::NotConnected)));
    assert_eq!(s.state(), SessionState::Disconnected);
}

#[test]
fn connect_without_readable_key() {
    let mut s = RemoteSession::new();
    assert!(matches!(s.connect(&target(), &credential(), false), Err(ConnectError::NoCredential)));
    assert_eq!(s.state(), SessionState::Disconnected);
}

#[test]
fn session_lifecycle() {
    let mut s = RemoteSession::new();
    let req = s.connect(&target(), &credential(), true).unwrap();
    assert_eq!(req.host, "desk.local");
    assert_eq!(req.port, 22);
    assert_eq!(req.username, "alice");
    assert_eq!(req.key_file_path, "/keys/desk.local_sync-key");
    assert_eq!(s.state(), SessionState::Connecting);
    assert!(matches!(s.connect(&target(), &credential(), true), Err(ConnectError::NotDisconnected)));
    assert!(s.connect_finished(Ok(())).is_ok());
    assert_eq!(s.state(), SessionState::Connected);
    assert_eq!(s.execute("echo hi").unwrap(), "echo hi");
    let lost = s.execute_finished(Err(String::from("channel closed")));
    assert!(matches!(lost, Err(ExecError::SessionLost(ref d)) if d == "channel closed"));
    let ran = s.execute_finished(Ok(output(3, "bad"))).unwrap();
    assert_eq!(ran.exit_status, 3);
    assert!(s.disconnect());
    assert_eq!(s.state(), SessionState::Disconnecting);
    let e = s.disconnect_finished(Err(String::from("eof"))).unwrap_err();
    assert_eq!(e.detail, "eof");
    assert_eq!(s.state(), SessionState::Disconnected);
}

#[test]
fn connection_failure_reports_stage() {
    let mut s = RemoteSession::new();
    s.connect(&target(), &credential(), true).unwrap();
    let r = s.connect_finished(Err((ConnectStage::Authentication, String::from("denied"))));
    match r {
        Err(ConnectError::ConnectionFailed { stage, detail }) => {
            assert_eq!(stage, ConnectStage::Authentication);
            assert_eq!(detail, "denied");
        }
        _ => panic!("expected a connection failure"),
    }
    assert_eq!(s.state(), SessionState::Disconnected);
}

#[test]
fn disconnect_twice_is_harmless() {
    let mut s = RemoteSession::new();
    s.connect(&target(), &credential(), true).unwrap();
    s.connect_finished(Ok(())).unwrap();
    assert!(s.disconnect());
    assert!(s.disconnect_finished(Ok(())).is_ok());
    assert!(!s.disconnect());
    assert_eq!(s.state(), SessionState::Disconnected);
    let mut fresh = RemoteSession::new();
    assert!(!fresh.disconnect());
    assert!(!fresh.disconnect());
}

#[test]
fn provision_twice_reuses_the_first_key() {
    let prov = CredentialProvisioner::new("/keys");
    let t = target();
    let (mut p, step) = prov.provision(&t, false, false);
    assert!(matches!(step, ProvisionStep::CreateDirectory(ref d) if d == "/keys"));
    let step = p.directory_ready(Ok(()));
    match step {
        ProvisionStep::RemoveKeyFiles { private_key, public_key } => {
            assert_eq!(private_key, "/keys/desk.local_sync-key");
            assert_eq!(public_key, "/keys/desk.local_sync-key.pub");
        }
        _ => panic!("expected removal of stale keys"),
    }
    let step = p.key_files_removed();
    match step {
        ProvisionStep::GenerateKey(args) => {
            assert_eq!(args[5], "/keys/desk.local_sync-key");
            assert_eq!(args[7], "flatpak-sync@desk.local");
        }
        _ => panic!("expected key generation"),
    }
    let step = p.key_generated(Ok(()));
    match step {
        ProvisionStep::InstallKey(args) => {
            assert_eq!(args, vec!["-i", "/keys/desk.local_sync-key", "-p", "22", "alice@desk.local"]);
        }
        _ => panic!("expected key installation"),
    }
    let first = match p.key_installed(Ok(())) {
        ProvisionStep::Done(Ok(h)) => h,
        _ => panic!("expected a credential"),
    };
    assert_eq!(first.host_identifier, "desk.local");
    assert_eq!(p.phase(), ProvisionPhase::Finished);
    let (p2, step) = prov.provision(&t, false, true);
    assert_eq!(p2.phase(), ProvisionPhase::Finished);
    match step {
        ProvisionStep::Done(Err(ProvisionError::AlreadyProvisioned(path))) => {
            assert_eq!(path, first.key_file_path)
        }
        _ => panic!("expected reuse"),
    }
}

#[test]
fn forced_provision_makes_a_new_key() {
    let prov = CredentialProvisioner::new("/keys");
    let (p, step) = prov.provision(&target(), true, true);
    assert!(matches!(step, ProvisionStep::CreateDirectory(_)));
    assert_eq!(p.phase(), ProvisionPhase::CreatingDirectory);
}

#[test]
fn provision_directory_failure() {
    let prov = CredentialProvisioner::new("/keys");
    let (mut p, _) = prov.provision(&target(), false, false);
    let step = p.directory_ready(Err(String::from("permission denied")));
    assert!(matches!(step,
        ProvisionStep::Done(Err(ProvisionError::DirectoryUnavailable(ref d))) if d == "permission denied"));
}

#[test]
fn provision_keygen_failure_discards_partial_keys() {
    let prov = CredentialProvisioner::new("/keys");
    let (mut p, _) = prov.provision(&target(), false, false);
    p.directory_ready(Ok(()));
    p.key_files_removed();
    let step = p.key_generated(Err(String::from("no ssh-keygen")));
    assert!(matches!(step, ProvisionStep::RemoveKeyFiles { .. }));
    let step = p.key_files_removed();
    assert!(matches!(step,
        ProvisionStep::Done(Err(ProvisionError::KeyGenerationFailed(ref d))) if d == "no ssh-keygen"));
}

#[test]
fn provision_install_failure_discards_keys() {
    let prov = CredentialProvisioner::new("/keys");
    let (mut p, _) = prov.provision(&target(), false, false);
    p.directory_ready(Ok(()));
    p.key_files_removed();
    p.key_generated(Ok(()));
    let step = p.key_installed(Err(String::from("wrong password")));
    assert!(matches!(step, ProvisionStep::RemoveKeyFiles { .. }));
    let step = p.key_files_removed();
    assert!(matches!(step,
        ProvisionStep::Done(Err(ProvisionError::KeyInstallFailed(ref d))) if d == "wrong password"));
}

fn pkg(name: &str, options: &str, sync: bool) -> Flatpak {
    let mut f = Flatpak::new(name, options);
    f.should_sync = sync;
    f
}

#[test]
fn empty_run_never_connects() {
    let (run, action) = SyncRun::start(&target(), &Vec::new());
    assert_eq!(run.phase(), RunPhase::Finished);
    match action {
        RunAction::Finished(Ok(rep)) => assert!(rep.outcomes.is_empty()),
        _ => panic!("expected an empty report"),
    }
    let list = vec![pkg("a", "user", false), pkg("b", "system", false)];
    let (run, action) = SyncRun::start(&target(), &list);
    assert_eq!(run.phase(), RunPhase::Finished);
    assert!(matches!(action, RunAction::Finished(Ok(ref rep)) if rep.outcomes.is_empty()));
}

#[test]
fn end_to_end_only_selected_package_is_attempted() {
    let list = vec![pkg("org.app.One", "user", true), pkg("org.app.Two", "system", false)];
    let (mut run, action) = SyncRun::start(&target(), &list);
    match action {
        RunAction::Provision(t) => {
            assert_eq!(t.username, "alice");
            assert_eq!(t.host, "desk.local");
            assert_eq!(t.port, 22);
        }
        _ => panic!("expected provisioning"),
    }
    let action = run.credential_ready(Ok(credential()), true);
    assert!(matches!(action, RunAction::Connect(ref r) if r.key_file_path == "/keys/desk.local_sync-key"));
    let action = run.connected(Ok(()));
    match action {
        RunAction::Execute(c) => assert_eq!(c, "flatpak install --user 'org.app.One' -y"),
        _ => panic!("expected an install"),
    }
    let action = run.executed(Ok(output(0, "")));
    assert!(matches!(action, RunAction::Disconnect));
    match run.disconnected(Ok(())) {
        RunAction::Finished(Ok(rep)) => {
            assert_eq!(rep.outcomes.len(), 1);
            assert_eq!(rep.outcomes[0].package_name, "org.app.One");
            assert!(rep.outcomes[0].succeeded);
            assert!(rep.outcomes[0].diagnostic.is_none());
            assert!(rep.disconnect_warning.is_none());
            assert!(!rep.session_lost);
            assert!(rep.all_succeeded());
        }
        _ => panic!("expected a report"),
    }
}

#[test]
fn session_loss_skips_the_rest() {
    let list = vec![pkg("p1", "user", true), pkg("p2", "user", true), pkg("p3", "system", true)];
    let (mut run, _) = SyncRun::start(&target(), &list);
    let reuse = Err(ProvisionError::AlreadyProvisioned(String::from("/keys/old")));
    assert!(matches!(run.credential_ready(reuse, true), RunAction::Connect(ref r) if r.key_file_path == "/keys/old"));
    assert!(matches!(run.connected(Ok(())), RunAction::Execute(_)));
    match run.executed(Ok(output(1, "not found"))) {
        RunAction::Execute(c) => assert_eq!(c, "flatpak install --user 'p2' -y"),
        _ => panic!("expected the second install"),
    }
    assert!(matches!(run.executed(Err(String::from("broken pipe"))), RunAction::Disconnect));
    match run.disconnected(Err(String::from("already gone"))) {
        RunAction::Finished(Ok(rep)) => {
            assert_eq!(rep.outcomes.len(), 3);
            assert!(!rep.outcomes[0].succeeded);
            assert_eq!(rep.outcomes[0].diagnostic.as_deref(), Some("not found"));
            assert!(!rep.outcomes[1].succeeded);
            assert_eq!(rep.outcomes[1].diagnostic.as_deref(), Some("broken pipe"));
            assert_eq!(rep.outcomes[2].package_name, "p3");
            assert!(!rep.outcomes[2].succeeded);
            assert_eq!(rep.outcomes[2].diagnostic.as_deref(), Some("skipped: session lost"));
            assert!(rep.session_lost);
            assert_eq!(rep.disconnect_warning.as_deref(), Some("already gone"));
            assert!(!rep.all_succeeded());
        }
        _ => panic!("expected a report"),
    }
}

#[test]
fn provisioning_failure_aborts_the_run() {
    let list = vec![pkg("p1", "user", true)];
    let (mut run, _) = SyncRun::start(&target(), &list);
    let action = run.credential_ready(Err(ProvisionError::KeyInstallFailed(String::from("x"))), true);
    assert!(matches!(action, RunAction::Finished(Err(RunError::Provisioning(_)))));
    assert_eq!(run.phase(), RunPhase::Finished);
}

#[test]
fn unreadable_key_aborts_before_connecting() {
    let list = vec![pkg("p1", "user", true)];
    let (mut run, _) = SyncRun::start(&target(), &list);
    let action = run.credential_ready(Ok(credential()), false);
    assert!(matches!(action, RunAction::Finished(Err(RunError::Connection(ConnectError::NoCredential)))));
}

#[test]
fn connection_failure_aborts_the_run() {
    let list = vec![pkg("p1", "user", true)];
    let (mut run, _) = SyncRun::start(&target(), &list);
    run.credential_ready(Ok(credential()), true);
    let action = run.connected(Err((ConnectStage::Transport, String::from("unreachable"))));
    assert!(matches!(action,
        RunAction::Finished(Err(RunError::Connection(ConnectError::ConnectionFailed { stage: ConnectStage::Transport, .. })))));
}

#[test]
fn gui_selection_updates() {
    let list = vec![pkg("a", "user", true), pkg("b", "system", true), pkg("a", "system", true)];
    let mut gui = GUI::with_flatpak_list(list);
    gui.update(GuiMessage::SetFlatpakShouldSync(String::from("b"), false));
    gui.update(GuiMessage::SetFlatpakShouldSync(String::from("zzz"), false));
    let shown = gui.flatpaks();
    let b = shown.iter().find(|f| f.name == "b").unwrap();
    assert!(!b.should_sync);
    assert!(shown.iter().filter(|f| f.name == "a").all(|f| f.should_sync));
    assert!(!gui.close_requested());
    gui.update(GuiMessage::CloseApplication);
    assert!(gui.close_requested());
}
