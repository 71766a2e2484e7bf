use crate::commands::{install_command, install_command_of, RemoteTarget};
use crate::package::{models, Flatpak, PackageModel};
use crate::provision::{CredentialHandle, ProvisionError};
use crate::session::{
    CommandOutput, ConnectError, ConnectRequest, ConnectStage, ExecError, RemoteSession,
    SessionState,
};
use vstd::prelude::*;

verus! {

/// What the library reasons about when it speaks of an outcome.
pub struct OutcomeModel {
    pub package_name: Seq<char>,
    pub succeeded: bool,
    pub diagnostic: Option<Seq<char>>,
}

/// The recorded result of attempting to install one package.
#[derive(Clone, Debug)]
pub struct InstallOutcome {
    pub package_name: String,
    pub succeeded: bool,
    pub diagnostic: Option<String>,
}

pub open spec fn text_opt(o: Option<String>) -> Option<Seq<char>> {
    match o {
        Some(s) => Some(s@),
        None => None,
    }
}

impl View for InstallOutcome {
    type V = OutcomeModel;

    open spec fn view(&self) -> OutcomeModel {
        OutcomeModel {
            package_name: self.package_name@,
            succeeded: self.succeeded,
            diagnostic: text_opt(self.diagnostic),
        }
    }
}

/// The models of a sequence of outcomes, in order.
pub open spec fn outcome_models(s: Seq<InstallOutcome>) -> Seq<OutcomeModel> {
    s.map_values(|o: InstallOutcome| o@)
}

/// The packages that are selected for synchronisation, in their order.
pub open spec fn selected(pkgs: Seq<PackageModel>) -> Seq<PackageModel>
    decreases pkgs.len(),
{
    if pkgs.len() == 0 {
        seq![]
    } else {
        let rest = selected(pkgs.drop_last());
        if pkgs.last().should_sync {
            rest.push(pkgs.last())
        } else {
            rest
        }
    }
}

/// The diagnostic of a package that was never attempted because the session
/// broke before its turn.
pub open spec fn skipped_message() -> Seq<char> {
    "skipped: session lost"@
}

pub open spec fn skipped_outcome(p: PackageModel) -> OutcomeModel {
    OutcomeModel { package_name: p.name, succeeded: false, diagnostic: Some(skipped_message()) }
}

/// The outcomes of the packages from position `k` on, none of them attempted.
pub open spec fn skipped_from(pkgs: Seq<PackageModel>, k: int) -> Seq<OutcomeModel> {
    pkgs.subrange(k, pkgs.len() as int).map_values(|p: PackageModel| skipped_outcome(p))
}

/// The outcome of an install command that ran: it succeeded exactly when
/// it exited with status zero, and a failure carries its error output.
pub open spec fn command_outcome(p: PackageModel, exit_status: i32, stderr: Seq<char>) -> OutcomeModel {
    OutcomeModel {
        package_name: p.name,
        succeeded: exit_status == 0,
        diagnostic: if exit_status == 0 {
            None
        } else {
            Some(stderr)
        },
    }
}

/// The outcome of the package during whose install the session broke.
pub open spec fn lost_outcome(p: PackageModel, detail: Seq<char>) -> OutcomeModel {
    OutcomeModel { package_name: p.name, succeeded: false, diagnostic: Some(detail) }
}

/// The outcomes once the session broke while installing package `k`: what
/// was recorded before, `k` failed, every later package skipped.
pub open spec fn outcomes_after_loss(
    pkgs: Seq<PackageModel>,
    done: Seq<OutcomeModel>,
    detail: Seq<char>,
) -> Seq<OutcomeModel> {
    done.push(lost_outcome(pkgs[done.len() as int], detail)) + skipped_from(
        pkgs,
        (done.len() + 1) as int,
    )
}

/// The key file that a provisioning result leaves to connect with: a new
/// credential, or the key pair that already existed.
pub open spec fn credential_path(result: Result<CredentialHandle, ProvisionError>) -> Option<
    Seq<char>,
> {
    match result {
        Ok(h) => Some(h.key_file_path@),
        Err(ProvisionError::AlreadyProvisioned(p)) => Some(p@),
        Err(_) => None,
    }
}

#[derive(Debug)]
pub enum RunError {
    /// No credential could be had; nothing was attempted.
    Provisioning(ProvisionError),
    /// No session could be established; nothing was attempted.
    Connection(ConnectError),
}

/// What a finished run reports.
#[derive(Debug)]
pub struct RunReport {
    /// One outcome per selected package, in their order.
    pub outcomes: Vec<InstallOutcome>,
    /// Why tearing the session down failed, where it did.
    pub disconnect_warning: Option<String>,
    /// Whether the session broke before every package was attempted.
    pub session_lost: bool,
}

impl RunReport {
    /// Whether every selected package was installed.
    pub fn all_succeeded(&self) -> (r: bool)
        ensures
            r == forall|j: int| 0 <= j < self.outcomes@.len() ==> #[trigger] self.outcomes@[j].succeeded,
    {
        let mut i: usize = 0;
        while i < self.outcomes.len()
            invariant
                i <= self.outcomes@.len(),
                forall|j: int| 0 <= j < i ==> #[trigger] self.outcomes@[j].succeeded,
            decreases self.outcomes@.len() - i,
        {
            if !self.outcomes[i].succeeded {
                return false;
            }
            i = i + 1;
        }
        true
    }
}

/// The next piece of outside work that a run asks for.
#[derive(Debug)]
pub enum RunAction {
    /// Obtain a credential for this target, without forcing a new key pair.
    Provision(RemoteTarget),
    /// Establish the session.
    Connect(ConnectRequest),
    /// Run this command line on the remote host.
    Execute(String),
    /// Tear the session down.
    Disconnect,
    /// The run is over.
    Finished(Result<RunReport, RunError>),
}

#[derive(Clone, Copy, Debug, PartialEq, Eq, Structural)]
pub enum RunPhase {
    Provisioning,
    Connecting,
    Installing,
    Disconnecting,
    Finished,
}

/// One synchronisation of a package list onto one target: provision a
/// credential, connect, install each selected package in order, disconnect.
pub struct SyncRun {
    target: RemoteTarget,
    packages: Vec<Flatpak>,
    outcomes: Vec<InstallOutcome>,
    session: RemoteSession,
    phase: RunPhase,
    lost: bool,
}

impl SyncRun {
    pub closed spec fn view_phase(&self) -> RunPhase {
        self.phase
    }

    /// The packages that this run installs, in order.
    pub closed spec fn view_packages(&self) -> Seq<PackageModel> {
        models(self.packages@)
    }

    /// The outcomes recorded so far.
    pub closed spec fn view_outcomes(&self) -> Seq<OutcomeModel> {
        outcome_models(self.outcomes@)
    }

    pub closed spec fn view_session(&self) -> SessionState {
        self.session.view_state()
    }

    pub closed spec fn view_target(&self) -> (Seq<char>, Seq<char>, u16) {
        (self.target.username@, self.target.host@, self.target.port)
    }

    pub closed spec fn view_lost(&self) -> bool {
        self.lost
    }

    pub closed spec fn wf(&self) -> bool {
        let n = self.packages@.len();
        let k = self.outcomes@.len();
        &&& k <= n
        &&& forall|j: int|
            0 <= j < k ==> #[trigger] self.outcomes@[j].package_name@ == self.packages@[j].name@
        &&& self.phase == RunPhase::Provisioning ==> (self.session.view_state()
            == SessionState::Disconnected && k == 0 && n > 0)
        &&& self.phase == RunPhase::Connecting ==> (self.session.view_state()
            == SessionState::Connecting && k == 0 && n > 0)
        &&& self.phase == RunPhase::Installing ==> (self.session.view_state()
            == SessionState::Connected && k < n)
        &&& self.phase == RunPhase::Disconnecting ==> (self.session.view_state()
            == SessionState::Disconnecting && k == n)
    }

    pub fn phase(&self) -> (r: RunPhase)
        ensures
            r == self.view_phase(),
    {
        self.phase
    }

    /// Starts a run of `packages` onto `target`. Only the packages selected
    /// for synchronisation take part, in their order. With none selected the
    /// run is over at once with no outcome, before any credential or
    /// connection is asked for; otherwise it asks for a credential.
    pub fn start(target: &RemoteTarget, packages: &Vec<Flatpak>) -> (r: (SyncRun, RunAction))
        ensures
            r.0.wf(),
            r.0.view_packages() == selected(models(packages@)),
            r.0.view_outcomes().len() == 0,
            r.0.view_target() == (target.username@, target.host@, target.port),
            selected(models(packages@)).len() == 0 ==> r.0.view_phase() == RunPhase::Finished,
            selected(models(packages@)).len() == 0 ==> (r.1 matches RunAction::Finished(Ok(rep))
                && rep.outcomes@.len() == 0 && rep.disconnect_warning is None && !rep.session_lost),
            selected(models(packages@)).len() > 0 ==> r.0.view_phase() == RunPhase::Provisioning,
            selected(models(packages@)).len() > 0 ==> (r.1 matches RunAction::Provision(t)
                && t.username@ == target.username@ && t.host@ == target.host@ && t.port
                == target.port),
    {
        let mut chosen: Vec<Flatpak> = Vec::new();
        let mut i: usize = 0;
        while i < packages.len()
            invariant
                i <= packages@.len(),
                models(chosen@) == selected(models(packages@).subrange(0, i as int)),
            decreases packages@.len() - i,
        {
            let ghost prev = chosen@;
            let ghost all = models(packages@);
            assert(all.subrange(0, i + 1).drop_last() =~= all.subrange(0, i as int));
            if packages[i].should_sync {
                chosen.push(packages[i].duplicate());
                assert(models(chosen@) =~= models(prev).push(all[i as int]));
            }
            i = i + 1;
        }
        assert(models(packages@).subrange(0, packages@.len() as int) =~= models(packages@));
        let session = RemoteSession::new();
        let empty = chosen.len() == 0;
        let run = SyncRun {
            target: target.duplicate(),
            packages: chosen,
            outcomes: Vec::new(),
            session,
            phase: if empty {
                RunPhase::Finished
            } else {
                RunPhase::Provisioning
            },
            lost: false,
        };
        assert(run.view_outcomes() =~= Seq::<OutcomeModel>::empty());
        if empty {
            let report = RunReport {
                outcomes: Vec::new(),
                disconnect_warning: None,
                session_lost: false,
            };
            (run, RunAction::Finished(Ok(report)))
        } else {
            (run, RunAction::Provision(target.duplicate()))
        }
    }

    /// Takes the result of provisioning. A new credential, or a key pair
    /// that already existed, leads to the connection; any other provisioning
    /// failure ends the run. A key file that cannot be read ends it with
    /// `NoCredential`, before any network work.
    pub fn credential_ready(
        &mut self,
        result: Result<CredentialHandle, ProvisionError>,
        key_readable: bool,
    ) -> (r: RunAction)
        requires
            old(self).wf(),
            old(self).view_phase() == RunPhase::Provisioning,
        ensures
            final(self).wf(),
            final(self).view_packages() == old(self).view_packages(),
            final(self).view_outcomes() == old(self).view_outcomes(),
            final(self).view_target() == old(self).view_target(),
            credential_path(result) is None ==> final(self).view_phase() == RunPhase::Finished,
            credential_path(result) is None ==> (r matches RunAction::Finished(
                Err(RunError::Provisioning(e)),
            ) && result == Err::<CredentialHandle, ProvisionError>(e)),
            credential_path(result) is Some && !key_readable ==> final(self).view_phase()
                == RunPhase::Finished,
            credential_path(result) is Some && !key_readable ==> (r matches RunAction::Finished(
                Err(RunError::Connection(ConnectError::NoCredential)),
            )),
            credential_path(result) is Some && key_readable ==> final(self).view_phase()
                == RunPhase::Connecting,
            credential_path(result) is Some && key_readable ==> (r matches RunAction::Connect(req)
                && req.username@ == old(self).view_target().0 && req.host@ == old(self).view_target().1 && req.port == old(self).view_target().2 && Some(
                req.key_file_path@,
            ) == credential_path(result)),
    {
        let credential = match result {
            Ok(h) => h,
            Err(ProvisionError::AlreadyProvisioned(p)) => CredentialHandle {
                key_file_path: p,
                host_identifier: self.target.host.clone(),
            },
            Err(e) => {
                self.phase = RunPhase::Finished;
                return RunAction::Finished(Err(RunError::Provisioning(e)));
            },
        };
        match self.session.connect(&self.target, &credential, key_readable) {
            Ok(req) => {
                self.phase = RunPhase::Connecting;
                RunAction::Connect(req)
            },
            Err(e) => {
                self.phase = RunPhase::Finished;
                RunAction::Finished(Err(RunError::Connection(e)))
            },
        }
    }

    /// The action that installs the package whose turn it is.
    fn next_install(&self) -> (r: RunAction)
        requires
            self.wf(),
            self.outcomes@.len() < self.packages@.len(),
        ensures
            r matches RunAction::Execute(c) && c@ == install_command_of(
                self.view_packages()[self.outcomes@.len() as int],
            ),
    {
        let k = self.outcomes.len();
        RunAction::Execute(install_command(&self.packages[k]))
    }

    /// Takes how establishing the session went. Failure ends the run with
    /// the failed stage and no outcome; success leads to installing the first
    /// package.
    pub fn connected(&mut self, outcome: Result<(), (ConnectStage, String)>) -> (r: RunAction)
        requires
            old(self).wf(),
            old(self).view_phase() == RunPhase::Connecting,
        ensures
            final(self).wf(),
            final(self).view_packages() == old(self).view_packages(),
            final(self).view_outcomes() == old(self).view_outcomes(),
            final(self).view_target() == old(self).view_target(),
            outcome is Err ==> final(self).view_phase() == RunPhase::Finished,
            outcome matches Err(e) ==> (r matches RunAction::Finished(
                Err(RunError::Connection(ConnectError::ConnectionFailed { stage, detail })),
            ) && stage == e.0 && detail@ == e.1@),
            outcome is Ok ==> final(self).view_phase() == RunPhase::Installing,
            outcome is Ok ==> (r matches RunAction::Execute(c) && c@ == install_command_of(
                old(self).view_packages()[0],
            )),
    {
        match self.session.connect_finished(outcome) {
            Ok(()) => {
                self.phase = RunPhase::Installing;
                self.next_install()
            },
            Err(e) => {
                self.phase = RunPhase::Finished;
                RunAction::Finished(Err(RunError::Connection(e)))
            },
        }
    }

    /// Takes what the install command of the package whose turn it is gave.
    /// A command that ran is recorded by its exit status and the run goes
    /// on with the next package; a broken session fails this package, skips
    /// every later one without sending its command, and leads to the
    /// teardown. After the last package the session is torn down.
    pub fn executed(&mut self, outcome: Result<CommandOutput, String>) -> (r: RunAction)
        requires
            old(self).wf(),
            old(self).view_phase() == RunPhase::Installing,
        ensures
            final(self).wf(),
            final(self).view_packages() == old(self).view_packages(),
            final(self).view_target() == old(self).view_target(),
            outcome matches Ok(o) ==> final(self).view_outcomes() == old(self).view_outcomes().push(
                command_outcome(
                    old(self).view_packages()[old(self).view_outcomes().len() as int],
                    o.exit_status,
                    o.stderr@,
                ),
            ),
            outcome is Ok ==> final(self).view_lost() == old(self).view_lost(),
            outcome is Ok && final(self).view_outcomes().len() < final(self).view_packages().len()
                ==> final(self).view_phase() == RunPhase::Installing,
            outcome is Ok && final(self).view_outcomes().len() < final(self).view_packages().len()
                ==> (r matches RunAction::Execute(c) && c@ == install_command_of(
                final(self).view_packages()[final(self).view_outcomes().len() as int],
            )),
            outcome is Ok && final(self).view_outcomes().len() == final(self).view_packages().len()
                ==> final(self).view_phase() == RunPhase::Disconnecting,
            outcome is Ok && final(self).view_outcomes().len() == final(self).view_packages().len()
                ==> r is Disconnect,
            outcome matches Err(d) ==> final(self).view_outcomes() == outcomes_after_loss(
                old(self).view_packages(),
                old(self).view_outcomes(),
                d@,
            ),
            outcome is Err ==> final(self).view_phase() == RunPhase::Disconnecting,
            outcome is Err ==> final(self).view_lost(),
            outcome is Err ==> r is Disconnect,
    {
        let ghost pkgs = self.view_packages();
        let ghost done = self.view_outcomes();
        let k = self.outcomes.len();
        let n = self.packages.len();
        let name = self.packages[k].name.clone();
        match self.session.execute_finished(outcome) {
            Ok(o) => {
                let ok = o.exit_status == 0;
                let diagnostic = if ok {
                    None
                } else {
                    Some(o.stderr)
                };
                self.outcomes.push(InstallOutcome { package_name: name, succeeded: ok, diagnostic });
                assert(self.view_outcomes() =~= done.push(
                    command_outcome(pkgs[k as int], o.exit_status, o.stderr@),
                ));
                if k + 1 < n {
                    self.next_install()
                } else {
                    self.session.disconnect();
                    self.phase = RunPhase::Disconnecting;
                    RunAction::Disconnect
                }
            },
            Err(e) => {
                let detail = match e {
                    ExecError::SessionLost(d) => d,
                    ExecError::NotConnected => String::new(),
                };
                self.outcomes.push(
                    InstallOutcome { package_name: name, succeeded: false, diagnostic: Some(detail) },
                );
                assert(self.view_outcomes() =~= done.push(lost_outcome(pkgs[k as int], detail@)));
                let mut i: usize = k + 1;
                while i < n
                    invariant
                        k < i <= self.packages@.len(),
                        n == self.packages@.len(),
                        self.session.view_state() == SessionState::Connected,
                        self.target == old(self).target,
                        self.packages == old(self).packages,
                        pkgs == models(self.packages@),
                        self.outcomes@.len() == i,
                        forall|j: int|
                            0 <= j < i ==> #[trigger] self.outcomes@[j].package_name@
                                == self.packages@[j].name@,
                        self.view_outcomes() == done.push(lost_outcome(pkgs[k as int], detail@))
                            + pkgs.subrange(k + 1, i as int).map_values(
                            |p: PackageModel| skipped_outcome(p),
                        ),
                    decreases self.packages@.len() - i,
                {
                    let ghost before = self.view_outcomes();
                    let skipped = InstallOutcome {
                        package_name: self.packages[i].name.clone(),
                        succeeded: false,
                        diagnostic: Some(String::from_str("skipped: session lost")),
                    };
                    self.outcomes.push(skipped);
                    assert(self.view_outcomes() =~= before.push(skipped_outcome(pkgs[i as int])));
                    assert(pkgs.subrange(k + 1, i + 1).map_values(
                        |p: PackageModel| skipped_outcome(p),
                    ) =~= pkgs.subrange(k + 1, i as int).map_values(
                        |p: PackageModel| skipped_outcome(p),
                    ).push(skipped_outcome(pkgs[i as int])));
                    i = i + 1;
                }
                self.lost = true;
                self.session.disconnect();
                self.phase = RunPhase::Disconnecting;
                RunAction::Disconnect
            },
        }
    }

    /// Takes how the teardown went and ends the run. The outcomes collected
    /// stand whatever happened; a failed teardown is reported beside them.
    pub fn disconnected(&mut self, outcome: Result<(), String>) -> (r: RunAction)
        requires
            old(self).wf(),
            old(self).view_phase() == RunPhase::Disconnecting,
        ensures
            final(self).view_phase() == RunPhase::Finished,
            r matches RunAction::Finished(Ok(rep)) && outcome_models(rep.outcomes@) == old(self).view_outcomes() && rep.session_lost == old(self).view_lost(),
            r matches RunAction::Finished(Ok(rep)) && rep.outcomes@.len() == old(self).view_packages().len() && forall|j: int|
                0 <= j < rep.outcomes@.len() ==> #[trigger] rep.outcomes@[j].package_name@ == old(self).view_packages()[j].name,
            outcome is Ok ==> (r matches RunAction::Finished(Ok(rep))
                && rep.disconnect_warning is None),
            outcome matches Err(d) ==> (r matches RunAction::Finished(Ok(rep))
                && rep.disconnect_warning matches Some(w) && w@ == d@),
    {
        let warning = match self.session.disconnect_finished(outcome) {
            Ok(()) => None,
            Err(e) => Some(e.detail),
        };
        let mut outcomes: Vec<InstallOutcome> = Vec::new();
        core::mem::swap(&mut outcomes, &mut self.outcomes);
        self.phase = RunPhase::Finished;
        RunAction::Finished(
            Ok(RunReport { outcomes, disconnect_warning: warning, session_lost: self.lost }),
        )
    }
}

/// A run of packages none of which is selected asks for nothing: its
/// selection is empty, so `start` ends it at once with no outcome and no
/// connection.
pub proof fn lemma_nothing_selected(pkgs: Seq<PackageModel>)
    requires
        forall|j: int| 0 <= j < pkgs.len() ==> !(#[trigger] pkgs[j]).should_sync,
    ensures
        selected(pkgs).len() == 0,
    decreases pkgs.len(),
{
    if pkgs.len() > 0 {
        lemma_nothing_selected(pkgs.drop_last());
    }
}

/// A session that breaks while package `k` of `n` is installed still leaves
/// one outcome per package: those before `k` as recorded, `k` failed with
/// the session's message, and every later one failed as skipped.
pub proof fn lemma_session_loss_outcomes(
    pkgs: Seq<PackageModel>,
    done: Seq<OutcomeModel>,
    detail: Seq<char>,
)
    requires
        done.len() < pkgs.len(),
    ensures
        ({
            let o = outcomes_after_loss(pkgs, done, detail);
            &&& o.len() == pkgs.len()
            &&& o.subrange(0, done.len() as int) == done
            &&& o[done.len() as int] == lost_outcome(pkgs[done.len() as int], detail)
            &&& !o[done.len() as int].succeeded
            &&& forall|j: int|
                done.len() < j < pkgs.len() ==> #[trigger] o[j] == skipped_outcome(pkgs[j])
        }),
{
    let o = outcomes_after_loss(pkgs, done, detail);
    assert(o.subrange(0, done.len() as int) =~= done);
}

} // verus!
