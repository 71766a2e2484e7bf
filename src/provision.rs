use crate::commands::{
    copy_id_args, copy_id_args_of, key_file_path, key_path_of, keygen_args, keygen_args_of,
    public_key_file_path, public_key_path_of, texts, RemoteTarget,
};
use vstd::prelude::*;

verus! {

/// A provisioned key pair: the private key file and the host it was made
/// for.
#[derive(Clone, Debug)]
pub struct CredentialHandle {
    pub key_file_path: String,
    pub host_identifier: String,
}


#[derive(Clone, Debug)]
pub enum ProvisionError {
    /// A key pair for the host exists already, at this path; callers reuse it.
    AlreadyProvisioned(String),
    /// The key directory could not be created.
    DirectoryUnavailable(String),
    /// The key generator failed.
    KeyGenerationFailed(String),
    /// The public key could not be authorised on the remote host.
    KeyInstallFailed(String),
}

/// The next piece of outside work that provisioning asks for.
#[derive(Debug)]
pub enum ProvisionStep {
    /// Make sure this directory exists.
    CreateDirectory(String),
    /// Remove these key files where they exist (stale or partial material).
    RemoveKeyFiles { private_key: String, public_key: String },
    /// Run the key generator with these arguments.
    GenerateKey(Vec<String>),
    /// Run the key-authorisation tool with these arguments; it may ask the
    /// operator for a password.
    InstallKey(Vec<String>),
    /// Provisioning is over.
    Done(Result<CredentialHandle, ProvisionError>),
}

#[derive(Clone, Copy, Debug, PartialEq, Eq, Structural)]
pub enum ProvisionPhase {
    CreatingDirectory,
    ClearingOldKeys,
    GeneratingKey,
    InstallingKey,
    DiscardingPartialKeys,
    Finished,
}

/// Makes dedicated key pairs, one per host, in a key directory.
#[derive(Clone, Debug)]
pub struct CredentialProvisioner {
    pub key_dir: String,
}

/// Whether a provisioning request reuses the key pair that exists already.
pub open spec fn reuses_existing(force: bool, key_exists: bool) -> bool {
    key_exists && !force
}

/// One provisioning run for one host, from request to credential.
pub struct Provisioning {
    host: String,
    key_path: String,
    public_path: String,
    copy_args: Vec<String>,
    phase: ProvisionPhase,
    failure: Option<ProvisionError>,
}

impl Provisioning {
    pub closed spec fn view_phase(&self) -> ProvisionPhase {
        self.phase
    }

    /// The private key file that this run makes.
    pub closed spec fn view_key_path(&self) -> Seq<char> {
        self.key_path@
    }

    /// The host that this run provisions for.
    pub closed spec fn view_host(&self) -> Seq<char> {
        self.host@
    }

    /// The arguments that authorise the new public key on the host.
    pub closed spec fn view_copy_args(&self) -> Seq<Seq<char>> {
        texts(self.copy_args@)
    }

    /// The failure that ends a run once partial key material is discarded.
    pub closed spec fn view_failure(&self) -> Option<ProvisionError> {
        self.failure
    }

    pub closed spec fn wf(&self) -> bool {
        &&& self.public_path@ == public_key_path_of(self.key_path@)
        &&& self.phase == ProvisionPhase::DiscardingPartialKeys <==> self.failure is Some
    }

    pub fn phase(&self) -> (r: ProvisionPhase)
        ensures
            r == self.view_phase(),
    {
        self.phase
    }

    fn removal_step(&self) -> (r: ProvisionStep)
        requires
            self.wf(),
        ensures
            r matches ProvisionStep::RemoveKeyFiles { private_key, public_key } && private_key@
                == self.view_key_path() && public_key@ == public_key_path_of(self.view_key_path()),
    {
        ProvisionStep::RemoveKeyFiles {
            private_key: self.key_path.clone(),
            public_key: self.public_path.clone(),
        }
    }

    /// Records whether the key directory is there. Without it provisioning
    /// fails; with it, stale key files of the host are removed first.
    pub fn directory_ready(&mut self, outcome: Result<(), String>) -> (r: ProvisionStep)
        requires
            old(self).wf(),
            old(self).view_phase() == ProvisionPhase::CreatingDirectory,
        ensures
            final(self).wf(),
            final(self).view_key_path() == old(self).view_key_path(),
            final(self).view_host() == old(self).view_host(),
            final(self).view_copy_args() == old(self).view_copy_args(),
            outcome is Err ==> final(self).view_phase() == ProvisionPhase::Finished,
            outcome matches Err(d) ==> (r matches ProvisionStep::Done(
                Err(ProvisionError::DirectoryUnavailable(e)),
            ) && e@ == d@),
            outcome is Ok ==> final(self).view_phase() == ProvisionPhase::ClearingOldKeys,
            outcome is Ok ==> (r matches ProvisionStep::RemoveKeyFiles { private_key, public_key }
                && private_key@ == old(self).view_key_path() && public_key@ == public_key_path_of(
                old(self).view_key_path(),
            )),
    {
        match outcome {
            Err(d) => {
                self.phase = ProvisionPhase::Finished;
                ProvisionStep::Done(Err(ProvisionError::DirectoryUnavailable(d)))
            },
            Ok(()) => {
                self.phase = ProvisionPhase::ClearingOldKeys;
                self.removal_step()
            },
        }
    }

    /// Records that key files were removed. Before generation this leads to
    /// the key generator, with an RSA key, no passphrase and the host in its
    /// comment; after a failure it ends the run with that failure.
    pub fn key_files_removed(&mut self) -> (r: ProvisionStep)
        requires
            old(self).wf(),
            old(self).view_phase() == ProvisionPhase::ClearingOldKeys || old(self).view_phase()
                == ProvisionPhase::DiscardingPartialKeys,
        ensures
            final(self).wf(),
            final(self).view_key_path() == old(self).view_key_path(),
            final(self).view_host() == old(self).view_host(),
            final(self).view_copy_args() == old(self).view_copy_args(),
            old(self).view_phase() == ProvisionPhase::ClearingOldKeys ==> final(self).view_phase()
                == ProvisionPhase::GeneratingKey,
            old(self).view_phase() == ProvisionPhase::ClearingOldKeys ==> (r matches ProvisionStep::GenerateKey(args)
                && texts(args@) == keygen_args_of(old(self).view_key_path(), old(self).view_host())),
            old(self).view_phase() == ProvisionPhase::DiscardingPartialKeys ==> final(self).view_phase()
                == ProvisionPhase::Finished,
            old(self).view_phase() == ProvisionPhase::DiscardingPartialKeys ==> (r matches ProvisionStep::Done(Err(e))
                && old(self).view_failure() == Some(e)),
    {
        if self.phase == ProvisionPhase::ClearingOldKeys {
            self.phase = ProvisionPhase::GeneratingKey;
            ProvisionStep::GenerateKey(keygen_args(self.key_path.as_str(), self.host.as_str()))
        } else {
            let mut failure: Option<ProvisionError> = None;
            core::mem::swap(&mut failure, &mut self.failure);
            self.phase = ProvisionPhase::Finished;
            match failure {
                Some(e) => ProvisionStep::Done(Err(e)),
                None => {
                    // A failure is recorded whenever partial keys are discarded.
                    proof {
                        assert(false);
                    }
                    ProvisionStep::Done(Err(ProvisionError::KeyGenerationFailed(String::new())))
                },
            }
        }
    }

    /// Records how key generation went. On success the public key is to be
    /// authorised on the host; on failure the partial key files are removed
    /// and the run then fails with `KeyGenerationFailed`.
    pub fn key_generated(&mut self, outcome: Result<(), String>) -> (r: ProvisionStep)
        requires
            old(self).wf(),
            old(self).view_phase() == ProvisionPhase::GeneratingKey,
        ensures
            final(self).wf(),
            final(self).view_key_path() == old(self).view_key_path(),
            final(self).view_host() == old(self).view_host(),
            final(self).view_copy_args() == old(self).view_copy_args(),
            outcome is Ok ==> final(self).view_phase() == ProvisionPhase::InstallingKey,
            outcome is Ok ==> (r matches ProvisionStep::InstallKey(args) && texts(args@)
                == old(self).view_copy_args()),
            outcome is Err ==> final(self).view_phase() == ProvisionPhase::DiscardingPartialKeys,
            outcome matches Err(d) ==> (final(self).view_failure() matches Some(
                ProvisionError::KeyGenerationFailed(e),
            ) && e@ == d@),
            outcome is Err ==> (r matches ProvisionStep::RemoveKeyFiles { private_key, public_key }
                && private_key@ == old(self).view_key_path()),
    {
        match outcome {
            Ok(()) => {
                self.phase = ProvisionPhase::InstallingKey;
                {
                let args = clone_texts(&self.copy_args);
                ProvisionStep::InstallKey(args)
            }
            },
            Err(d) => {
                self.phase = ProvisionPhase::DiscardingPartialKeys;
                self.failure = Some(ProvisionError::KeyGenerationFailed(d));
                self.removal_step()
            },
        }
    }

    /// Records how authorising the public key went. Success hands out the
    /// credential; failure removes the new key files, so that no credential
    /// is left behind, and the run then fails with `KeyInstallFailed`.
    pub fn key_installed(&mut self, outcome: Result<(), String>) -> (r: ProvisionStep)
        requires
            old(self).wf(),
            old(self).view_phase() == ProvisionPhase::InstallingKey,
        ensures
            final(self).wf(),
            final(self).view_key_path() == old(self).view_key_path(),
            final(self).view_host() == old(self).view_host(),
            final(self).view_copy_args() == old(self).view_copy_args(),
            outcome is Ok ==> final(self).view_phase() == ProvisionPhase::Finished,
            outcome is Ok ==> (r matches ProvisionStep::Done(Ok(h)) && h.key_file_path@ == old(self).view_key_path() && h.host_identifier@ == old(self).view_host()),
    {
        match outcome {
            Ok(()) => {
                self.phase = ProvisionPhase::Finished;
                ProvisionStep::Done(
                    Ok(
                        CredentialHandle {
                            key_file_path: self.key_path.clone(),
                            host_identifier: self.host.clone(),
                        },
                    ),
                )
            },
            Err(d) => {
                self.phase = ProvisionPhase::DiscardingPartialKeys;
                self.failure = Some(ProvisionError::KeyInstallFailed(d));
                self.removal_step()
            },
        }
    }
}

/// A copy of a list of strings.
fn clone_texts(v: &Vec<String>) -> (r: Vec<String>)
    ensures
        texts(r@) == texts(v@),
{
    let mut r: Vec<String> = Vec::new();
    let mut i: usize = 0;
    while i < v.len()
        invariant
            i <= v@.len(),
            r@.len() == i,
            forall|j: int| 0 <= j < i ==> #[trigger] r@[j]@ == v@[j]@,
        decreases v@.len() - i,
    {
        let c: String = v[i].clone();
        r.push(c);
        i = i + 1;
    }
    assert(texts(r@) =~= texts(v@));
    r
}

impl CredentialProvisioner {
    pub fn new(key_dir: &str) -> (r: Self)
        ensures
            r.key_dir@ == key_dir@,
    {
        CredentialProvisioner { key_dir: String::from_str(key_dir) }
    }

    /// The private key file that this provisioner keeps for `host`.
    pub fn key_file_for(&self, host: &str) -> (r: String)
        ensures
            r@ == key_path_of(self.key_dir@, host@),
    {
        key_file_path(self.key_dir.as_str(), host)
    }

    /// Starts provisioning a key pair for `target`. `key_exists` tells
    /// whether the host's private key file is on disk. Unless `force` is
    /// set, an existing key pair is reported as `AlreadyProvisioned`, with its
    /// path, and nothing is made; otherwise the run begins by making sure the
    /// key directory exists.
    pub fn provision(&self, target: &RemoteTarget, force: bool, key_exists: bool) -> (r: (
        Provisioning,
        ProvisionStep,
    ))
        ensures
            r.0.wf(),
            r.0.view_key_path() == key_path_of(self.key_dir@, target.host@),
            r.0.view_host() == target.host@,
            reuses_existing(force, key_exists) ==> r.0.view_phase() == ProvisionPhase::Finished,
            reuses_existing(force, key_exists) ==> (r.1 matches ProvisionStep::Done(
                Err(ProvisionError::AlreadyProvisioned(p)),
            ) && p@ == key_path_of(self.key_dir@, target.host@)),
            !reuses_existing(force, key_exists) ==> r.0.view_phase()
                == ProvisionPhase::CreatingDirectory,
            !reuses_existing(force, key_exists) ==> (r.1 matches ProvisionStep::CreateDirectory(d)
                && d@ == self.key_dir@),
            r.0.view_copy_args() == copy_id_args_of(
                key_path_of(self.key_dir@, target.host@),
                target.username@,
                target.host@,
                target.port,
            ),
    {
        let key_path = key_file_path(self.key_dir.as_str(), target.host.as_str());
        let public_path = public_key_file_path(key_path.as_str());
        let copy_args = copy_id_args(key_path.as_str(), target);
        let reuse = key_exists && !force;
        let p = Provisioning {
            host: target.host.clone(),
            key_path: key_path.clone(),
            public_path,
            copy_args,
            phase: if reuse {
                ProvisionPhase::Finished
            } else {
                ProvisionPhase::CreatingDirectory
            },
            failure: None,
        };
        if reuse {
            (p, ProvisionStep::Done(Err(ProvisionError::AlreadyProvisioned(key_path))))
        } else {
            (p, ProvisionStep::CreateDirectory(self.key_dir.clone()))
        }
    }
}

/// Provisioning one host twice without `force`: the first run's credential
/// names the host's key file in the key directory; once it is on disk, a
/// second request reuses it, reporting `AlreadyProvisioned` with that same
/// path and asking for no key to be made.
pub proof fn lemma_second_provision_reuses(dir: Seq<char>, host: Seq<char>, first: Seq<char>)
    requires
        first == key_path_of(dir, host),
    ensures
        reuses_existing(false, true),
        key_path_of(dir, host) == first,
{
}

} // verus!
