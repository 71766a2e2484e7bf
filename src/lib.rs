//! Synchronises the applications installed on this machine onto a remote
//! machine over SSH.
//!
//! The library holds the decisions: which packages are listed and selected,
//! how the remote install commands are built, and the state machines that
//! provision a dedicated key pair, drive one SSH session and run a whole
//! synchronisation. The caller performs the process, file and network work
//! that each machine asks for and reports back what happened.
pub mod commands;
pub mod gui;
pub mod options;
pub mod package;
pub mod provision;
pub mod session;
pub mod sync;

pub use commands::{
    copy_id_args, decimal_string, install_command, key_file_path, keygen_args,
    public_key_file_path, shell_quote, RemoteTarget,
};
pub use gui::{GuiMessage, GUI};
pub use options::SshOpts;
pub use package::{contains_chars, Flatpak, InstallType};
pub use provision::{
    CredentialHandle, CredentialProvisioner, ProvisionError, ProvisionPhase, ProvisionStep,
    Provisioning,
};
pub use session::{
    CommandOutput, ConnectError, ConnectRequest, ConnectStage, DisconnectError, ExecError,
    RemoteSession, SessionState,
};
pub use sync::{InstallOutcome, RunAction, RunError, RunPhase, RunReport, SyncRun};
