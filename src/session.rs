use crate::commands::RemoteTarget;
use crate::provision::CredentialHandle;
use vstd::prelude::*;

verus! {

/// Where a session stands. `Connecting` and `Disconnecting` last from the
/// request of a transition until its outcome is reported.
#[derive(Clone, Copy, Debug, PartialEq, Eq, Structural)]
pub enum SessionState {
    Disconnected,
    Connecting,
    Connected,
    Disconnecting,
}

/// The stage of connection establishment that failed.
#[derive(Clone, Copy, Debug, PartialEq, Eq, Structural)]
pub enum ConnectStage {
    /// The network transport could not be established.
    Transport,
    /// The SSH handshake was rejected.
    Handshake,
    /// The key was not accepted.
    Authentication,
}

#[derive(Clone, Debug)]
pub enum ConnectError {
    /// A connection was requested on a session that is not disconnected.
    NotDisconnected,
    /// The credential's private key file cannot be read.
    NoCredential,
    /// Establishing the session failed at `stage`.
    ConnectionFailed { stage: ConnectStage, detail: String },
}

#[derive(Clone, Debug)]
pub enum ExecError {
    /// A command was requested while no session is established.
    NotConnected,
    /// The channel broke: the command may not have run at all.
    SessionLost(String),
}

/// Tearing the session down failed; the session counts as closed anyway.
#[derive(Clone, Debug)]
pub struct DisconnectError {
    pub detail: String,
}

/// What it takes to establish a session: where to connect, as whom, and
/// with which private key.
#[derive(Clone, Debug)]
pub struct ConnectRequest {
    pub host: String,
    pub port: u16,
    pub username: String,
    pub key_file_path: String,
}

/// What a remote command left behind.
#[derive(Clone, Debug)]
pub struct CommandOutput {
    pub stdout: String,
    pub stderr: String,
    pub exit_status: i32,
}

/// The state of one authenticated connection to one remote host. The
/// caller performs the network work that each transition asks for and
/// reports its outcome.
pub struct RemoteSession {
    state: SessionState,
}

impl RemoteSession {
    pub closed spec fn view_state(&self) -> SessionState {
        self.state
    }

    /// A session that is not connected.
    pub fn new() -> (r: Self)
        ensures
            r.view_state() == SessionState::Disconnected,
    {
        RemoteSession { state: SessionState::Disconnected }
    }

    pub fn state(&self) -> (r: SessionState)
        ensures
            r == self.view_state(),
    {
        self.state
    }

    /// Asks to connect to `target` with `credential`. `key_readable` tells
    /// whether the credential's private key file can be read; without it no
    /// network work is asked for. On success the session is `Connecting`
    /// and the request says what to establish.
    pub fn connect(
        &mut self,
        target: &RemoteTarget,
        credential: &CredentialHandle,
        key_readable: bool,
    ) -> (r: Result<ConnectRequest, ConnectError>)
        ensures
            old(self).view_state() != SessionState::Disconnected ==> (r matches Err(
                ConnectError::NotDisconnected,
            ) && final(self).view_state() == old(self).view_state()),
            old(self).view_state() == SessionState::Disconnected && !key_readable ==> (r matches Err(
                ConnectError::NoCredential,
            ) && final(self).view_state() == SessionState::Disconnected),
            old(self).view_state() == SessionState::Disconnected && key_readable ==> (r matches Ok(
                req,
            ) && final(self).view_state() == SessionState::Connecting && req.host@ == target.host@
                && req.port == target.port && req.username@ == target.username@
                && req.key_file_path@ == credential.key_file_path@),
    {
        if self.state != SessionState::Disconnected {
            return Err(ConnectError::NotDisconnected);
        }
        if !key_readable {
            return Err(ConnectError::NoCredential);
        }
        self.state = SessionState::Connecting;
        Ok(
            ConnectRequest {
                host: target.host.clone(),
                port: target.port,
                username: target.username.clone(),
                key_file_path: credential.key_file_path.clone(),
            },
        )
    }

    /// Records how establishing the session went: `Connected` on success,
    /// else `Disconnected` with the failed stage reported.
    pub fn connect_finished(&mut self, outcome: Result<(), (ConnectStage, String)>) -> (r: Result<
        (),
        ConnectError,
    >)
        requires
            old(self).view_state() == SessionState::Connecting,
        ensures
            outcome is Ok ==> (r is Ok && final(self).view_state() == SessionState::Connected),
            outcome matches Err(e) ==> (r matches Err(ConnectError::ConnectionFailed { stage, detail })
                && stage == e.0 && detail@ == e.1@ && final(self).view_state()
                == SessionState::Disconnected),
    {
        match outcome {
            Ok(()) => {
                self.state = SessionState::Connected;
                Ok(())
            },
            Err((stage, detail)) => {
                self.state = SessionState::Disconnected;
                Err(ConnectError::ConnectionFailed { stage, detail })
            },
        }
    }

    /// Asks to run `command` on the remote host. Only a connected session
    /// hands the command on; any other refuses with `NotConnected` and
    /// changes nothing.
    pub fn execute(&self, command: &str) -> (r: Result<String, ExecError>)
        ensures
            self.view_state() == SessionState::Connected ==> (r matches Ok(c) && c@ == command@),
            self.view_state() != SessionState::Connected ==> r matches Err(ExecError::NotConnected),
    {
        if self.state != SessionState::Connected {
            return Err(ExecError::NotConnected);
        }
        Ok(String::from_str(command))
    }

    /// Records what running a command gave: its output, or the message of a
    /// broken channel. The session stays connected either way, so that it
    /// can still be torn down.
    pub fn execute_finished(&self, outcome: Result<CommandOutput, String>) -> (r: Result<
        CommandOutput,
        ExecError,
    >)
        requires
            self.view_state() == SessionState::Connected,
        ensures
            outcome matches Ok(o) ==> (r matches Ok(p) && p == o),
            outcome matches Err(d) ==> (r matches Err(ExecError::SessionLost(e)) && e@ == d@),
    {
        match outcome {
            Ok(o) => Ok(o),
            Err(d) => Err(ExecError::SessionLost(d)),
        }
    }

    /// Asks to disconnect. Returns whether a teardown has to be performed:
    /// only a connected session has one, and is then `Disconnecting`. On a
    /// disconnected session this is a no-op that succeeds.
    pub fn disconnect(&mut self) -> (r: bool)
        requires
            old(self).view_state() == SessionState::Disconnected || old(self).view_state()
                == SessionState::Connected,
        ensures
            r == disconnect_needs_teardown(old(self).view_state()),
            final(self).view_state() == state_after_disconnect_request(old(self).view_state()),
    {
        if self.state == SessionState::Connected {
            self.state = SessionState::Disconnecting;
            true
        } else {
            false
        }
    }

    /// Records how the teardown went. The session is `Disconnected`
    /// whatever happened.
    pub fn disconnect_finished(&mut self, outcome: Result<(), String>) -> (r: Result<
        (),
        DisconnectError,
    >)
        requires
            old(self).view_state() == SessionState::Disconnecting,
        ensures
            final(self).view_state() == SessionState::Disconnected,
            outcome is Ok ==> r is Ok,
            outcome matches Err(d) ==> (r matches Err(e) && e.detail@ == d@),
    {
        self.state = SessionState::Disconnected;
        match outcome {
            Ok(()) => Ok(()),
            Err(d) => Err(DisconnectError { detail: d }),
        }
    }
}

/// Whether a disconnect request in state `s` needs a teardown.
pub open spec fn disconnect_needs_teardown(s: SessionState) -> bool {
    s == SessionState::Connected
}

/// The state that a disconnect request leaves.
pub open spec fn state_after_disconnect_request(s: SessionState) -> SessionState {
    if s == SessionState::Connected {
        SessionState::Disconnecting
    } else {
        s
    }
}

/// Disconnecting twice in a row: after a first disconnect has run to its
/// end, whatever its teardown reported, the session is `Disconnected`, and a
/// second request needs no teardown and cannot fail.
pub proof fn lemma_disconnect_idempotent(s: SessionState)
    requires
        s == SessionState::Disconnected || s == SessionState::Connected,
    ensures
        ({
            let after_first = if disconnect_needs_teardown(s) {
                SessionState::Disconnected
            } else {
                state_after_disconnect_request(s)
            };
            &&& after_first == SessionState::Disconnected
            &&& !disconnect_needs_teardown(after_first)
            &&& state_after_disconnect_request(after_first) == SessionState::Disconnected
        }),
{
}

} // verus!
