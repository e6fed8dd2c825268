//! SSH tunnels to a database host: their settings, the steps of setting one
//! up, and the decisions of the loops that accept and forward connections.
use vstd::prelude::*;

use crate::text::{concat_str, decimal_string, decimal_text};

verus! {

/// The SSH server through which a database is reached.
#[derive(Debug, Clone)]
pub struct SshTunnelConfig {
    pub host: String,
    pub port: u16,
    pub username: String,
    pub auth_method: SshAuthMethod,
}

/// The database endpoint as seen from the SSH server.
#[derive(Debug, Clone)]
pub struct SshRemoteConfig {
    pub host: String,
    pub port: u16,
}

/// How to authenticate to the SSH server.
#[derive(Debug, Clone)]
pub enum SshAuthMethod {
    Password { password: String },
    PrivateKey { key_path: String, passphrase_key: Option<String> },
}

// ---------------------------------------------------------------------------
// Setting up a tunnel

/// The steps of setting up a tunnel, in the order they are taken.
#[derive(Debug, Clone, Copy, PartialEq, Eq, Structural)]
pub enum SetupStep {
    /// Open a TCP connection to the SSH server.
    Connect,
    /// Create the SSH session.
    StartSession,
    /// Run the SSH handshake.
    Handshake,
    /// Authenticate by password or private key.
    Authenticate,
    /// Listen on the local port.
    Listen,
    /// Make the listener and the session non-blocking.
    SetNonBlocking,
    /// The tunnel is up and forwards connections.
    Ready,
}

/// Which step of setting up a tunnel failed.
#[derive(Debug, Clone, Copy, PartialEq, Eq, Structural)]
pub enum TunnelError {
    TcpConnection,
    Session,
    Handshake,
    PasswordAuthentication,
    KeyAuthentication,
    LocalBind,
    NonBlocking,
}

/// The step after `step`.
pub open spec fn step_after(step: SetupStep) -> SetupStep {
    match step {
        SetupStep::Connect => SetupStep::StartSession,
        SetupStep::StartSession => SetupStep::Handshake,
        SetupStep::Handshake => SetupStep::Authenticate,
        SetupStep::Authenticate => SetupStep::Listen,
        SetupStep::Listen => SetupStep::SetNonBlocking,
        SetupStep::SetNonBlocking => SetupStep::Ready,
        SetupStep::Ready => SetupStep::Ready,
    }
}

/// The error that a failure of `step` reports; authentication failures say
/// which method failed.
pub open spec fn failure_of(step: SetupStep, auth: SshAuthMethod) -> TunnelError {
    match step {
        SetupStep::Connect => TunnelError::TcpConnection,
        SetupStep::StartSession => TunnelError::Session,
        SetupStep::Handshake => TunnelError::Handshake,
        SetupStep::Authenticate => match auth {
            SshAuthMethod::Password { .. } => TunnelError::PasswordAuthentication,
            SshAuthMethod::PrivateKey { .. } => TunnelError::KeyAuthentication,
        },
        SetupStep::Listen => TunnelError::LocalBind,
        _ => TunnelError::NonBlocking,
    }
}

/// Where setting up goes after `step` succeeded or failed: on to the next
/// step, or stopped with the error of the failed step (the setup then
/// reports it and the tunnel shuts down).
pub fn next_setup_step(step: SetupStep, succeeded: bool, auth: &SshAuthMethod) -> (r: Result<SetupStep, TunnelError>)
    requires
        step != SetupStep::Ready,
    ensures
        succeeded ==> r == Ok::<SetupStep, TunnelError>(step_after(step)),
        !succeeded ==> r == Err::<SetupStep, TunnelError>(failure_of(step, *auth)),
{
    if !succeeded {
        let e = match step {
            SetupStep::Connect => TunnelError::TcpConnection,
            SetupStep::StartSession => TunnelError::Session,
            SetupStep::Handshake => TunnelError::Handshake,
            SetupStep::Authenticate => match auth {
                SshAuthMethod::Password { .. } => TunnelError::PasswordAuthentication,
                SshAuthMethod::PrivateKey { .. } => TunnelError::KeyAuthentication,
            },
            SetupStep::Listen => TunnelError::LocalBind,
            _ => TunnelError::NonBlocking,
        };
        return Err(e);
    }
    Ok(
        match step {
            SetupStep::Connect => SetupStep::StartSession,
            SetupStep::StartSession => SetupStep::Handshake,
            SetupStep::Handshake => SetupStep::Authenticate,
            SetupStep::Authenticate => SetupStep::Listen,
            SetupStep::Listen => SetupStep::SetNonBlocking,
            _ => SetupStep::Ready,
        },
    )
}

/// The address of the SSH server: `host:port`.
pub fn ssh_server_address(config: &SshTunnelConfig) -> (r: String)
    ensures
        r@ == config.host@ + ":"@ + decimal_text(config.port as nat),
{
    let head = concat_str(config.host.as_str(), ":");
    let port = decimal_string(config.port as u64);
    concat_str(head.as_str(), port.as_str())
}

/// The local address the tunnel listens on: `127.0.0.1:port`.
pub fn local_listen_address(local_port: u16) -> (r: String)
    ensures
        r@ == "127.0.0.1:"@ + decimal_text(local_port as nat),
{
    let port = decimal_string(local_port as u64);
    concat_str("127.0.0.1:", port.as_str())
}

/// The name of the thread that forwards the connection of `peer`.
pub fn forward_thread_name(peer: &str) -> (r: String)
    ensures
        r@ == "ssh_fwd_"@ + peer@,
{
    concat_str("ssh_fwd_", peer)
}

// ---------------------------------------------------------------------------
// Accepting connections

/// What accepting a local connection gave.
#[derive(Debug, Clone, Copy, PartialEq, Eq, Structural)]
pub enum AcceptEvent {
    /// A client connected.
    Connection,
    /// No client yet.
    WouldBlock,
    /// Accepting failed.
    Failed,
}

/// What the tunnel does next.
#[derive(Debug, Clone, Copy, PartialEq, Eq, Structural)]
pub enum AcceptAction {
    /// Stop accepting: the tunnel is shutting down.
    Stop,
    /// Forward the new connection on a thread of its own.
    Forward,
    /// Wait a little and try again.
    Wait,
    /// Signal shutdown and stop: accepting failed.
    Fail,
}

/// The decision after an accept: shutting down takes precedence; a client is
/// forwarded; no client means waiting; a failure shuts the tunnel down.
pub fn on_accept(shutdown_requested: bool, event: AcceptEvent) -> (r: AcceptAction)
    ensures
        shutdown_requested ==> r == AcceptAction::Stop,
        !shutdown_requested ==> r == match event {
            AcceptEvent::Connection => AcceptAction::Forward,
            AcceptEvent::WouldBlock => AcceptAction::Wait,
            AcceptEvent::Failed => AcceptAction::Fail,
        },
{
    if shutdown_requested {
        return AcceptAction::Stop;
    }
    match event {
        AcceptEvent::Connection => AcceptAction::Forward,
        AcceptEvent::WouldBlock => AcceptAction::Wait,
        AcceptEvent::Failed => AcceptAction::Fail,
    }
}

/// The code of the SSH session error that means "would block".
pub const SESSION_WOULD_BLOCK: i32 = -37;

/// What a forwarding thread does after trying to open its channel to the
/// remote side.
#[derive(Debug, Clone, Copy, PartialEq, Eq, Structural)]
pub enum ChannelAction {
    /// Forward the connection over the open channel.
    Forward,
    /// The session would block: wait and try again.
    Retry,
    /// Give up and signal shutdown.
    Abort,
}

/// The decision after trying to open the channel, given whether it opened and,
/// where it did not, the session's error code if the error was the
/// session's: forward where it opened, retry where the session would block,
/// abort on any other error.
pub fn on_channel_open(opened: bool, session_code: Option<i32>) -> (r: ChannelAction)
    ensures
        opened ==> r == ChannelAction::Forward,
        !opened && session_code == Some(SESSION_WOULD_BLOCK) ==> r == ChannelAction::Retry,
        !opened && session_code != Some(SESSION_WOULD_BLOCK) ==> r == ChannelAction::Abort,
{
    if opened {
        ChannelAction::Forward
    } else {
        match session_code {
            Some(c) => if c == SESSION_WOULD_BLOCK {
                ChannelAction::Retry
            } else {
                ChannelAction::Abort
            },
            None => ChannelAction::Abort,
        }
    }
}

// ---------------------------------------------------------------------------
// Forwarding one connection

/// What a read from one side of a forwarded connection gave.
#[derive(Debug, Clone, Copy, PartialEq, Eq, Structural)]
pub enum ReadOutcome {
    /// `n` bytes, `n > 0`.
    Data(usize),
    /// The end of the stream.
    Eof,
    /// Nothing yet.
    WouldBlock,
    /// The read failed.
    Failed,
}

/// What is done with a read from the local client.
#[derive(Debug, Clone, Copy, PartialEq, Eq, Structural)]
pub enum LocalStep {
    /// Write the bytes to the channel and flush it.
    SendToRemote(usize),
    /// Tell the remote side that the client has finished.
    SendEofToRemote,
    /// Wait a little.
    Wait,
}

/// What is done with a read from the remote side.
#[derive(Debug, Clone, Copy, PartialEq, Eq, Structural)]
pub enum RemoteStep {
    /// Write the bytes to the client.
    SendToLocal(usize),
    /// Close the writing half of the client connection.
    ShutdownLocalWrite,
    /// Wait a little.
    Wait,
}

/// Which sides of a forwarded connection have ended. Once a side has ended
/// it is not read again; the connection is done when both have.
#[derive(Debug, Clone, Copy, PartialEq, Eq, Structural)]
pub struct ForwardState {
    pub local_eof: bool,
    pub remote_eof: bool,
}

impl ForwardState {
    /// Both sides open.
    pub fn new() -> (r: Self)
        ensures
            !r.local_eof && !r.remote_eof,
    {
        ForwardState { local_eof: false, remote_eof: false }
    }

    /// A read from the client: bytes go to the channel; its end, or a failed
    /// read, ends the local side and is passed on as an end of file.
    pub fn on_local_read(&mut self, outcome: ReadOutcome) -> (r: LocalStep)
        requires
            !old(self).local_eof,
        ensures
            final(self).remote_eof == old(self).remote_eof,
            match outcome {
                ReadOutcome::Data(n) => r == LocalStep::SendToRemote(n) && !final(self).local_eof,
                ReadOutcome::WouldBlock => r == LocalStep::Wait && !final(self).local_eof,
                _ => r == LocalStep::SendEofToRemote && final(self).local_eof,
            },
    {
        match outcome {
            ReadOutcome::Data(n) => LocalStep::SendToRemote(n),
            ReadOutcome::WouldBlock => LocalStep::Wait,
            _ => {
                self.local_eof = true;
                LocalStep::SendEofToRemote
            },
        }
    }

    /// A read from the channel: bytes go to the client; its end, or a failed
    /// read, ends the remote side and closes the client's writing half.
    pub fn on_remote_read(&mut self, outcome: ReadOutcome) -> (r: RemoteStep)
        requires
            !old(self).remote_eof,
        ensures
            final(self).local_eof == old(self).local_eof,
            match outcome {
                ReadOutcome::Data(n) => r == RemoteStep::SendToLocal(n) && !final(self).remote_eof,
                ReadOutcome::WouldBlock => r == RemoteStep::Wait && !final(self).remote_eof,
                _ => r == RemoteStep::ShutdownLocalWrite && final(self).remote_eof,
            },
    {
        match outcome {
            ReadOutcome::Data(n) => RemoteStep::SendToLocal(n),
            ReadOutcome::WouldBlock => RemoteStep::Wait,
            _ => {
                self.remote_eof = true;
                RemoteStep::ShutdownLocalWrite
            },
        }
    }

    /// Whether both sides have ended.
    pub fn finished(&self) -> (r: bool)
        ensures
            r == (self.local_eof && self.remote_eof),
    {
        self.local_eof && self.remote_eof
    }

    /// Whether the channel still has to be told the client finished, when
    /// forwarding stops (as on shutdown) before the client's end was seen.
    pub fn needs_final_eof(&self) -> (r: bool)
        ensures
            r == !self.local_eof,
    {
        !self.local_eof
    }
}

} // verus!
