//! The control channel between the supervisor, background, and UI
//! processes: the command vocabulary, the error kinds, the well-known
//! ports, and the protocol-side logic of the client and the server. The
//! socket work itself (bind, connect, read, write) lives outside this
//! library; everything here is the decision logic those loops drive.

use vstd::prelude::*;

use crate::codec::decode;
use crate::codec::encode;
use crate::codec::lemma_encode_len;
use crate::codec::spec_decode;
use crate::codec::spec_encode;
use crate::frame::frame_payload;
use crate::frame::parse_frame;
use crate::frame::spec_frame;
use crate::frame::spec_parse_frame;

verus! {

/// Well-known loopback port of the background process's control server.
pub const BACKGROUND_IPC_PORT: u16 = 45789;

/// Well-known loopback port of the UI process's control server.
pub const UI_IPC_PORT: u16 = 45790;

/// Control messages exchanged between the supervisor, background, and UI
/// processes. A connection carries exactly one request and at most one
/// reply; commands are immutable, self-contained values.
#[derive(Clone, Copy, Debug, PartialEq, Eq, Structural)]
pub enum IpcCommand {
    /// Start the background task
    StartBackground,
    /// Stop the background task
    StopBackground,
    /// Start the UI
    StartUI,
    /// Close the UI
    CloseUI,
    /// Quit everything
    QuitAll,
    /// Ping to check if process is alive
    Ping,
    /// Response to ping
    Pong,
    /// Background task status
    BackgroundStatus(bool),
    /// UI status
    UIStatus(bool),
}

/// The error kinds of the control plane.
#[derive(Clone, Copy, Debug, PartialEq, Eq, Structural)]
pub enum IpcError {
    /// The control port is already in use; the server cannot start.
    BindError,
    /// No listener at the target port: the peer process is not running.
    ConnectError,
    /// A malformed or truncated payload that decodes to no command.
    ProtocolError,
    /// A child executable is missing or could not be launched.
    SpawnError,
    /// The peer stayed silent past the read deadline; treated as "no reply".
    ReadTimeout,
}

impl IpcError {
    /// A short description of the error, for console reporting.
    pub fn describe(&self) -> (r: &'static str)
        ensures
            self is BindError ==> r@ == "control port already in use"@,
            self is ConnectError ==> r@ == "no listener at the target port"@,
            self is ProtocolError ==> r@ == "malformed control payload"@,
            self is SpawnError ==> r@ == "child executable could not be launched"@,
            self is ReadTimeout ==> r@ == "no reply before the read deadline"@,
    {
        match self {
            IpcError::BindError => "control port already in use",
            IpcError::ConnectError => "no listener at the target port",
            IpcError::ProtocolError => "malformed control payload",
            IpcError::SpawnError => "child executable could not be launched",
            IpcError::ReadTimeout => "no reply before the read deadline",
        }
    }
}

/// The bytes that cross a connection for one command: the canonical
/// encoding wrapped in its length-prefixed frame.
pub open spec fn spec_message(c: IpcCommand) -> Seq<u8> {
    spec_frame(spec_encode(c))
}

/// Serialize and frame one command, ready to be written whole to a
/// connection.
pub fn encode_message(c: &IpcCommand) -> (r: Vec<u8>)
    ensures
        r@ == spec_message(*c),
{
    let payload = encode(c);
    proof {
        lemma_encode_len(*c);
    }
    frame_payload(payload.as_slice())
}

/// Law: a framed message on the wire comes back as exactly its command —
/// the frame parses to the canonical payload, and the payload decodes to
/// the command it encodes.
pub proof fn lemma_message_round_trip(c: IpcCommand)
    ensures
        spec_parse_frame(spec_message(c)) == Some(spec_encode(c)),
        spec_decode(spec_encode(c)) == Some(c),
{
    lemma_encode_len(c);
    crate::frame::lemma_parse_frame_round_trip(spec_encode(c), Seq::empty());
    assert(spec_frame(spec_encode(c)) + Seq::<u8>::empty() =~= spec_message(c));
    crate::codec::lemma_encode_decode_round_trip(c);
}

/// What the client observed after writing its request: the peer closed
/// without sending bytes, the read deadline passed, or some bytes arrived.
#[derive(Debug)]
pub enum ReadOutcome {
    /// The peer closed the connection without replying.
    Closed,
    /// Nothing arrived before the fixed read deadline.
    TimedOut,
    /// The bytes that arrived before the peer went quiet.
    Data(Vec<u8>),
}

/// The reply a read outcome amounts to: a command only when a whole frame
/// arrived and its payload decodes; silence and noise both mean "no reply".
pub open spec fn spec_interpret_response(o: ReadOutcome) -> Option<IpcCommand> {
    match o {
        ReadOutcome::Closed => None,
        ReadOutcome::TimedOut => None,
        ReadOutcome::Data(v) => match spec_parse_frame(v@) {
            Some(p) => spec_decode(p),
            None => None,
        },
    }
}

/// Control-channel client bound to one well-known port. One call opens one
/// connection, writes one command, and awaits at most one reply; the
/// protocol-side logic is here, the sockets are the caller's.
pub struct IpcClient {
    port: u16,
}

impl IpcClient {
    /// The port this client connects to.
    pub closed spec fn spec_port(self) -> u16 {
        self.port
    }

    /// Create a client for the server at `port`.
    pub fn new(port: u16) -> (c: Self)
        ensures
            c.spec_port() == port,
    {
        IpcClient { port }
    }

    /// The port this client connects to.
    pub fn port(&self) -> (r: u16)
        ensures
            r == self.spec_port(),
    {
        self.port
    }

    /// The exact bytes to write for `command`.
    pub fn request_bytes(&self, command: &IpcCommand) -> (r: Vec<u8>)
        ensures
            r@ == spec_message(*command),
    {
        encode_message(command)
    }

    /// Resolve one request/reply exchange. Failing to connect means the
    /// peer is not running and is an error; once connected, silence or an
    /// unreadable reply degrade to "no reply", never to a failure.
    pub fn complete_exchange(&self, connected: bool, read: ReadOutcome) -> (r: Result<
        Option<IpcCommand>,
        IpcError,
    >)
        ensures
            !connected ==> r == Result::<Option<IpcCommand>, IpcError>::Err(
                IpcError::ConnectError,
            ),
            connected ==> r == Result::<Option<IpcCommand>, IpcError>::Ok(
                spec_interpret_response(read),
            ),
    {
        if !connected {
            return Err(IpcError::ConnectError);
        }
        match read {
            ReadOutcome::Closed => Ok(None),
            ReadOutcome::TimedOut => Ok(None),
            ReadOutcome::Data(v) => match parse_frame(v.as_slice()) {
                Some(p) => match decode(p.as_slice()) {
                    Ok(c) => Ok(Some(c)),
                    Err(_) => Ok(None),
                },
                None => Ok(None),
            },
        }
    }
}

/// Law: a connected exchange never fails — a peer that closes without
/// sending bytes, or stays silent past the deadline, yields "no reply",
/// not an error.
pub proof fn lemma_silence_is_no_reply()
    ensures
        spec_interpret_response(ReadOutcome::Closed) is None,
        spec_interpret_response(ReadOutcome::TimedOut) is None,
{
}

/// Control-channel server state for one process: the port it listens on
/// and whether its accept loop should keep going. The caller's loop polls
/// `is_running`, accepts one connection at a time, and services it; `stop`
/// makes the next iteration exit without interrupting work in progress.
pub struct IpcServer {
    port: u16,
    running: bool,
}

impl IpcServer {
    /// The port this server listens on.
    pub closed spec fn spec_port(self) -> u16 {
        self.port
    }

    /// Whether the accept loop should keep going.
    pub closed spec fn spec_running(self) -> bool {
        self.running
    }

    /// A server for `port`, initially running.
    pub fn new(port: u16) -> (s: Self)
        ensures
            s.spec_port() == port,
            s.spec_running(),
    {
        IpcServer { port, running: true }
    }

    /// The port this server listens on.
    pub fn port(&self) -> (r: u16)
        ensures
            r == self.spec_port(),
    {
        self.port
    }

    /// Whether the accept loop should keep going.
    pub fn is_running(&self) -> (r: bool)
        ensures
            r == self.spec_running(),
    {
        self.running
    }

    /// Ask the accept loop to exit at its next iteration.
    pub fn stop(&mut self)
        ensures
            !final(self).spec_running(),
            final(self).spec_port() == old(self).spec_port(),
    {
        self.running = false;
    }
}

} // verus!
