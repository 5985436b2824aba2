//! What each process's control server does with one decoded command: the
//! background process stops on request and answers pings with its worker's
//! status; the UI process shuts down on request and answers pings that it
//! is up. `service_*_request` is the whole per-connection pipeline between
//! the socket reads and writes: unframed payload in, framed reply out.

use vstd::prelude::*;

use crate::codec::decode;
use crate::codec::lemma_encode_decode_round_trip;
use crate::codec::spec_decode;
use crate::codec::spec_encode;
use crate::ipc::encode_message;
use crate::ipc::spec_message;
use crate::ipc::IpcCommand;

verus! {

/// What a handler decided for one command: the reply to send, if any, and
/// whether the process should shut down afterwards.
#[derive(Clone, Copy, Debug, PartialEq, Eq)]
pub struct ControlDecision {
    /// The reply to write back over the same connection, if any.
    pub reply: Option<IpcCommand>,
    /// Whether this process should begin shutting down.
    pub shutdown: bool,
}

/// The background process's handler: stop requests clear its running flag,
/// a ping is answered with the worker's current status, everything else is
/// ignored without a reply.
pub open spec fn spec_background_decision(c: IpcCommand, worker_running: bool) -> ControlDecision {
    match c {
        IpcCommand::StopBackground => ControlDecision { reply: None, shutdown: true },
        IpcCommand::QuitAll => ControlDecision { reply: None, shutdown: true },
        IpcCommand::Ping => ControlDecision {
            reply: Some(IpcCommand::BackgroundStatus(worker_running)),
            shutdown: false,
        },
        _ => ControlDecision { reply: None, shutdown: false },
    }
}

/// The UI process's handler: close requests shut the process down, a ping
/// is answered with "the UI is up" (if this handler runs at all, it is),
/// everything else is ignored without a reply.
pub open spec fn spec_ui_decision(c: IpcCommand) -> ControlDecision {
    match c {
        IpcCommand::CloseUI => ControlDecision { reply: None, shutdown: true },
        IpcCommand::QuitAll => ControlDecision { reply: None, shutdown: true },
        IpcCommand::Ping => ControlDecision {
            reply: Some(IpcCommand::UIStatus(true)),
            shutdown: false,
        },
        _ => ControlDecision { reply: None, shutdown: false },
    }
}

/// Decide what the background process does with one command.
pub fn background_control_decision(c: &IpcCommand, worker_running: bool) -> (d: ControlDecision)
    ensures
        d == spec_background_decision(*c, worker_running),
{
    match c {
        IpcCommand::StopBackground => ControlDecision { reply: None, shutdown: true },
        IpcCommand::QuitAll => ControlDecision { reply: None, shutdown: true },
        IpcCommand::Ping => ControlDecision {
            reply: Some(IpcCommand::BackgroundStatus(worker_running)),
            shutdown: false,
        },
        _ => ControlDecision { reply: None, shutdown: false },
    }
}

/// Decide what the UI process does with one command.
pub fn ui_control_decision(c: &IpcCommand) -> (d: ControlDecision)
    ensures
        d == spec_ui_decision(*c),
{
    match c {
        IpcCommand::CloseUI => ControlDecision { reply: None, shutdown: true },
        IpcCommand::QuitAll => ControlDecision { reply: None, shutdown: true },
        IpcCommand::Ping => ControlDecision {
            reply: Some(IpcCommand::UIStatus(true)),
            shutdown: false,
        },
        _ => ControlDecision { reply: None, shutdown: false },
    }
}

/// The outcome of servicing one accepted connection: the framed bytes to
/// write back, if any, and whether the process should shut down.
#[derive(Debug)]
pub struct ServiceOutcome {
    /// The framed reply to write over the connection, if any.
    pub reply_bytes: Option<Vec<u8>>,
    /// Whether this process should begin shutting down.
    pub shutdown: bool,
}

/// Whether a service outcome carries out a handler decision: same shutdown
/// verdict, and the reply, if any, on the wire in its framed encoding.
pub open spec fn spec_outcome_matches(o: ServiceOutcome, d: ControlDecision) -> bool {
    &&& o.shutdown == d.shutdown
    &&& match d.reply {
        Some(c) => o.reply_bytes matches Some(v) && v@ == spec_message(c),
        None => o.reply_bytes is None,
    }
}

/// Service one connection of the background process's control server:
/// decode the payload, let the handler decide, frame the reply. A payload
/// that decodes to no command is dropped silently — no reply, no shutdown,
/// and in particular the listener is never torn down by bad input.
pub fn service_background_request(payload: &[u8], worker_running: bool) -> (o: ServiceOutcome)
    ensures
        match spec_decode(payload@) {
            Some(c) => spec_outcome_matches(o, spec_background_decision(c, worker_running)),
            None => o.reply_bytes is None && !o.shutdown,
        },
{
    match decode(payload) {
        Ok(c) => {
            let d = background_control_decision(&c, worker_running);
            match d.reply {
                Some(rc) => ServiceOutcome {
                    reply_bytes: Some(encode_message(&rc)),
                    shutdown: d.shutdown,
                },
                None => ServiceOutcome { reply_bytes: None, shutdown: d.shutdown },
            }
        },
        Err(_) => ServiceOutcome { reply_bytes: None, shutdown: false },
    }
}

/// Service one connection of the UI process's control server, in the same
/// way as the background one.
pub fn service_ui_request(payload: &[u8]) -> (o: ServiceOutcome)
    ensures
        match spec_decode(payload@) {
            Some(c) => spec_outcome_matches(o, spec_ui_decision(c)),
            None => o.reply_bytes is None && !o.shutdown,
        },
{
    match decode(payload) {
        Ok(c) => {
            let d = ui_control_decision(&c);
            match d.reply {
                Some(rc) => ServiceOutcome {
                    reply_bytes: Some(encode_message(&rc)),
                    shutdown: d.shutdown,
                },
                None => ServiceOutcome { reply_bytes: None, shutdown: d.shutdown },
            }
        },
        Err(_) => ServiceOutcome { reply_bytes: None, shutdown: false },
    }
}

/// Law: only a ping is ever answered — every other command, on either
/// server, is handled without a reply, so a connection carries at most one
/// reply and it is always a typed status.
pub proof fn lemma_only_ping_is_answered(c: IpcCommand, worker_running: bool)
    ensures
        spec_background_decision(c, worker_running).reply is Some <==> c == IpcCommand::Ping,
        spec_ui_decision(c).reply is Some <==> c == IpcCommand::Ping,
        spec_background_decision(IpcCommand::Ping, worker_running).reply == Some(
            IpcCommand::BackgroundStatus(worker_running),
        ),
        spec_ui_decision(IpcCommand::Ping).reply == Some(IpcCommand::UIStatus(true)),
{
}

/// Law: a ping on the wire is answered with exactly one typed status reply
/// and leaves the server running — the encoded `Ping` decodes back to
/// `Ping`, the background handler replies with the worker's status, the UI
/// handler with "up", and neither asks for shutdown.
pub proof fn lemma_ping_yields_one_status_reply(worker_running: bool)
    ensures
        spec_decode(spec_encode(IpcCommand::Ping)) == Some(IpcCommand::Ping),
        spec_background_decision(IpcCommand::Ping, worker_running).reply == Some(
            IpcCommand::BackgroundStatus(worker_running),
        ),
        !spec_background_decision(IpcCommand::Ping, worker_running).shutdown,
        spec_ui_decision(IpcCommand::Ping).reply == Some(IpcCommand::UIStatus(true)),
        !spec_ui_decision(IpcCommand::Ping).shutdown,
{
    lemma_encode_decode_round_trip(IpcCommand::Ping);
}

} // verus!
