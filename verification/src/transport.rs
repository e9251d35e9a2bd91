use vstd::prelude::*;
use vstd::string::StringExecFns;

verus! {

/// A decoded inbound command envelope: exactly the fields of the wire
/// message that the logic engine reads, validated once at the transport
/// boundary and handed over as plain values.
#[derive(Debug, Clone)]
pub struct CommandEnvelope {
    /// The command verb (`set`, `get`, ...).
    pub cmd: String,
    /// The initiating controller's description, kept verbatim so the
    /// status reply can echo it; present exactly on relay commands.
    pub control_source: Option<String>,
    /// The request id, echoed into the status reply.
    pub reqid: String,
    /// The sender's source tag, for self-echo suppression.
    pub source: String,
    /// The first data entry of the first object: the hyphen-delimited
    /// device identifier of a relay command (empty when absent).
    pub data_first: String,
    /// The boolean intent under the execution parameters (false when
    /// absent).
    pub params_on: bool,
    /// The first event code found in the data array, still as text.
    pub event_code: Option<String>,
}

/// Events the transport hands to the logic engine.
#[derive(Debug, Clone)]
pub enum TransportOut {
    ResponseMqttEvent(CommandEnvelope),
}

/// Whether an inbound message is the service's own publication echoed
/// back by the broker; such messages are dropped at the boundary.
pub fn is_self_echo(env: &CommandEnvelope) -> (r: bool)
    ensures
        r == (env.source@ == "io"@),
{
    let own = String::from_str("io");
    env.source == own
}

} // verus!
