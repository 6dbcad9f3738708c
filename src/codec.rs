use vstd::prelude::*;
use crate::protocol::{
    command_code, command_of, lemma_code_of_command, lemma_command_of_code, payload_fits, Command,
    ParamMessageType, ProtocolMessage,
};

verus! {

/// A message as it stands on the wire: the raw command value, the instance
/// key and the payload record, before the command value is checked.
#[derive(Clone, Debug, PartialEq)]
pub struct WireMessage {
    pub command: u32,
    pub server_unique_identifier: Option<String>,
    pub parameter: Option<ParamMessageType>,
}

/// Why a wire message was refused.
#[derive(Clone, Copy, Debug, PartialEq, Eq, Structural)]
pub enum DecodeError {
    /// The command value names no command.
    UnknownCommand,
    /// A command other than the greeting came without an instance key.
    MissingInstanceKey,
    /// The payload is not the shape that the command carries.
    PayloadMismatch,
}

/// The outcome of decoding a wire message.
pub open spec fn decode_spec(w: WireMessage) -> Result<ProtocolMessage, DecodeError> {
    match command_of(w.command) {
        None => Err(DecodeError::UnknownCommand),
        Some(c) => if w.server_unique_identifier is None && c != Command::PluginState {
            Err(DecodeError::MissingInstanceKey)
        } else if !payload_fits(c, w.parameter) {
            Err(DecodeError::PayloadMismatch)
        } else {
            Ok(
                ProtocolMessage {
                    command: c,
                    server_unique_identifier: w.server_unique_identifier,
                    parameter: w.parameter,
                },
            )
        },
    }
}

/// The wire form of a message.
pub open spec fn encode_spec(m: ProtocolMessage) -> WireMessage {
    WireMessage {
        command: command_code(m.command),
        server_unique_identifier: m.server_unique_identifier,
        parameter: m.parameter,
    }
}

/// Checks a wire message: the command value must name a command, every
/// command but the greeting must name an instance, and the payload must be
/// the shape that the command carries.
pub fn decode(w: WireMessage) -> (r: Result<ProtocolMessage, DecodeError>)
    ensures
        r == decode_spec(w),
        r matches Ok(m) ==> m.well_formed(),
{
    let c = match Command::from_code(w.command) {
        Some(c) => c,
        None => {
            return Err(DecodeError::UnknownCommand);
        },
    };
    if w.server_unique_identifier.is_none() && c != Command::PluginState {
        return Err(DecodeError::MissingInstanceKey);
    }
    let fits = match &w.parameter {
        None => c.payload_kind().is_none(),
        Some(p) => match c.payload_kind() {
            Some(k) => k == p.kind(),
            None => false,
        },
    };
    if !fits {
        return Err(DecodeError::PayloadMismatch);
    }
    Ok(
        ProtocolMessage {
            command: c,
            server_unique_identifier: w.server_unique_identifier,
            parameter: w.parameter,
        },
    )
}

/// The wire form of a message.
pub fn encode(m: ProtocolMessage) -> (r: WireMessage)
    ensures
        r == encode_spec(m),
{
    WireMessage {
        command: m.command.code(),
        server_unique_identifier: m.server_unique_identifier,
        parameter: m.parameter,
    }
}

/// Decoding the wire form of a well-formed message gives the message back.
pub proof fn lemma_decode_encode(m: ProtocolMessage)
    requires
        m.well_formed(),
    ensures
        decode_spec(encode_spec(m)) == Ok::<ProtocolMessage, DecodeError>(m),
{
    lemma_command_of_code(m.command);
}

/// Encoding a message that decoding accepted gives the wire message back.
pub proof fn lemma_encode_decode(w: WireMessage)
    requires
        decode_spec(w) is Ok,
    ensures
        encode_spec(decode_spec(w)->Ok_0) == w,
{
    lemma_code_of_command(w.command);
}

} // verus!
