use vstd::prelude::*;
use crate::dispatch::Outgoing;
use crate::protocol::{
    Command, ParamMessageType, ProtocolMessage, SoundStateParameter, TalkStateParameter,
};
use crate::registry::{bind_spec, route_spec, LookupError, SessionRegistry};

verus! {

/// The outcome of emitting `message` for instance `key`: the message goes to
/// the connection that the key resolves to, or the lookup error comes back.
pub open spec fn emitted<H>(
    registry: SessionRegistry<H>,
    key: Seq<char>,
    message: ProtocolMessage,
    r: Result<Outgoing, LookupError>,
) -> bool {
    match route_spec(registry.connections_view(), registry.bindings_view(), key) {
        Ok(id) => r == Ok::<Outgoing, LookupError>(Outgoing { connection: id, message }),
        Err(e) => r == Err::<Outgoing, LookupError>(e),
    }
}

/// Addresses `message` to the open connection bound to instance `key`.
pub fn emit<H>(registry: &SessionRegistry<H>, key: &String, message: ProtocolMessage) -> (r:
    Result<Outgoing, LookupError>)
    requires
        registry.wf(),
    ensures
        emitted(*registry, key@, message, r),
        r matches Ok(o) ==> registry.connections_view().contains_key(o.connection),
{
    match registry.route(key) {
        Ok(id) => Ok(Outgoing { connection: id, message }),
        Err(e) => Err(e),
    }
}

/// The `SoundState` event for instance `server_id`.
pub open spec fn sound_state_message(
    server_id: String,
    is_microphone_enabled: bool,
    is_microphone_muted: bool,
    is_sound_enabled: bool,
    is_sound_muted: bool,
) -> ProtocolMessage {
    ProtocolMessage {
        command: Command::SoundState,
        server_unique_identifier: Some(server_id),
        parameter: Some(
            ParamMessageType::SoundStateParameter(
                SoundStateParameter {
                    is_microphone_muted,
                    is_microphone_enabled,
                    is_sound_muted,
                    is_sound_enabled,
                },
            ),
        ),
    }
}

/// Tells the client of instance `server_id` that the local microphone or
/// speaker switches changed.
pub fn on_sound_state_toggle<H>(
    registry: &SessionRegistry<H>,
    server_id: &String,
    is_microphone_enabled: bool,
    is_microphone_muted: bool,
    is_sound_enabled: bool,
    is_sound_muted: bool,
) -> (r: Result<Outgoing, LookupError>)
    requires
        registry.wf(),
    ensures
        emitted(
            *registry,
            server_id@,
            sound_state_message(
                *server_id,
                is_microphone_enabled,
                is_microphone_muted,
                is_sound_enabled,
                is_sound_muted,
            ),
            r,
        ),
{
    let message = ProtocolMessage {
        command: Command::SoundState,
        server_unique_identifier: Some(server_id.clone()),
        parameter: Some(
            ParamMessageType::SoundStateParameter(
                SoundStateParameter {
                    is_microphone_muted,
                    is_microphone_enabled,
                    is_sound_muted,
                    is_sound_enabled,
                },
            ),
        ),
    };
    emit(registry, server_id, message)
}

/// Whether `m` is the `TalkState` event for instance `server_id` saying
/// that the player called `name` started (`is_talking`) or stopped talking.
pub open spec fn is_talk_state(
    m: ProtocolMessage,
    server_id: String,
    is_talking: bool,
    name: Seq<char>,
) -> bool {
    &&& m.command == Command::TalkState
    &&& m.server_unique_identifier == Some(server_id)
    &&& match m.parameter {
        Some(ParamMessageType::TalkStateParameter(t)) => t.name@ == name && t.is_talking
            == is_talking,
        _ => false,
    }
}

/// Tells the client of instance `server_id` that the player called `name`
/// started or stopped talking.
pub fn on_talk_state_toggle<H>(
    registry: &SessionRegistry<H>,
    server_id: &String,
    is_talking: bool,
    name: &str,
) -> (r: Result<Outgoing, LookupError>)
    requires
        registry.wf(),
    ensures
        match route_spec(registry.connections_view(), registry.bindings_view(), server_id@) {
            Ok(id) => r matches Ok(o) && o.connection == id && is_talk_state(
                o.message,
                *server_id,
                is_talking,
                name@,
            ),
            Err(e) => r == Err::<Outgoing, LookupError>(e),
        },
{
    let message = ProtocolMessage {
        command: Command::TalkState,
        server_unique_identifier: Some(server_id.clone()),
        parameter: Some(
            ParamMessageType::TalkStateParameter(
                TalkStateParameter { name: name.to_owned(), is_talking },
            ),
        ),
    };
    emit(registry, server_id, message)
}

/// When an instance key is bound from one open connection and then from
/// another, it resolves to the second; so an event emitted for it afterwards
/// goes to the second connection and never to the first.
pub proof fn lemma_rebind_routes_to_latest<H>(
    conns: Map<u64, H>,
    bindings: Map<Seq<char>, u64>,
    key: Seq<char>,
    first: u64,
    second: u64,
)
    requires
        conns.contains_key(first),
        conns.contains_key(second),
    ensures
        route_spec(conns, bind_spec(conns, bind_spec(conns, bindings, key, first), key, second), key)
            == Ok::<u64, LookupError>(second),
        first != second ==> route_spec(
            conns,
            bind_spec(conns, bind_spec(conns, bindings, key, first), key, second),
            key,
        ) != Ok::<u64, LookupError>(first),
{
}

} // verus!
