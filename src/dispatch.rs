use vstd::prelude::*;
use crate::codec::{decode, decode_spec, WireMessage};
use crate::keyed::without_value;
use crate::protocol::{Command, ParamMessageType, PluginStateParameter, ProtocolMessage};
use crate::registry::{bind_spec, SessionRegistry};
use crate::store::{
    bulk_replaced, initiated, player_removed, player_upserted, self_updated, Instance,
    InstanceStore,
};

verus! {

/// The plugin version announced in the connection greeting.
pub const PLUGIN_VERSION: &'static str = "2.3.6";

/// A message to be sent on connection `connection`.
#[derive(Clone, Debug, PartialEq)]
pub struct Outgoing {
    pub connection: u64,
    pub message: ProtocolMessage,
}

/// What the transport reports: a connection opened with its send handle, a
/// connection closed, a text frame (`None` when it did not hold a JSON
/// envelope), or a binary frame.
pub enum TransportEvent<H> {
    Connect(u64, H),
    Disconnect(u64),
    Text(u64, Option<WireMessage>),
    Binary(u64),
}

/// The instance count as announced: the number, or `u32::MAX` if larger.
pub open spec fn announced_count(n: nat) -> u32 {
    if n > u32::MAX {
        u32::MAX
    } else {
        n as u32
    }
}

/// Whether `m` is the connection greeting announcing `count` instances.
pub open spec fn is_greeting(m: ProtocolMessage, count: u32) -> bool {
    &&& m.command == Command::PluginState
    &&& m.server_unique_identifier is None
    &&& match m.parameter {
        Some(ParamMessageType::PluginStateParameter(p)) => p.version@ == PLUGIN_VERSION@
            && p.active_instances == count,
        _ => false,
    }
}

/// The reply to a `Ping` for instance key `key` from connection `id`.
pub open spec fn pong_to(id: u64, key: Option<String>) -> Outgoing {
    Outgoing {
        connection: id,
        message: ProtocolMessage {
            command: Command::Pong,
            server_unique_identifier: key,
            parameter: None,
        },
    }
}

/// The effect of a decoded message `m` from open connection `id`: store
/// `s0` becomes `s1`, bindings `b0` become `b1`, and `out` is sent.
pub open spec fn message_effect<H>(
    s0: Map<Seq<char>, Instance>,
    s1: Map<Seq<char>, Instance>,
    conns: Map<u64, H>,
    b0: Map<Seq<char>, u64>,
    b1: Map<Seq<char>, u64>,
    id: u64,
    m: ProtocolMessage,
    out: Seq<Outgoing>,
) -> bool {
    let key = m.server_unique_identifier->Some_0@;
    match m.parameter {
        Some(ParamMessageType::InitiateParameter(p)) => initiated(s0, s1, key, p)
            && b1 == bind_spec(conns, b0, key, id) && out.len() == 0,
        Some(ParamMessageType::SelfStateUpdateParameter(st)) => self_updated(s0, s1, key, st)
            && b1 == b0 && out.len() == 0,
        Some(ParamMessageType::PlayerStateUpdateParameter(p)) => player_upserted(s0, s1, key, p)
            && b1 == b0 && out.len() == 0,
        Some(ParamMessageType::BulkUpdateParameter(b)) => bulk_replaced(
            s0,
            s1,
            key,
            b.self_state,
            b.player_states@,
        ) && b1 == b0 && out.len() == 0,
        Some(ParamMessageType::RemovePlayerParameter(r)) => player_removed(s0, s1, key, r.name@)
            && b1 == b0 && out.len() == 0,
        _ => s1 == s0 && b1 == b0 && if m.command == Command::Ping {
            out == seq![pong_to(id, m.server_unique_identifier)]
        } else {
            out.len() == 0
        },
    }
}

fn announced(n: usize) -> (r: u32)
    ensures
        r == announced_count(n as nat),
{
    if n > u32::MAX as usize {
        u32::MAX
    } else {
        n as u32
    }
}

/// The connection greeting announcing `count` instances.
pub fn greeting(count: u32) -> (r: ProtocolMessage)
    ensures
        is_greeting(r, count),
        r.well_formed(),
{
    ProtocolMessage {
        command: Command::PluginState,
        server_unique_identifier: None,
        parameter: Some(
            ParamMessageType::PluginStateParameter(
                PluginStateParameter { version: PLUGIN_VERSION.to_owned(), active_instances: count },
            ),
        ),
    }
}

/// Applies a self-state payload to instance `server_id`; any other payload
/// changes nothing.
pub fn handle_self_state_update(
    message: ParamMessageType,
    server_id: &String,
    store: &mut InstanceStore,
)
    requires
        old(store).wf(),
    ensures
        final(store).wf(),
        match message {
            ParamMessageType::SelfStateUpdateParameter(st) => self_updated(
                old(store)@,
                final(store)@,
                server_id@,
                st,
            ),
            _ => final(store)@ == old(store)@,
        },
{
    if let ParamMessageType::SelfStateUpdateParameter(st) = message {
        store.update_self(server_id, st);
    }
}

/// Merges a player payload into the roster of instance `server_id`; any
/// other payload changes nothing.
pub fn handle_player_state_update(
    message: ParamMessageType,
    server_id: &String,
    store: &mut InstanceStore,
)
    requires
        old(store).wf(),
    ensures
        final(store).wf(),
        match message {
            ParamMessageType::PlayerStateUpdateParameter(p) => player_upserted(
                old(store)@,
                final(store)@,
                server_id@,
                p,
            ),
            _ => final(store)@ == old(store)@,
        },
{
    if let ParamMessageType::PlayerStateUpdateParameter(p) = message {
        store.upsert_player(server_id, p);
    }
}

/// Applies a decoded message from connection `id` and returns the replies.
fn handle_message<H>(
    store: &mut InstanceStore,
    registry: &mut SessionRegistry<H>,
    id: u64,
    m: ProtocolMessage,
) -> (out: Vec<Outgoing>)
    requires
        old(store).wf(),
        old(registry).wf(),
        old(registry).connections_view().contains_key(id),
        m.well_formed(),
    ensures
        final(store).wf(),
        final(registry).wf(),
        final(registry).connections_view() == old(registry).connections_view(),
        message_effect(
            old(store)@,
            final(store)@,
            old(registry).connections_view(),
            old(registry).bindings_view(),
            final(registry).bindings_view(),
            id,
            m,
            out@,
        ),
{
    let mut out: Vec<Outgoing> = Vec::new();
    let command = m.command;
    match (m.server_unique_identifier, m.parameter) {
        (Some(key), Some(ParamMessageType::InitiateParameter(p))) => {
            let _ = registry.bind(&key, id);
            store.initiate(&key, p);
        },
        (Some(key), Some(p @ ParamMessageType::SelfStateUpdateParameter(_))) => {
            handle_self_state_update(p, &key, store);
        },
        (Some(key), Some(p @ ParamMessageType::PlayerStateUpdateParameter(_))) => {
            handle_player_state_update(p, &key, store);
        },
        (Some(key), Some(ParamMessageType::BulkUpdateParameter(b))) => {
            store.bulk_replace(&key, b.self_state, b.player_states);
        },
        (Some(key), Some(ParamMessageType::RemovePlayerParameter(r))) => {
            store.remove_player(&key, &r.name);
        },
        (key, _) => {
            if command == Command::Ping {
                out.push(
                    Outgoing {
                        connection: id,
                        message: ProtocolMessage {
                            command: Command::Pong,
                            server_unique_identifier: key,
                            parameter: None,
                        },
                    },
                );
                assert(out@ =~= seq![pong_to(id, m.server_unique_identifier)]);
            }
        },
    }
    out
}

/// One step of the dispatcher: applies a transport event to the instance
/// store and the session registry, and returns the messages to send.
///
/// A connection is greeted when it opens; its bindings go when it closes.
/// A text frame from an open connection is decoded and applied; one that is
/// not an envelope, that decoding refuses, or that comes from a connection
/// that is not open changes nothing and is answered by nothing. Binary frames
/// are ignored.
pub fn handle_event<H>(
    store: &mut InstanceStore,
    registry: &mut SessionRegistry<H>,
    event: TransportEvent<H>,
) -> (out: Vec<Outgoing>)
    requires
        old(store).wf(),
        old(registry).wf(),
    ensures
        final(store).wf(),
        final(registry).wf(),
        match event {
            TransportEvent::Connect(id, h) => {
                &&& final(store)@ == old(store)@
                &&& final(registry).connections_view() == old(registry).connections_view().insert(id, h)
                &&& final(registry).bindings_view() == old(registry).bindings_view()
                &&& out.len() == 1
                &&& out@[0].connection == id
                &&& is_greeting(out@[0].message, announced_count(old(store)@.dom().len()))
            },
            TransportEvent::Disconnect(id) => {
                &&& final(store)@ == old(store)@
                &&& final(registry).connections_view() == old(registry).connections_view().remove(id)
                &&& final(registry).bindings_view() == without_value(old(registry).bindings_view(), id)
                &&& out.len() == 0
            },
            TransportEvent::Text(id, Some(w)) => if old(registry).connections_view().contains_key(id)
                && decode_spec(w) is Ok {
                &&& final(registry).connections_view() == old(registry).connections_view()
                &&& message_effect(
                    old(store)@,
                    final(store)@,
                    old(registry).connections_view(),
                    old(registry).bindings_view(),
                    final(registry).bindings_view(),
                    id,
                    decode_spec(w)->Ok_0,
                    out@,
                )
            } else {
                &&& final(store)@ == old(store)@
                &&& final(registry).connections_view() == old(registry).connections_view()
                &&& final(registry).bindings_view() == old(registry).bindings_view()
                &&& out.len() == 0
            },
            _ => {
                &&& final(store)@ == old(store)@
                &&& final(registry).connections_view() == old(registry).connections_view()
                &&& final(registry).bindings_view() == old(registry).bindings_view()
                &&& out.len() == 0
            },
        },
{
    match event {
        TransportEvent::Connect(id, h) => {
            registry.connect(id, h);
            let count = announced(store.instance_count());
            let mut out: Vec<Outgoing> = Vec::new();
            out.push(Outgoing { connection: id, message: greeting(count) });
            out
        },
        TransportEvent::Disconnect(id) => {
            registry.disconnect(id);
            Vec::new()
        },
        TransportEvent::Text(id, Some(w)) => {
            if registry.send_handle_for(id).is_none() {
                return Vec::new();
            }
            match decode(w) {
                Ok(m) => handle_message(store, registry, id, m),
                Err(_) => Vec::new(),
            }
        },
        _ => Vec::new(),
    }
}

/// A `Ping` is answered by a `Pong` for the same instance key on the
/// connection it came from, whatever the state, and changes nothing.
pub proof fn lemma_ping_answered<H>(
    s0: Map<Seq<char>, Instance>,
    s1: Map<Seq<char>, Instance>,
    conns: Map<u64, H>,
    b0: Map<Seq<char>, u64>,
    b1: Map<Seq<char>, u64>,
    id: u64,
    m: ProtocolMessage,
    out: Seq<Outgoing>,
)
    requires
        m.command == Command::Ping,
        m.well_formed(),
        message_effect(s0, s1, conns, b0, b1, id, m, out),
    ensures
        out == seq![pong_to(id, m.server_unique_identifier)],
        s1 == s0,
        b1 == b0,
{
}

} // verus!
