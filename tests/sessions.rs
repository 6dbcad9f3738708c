use rusty_chat::codec::{encode, WireMessage};
use rusty_chat::dispatch::{greeting, handle_event, Outgoing, TransportEvent, PLUGIN_VERSION};
use rusty_chat::events::{emit, on_sound_state_toggle, on_talk_state_toggle};
use rusty_chat::protocol::{
    Command, Float32, InitiateParameter, ParamMessageType, PlayerStateUpdateParameter,
    ProtocolMessage, RemovePlayerParameter, SoundStateParameter, TalkStateParameter, Vector3,
};
use rusty_chat::registry::{LookupError, SessionRegistry};
use rusty_chat::store::InstanceStore;

fn f(v: f32) -> Float32 {
    Float32 { bits: v.to_bits() }
}

fn initiate(key: &str) -> WireMessage {
    WireMessage {
        command: 1,
        server_unique_identifier: Some(key.to_string()),
        parameter: Some(ParamMessageType::InitiateParameter(InitiateParameter {
            server_unique_identifier: key.to_string(),
            name: "me".to_string(),
            channel_id: 4,
            channel_password: String::new(),
            sound_pack: "default".to_string(),
            swiss_channel_ids: vec![],
            send_talk_states: true,
            send_radio_traffic_states: false,
            ultra_short_range_distance: f(1800.0),
            short_range_distance: f(3000.0),
            long_range_distance: f(8000.0),
        })),
    }
}

fn ping(key: &str) -> WireMessage {
    WireMessage { command: 3, server_unique_identifier: Some(key.to_string()), parameter: None }
}

fn player_update(key: &str, name: &str) -> WireMessage {
    WireMessage {
        command: 8,
        server_unique_identifier: Some(key.to_string()),
        parameter: Some(ParamMessageType::PlayerStateUpdateParameter(PlayerStateUpdateParameter {
            name: name.to_string(),
            position: Vector3 { x: f(1.0), y: f(2.0), z: f(3.0) },
            rotation: f(0.0),
            voice_range: f(5.0),
            is_alive: true,
            volume_override: Some(f(0.5)),
            distance_culled: false,
            muffle: None,
        })),
    }
}

fn pong(connection: u64, key: &str) -> Outgoing {
    Outgoing {
        connection,
        message: ProtocolMessage {
            command: Command::Pong,
            server_unique_identifier: Some(key.to_string()),
            parameter: None,
        },
    }
}

fn text(id: u64, w: WireMessage) -> TransportEvent<u8> {
    TransportEvent::Text(id, Some(w))
}

#[test]
fn connect_sends_the_greeting() {
    let mut store = InstanceStore::new();
    let mut reg: SessionRegistry<u8> = SessionRegistry::new();
    let out = handle_event(&mut store, &mut reg, TransportEvent::Connect(1, 10));
    assert_eq!(out.len(), 1);
    assert_eq!(out[0].connection, 1);
    assert_eq!(out[0].message, greeting(0));
    match &out[0].message.parameter {
        Some(ParamMessageType::PluginStateParameter(p)) => {
            assert_eq!(p.version, "2.3.6");
            assert_eq!(p.active_instances, 0);
        }
        _ => panic!("greeting without plugin state"),
    }
    assert_eq!(PLUGIN_VERSION, "2.3.6");
    handle_event(&mut store, &mut reg, text(1, initiate("srv1")));
    let out = handle_event(&mut store, &mut reg, TransportEvent::Connect(2, 20));
    assert_eq!(out[0].message, greeting(1));
}

#[test]
fn ping_from_srv1_gets_pong() {
    // {"Command":3,"ServerUniqueIdentifier":"srv1","Parameter":null}
    let mut store = InstanceStore::new();
    let mut reg: SessionRegistry<u8> = SessionRegistry::new();
    handle_event(&mut store, &mut reg, TransportEvent::Connect(7, 70));
    let out = handle_event(&mut store, &mut reg, text(7, ping("srv1")));
    // {"Command":4,"ServerUniqueIdentifier":"srv1","Parameter":null}
    assert_eq!(out, vec![pong(7, "srv1")]);
    assert_eq!(out[0].message.command.code(), 4);
}

#[test]
fn malformed_text_keeps_connection_and_state() {
    let mut store = InstanceStore::new();
    let mut reg: SessionRegistry<u8> = SessionRegistry::new();
    handle_event(&mut store, &mut reg, TransportEvent::Connect(1, 10));
    handle_event(&mut store, &mut reg, text(1, initiate("srv1")));
    handle_event(&mut store, &mut reg, text(1, player_update("srv1", "A")));
    let out = handle_event(&mut store, &mut reg, TransportEvent::Text(1, None));
    assert!(out.is_empty());
    let bad = WireMessage { command: 77, server_unique_identifier: Some("srv1".to_string()), parameter: None };
    assert!(handle_event(&mut store, &mut reg, text(1, bad)).is_empty());
    assert!(handle_event(&mut store, &mut reg, TransportEvent::Binary(1)).is_empty());
    assert_eq!(reg.send_handle_for(1), Some(&10));
    assert_eq!(reg.connection_for(&"srv1".to_string()), Some(1));
    let inst = store.get(&"srv1".to_string()).unwrap();
    assert_eq!(inst.player_count(), 1);
    let out = handle_event(&mut store, &mut reg, text(1, ping("srv1")));
    assert_eq!(out, vec![pong(1, "srv1")]);
}

#[test]
fn reinitiate_from_second_connection_rebinds() {
    let mut store = InstanceStore::new();
    let mut reg: SessionRegistry<u8> = SessionRegistry::new();
    handle_event(&mut store, &mut reg, TransportEvent::Connect(1, 10));
    handle_event(&mut store, &mut reg, TransportEvent::Connect(2, 20));
    handle_event(&mut store, &mut reg, text(1, initiate("srv1")));
    assert_eq!(reg.connection_for(&"srv1".to_string()), Some(1));
    handle_event(&mut store, &mut reg, text(2, initiate("srv1")));
    assert_eq!(reg.connection_for(&"srv1".to_string()), Some(2));
    let sent = on_talk_state_toggle(&reg, &"srv1".to_string(), true, "Alice").unwrap();
    assert_eq!(sent.connection, 2);
    assert_eq!(reg.send_handle_for(sent.connection), Some(&20));
    assert_eq!(
        sent.message.parameter,
        Some(ParamMessageType::TalkStateParameter(TalkStateParameter {
            name: "Alice".to_string(),
            is_talking: true,
        }))
    );
    assert_eq!(sent.message.command, Command::TalkState);
}

#[test]
fn messages_from_unknown_connections_are_ignored() {
    let mut store = InstanceStore::new();
    let mut reg: SessionRegistry<u8> = SessionRegistry::new();
    assert!(handle_event(&mut store, &mut reg, text(5, ping("srv1"))).is_empty());
    assert!(handle_event(&mut store, &mut reg, text(5, initiate("srv1"))).is_empty());
    assert_eq!(store.instance_count(), 0);
    assert_eq!(reg.connection_for(&"srv1".to_string()), None);
}

#[test]
fn disconnect_drops_bindings_of_that_connection() {
    let mut store = InstanceStore::new();
    let mut reg: SessionRegistry<u8> = SessionRegistry::new();
    handle_event(&mut store, &mut reg, TransportEvent::Connect(1, 10));
    handle_event(&mut store, &mut reg, TransportEvent::Connect(2, 20));
    handle_event(&mut store, &mut reg, text(1, initiate("srv1")));
    handle_event(&mut store, &mut reg, text(1, initiate("srv2")));
    handle_event(&mut store, &mut reg, text(2, initiate("srv3")));
    let out = handle_event(&mut store, &mut reg, TransportEvent::Disconnect(1));
    assert!(out.is_empty());
    assert_eq!(reg.send_handle_for(1), None);
    assert_eq!(reg.connection_for(&"srv1".to_string()), None);
    assert_eq!(reg.connection_for(&"srv2".to_string()), None);
    assert_eq!(reg.connection_for(&"srv3".to_string()), Some(2));
    assert_eq!(
        on_talk_state_toggle(&reg, &"srv1".to_string(), false, "A"),
        Err(LookupError::UnboundInstance)
    );
    // the instance state itself stays
    assert_eq!(store.instance_count(), 3);
}

#[test]
fn remove_player_through_dispatch() {
    let mut store = InstanceStore::new();
    let mut reg: SessionRegistry<u8> = SessionRegistry::new();
    handle_event(&mut store, &mut reg, TransportEvent::Connect(1, 10));
    handle_event(&mut store, &mut reg, text(1, initiate("srv1")));
    handle_event(&mut store, &mut reg, text(1, player_update("srv1", "A")));
    handle_event(&mut store, &mut reg, text(1, player_update("srv1", "B")));
    let remove = WireMessage {
        command: 10,
        server_unique_identifier: Some("srv1".to_string()),
        parameter: Some(ParamMessageType::RemovePlayerParameter(RemovePlayerParameter {
            name: "A".to_string(),
        })),
    };
    assert!(handle_event(&mut store, &mut reg, text(1, remove)).is_empty());
    let inst = store.get(&"srv1".to_string()).unwrap();
    assert_eq!(inst.player_count(), 1);
    assert!(inst.player(&"A".to_string()).is_none());
    assert!(inst.player(&"B".to_string()).is_some());
}

#[test]
fn sound_state_goes_to_bound_connection() {
    let mut reg: SessionRegistry<u8> = SessionRegistry::new();
    assert_eq!(
        on_sound_state_toggle(&reg, &"srv1".to_string(), true, false, true, false),
        Err(LookupError::UnboundInstance)
    );
    reg.connect(3, 30);
    assert!(reg.bind(&"srv1".to_string(), 3));
    let sent = on_sound_state_toggle(&reg, &"srv1".to_string(), true, false, true, true).unwrap();
    assert_eq!(sent.connection, 3);
    assert_eq!(sent.message.command, Command::SoundState);
    assert_eq!(sent.message.server_unique_identifier, Some("srv1".to_string()));
    assert_eq!(
        sent.message.parameter,
        Some(ParamMessageType::SoundStateParameter(SoundStateParameter {
            is_microphone_muted: false,
            is_microphone_enabled: true,
            is_sound_muted: true,
            is_sound_enabled: true,
        }))
    );
}

#[test]
fn bind_needs_an_open_connection() {
    let mut reg: SessionRegistry<u8> = SessionRegistry::new();
    assert!(!reg.bind(&"srv1".to_string(), 9));
    assert_eq!(reg.route(&"srv1".to_string()), Err(LookupError::UnboundInstance));
    reg.connect(9, 1);
    assert!(reg.bind(&"srv1".to_string(), 9));
    assert_eq!(reg.route(&"srv1".to_string()), Ok(9));
    let m = ProtocolMessage { command: Command::Pong, server_unique_identifier: None, parameter: None };
    assert_eq!(emit(&reg, &"srv1".to_string(), m.clone()), Ok(Outgoing { connection: 9, message: m }));
    reg.disconnect(9);
    assert_eq!(reg.route(&"srv1".to_string()), Err(LookupError::UnboundInstance));
}

#[test]
fn ping_json_text_gets_pong_json_text() {
    let text = r#"{"Command":3,"ServerUniqueIdentifier":"srv1","Parameter":null}"#;
    let v: serde_json::Value = serde_json::from_str(text).unwrap();
    assert!(v["Parameter"].is_null());
    let w = WireMessage {
        command: v["Command"].as_u64().unwrap() as u32,
        server_unique_identifier: v["ServerUniqueIdentifier"].as_str().map(String::from),
        parameter: None,
    };
    let mut store = InstanceStore::new();
    let mut reg: SessionRegistry<u8> = SessionRegistry::new();
    handle_event(&mut store, &mut reg, TransportEvent::Connect(1, 10));
    let out = handle_event(&mut store, &mut reg, TransportEvent::Text(1, Some(w)));
    assert_eq!(out.len(), 1);
    let reply = encode(out[0].message.clone());
    assert!(reply.parameter.is_none());
    let mut obj = serde_json::Map::new();
    obj.insert("Command".to_string(), serde_json::Value::from(reply.command));
    obj.insert(
        "ServerUniqueIdentifier".to_string(),
        serde_json::Value::from(reply.server_unique_identifier),
    );
    obj.insert("Parameter".to_string(), serde_json::Value::Null);
    let expected: serde_json::Value =
        serde_json::from_str(r#"{"Command":4,"ServerUniqueIdentifier":"srv1","Parameter":null}"#)
            .unwrap();
    assert_eq!(serde_json::Value::Object(obj), expected);
}
