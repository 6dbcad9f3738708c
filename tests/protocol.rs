use rusty_chat::codec::{decode, encode, DecodeError, WireMessage};
use rusty_chat::protocol::{
    default_delay, default_duration, default_intensity, default_is_alive,
    default_long_range_distance, default_radio_traffic_state, default_range, default_rolloff,
    default_short_range_distance, default_talk_state, default_ultra_short_range_distance, Command,
    Error, Float32, GameInstanceState, ParamMessageType, PayloadKind, PluginStateParameter,
    ProtocolMessage, RadioType, RemovePlayerParameter, StopPhoneCommunicationParameter,
    TalkStateParameter,
};

const ALL_CODES: [(Command, u32); 25] = [
    (Command::PluginState, 0),
    (Command::Initiate, 1),
    (Command::Reset, 2),
    (Command::Ping, 3),
    (Command::Pong, 4),
    (Command::InstanceState, 5),
    (Command::SoundState, 6),
    (Command::SelfStateUpdate, 7),
    (Command::PlayerStateUpdate, 8),
    (Command::BulkUpdate, 9),
    (Command::RemovePlayer, 10),
    (Command::TalkState, 11),
    (Command::PlaySound, 18),
    (Command::StopSound, 19),
    (Command::PhoneCommunicationUpdate, 20),
    (Command::StopPhoneCommunication, 21),
    (Command::RadioCommunicationUpdate, 30),
    (Command::StopRadioCommunication, 31),
    (Command::RadioTowerUpdate, 32),
    (Command::RadioTrafficState, 33),
    (Command::AddRadioChannelMember, 37),
    (Command::UpdateRadioChannelMembers, 38),
    (Command::RemoveRadioChannelMember, 39),
    (Command::MegaphoneCommunicationUpdate, 40),
    (Command::StopMegaphoneCommunication, 41),
];

#[test]
fn command_codes_match_the_wire_table() {
    for (c, n) in ALL_CODES {
        assert_eq!(c.code(), n);
        assert_eq!(Command::from_code(n), Some(c));
    }
}

#[test]
fn unknown_command_codes_are_rejected() {
    for n in [12u32, 17, 22, 29, 34, 36, 42, 1000, u32::MAX] {
        assert_eq!(Command::from_code(n), None);
    }
}

#[test]
fn small_enum_codes() {
    assert_eq!(GameInstanceState::InSwissChannel.code(), 3);
    assert_eq!(GameInstanceState::from_code(2), Some(GameInstanceState::Ingame));
    assert_eq!(GameInstanceState::from_code(4), None);
    assert_eq!(RadioType::UltraShortRange.code(), 16);
    assert_eq!(RadioType::from_code(1), Some(RadioType::NoRadio));
    assert_eq!(RadioType::from_code(3), None);
    assert_eq!(Error::ServerUnderlicensed.code(), 101);
    assert_eq!(Error::from_code(100), Some(Error::ServerBlacklisted));
    assert_eq!(Error::from_code(7), None);
}

#[test]
fn documented_defaults() {
    assert!(default_talk_state());
    assert!(!default_radio_traffic_state());
    assert_eq!(default_ultra_short_range_distance().bits, 1800.0f32.to_bits());
    assert_eq!(default_short_range_distance().bits, 3000.0f32.to_bits());
    assert_eq!(default_long_range_distance().bits, 8000.0f32.to_bits());
    assert!(default_is_alive());
    assert_eq!(default_duration(), 100);
    assert_eq!(default_rolloff().bits, 0.3f32.to_bits());
    assert_eq!(default_delay(), 25);
    assert_eq!(default_intensity(), 10);
    assert_eq!(default_range(), Float32 { bits: 8000.0f32.to_bits() });
}

#[test]
fn payload_kind_follows_the_command() {
    assert_eq!(Command::Ping.payload_kind(), None);
    assert_eq!(Command::Reset.payload_kind(), None);
    assert_eq!(Command::RemovePlayer.payload_kind(), Some(PayloadKind::RemovePlayer));
    assert_eq!(
        Command::StopPhoneCommunication.payload_kind(),
        Some(PayloadKind::StopPhoneCommunication)
    );
    let p = ParamMessageType::TalkStateParameter(TalkStateParameter {
        name: "a".to_string(),
        is_talking: true,
    });
    assert_eq!(p.kind(), PayloadKind::TalkState);
}

fn wire(command: u32, key: Option<&str>, parameter: Option<ParamMessageType>) -> WireMessage {
    WireMessage {
        command,
        server_unique_identifier: key.map(|k| k.to_string()),
        parameter,
    }
}

#[test]
fn decode_rejects_unknown_command() {
    assert_eq!(decode(wire(12, Some("srv1"), None)), Err(DecodeError::UnknownCommand));
}

#[test]
fn decode_rejects_missing_instance_key() {
    assert_eq!(decode(wire(3, None, None)), Err(DecodeError::MissingInstanceKey));
}

#[test]
fn decode_rejects_payload_of_another_command() {
    // A record with only a name is a stop-phone payload under this command,
    // never a remove-player one.
    let remove = ParamMessageType::RemovePlayerParameter(RemovePlayerParameter {
        name: "x".to_string(),
    });
    assert_eq!(decode(wire(21, Some("srv1"), Some(remove))), Err(DecodeError::PayloadMismatch));
    assert_eq!(decode(wire(10, Some("srv1"), None)), Err(DecodeError::PayloadMismatch));
    let talk = ParamMessageType::TalkStateParameter(TalkStateParameter {
        name: "x".to_string(),
        is_talking: false,
    });
    assert_eq!(decode(wire(3, Some("srv1"), Some(talk))), Err(DecodeError::PayloadMismatch));
}

#[test]
fn decode_accepts_matching_payloads() {
    let stop = ParamMessageType::StopPhoneCommunicationParameter(StopPhoneCommunicationParameter {
        name: "x".to_string(),
    });
    let m = decode(wire(21, Some("srv1"), Some(stop.clone()))).unwrap();
    assert_eq!(m.command, Command::StopPhoneCommunication);
    assert_eq!(m.server_unique_identifier, Some("srv1".to_string()));
    assert_eq!(m.parameter, Some(stop));
    let greeting = ParamMessageType::PluginStateParameter(PluginStateParameter {
        version: "2.3.6".to_string(),
        active_instances: 1,
    });
    let g = decode(wire(0, None, Some(greeting))).unwrap();
    assert_eq!(g.command, Command::PluginState);
}

#[test]
fn encode_then_decode_gives_the_message_back() {
    let messages = vec![
        ProtocolMessage {
            command: Command::Ping,
            server_unique_identifier: Some("srv1".to_string()),
            parameter: None,
        },
        ProtocolMessage {
            command: Command::RemovePlayer,
            server_unique_identifier: Some("srv1".to_string()),
            parameter: Some(ParamMessageType::RemovePlayerParameter(RemovePlayerParameter {
                name: "Bob".to_string(),
            })),
        },
        ProtocolMessage {
            command: Command::PluginState,
            server_unique_identifier: None,
            parameter: Some(ParamMessageType::PluginStateParameter(PluginStateParameter {
                version: "2.3.6".to_string(),
                active_instances: 2,
            })),
        },
    ];
    for m in messages {
        let w = encode(m.clone());
        assert_eq!(w.command, m.command.code());
        assert_eq!(decode(w), Ok(m));
    }
}
