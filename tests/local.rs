use rusty_chat::game::{get_server_by_uid, GameHandler, GameInstances, GameSetupError};
use rusty_chat::protocol::PlaySoundParameter;
use rusty_chat::settings::{Message, MicClickMode, Settings, StereoMode};
use rusty_chat::sound::{sound_search_dirs, Sound};

#[test]
fn settings_start_values_and_updates() {
    let mut s = Settings::new();
    assert_eq!(s.web_socket_address, "ws://localhost:31850");
    assert!(!s.is_3d_enabled);
    assert_eq!(s.mic_click_mode, Some(MicClickMode::ScriptDependent));
    assert_eq!(s.title(), "RustyChat - Settings");
    s.update(Message::WebSocketChanged("ws://x:1".to_string()));
    s.update(Message::Has3dChanged(true));
    s.update(Message::PhoneOffset(StereoMode::LeftOnly));
    s.update(Message::RadioOffset(StereoMode::RightOnly));
    s.update(Message::SecondaryRadioOffset(StereoMode::LeftOnly));
    s.update(Message::MicClickMode(MicClickMode::Always));
    let before = s.clone();
    s.update(Message::Confirm);
    assert_eq!(s, before);
    assert_eq!(s.web_socket_address, "ws://x:1");
    assert!(s.is_3d_enabled);
    assert_eq!(s.phone_offset, Some(StereoMode::LeftOnly));
    assert_eq!(s.radio_offset, Some(StereoMode::RightOnly));
    assert_eq!(s.secondary_radio_offset, Some(StereoMode::LeftOnly));
    assert_eq!(s.mic_click_mode, Some(MicClickMode::Always));
}

#[test]
fn mode_labels() {
    assert_eq!(StereoMode::LeftOnly.to_string(), "Left Only");
    assert_eq!(StereoMode::all()[2].label(), "Right Only");
    assert_eq!(MicClickMode::ScriptDependent.to_string(), "Script Dependent");
    assert_eq!(MicClickMode::default(), MicClickMode::ScriptDependent);
    assert_eq!(MicClickMode::all(), [MicClickMode::ScriptDependent, MicClickMode::Never, MicClickMode::Always]);
}

#[test]
fn server_lookup_takes_the_first_match() {
    let servers = vec![(1u64, "a".to_string()), (2, "b".to_string()), (3, "b".to_string())];
    assert_eq!(get_server_by_uid(&servers, &"b".to_string()), Some(2));
    assert_eq!(get_server_by_uid(&servers, &"c".to_string()), None);
}

#[test]
fn game_sessions_are_set_up_once() {
    let servers = vec![(5u64, "uid".to_string())];
    let mut games = GameInstances::new();
    assert_eq!(games.server_for_new_game(&servers, &"nope".to_string()), Err(GameSetupError::NotConnected));
    let id = games.server_for_new_game(&servers, &"uid".to_string()).unwrap();
    assert_eq!(id, 5);
    let g = GameHandler::new(id, 7, 1, 42);
    assert!(!g.in_game);
    assert!(games.register("uid".to_string(), g));
    assert_eq!(games.get(&"uid".to_string()), Some(g));
    assert!(!games.register("uid".to_string(), GameHandler::new(6, 7, 1, 43)));
    assert_eq!(games.get(&"uid".to_string()), Some(g));
    assert_eq!(games.server_for_new_game(&servers, &"uid".to_string()), Err(GameSetupError::AlreadyExists));
}

#[test]
fn sound_lookup_order() {
    let dirs = sound_search_dirs("pack1");
    assert_eq!(dirs, vec!["override".to_string(), "pack1".to_string(), "default".to_string()]);
    let s = Sound::from_request(PlaySoundParameter {
        file_name: "beep.wav".to_string(),
        is_loop: true,
        handle: "h1".to_string(),
    });
    assert_eq!(s.file_name, "beep.wav");
    assert!(s.is_loop);
    assert_eq!(s.handle, "h1");
    assert_eq!(s.wave_handle, 0);
}
