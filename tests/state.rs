use rusty_chat::protocol::{
    Float32, InitiateParameter, MuffleEffect, PlayerStateUpdateParameter,
    SelfStateUpdateParameter, Vector3,
};
use rusty_chat::store::{Instance, InstanceStore};

fn f(v: f32) -> Float32 {
    Float32 { bits: v.to_bits() }
}

fn player(name: &str, x: f32) -> PlayerStateUpdateParameter {
    PlayerStateUpdateParameter {
        name: name.to_string(),
        position: Vector3 { x: f(x), y: f(0.0), z: f(0.0) },
        rotation: f(0.0),
        voice_range: f(10.0),
        is_alive: true,
        volume_override: None,
        distance_culled: false,
        muffle: Some(MuffleEffect { intensity: 10 }),
    }
}

fn self_state(x: f32) -> SelfStateUpdateParameter {
    SelfStateUpdateParameter {
        position: Vector3 { x: f(x), y: f(1.0), z: f(2.0) },
        rotation: f(90.0),
        voice_range: f(8.0),
        is_alive: true,
        echo: None,
    }
}

fn params(key: &str) -> InitiateParameter {
    InitiateParameter {
        server_unique_identifier: key.to_string(),
        name: "me".to_string(),
        channel_id: 4,
        channel_password: String::new(),
        sound_pack: "default".to_string(),
        swiss_channel_ids: vec![1, 2],
        send_talk_states: true,
        send_radio_traffic_states: false,
        ultra_short_range_distance: f(1800.0),
        short_range_distance: f(3000.0),
        long_range_distance: f(8000.0),
    }
}

fn key(s: &str) -> String {
    s.to_string()
}

fn instance<'a>(store: &'a InstanceStore, k: &str) -> &'a Instance {
    store.get(&key(k)).unwrap()
}

#[test]
fn repeated_updates_of_one_player_keep_the_last() {
    let mut store = InstanceStore::new();
    store.initiate(&key("srv1"), params("srv1"));
    for x in [1.0f32, 2.0, 3.0, 4.0] {
        store.upsert_player(&key("srv1"), player("Alice", x));
    }
    let inst = instance(&store, "srv1");
    assert_eq!(inst.player_count(), 1);
    assert_eq!(inst.player(&key("Alice")), Some(&player("Alice", 4.0)));
}

#[test]
fn upsert_replaces_only_the_named_player() {
    let mut store = InstanceStore::new();
    store.initiate(&key("srv1"), params("srv1"));
    store.upsert_player(&key("srv1"), player("Alice", 1.0));
    store.upsert_player(&key("srv1"), player("Bob", 2.0));
    store.upsert_player(&key("srv1"), player("Alice", 5.0));
    let inst = instance(&store, "srv1");
    assert_eq!(inst.player_count(), 2);
    assert_eq!(inst.player(&key("Alice")), Some(&player("Alice", 5.0)));
    assert_eq!(inst.player(&key("Bob")), Some(&player("Bob", 2.0)));
}

#[test]
fn removing_an_absent_player_changes_nothing() {
    let mut store = InstanceStore::new();
    store.initiate(&key("srv1"), params("srv1"));
    store.upsert_player(&key("srv1"), player("Alice", 1.0));
    store.remove_player(&key("srv1"), &key("X"));
    let inst = instance(&store, "srv1");
    assert_eq!(inst.player_count(), 1);
    assert_eq!(inst.player(&key("Alice")), Some(&player("Alice", 1.0)));
    store.remove_player(&key("srv1"), &key("Alice"));
    assert_eq!(instance(&store, "srv1").player_count(), 0);
}

#[test]
fn bulk_update_then_player_update() {
    let mut store = InstanceStore::new();
    store.initiate(&key("srv1"), params("srv1"));
    store.upsert_player(&key("srv1"), player("Old", 9.0));
    store.bulk_replace(&key("srv1"), self_state(3.0), vec![player("A", 1.0), player("B", 2.0)]);
    store.upsert_player(&key("srv1"), player("C", 3.0));
    let inst = instance(&store, "srv1");
    assert_eq!(inst.player_count(), 3);
    assert_eq!(inst.player(&key("A")), Some(&player("A", 1.0)));
    assert_eq!(inst.player(&key("B")), Some(&player("B", 2.0)));
    assert_eq!(inst.player(&key("C")), Some(&player("C", 3.0)));
    assert_eq!(inst.player(&key("Old")), None);
    assert_eq!(inst.self_state(), Some(self_state(3.0)));
}

#[test]
fn bulk_update_with_repeated_name_keeps_the_later_entry() {
    let mut store = InstanceStore::new();
    store.initiate(&key("srv1"), params("srv1"));
    store.bulk_replace(&key("srv1"), self_state(0.0), vec![player("A", 1.0), player("A", 2.0)]);
    let inst = instance(&store, "srv1");
    assert_eq!(inst.player_count(), 1);
    assert_eq!(inst.player(&key("A")), Some(&player("A", 2.0)));
}

#[test]
fn updates_before_initiate_are_dropped() {
    let mut store = InstanceStore::new();
    store.update_self(&key("srv1"), self_state(1.0));
    store.upsert_player(&key("srv1"), player("A", 1.0));
    store.bulk_replace(&key("srv1"), self_state(1.0), vec![player("B", 1.0)]);
    store.remove_player(&key("srv1"), &key("A"));
    assert_eq!(store.instance_count(), 0);
    assert!(store.get(&key("srv1")).is_none());
}

#[test]
fn initiate_again_replaces_the_instance() {
    let mut store = InstanceStore::new();
    store.initiate(&key("srv1"), params("srv1"));
    store.update_self(&key("srv1"), self_state(1.0));
    store.upsert_player(&key("srv1"), player("A", 1.0));
    let mut replacement = params("srv1");
    replacement.channel_id = 99;
    store.initiate(&key("srv1"), replacement.clone());
    let inst = instance(&store, "srv1");
    assert_eq!(inst.params(), &replacement);
    assert_eq!(inst.self_state(), None);
    assert_eq!(inst.player_count(), 0);
    assert_eq!(store.instance_count(), 1);
    store.initiate(&key("srv2"), params("srv2"));
    assert_eq!(store.instance_count(), 2);
}

#[test]
fn self_state_update_keeps_roster() {
    let mut store = InstanceStore::new();
    store.initiate(&key("srv1"), params("srv1"));
    store.upsert_player(&key("srv1"), player("A", 1.0));
    store.update_self(&key("srv1"), self_state(7.0));
    let inst = instance(&store, "srv1");
    assert_eq!(inst.self_state(), Some(self_state(7.0)));
    assert_eq!(inst.player_count(), 1);
}
