use ddcore_rs::models::spawnset::{
    Arena, Header, Settings, Spawn, Spawnset, SpawnsHeader, SpawnsetError, V1Enemies, V3Enemies,
};

fn minimal(version: i32) -> Spawnset<V3Enemies> {
    let mut header = Header::default();
    header.spawn_version = version;
    Spawnset {
        header,
        arena: Arena::default(),
        spawns_header: SpawnsHeader::default(),
        spawns: vec![],
        settings: Some(Settings::default()),
    }
}

#[test]
fn minimal_spawnset_round_trips() {
    let s = minimal(6);
    let bytes = s.serialize();
    assert_eq!(bytes.len(), 36 + 10404 + 40 + 9);
    assert_eq!(&bytes[36..40], &(-1000.0f32).to_le_bytes());
    let back = Spawnset::<V3Enemies>::deserialize(&bytes).unwrap();
    assert_eq!(back.serialize(), bytes);
    assert_eq!(back.spawns.len(), 0);
}

#[test]
fn settings_follow_spawn_version() {
    let five = minimal(5).serialize();
    assert_eq!(five.len(), 36 + 10404 + 40 + 5);
    let s5 = Spawnset::<V3Enemies>::deserialize(&five).unwrap();
    assert_eq!(s5.settings.unwrap().timer_start, None);
    let six = minimal(6).serialize();
    let s6 = Spawnset::<V3Enemies>::deserialize(&six).unwrap();
    assert_eq!(s6.settings.unwrap().timer_start, Some(0));
    let four = minimal(4).serialize();
    assert_eq!(four.len(), 36 + 10404 + 40);
    assert!(Spawnset::<V3Enemies>::deserialize(&four).unwrap().settings.is_none());
}

#[test]
fn spawns_round_trip_and_count() {
    let mut s = minimal(6);
    let mut sp: Spawn<V3Enemies> = Spawn::default();
    sp.enemy_type = V3Enemies::Thorn;
    sp.delay = 3.5f32.to_bits();
    s.spawns.push(sp);
    s.spawns.push(Spawn::default());
    s.recalculate_spawn_count();
    assert_eq!(s.spawns_header.spawn_count, 2);
    let bytes = s.serialize();
    assert_eq!(bytes.len(), 36 + 10404 + 40 + 2 * 28 + 9);
    let back = Spawnset::<V3Enemies>::deserialize(&bytes).unwrap();
    assert_eq!(back.spawns[0].enemy_type, V3Enemies::Thorn);
    assert_eq!(back.spawns[1].enemy_type, V3Enemies::Empty);
    assert_eq!(f32::from_bits(back.spawns[0].delay), 3.5);
    assert_eq!(back.serialize(), bytes);
    // tag 7 is Thorn in V3 but has no V1 enemy
    assert_eq!(
        Spawnset::<V1Enemies>::deserialize(&bytes).unwrap_err(),
        SpawnsetError::UnknownEnemy
    );
}

#[test]
fn truncated_and_negative_counts_are_rejected() {
    let bytes = minimal(6).serialize();
    assert_eq!(
        Spawnset::<V3Enemies>::deserialize(&bytes[..100]).unwrap_err(),
        SpawnsetError::Truncated
    );
    assert_eq!(
        Spawnset::<V3Enemies>::deserialize(&bytes[..bytes.len() - 1]).unwrap_err(),
        SpawnsetError::Truncated
    );
    let mut neg = bytes.clone();
    neg[10476..10480].copy_from_slice(&(-1i32).to_le_bytes());
    assert_eq!(
        Spawnset::<V3Enemies>::deserialize(&neg).unwrap_err(),
        SpawnsetError::NegativeSpawnCount
    );
}

#[test]
fn arena_tiles() {
    let mut a = Arena::default();
    a.set_tile(3, 2, 1.0f32.to_bits());
    assert_eq!(f32::from_bits(*a.get_tile(3, 2)), 1.0);
    assert_eq!(a.data[2 * 51 + 3], 1.0f32.to_bits());
    assert_eq!(f32::from_bits(*a.get_tile(0, 0)), -1000.0);
}
