use ddcore_rs::models::replay::{
    classify_hit, DaggerLevel, DdRpl, DfRpl2, EntityData, EntityType, JumpButtonState,
    MouseButtonState, ReplayData, ReplayError, ReplayEvent,
};
use ddcore_rs::models::spawnset::{Arena, Header, Settings, Spawnset, SpawnsHeader, V3Enemies};
use std::io::Write;

fn dagger_spawn(level: u8) -> Vec<u8> {
    let mut v = vec![0x00, 0x01];
    v.extend_from_slice(&7i32.to_le_bytes());
    v.extend_from_slice(&[0u8; 24]);
    v.push(0);
    v.push(level);
    v
}

fn end_frame(first: bool) -> Vec<u8> {
    let mut v = vec![0x09, 1, 0, 1, 0, 2, 1, 2];
    v.extend_from_slice(&5i16.to_le_bytes());
    v.extend_from_slice(&(-3i16).to_le_bytes());
    if first {
        v.extend_from_slice(&0.3f32.to_le_bytes());
    }
    v.push(0x0A);
    v
}

fn zlib(data: &[u8]) -> Vec<u8> {
    let mut e = libflate::zlib::Encoder::new(Vec::new()).unwrap();
    e.write_all(data).unwrap();
    e.finish().into_result().unwrap()
}

fn one_dagger_stream() -> Vec<u8> {
    let mut s = dagger_spawn(6);
    s.extend(end_frame(true));
    s.push(0x0B);
    s
}

#[test]
fn hit_triples() {
    match classify_hit(-5, 2, 3) {
        ReplayEvent::EnemyHitArmor(h) => {
            assert_eq!((h.enemy_id, h.dagger_id, h.segment), (5, 2, 3));
        }
        other => panic!("{:?}", other),
    }
    match classify_hit(0, 7, 0) {
        ReplayEvent::PlayerDeath(d) => assert_eq!(d.death_type, 7),
        other => panic!("{:?}", other),
    }
    match classify_hit(12, 0, 0) {
        ReplayEvent::DaggerDewspawn(d) => assert_eq!(d.dagger_id, 12),
        other => panic!("{:?}", other),
    }
    match classify_hit(4, 1, 2) {
        ReplayEvent::EnemyHitWeakSpot(h) => {
            assert_eq!((h.enemy_id, h.dagger_id, h.segment), (4, 1, 2));
        }
        other => panic!("{:?}", other),
    }
}

#[test]
fn single_dagger_stream() {
    let data = ReplayData::decode_events(&one_dagger_stream()).unwrap();
    assert_eq!(data.entities.len(), 1);
    assert_eq!(data.entities[0].entity_type, EntityType::Dagger);
    assert_eq!(data.entities[0].id, 1);
    assert_eq!(data.frames.len(), 2);
    assert_eq!(data.frames[0].events.len(), 2);
    match &data.frames[0].events[0] {
        ReplayEvent::Spawn(EntityData::Dagger(d)) => {
            assert_eq!(d.a, 7);
            assert_eq!(d.dagger_level, DaggerLevel::Level6);
        }
        other => panic!("{:?}", other),
    }
    match &data.frames[0].events[1] {
        ReplayEvent::EndFrame(b, m) => {
            assert!(b.left && !b.right && b.forward && !b.backwards);
            assert_eq!(b.jump, JumpButtonState::JustPressed);
            assert_eq!(b.shoot, MouseButtonState::Held);
            assert_eq!(b.homing, MouseButtonState::Released);
            assert_eq!((m.x, m.y), (5, -3));
            assert_eq!(m.look_speed, Some(0.3f32.to_bits()));
        }
        other => panic!("{:?}", other),
    }
    assert!(matches!(data.frames[1].events[0], ReplayEvent::EndReplay));
}

#[test]
fn df_rpl2_envelope() {
    let mut f = b"DF_RPL2".to_vec();
    f.extend_from_slice(&3u16.to_le_bytes());
    f.extend_from_slice(b"bob");
    f.extend_from_slice(&2u16.to_le_bytes());
    f.extend_from_slice(&[9, 8]);
    f.extend(zlib(&one_dagger_stream()));
    let r = DfRpl2::from_reader(&f).unwrap();
    assert_eq!(r.header.player_name, "bob");
    assert_eq!(r.header.funny_bytes, vec![9, 8]);
    assert_eq!(r.data.entities.len(), 1);
    assert_eq!(r.data.frames.len(), 2);
}

#[test]
fn stream_errors() {
    let mut bad = end_frame(true);
    let n = bad.len();
    bad[n - 1] = 0x0B;
    assert_eq!(
        ReplayData::decode_events(&bad).unwrap_err(),
        ReplayError::BadFrameTerminator(0x0B)
    );
    assert_eq!(ReplayData::decode_events(&[0x00, 0x02]).unwrap_err(), ReplayError::UnknownEntity(2));
    assert_eq!(ReplayData::decode_events(&dagger_spawn(9)).unwrap_err(), ReplayError::UnknownDaggerLevel(9));
    assert_eq!(ReplayData::decode_events(&[0x06]).unwrap_err(), ReplayError::Truncated);
    assert_eq!(ReplayData::from_reader(&[1, 2, 3]).unwrap_err(), ReplayError::Decompression);
    // an unknown opcode ends the replay
    let d = ReplayData::decode_events(&[0x06, 0x03]).unwrap();
    assert_eq!(d.frames.len(), 1);
    assert_eq!(d.frames[0].events.len(), 2);
}

fn ddrpl_bytes(spawnset: &[u8], compressed: &[u8], trailing: usize) -> Vec<u8> {
    let mut b = b"ddrpl.".to_vec();
    b.extend_from_slice(&2u32.to_le_bytes());
    b.extend_from_slice(&100u64.to_le_bytes());
    b.extend_from_slice(&12.5f32.to_le_bytes());
    b.extend_from_slice(&0f32.to_le_bytes());
    b.extend_from_slice(&40u32.to_le_bytes());
    b.extend_from_slice(&(-1i32).to_le_bytes());
    b.extend_from_slice(&11u32.to_le_bytes());
    b.extend_from_slice(&30u32.to_le_bytes());
    b.extend_from_slice(&4u32.to_le_bytes());
    b.extend_from_slice(&77i32.to_le_bytes());
    b.extend_from_slice(&5u32.to_le_bytes());
    b.extend_from_slice(b"alice");
    b.extend_from_slice(&[0u8; 10]);
    b.extend_from_slice(&[0xAB; 16]);
    b.extend_from_slice(&(spawnset.len() as u32).to_le_bytes());
    b.extend_from_slice(spawnset);
    b.extend_from_slice(&(compressed.len() as u32).to_le_bytes());
    b.extend_from_slice(compressed);
    b.extend(std::iter::repeat(0u8).take(trailing));
    b
}

fn spawnset_with_hand(hand: u8, gems: i32) -> Vec<u8> {
    Spawnset::<V3Enemies> {
        header: Header::default(),
        arena: Arena::default(),
        spawns_header: SpawnsHeader::default(),
        spawns: vec![],
        settings: Some(Settings { initial_hand: hand, additional_gems: gems, timer_start: Some(0) }),
    }
    .serialize()
}

#[test]
fn ddrpl_envelope() {
    let ss = spawnset_with_hand(1, 0);
    let z = zlib(&one_dagger_stream());
    let r = DdRpl::from_reader(&ddrpl_bytes(&ss, &z, 1)).unwrap();
    assert_eq!(r.header.file_version, 2);
    assert_eq!(r.header.recorded_at, 100);
    assert_eq!(f32::from_bits(r.header.time), 12.5);
    assert_eq!(r.header.death_type, -1);
    assert_eq!(r.header.gems, 11);
    assert_eq!(r.header.player_id, 77);
    assert_eq!(r.header.player_name, "alice");
    assert_eq!(r.header.spawnset_hash, "abababababababababababababababab");
    assert_eq!(r.header.spawnset_bin, ss);
    assert_eq!(r.header.compressed_data_len as usize, z.len());
    assert_eq!(r.compressed_data.as_ref().unwrap(), &z);
    assert_eq!(DdRpl::from_reader(&ddrpl_bytes(&ss, &z, 0)).unwrap_err(), ReplayError::BadTerminator);
    assert_eq!(DdRpl::from_reader(&ddrpl_bytes(&ss, &z, 2)).unwrap_err(), ReplayError::BadTerminator);
    let mut big = ddrpl_bytes(&ss, &[], 1);
    let at = big.len() - 5;
    big[at..at + 4].copy_from_slice(&40_000_001u32.to_le_bytes());
    assert_eq!(DdRpl::from_reader(&big).unwrap_err(), ReplayError::OversizedPayload(40_000_001));
}

#[test]
fn homing_simulation() {
    // hand 3 with 5 homing daggers: a level-6 dagger spends one, each gem adds one
    let ss = spawnset_with_hand(3, 5);
    let mut stream = dagger_spawn(6);
    stream.extend(end_frame(true));
    stream.push(0x06);
    stream.push(0x06);
    stream.extend(end_frame(false));
    stream.push(0x0B);
    let mut r = DdRpl::from_reader(&ddrpl_bytes(&ss, &zlib(&stream), 1)).unwrap();
    r.create_extra().unwrap();
    let x = r.extra.as_ref().unwrap();
    assert!(r.compressed_data.is_none());
    assert_eq!(x.starting_hand, 3);
    assert_eq!(x.starting_gems, 5);
    assert_eq!(x.homing, vec![4, 6, 6]);
    assert_eq!(x.homing_used, vec![1, 1, 1]);
    assert_eq!(x.look_speed, 0.3f32.to_bits());
    assert_eq!(x.lvl4_time, 0);
}

#[test]
fn level_up_ticks() {
    let ss = spawnset_with_hand(1, 0);
    let mut stream = Vec::new();
    for _ in 0..10 {
        stream.push(0x06);
    }
    stream.extend(end_frame(true));
    stream.push(0x06);
    stream.extend(end_frame(false));
    stream.push(0x0B);
    let mut r = DdRpl::from_reader(&ddrpl_bytes(&ss, &zlib(&stream), 1)).unwrap();
    r.create_extra().unwrap();
    let x = r.extra.as_ref().unwrap();
    assert_eq!(x.lvl2_time, 1);
    assert_eq!(x.lvl3_time, 0);
    assert_eq!(x.homing, vec![0, 0, 0]);
}

#[test]
fn many_empty_deflate_blocks_do_not_abort() {
    // zlib header, 200,000 empty stored blocks, a final empty stored block,
    // and the Adler-32 of no bytes
    let mut z = vec![0x78, 0x01];
    for _ in 0..200_000 {
        z.extend_from_slice(&[0x00, 0x00, 0x00, 0xff, 0xff]);
    }
    z.extend_from_slice(&[0x01, 0x00, 0x00, 0xff, 0xff]);
    z.extend_from_slice(&[0x00, 0x00, 0x00, 0x01]);
    assert_eq!(ReplayData::from_reader(&z).unwrap_err(), ReplayError::Truncated);
}
