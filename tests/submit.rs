use ddcore_rs::ddinfo::ddcl_submit::{
    encrypt_and_encode, prepare_submission, validation_string, validation_token, DdclSecrets,
    RunTimes, SubmitError, SubmitRunRequest,
};
use ddcore_rs::ddinfo::{get_os, spawnset_hash_query};
use ddcore_rs::ddinfo::models::{CustomLeaderboardDagger, OperatingSystem};
use ddcore_rs::models::{StatsBlockWithFrames, StatsDataBlock, StatsFrame};

fn snapshot(frames: usize) -> StatsBlockWithFrames {
    let mut b = vec![0u8; 320];
    b[..11].copy_from_slice(b"__ddstats__");
    b[16..20].copy_from_slice(&1i32.to_le_bytes());
    b[20..24].copy_from_slice(b"name");
    let block = StatsDataBlock::from_bytes(&b).unwrap();
    let mut fb = vec![0u8; 112];
    fb[0..4].copy_from_slice(&3i32.to_le_bytes());
    fb[4..8].copy_from_slice(&2i32.to_le_bytes());
    fb[46..48].copy_from_slice(&6i16.to_le_bytes());
    fb[78..80].copy_from_slice(&8i16.to_le_bytes());
    let f = StatsFrame::from_bytes(&fb, 0);
    StatsBlockWithFrames { block, frames: vec![f; frames] }
}

fn secrets() -> Option<DdclSecrets> {
    Some(DdclSecrets { iv: "0123456789ABCDEF".into(), pass: "pw".into(), salt: "sa".into() })
}

fn as_int(t: f32) -> i32 {
    (t * 10000.) as i32
}

#[test]
fn token_is_padded_base32() {
    let plain = "1;10000;0;0;0;0;0;0;0;0;0;0;0;0;00000000000000000000000000000000;0,0,0";
    let a = encrypt_and_encode(plain, "pw", "sa", "0123456789ABCDEF").unwrap();
    let b = encrypt_and_encode(plain, "pw", "sa", "0123456789ABCDEF").unwrap();
    assert_eq!(a, b);
    assert_eq!(a.len() % 8, 0);
    // 71 bytes pad to 80 bytes of ciphertext, 16 groups of 5 bytes
    assert_eq!(a.len(), 128);
    assert!(a.chars().all(|c| c.is_ascii_uppercase() || ('2'..='7').contains(&c) || c == '='));
    assert_ne!(a, encrypt_and_encode(plain, "pw2", "sa", "0123456789ABCDEF").unwrap());
    assert_eq!(encrypt_and_encode(plain, "pw", "sa", "short"), Err(SubmitError::CryptoError));
}

#[test]
fn summary_text() {
    let s = snapshot(1);
    let times = RunTimes { time: 10000, level_up_time2: 0, level_up_time3: 0, level_up_time4: 0 };
    let v = validation_string(1, times, &s.frames[0], 0, false, &[0u8; 16]);
    assert_eq!(v, "1;10000;3;0;0;0;2;0;0;0;0;0;0;0;00000000000000000000000000000000;0,0,0");
    let t = RunTimes { time: -5, level_up_time2: 12, level_up_time3: 345, level_up_time4: i32::MIN };
    let w = validation_string(-7, t, &s.frames[0], 255, true, &[0xab, 0x01]);
    assert_eq!(w, "-7;-5;3;0;0;0;2;255;0;0;0;0;0;1;AB01;12,345,-2147483648");
}

#[test]
fn submission_record() {
    let run = snapshot(1);
    let times = RunTimes {
        time: as_int(12.3456),
        level_up_time2: as_int(1.5),
        level_up_time3: as_int(2.25),
        level_up_time4: as_int(0.0),
    };
    assert_eq!(times.time, 123456);
    let req = SubmitRunRequest::from_compiled_run(
        &run, secrets(), "ddstats-rust", "0.6.8", &[1, 2, 3], times, OperatingSystem::Linux,
    )
    .unwrap();
    assert_eq!(req.time, 123456);
    assert_eq!((req.level_up_time2, req.level_up_time3, req.level_up_time4), (15000, 22500, 0));
    assert_eq!(req.player_id, 1);
    assert_eq!(req.player_name, "name");
    assert_eq!(req.gems_collected, 3);
    assert_eq!(req.enemies_killed, 2);
    assert_eq!(req.game_data.gems_collected, vec![3]);
    assert_eq!(req.game_data.skull2s_alive, vec![6]);
    assert_eq!(req.game_data.skull1s_killed, vec![8]);
    assert_eq!(req.replay_data, "AQID");
    assert_eq!(req.survival_hash_md5, "AAAAAAAAAAAAAAAAAAAAAA==");
    assert_eq!(req.build_mode, "Release");
    assert_eq!(req.client, "ddstats-rust");
    assert_eq!(req.client_version, "0.6.8");
    assert!(!req.validation.contains('='));
    assert!(!req.time_attack_or_race_finished);
    assert_eq!(req.operating_system, OperatingSystem::Linux);
}

#[test]
fn submission_errors() {
    let times = RunTimes { time: 0, level_up_time2: 0, level_up_time3: 0, level_up_time4: 0 };
    let run = snapshot(1);
    let e = SubmitRunRequest::from_compiled_run(&run, None, "c", "v", &[], times, OperatingSystem::Linux);
    assert_eq!(e.unwrap_err(), SubmitError::MissingSecrets);
    let empty = snapshot(0);
    let e = SubmitRunRequest::from_compiled_run(&empty, secrets(), "c", "v", &[], times, OperatingSystem::Linux);
    assert_eq!(e.unwrap_err(), SubmitError::NoFrames);
}

#[test]
fn platform_tag_and_daggers() {
    assert_eq!(get_os("windows"), OperatingSystem::Windows);
    assert_eq!(get_os("linux"), OperatingSystem::Linux);
    assert_eq!(get_os("windowsx"), OperatingSystem::Linux);
    assert!(CustomLeaderboardDagger::Pleb < CustomLeaderboardDagger::Bronze);
    assert!(CustomLeaderboardDagger::Leviathan > CustomLeaderboardDagger::Devil);
}

#[test]
fn empty_replay_is_refused() {
    let times = RunTimes { time: 0, level_up_time2: 0, level_up_time3: 0, level_up_time4: 0 };
    let run = snapshot(1);
    let e = prepare_submission(&run, secrets(), "c", "v", &[], times, OperatingSystem::Linux);
    assert_eq!(e.unwrap_err(), SubmitError::EmptyReplayBuffer);
    let ok = prepare_submission(&run, secrets(), "c", "v", &[7], times, OperatingSystem::Linux).unwrap();
    assert_eq!(ok.replay_data, "Bw==");
}

#[test]
fn hash_query_is_percent_encoded() {
    // base64 of these bytes is "+/8=" style text: fb ff -> "+/8="
    assert_eq!(spawnset_hash_query(&[0xfb, 0xff]), "%2B%2F8%3D");
    assert_eq!(spawnset_hash_query(&[0u8; 16]), "AAAAAAAAAAAAAAAAAAAAAA%3D%3D");
}

#[test]
fn token_without_padding() {
    let plain = "1;10000;0;0;0;0;0;0;0;0;0;0;0;0;00000000000000000000000000000000;0,0,0";
    let padded = encrypt_and_encode(plain, "pw", "sa", "0123456789ABCDEF").unwrap();
    let t = validation_token(plain, "pw", "sa", "0123456789ABCDEF").unwrap();
    assert_eq!(t, padded.replace('=', ""));
    assert!(!t.contains('='));
}
