use ddcore_rs::memory::{
    base_candidates, find_bytes, first_with_magic, frame_address, pointer_location, search_step,
    SearchStep, is_elf, is_windows_exe, parse_maps_line,
    replay_injection_writes, ConnectionParams, GameConnection, MemoryError, OperatingSystem,
    OsInfo,
};
use ddcore_rs::models::{GameStatus, StatsBlockWithFrames, StatsDataBlock, StatsFrame};

fn block_bytes() -> Vec<u8> {
    let mut b = vec![0u8; 320];
    b[..11].copy_from_slice(b"__ddstats__");
    b[16..20].copy_from_slice(&42i32.to_le_bytes());
    b[20..23].copy_from_slice(b"bob");
    b[208..224].copy_from_slice(&[0xab; 16]);
    b[244..248].copy_from_slice(&3i32.to_le_bytes());
    b[272..280].copy_from_slice(&0x1122_3344_5566_7788u64.to_le_bytes());
    b[280..284].copy_from_slice(&2i32.to_le_bytes());
    b[304..312].copy_from_slice(&0x0000_7fff_0000_1000u64.to_le_bytes());
    b[312..316].copy_from_slice(&9i32.to_le_bytes());
    b[316] = 1;
    b
}

#[test]
fn stats_block_layout() {
    let blk = StatsDataBlock::from_bytes(&block_bytes()).unwrap();
    assert_eq!(&blk.marker, b"__ddstats__");
    assert_eq!(blk.player_id, 42);
    assert_eq!(blk.player_username(), "bob");
    assert_eq!(blk.get_stats_pointer(), 0x1122_3344_5566_7788usize);
    assert_eq!(blk.get_replay_pointer(), 0x0000_7fff_0000_1000usize);
    assert_eq!(blk.stats_frames_loaded, 2);
    assert_eq!(blk.replay_buffer_length, 9);
    assert!(blk.replay_flag);
    assert_eq!(blk.status(), Some(GameStatus::Playing));
    assert_eq!(blk.level_hash(), "ABABABABABABABABABABABABABABABAB");
    let mut bad = block_bytes();
    bad[0] = b'x';
    assert!(StatsDataBlock::from_bytes(&bad).is_none());
    assert!(StatsDataBlock::from_bytes(&block_bytes()[..319]).is_none());
}

#[test]
fn level_hash_is_upper_hex() {
    let mut b = block_bytes();
    b[208..224].copy_from_slice(&[0x01, 0x23, 0x45, 0x67, 0x89, 0xab, 0xcd, 0xef, 0, 0, 0, 0, 0, 0, 0, 0xff]);
    let h = StatsDataBlock::from_bytes(&b).unwrap().level_hash();
    assert_eq!(h, "0123456789ABCDEF00000000000000FF");
    assert_eq!(h.len(), 32);
}

#[test]
fn frames_and_homing_usage() {
    let blk = StatsDataBlock::from_bytes(&block_bytes()).unwrap();
    let mut fb = vec![0u8; 112];
    fb[20..24].copy_from_slice(&70i32.to_le_bytes());
    fb[24..28].copy_from_slice(&10i32.to_le_bytes());
    fb[44..46].copy_from_slice(&3i16.to_le_bytes());
    let f1 = StatsFrame::from_bytes(&fb, 0);
    assert_eq!(f1.level_gems, 70);
    assert_eq!(f1.homing, 10);
    assert_eq!(f1.per_enemy_alive_count[0], 3);
    let mut f2 = f1;
    f2.homing = 4;
    let mut f3 = f1;
    f3.homing = 1;
    let s = StatsBlockWithFrames { block: blk, frames: vec![f1, f2, f3, f3] };
    assert_eq!(s.frames_until(2).len(), 2);
    assert_eq!(s.frames_until(100).len(), 3);
    assert_eq!(s.homing_usage_from_frames(None), 9);
    assert_eq!(s.homing_usage_from_frames(Some(2)), 6);
}

#[test]
fn signatures() {
    assert!(is_elf(&[0x7f, 0x45, 0x4c, 0x46]));
    assert!(!is_elf(&[0x7f, 0x45, 0x4c, 0x47]));
    assert!(is_windows_exe(&[0x4d, 0x5a]));
    assert!(!is_windows_exe(&[0x5a, 0x4d]));
}

#[test]
fn maps_lines() {
    let e = parse_maps_line(b"00400000-00452000 r-xp 00000000 08:02 173521      /usr/bin/dbus-daemon").unwrap();
    assert_eq!(e.start, 0x400000);
    assert_eq!(e.end, 0x452000);
    assert_eq!(e.perms, b"r-xp");
    assert_eq!(e.path, b"/usr/bin/dbus-daemon");
    assert!(parse_maps_line(b"7fff-8000 rw-p 00000000 00:00 0").is_none());
    assert!(parse_maps_line(b"zz-8000 rw-p 0 0 0 /x").is_none());
}

#[test]
fn proton_base_is_second_mz_mapping() {
    let maps = b"00010000-00020000 r--p 00000000 00:1f 11 /games/dd.exe\n\
00400000-00500000 r-xp 00000000 00:1f 11 /games/dd.exe\n\
7f000000-7f001000 r-xp 00000000 00:1f 12 /usr/lib/libc.so\n";
    let starts = base_candidates(maps, OperatingSystem::LinuxProton, b"wine-preloader");
    assert_eq!(starts, vec![0x10000, 0x400000]);
    let magics = vec![Some(b"XX".to_vec()), Some(b"MZ".to_vec())];
    assert_eq!(first_with_magic(&starts, &magics, OperatingSystem::LinuxProton), Some(0x400000));
    assert_eq!(first_with_magic(&starts, &[None, None], OperatingSystem::LinuxProton), None);
}

#[test]
fn linux_base_needs_executable_mapping_of_the_name() {
    let maps = b"00400000-00500000 r--p 00000000 00:1f 11 /games/devildaggers\n\
00500000-00600000 r-xp 00000000 00:1f 11 /games/devildaggers\n";
    let starts = base_candidates(maps, OperatingSystem::Linux, b"devildaggers");
    assert_eq!(starts, vec![0x500000]);
    let elf = Some(vec![0x7f, 0x45, 0x4c, 0x46]);
    assert_eq!(first_with_magic(&starts, &[elf], OperatingSystem::Linux), Some(0x500000));
}

#[test]
fn replay_injection_order() {
    let w = replay_injection_writes(0x1000, 0x9000, &[0x42]).unwrap();
    assert_eq!(w.len(), 3);
    assert_eq!((w[0].address, w[0].bytes.clone()), (0x9000, vec![0x42]));
    assert_eq!((w[1].address, w[1].bytes.clone()), (0x1000 + 312, vec![1, 0, 0, 0]));
    assert_eq!((w[2].address, w[2].bytes.clone()), (0x1000 + 316, vec![1]));
    assert_eq!(replay_injection_writes(usize::MAX - 10, 0, &[1]).unwrap_err(), MemoryError::InvalidData);
}

#[test]
fn dead_connection_reads_fail() {
    let mut c = GameConnection::dead_connection();
    assert!(!c.is_alive());
    assert_eq!(c.read_stats_block().unwrap_err(), MemoryError::BaseAddressResolutionFailed);
    assert_eq!(c.replay_bin().unwrap_err(), MemoryError::NoSnapshotAvailable);
    assert_eq!(c.play_replay(&[1]).unwrap_err(), MemoryError::NoSnapshotAvailable);
    assert_eq!(c.stat_frames().unwrap_err(), MemoryError::NoSnapshotAvailable);
}

#[test]
fn platform_defaults() {
    let l = OsInfo::get_from_os(&OperatingSystem::Linux);
    assert_eq!(l.default_block_marker, 0x00521C98);
    assert_eq!(l.default_process_name, "devildaggers");
    assert!(l.can_create_child);
    let p = OsInfo::get_from_os(&OperatingSystem::LinuxProton);
    assert_eq!(p.default_process_name, "wine-preloader");
    assert_eq!(p.default_block_marker, 0x250DC0);
    let w = OsInfo::get_from_os(&OperatingSystem::Windows);
    assert_eq!(w.default_process_name, "dd.exe");
    let e = ConnectionParams::empty();
    assert!(!e.create_child);
    assert_eq!(e.operating_system, OperatingSystem::Linux);
    assert!(find_bytes(b"ab__ddstats__", b"__ddstats__") == Some(2));
}

#[test]
fn first_matching_mapping_wins() {
    let elf = Some(vec![0x7f, 0x45, 0x4c, 0x46]);
    let starts = vec![0x1000, 0x2000, 0x3000];
    let magics = vec![None, elf.clone(), elf];
    assert_eq!(first_with_magic(&starts, &magics, OperatingSystem::Linux), Some(0x2000));
    assert!(OsInfo::get_from_os(&OperatingSystem::Linux).offsets.is_empty());
}

#[test]
fn search_steps_and_addresses() {
    assert_eq!(search_step(0x10000, b"xx__ddstats__", b"__ddstats__"), SearchStep::Found(0x10002));
    assert_eq!(search_step(0x10000, b"nothing", b"__ddstats__"), SearchStep::Next(0x10000 + 102400));
    assert_eq!(search_step(usize::MAX - 5, b"nothing", b"__ddstats__"), SearchStep::Stop);
    assert_eq!(frame_address(0x1000, 2), Some(0x1000 + 224));
    assert_eq!(frame_address(usize::MAX - 100, 1), None);
    let p = ConnectionParams::empty();
    assert_eq!(pointer_location(&p, 0x400000), Some(0x400000 + 0x00521C98));
    assert_eq!(pointer_location(&p, usize::MAX), None);
}
