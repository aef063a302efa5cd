//! Game data models: the live stats block, its frames, spawnsets and replays.
//! Floating-point fields are kept as their f32 bit patterns.

pub mod replay;
pub mod spawnset;

use crate::codec::{fits, get_i16, get_i32, get_u32, get_u64, get_u8, le_i16, le_i32, le_u32, le_u64};
use crate::utils::{byte_array_to_string, hex_string, md5_to_string, nul_terminated};
use vstd::prelude::*;
use vstd::slice::*;
use vstd::string::*;
use vstd::utf8::*;

verus! {

/// Size of the stats block in the game's memory.
pub const DATA_BLOCK_SIZE: usize = 320;

/// Size of one stats frame in the game's memory.
pub const STATS_FRAME_SIZE: usize = 112;

/// Offset of the replay length field in the stats block.
pub const REPLAY_LENGTH_OFFSET: usize = 312;

/// Offset of the replay flag byte in the stats block.
pub const REPLAY_FLAG_OFFSET: usize = 316;

/// The ASCII text `__ddstats__` that opens the stats block.
pub open spec fn ddstats_marker() -> Seq<u8> {
    seq![95u8, 95, 100, 100, 115, 116, 97, 116, 115, 95, 95]
}

/// `n` little-endian `i16` values from `p` on.
pub open spec fn i16s_at(b: Seq<u8>, p: int, n: nat) -> Seq<i16> {
    Seq::new(n, |j: int| le_i16(b, p + 2 * j))
}

/// The stats block the game keeps in its own memory.
#[derive(Debug, Clone, Copy)]
pub struct StatsDataBlock {
    /// Always `__ddstats__` in a block that was read.
    pub marker: [u8; 11],
    pub ddstats_version: i32,
    pub player_id: i32,
    pub username: [u8; 32],
    /// f32 bits.
    pub time: u32,
    pub gems_collected: i32,
    pub kills: i32,
    pub daggers_fired: i32,
    pub daggers_hit: i32,
    pub enemies_alive: i32,
    pub level_gems: i32,
    pub homing: i32,
    pub gems_despawned: i32,
    pub gems_eaten: i32,
    pub gems_total: i32,
    pub daggers_eaten: i32,
    pub per_enemy_alive_count: [i16; 17],
    pub per_enemy_kill_count: [i16; 17],
    pub is_player_alive: bool,
    pub is_replay: bool,
    pub death_type: u8,
    pub is_in_game: bool,
    pub replay_player_id: i32,
    pub replay_player_name: [u8; 32],
    pub survival_md5: [u8; 16],
    /// f32 bits.
    pub time_lvl2: u32,
    /// f32 bits.
    pub time_lvl3: u32,
    /// f32 bits.
    pub time_lvl4: u32,
    /// f32 bits.
    pub levi_down_time: u32,
    /// f32 bits.
    pub orb_down_time: u32,
    /// A `GameStatus` number.
    pub status: i32,
    pub max_homing: i32,
    /// f32 bits.
    pub time_max_homing: u32,
    pub enemies_alive_max: i32,
    /// f32 bits.
    pub time_enemies_alive_max: u32,
    /// f32 bits.
    pub time_max: u32,
    /// Little-endian address of the frame array.
    pub stats_base: [u8; 8],
    pub stats_frames_loaded: i32,
    pub stats_finished_loading: bool,
    pub starting_hand: i32,
    pub starting_homing: i32,
    /// f32 bits.
    pub starting_time: u32,
    pub prohibited_mods: bool,
    /// Little-endian address of the replay buffer.
    pub replay_base: [u8; 8],
    pub replay_buffer_length: i32,
    pub replay_flag: bool,
}

/// `blk` holds the stats block laid out in `b`.
pub open spec fn block_decodes_to(b: Seq<u8>, blk: StatsDataBlock) -> bool {
    &&& blk.marker@ == b.subrange(0, 11)
    &&& blk.ddstats_version == le_i32(b, 12)
    &&& blk.player_id == le_i32(b, 16)
    &&& blk.username@ == b.subrange(20, 52)
    &&& blk.time == le_u32(b, 52)
    &&& blk.gems_collected == le_i32(b, 56)
    &&& blk.kills == le_i32(b, 60)
    &&& blk.daggers_fired == le_i32(b, 64)
    &&& blk.daggers_hit == le_i32(b, 68)
    &&& blk.enemies_alive == le_i32(b, 72)
    &&& blk.level_gems == le_i32(b, 76)
    &&& blk.homing == le_i32(b, 80)
    &&& blk.gems_despawned == le_i32(b, 84)
    &&& blk.gems_eaten == le_i32(b, 88)
    &&& blk.gems_total == le_i32(b, 92)
    &&& blk.daggers_eaten == le_i32(b, 96)
    &&& blk.per_enemy_alive_count@ == i16s_at(b, 100, 17)
    &&& blk.per_enemy_kill_count@ == i16s_at(b, 134, 17)
    &&& blk.is_player_alive == (b[168] != 0)
    &&& blk.is_replay == (b[169] != 0)
    &&& blk.death_type == b[170]
    &&& blk.is_in_game == (b[171] != 0)
    &&& blk.replay_player_id == le_i32(b, 172)
    &&& blk.replay_player_name@ == b.subrange(176, 208)
    &&& blk.survival_md5@ == b.subrange(208, 224)
    &&& blk.time_lvl2 == le_u32(b, 224)
    &&& blk.time_lvl3 == le_u32(b, 228)
    &&& blk.time_lvl4 == le_u32(b, 232)
    &&& blk.levi_down_time == le_u32(b, 236)
    &&& blk.orb_down_time == le_u32(b, 240)
    &&& blk.status == le_i32(b, 244)
    &&& blk.max_homing == le_i32(b, 248)
    &&& blk.time_max_homing == le_u32(b, 252)
    &&& blk.enemies_alive_max == le_i32(b, 256)
    &&& blk.time_enemies_alive_max == le_u32(b, 260)
    &&& blk.time_max == le_u32(b, 264)
    &&& blk.stats_base@ == b.subrange(272, 280)
    &&& blk.stats_frames_loaded == le_i32(b, 280)
    &&& blk.stats_finished_loading == (b[284] != 0)
    &&& blk.starting_hand == le_i32(b, 288)
    &&& blk.starting_homing == le_i32(b, 292)
    &&& blk.starting_time == le_u32(b, 296)
    &&& blk.prohibited_mods == (b[300] != 0)
    &&& blk.replay_base@ == b.subrange(304, 312)
    &&& blk.replay_buffer_length == le_i32(b, 312)
    &&& blk.replay_flag == (b[316] != 0)
}

fn read_bytes_8(b: &[u8], p: usize) -> (r: [u8; 8])
    requires
        fits(b@, p as int, 8),
    ensures
        r@ == b@.subrange(p as int, p + 8),
{
    let mut r = [0u8; 8];
    let mut i: usize = 0;
    let len = b.len();
    while i < 8
        invariant
            len == b@.len(),
            fits(b@, p as int, 8),
            i <= 8,
            forall|j: int| 0 <= j < i ==> r@[j] == b@[p + j],
        decreases 8 - i,
    {
        r[i] = b[p + i];
        i = i + 1;
    }
    assert(r@ =~= b@.subrange(p as int, p + 8));
    r
}

fn read_bytes_11(b: &[u8], p: usize) -> (r: [u8; 11])
    requires
        fits(b@, p as int, 11),
    ensures
        r@ == b@.subrange(p as int, p + 11),
{
    let mut r = [0u8; 11];
    let mut i: usize = 0;
    let len = b.len();
    while i < 11
        invariant
            len == b@.len(),
            fits(b@, p as int, 11),
            i <= 11,
            forall|j: int| 0 <= j < i ==> r@[j] == b@[p + j],
        decreases 11 - i,
    {
        r[i] = b[p + i];
        i = i + 1;
    }
    assert(r@ =~= b@.subrange(p as int, p + 11));
    r
}

fn read_bytes_16(b: &[u8], p: usize) -> (r: [u8; 16])
    requires
        fits(b@, p as int, 16),
    ensures
        r@ == b@.subrange(p as int, p + 16),
{
    let mut r = [0u8; 16];
    let mut i: usize = 0;
    let len = b.len();
    while i < 16
        invariant
            len == b@.len(),
            fits(b@, p as int, 16),
            i <= 16,
            forall|j: int| 0 <= j < i ==> r@[j] == b@[p + j],
        decreases 16 - i,
    {
        r[i] = b[p + i];
        i = i + 1;
    }
    assert(r@ =~= b@.subrange(p as int, p + 16));
    r
}

fn read_bytes_32(b: &[u8], p: usize) -> (r: [u8; 32])
    requires
        fits(b@, p as int, 32),
    ensures
        r@ == b@.subrange(p as int, p + 32),
{
    let mut r = [0u8; 32];
    let mut i: usize = 0;
    let len = b.len();
    while i < 32
        invariant
            len == b@.len(),
            fits(b@, p as int, 32),
            i <= 32,
            forall|j: int| 0 <= j < i ==> r@[j] == b@[p + j],
        decreases 32 - i,
    {
        r[i] = b[p + i];
        i = i + 1;
    }
    assert(r@ =~= b@.subrange(p as int, p + 32));
    r
}

fn read_i16_17(b: &[u8], p: usize) -> (r: [i16; 17])
    requires
        fits(b@, p as int, 34),
    ensures
        r@ == i16s_at(b@, p as int, 17),
{
    let mut r = [0i16; 17];
    let mut i: usize = 0;
    let _len = b.len();
    while i < 17
        invariant
            fits(b@, p as int, 34),
            _len == b@.len(),
            i <= 17,
            forall|j: int| 0 <= j < i ==> r@[j] == le_i16(b@, p + 2 * j),
        decreases 17 - i,
    {
        r[i] = get_i16(b, p + 2 * i);
        i = i + 1;
    }
    assert(r@ =~= i16s_at(b@, p as int, 17));
    r
}

impl StatsDataBlock {
    /// Reads a stats block from its bytes; `None` when there are fewer than
    /// `DATA_BLOCK_SIZE` of them or they do not open with `__ddstats__`.
    pub fn from_bytes(b: &[u8]) -> (r: Option<Self>)
        ensures
            r is Some <==> (b@.len() >= DATA_BLOCK_SIZE && b@.subrange(0, 11) == ddstats_marker()),
            r matches Some(blk) ==> block_decodes_to(b@, blk) && blk.marker@ == ddstats_marker(),
    {
        if b.len() < DATA_BLOCK_SIZE {
            return None;
        }
        let marker = read_bytes_11(b, 0);
        let expected: [u8; 11] = [95, 95, 100, 100, 115, 116, 97, 116, 115, 95, 95];
        let mut i: usize = 0;
        while i < 11
            invariant
                i <= 11,
                marker@ == b@.subrange(0, 11),
                expected@ == ddstats_marker(),
                forall|j: int| 0 <= j < i ==> marker@[j] == expected@[j],
            decreases 11 - i,
        {
            if marker[i] != expected[i] {
                assert(b@.subrange(0, 11)[i as int] != ddstats_marker()[i as int]);
                return None;
            }
            i = i + 1;
        }
        assert(marker@ =~= ddstats_marker());
        Some(StatsDataBlock {
            marker,
            ddstats_version: get_i32(b, 12),
            player_id: get_i32(b, 16),
            username: read_bytes_32(b, 20),
            time: get_u32(b, 52),
            gems_collected: get_i32(b, 56),
            kills: get_i32(b, 60),
            daggers_fired: get_i32(b, 64),
            daggers_hit: get_i32(b, 68),
            enemies_alive: get_i32(b, 72),
            level_gems: get_i32(b, 76),
            homing: get_i32(b, 80),
            gems_despawned: get_i32(b, 84),
            gems_eaten: get_i32(b, 88),
            gems_total: get_i32(b, 92),
            daggers_eaten: get_i32(b, 96),
            per_enemy_alive_count: read_i16_17(b, 100),
            per_enemy_kill_count: read_i16_17(b, 134),
            is_player_alive: get_u8(b, 168) != 0,
            is_replay: get_u8(b, 169) != 0,
            death_type: get_u8(b, 170),
            is_in_game: get_u8(b, 171) != 0,
            replay_player_id: get_i32(b, 172),
            replay_player_name: read_bytes_32(b, 176),
            survival_md5: read_bytes_16(b, 208),
            time_lvl2: get_u32(b, 224),
            time_lvl3: get_u32(b, 228),
            time_lvl4: get_u32(b, 232),
            levi_down_time: get_u32(b, 236),
            orb_down_time: get_u32(b, 240),
            status: get_i32(b, 244),
            max_homing: get_i32(b, 248),
            time_max_homing: get_u32(b, 252),
            enemies_alive_max: get_i32(b, 256),
            time_enemies_alive_max: get_u32(b, 260),
            time_max: get_u32(b, 264),
            stats_base: read_bytes_8(b, 272),
            stats_frames_loaded: get_i32(b, 280),
            stats_finished_loading: get_u8(b, 284) != 0,
            starting_hand: get_i32(b, 288),
            starting_homing: get_i32(b, 292),
            starting_time: get_u32(b, 296),
            prohibited_mods: get_u8(b, 300) != 0,
            replay_base: read_bytes_8(b, 304),
            replay_buffer_length: get_i32(b, 312),
            replay_flag: get_u8(b, 316) != 0,
        })
    }
}

/// The counters of one frame of a run.
#[derive(Debug, Clone, Copy)]
pub struct StatsFrame {
    pub gems_collected: i32,
    pub kills: i32,
    pub daggers_fired: i32,
    pub daggers_hit: i32,
    pub enemies_alive: i32,
    pub level_gems: i32,
    pub homing: i32,
    pub gems_despawned: i32,
    pub gems_eaten: i32,
    pub gems_total: i32,
    pub daggers_eaten: i32,
    pub per_enemy_alive_count: [i16; 17],
    pub per_enemy_kill_count: [i16; 17],
}

/// `f` holds the frame laid out at `p` in `b`.
pub open spec fn frame_decodes_to(b: Seq<u8>, p: int, f: StatsFrame) -> bool {
    &&& f.gems_collected == le_i32(b, p + 0)
    &&& f.kills == le_i32(b, p + 4)
    &&& f.daggers_fired == le_i32(b, p + 8)
    &&& f.daggers_hit == le_i32(b, p + 12)
    &&& f.enemies_alive == le_i32(b, p + 16)
    &&& f.level_gems == le_i32(b, p + 20)
    &&& f.homing == le_i32(b, p + 24)
    &&& f.gems_despawned == le_i32(b, p + 28)
    &&& f.gems_eaten == le_i32(b, p + 32)
    &&& f.gems_total == le_i32(b, p + 36)
    &&& f.daggers_eaten == le_i32(b, p + 40)
    &&& f.per_enemy_alive_count@ == i16s_at(b, p + 44, 17)
    &&& f.per_enemy_kill_count@ == i16s_at(b, p + 78, 17)
}

impl StatsFrame {
    /// Reads the frame laid out at `p`.
    pub fn from_bytes(b: &[u8], p: usize) -> (r: Self)
        requires
            fits(b@, p as int, STATS_FRAME_SIZE as int),
        ensures
            frame_decodes_to(b@, p as int, r),
    {
        let _len = b.len();
        StatsFrame {
            gems_collected: get_i32(b, p + 0),
            kills: get_i32(b, p + 4),
            daggers_fired: get_i32(b, p + 8),
            daggers_hit: get_i32(b, p + 12),
            enemies_alive: get_i32(b, p + 16),
            level_gems: get_i32(b, p + 20),
            homing: get_i32(b, p + 24),
            gems_despawned: get_i32(b, p + 28),
            gems_eaten: get_i32(b, p + 32),
            gems_total: get_i32(b, p + 36),
            daggers_eaten: get_i32(b, p + 40),
            per_enemy_alive_count: read_i16_17(b, p + 44),
            per_enemy_kill_count: read_i16_17(b, p + 78),
        }
    }
}

/// A stats block with the frames it points to.
#[derive(Debug, Clone)]
pub struct StatsBlockWithFrames {
    pub block: StatsDataBlock,
    pub frames: Vec<StatsFrame>,
}

impl StatsBlockWithFrames {
    /// One frame per frame the block says are loaded.
    pub open spec fn wf(&self) -> bool {
        self.frames@.len() == self.block.stats_frames_loaded
    }
}

#[derive(Debug, Clone, Copy, PartialEq, Eq, Structural)]
pub enum GameStatus {
    Title,
    Menu,
    Lobby,
    Playing,
    Dead,
    OwnReplayFromLastRun,
    OwnReplayFromLeaderboard,
    OtherReplay,
    LocalReplay,
}

pub open spec fn game_status_of(n: i32) -> Option<GameStatus> {
    if n == 0 {
        Some(GameStatus::Title)
    } else if n == 1 {
        Some(GameStatus::Menu)
    } else if n == 2 {
        Some(GameStatus::Lobby)
    } else if n == 3 {
        Some(GameStatus::Playing)
    } else if n == 4 {
        Some(GameStatus::Dead)
    } else if n == 5 {
        Some(GameStatus::OwnReplayFromLastRun)
    } else if n == 6 {
        Some(GameStatus::OwnReplayFromLeaderboard)
    } else if n == 7 {
        Some(GameStatus::OtherReplay)
    } else if n == 8 {
        Some(GameStatus::LocalReplay)
    } else {
        None
    }
}

/// A name field as text: the bytes before the first zero as UTF-8, or
/// `unknown` when they are not UTF-8.
pub open spec fn name_text(b: Seq<u8>) -> Seq<char> {
    if valid_utf8(nul_terminated(b)) {
        decode_utf8(nul_terminated(b))
    } else {
        seq!['u', 'n', 'k', 'n', 'o', 'w', 'n']
    }
}

fn name_from_bytes(b: &[u8]) -> (r: String)
    ensures
        r@ == name_text(b@),
{
    match byte_array_to_string(b) {
        Ok(s) => s,
        Err(_) => {
            let s = String::from_str("unknown");
            proof {
                reveal_strlit("unknown");
            }
            assert(s@ =~= seq!['u', 'n', 'k', 'n', 'o', 'w', 'n']);
            s
        },
    }
}

/// Whether `c` is one of `0-9` and `A-F`.
pub open spec fn is_upper_hex_char(c: char) -> bool {
    ('0' <= c <= '9') || ('A' <= c <= 'F')
}

/// Upper-case hex only has upper-case hex digits.
pub proof fn lemma_hex_upper_chars(b: Seq<u8>)
    ensures
        hex_string(b, true).len() == 2 * b.len(),
        forall|i: int| 0 <= i < hex_string(b, true).len() ==> is_upper_hex_char(#[trigger] hex_string(b, true)[i]),
    decreases b.len(),
{
    if b.len() > 0 {
        lemma_hex_upper_chars(b.drop_last());
        let x = b.last() as int;
        assert(0 <= x / 16 < 16 && 0 <= x % 16 < 16);
        let h = hex_string(b, true);
        let t = hex_string(b.drop_last(), true);
        assert forall|i: int| 0 <= i < h.len() implies is_upper_hex_char(#[trigger] h[i]) by {
            if i < t.len() {
                assert(h[i] == t[i]);
            }
        }
    }
}

impl StatsDataBlock {
    /// The player's name.
    pub fn player_username(&self) -> (r: String)
        ensures
            r@ == name_text(self.username@),
    {
        name_from_bytes(self.username.as_slice())
    }

    /// The name of the player whose replay is shown.
    pub fn replay_player_username(&self) -> (r: String)
        ensures
            r@ == name_text(self.replay_player_name@),
    {
        name_from_bytes(self.replay_player_name.as_slice())
    }

    /// The survival file's MD5 as 32 upper-case hex digits.
    pub fn level_hash(&self) -> (r: String)
        ensures
            r@ == hex_string(self.survival_md5@, true),
            r@.len() == 32,
            forall|i: int| 0 <= i < r@.len() ==> is_upper_hex_char(#[trigger] r@[i]),
    {
        proof {
            lemma_hex_upper_chars(self.survival_md5@);
        }
        md5_to_string(self.survival_md5.as_slice())
    }

    /// Address of the frame array: `stats_base` read as a little-endian integer.
    pub fn get_stats_pointer(&self) -> (r: usize)
        ensures
            r == le_u64(self.stats_base@, 0) as usize,
    {
        assert(self.stats_base@.subrange(0, 8) =~= self.stats_base@);
        get_u64(self.stats_base.as_slice(), 0) as usize
    }

    /// Address of the replay buffer: `replay_base` read as a little-endian integer.
    pub fn get_replay_pointer(&self) -> (r: usize)
        ensures
            r == le_u64(self.replay_base@, 0) as usize,
    {
        assert(self.replay_base@.subrange(0, 8) =~= self.replay_base@);
        get_u64(self.replay_base.as_slice(), 0) as usize
    }

    /// The game status, `None` for a number outside the known states.
    pub fn status(&self) -> (r: Option<GameStatus>)
        ensures
            r == game_status_of(self.status),
    {
        match self.status {
            0 => Some(GameStatus::Title),
            1 => Some(GameStatus::Menu),
            2 => Some(GameStatus::Lobby),
            3 => Some(GameStatus::Playing),
            4 => Some(GameStatus::Dead),
            5 => Some(GameStatus::OwnReplayFromLastRun),
            6 => Some(GameStatus::OwnReplayFromLeaderboard),
            7 => Some(GameStatus::OtherReplay),
            8 => Some(GameStatus::LocalReplay),
            _ => None,
        }
    }
}

/// How many frames `frames_until(n)` keeps: `n`, but never the last frame.
pub open spec fn frames_kept(n: usize, len: nat) -> int {
    if len == 0 {
        0
    } else if n + 1 > len {
        len - 1
    } else {
        n as int
    }
}

/// Homing daggers spent over a run of frames: the drops of the homing count
/// between consecutive frames at level 3 (70 level gems) and at level 4 (71),
/// each level tracked from 0, summed modulo 2^32.
pub open spec fn homing_usage(frames: Seq<StatsFrame>) -> (u32, i32, i32)
    decreases frames.len(),
{
    if frames.len() == 0 {
        (0, 0, 0)
    } else {
        let (acc, last3, last4) = homing_usage(frames.drop_last());
        let f = frames.last();
        if f.level_gems == 70 {
            (
                if f.homing < last3 {
                    vstd::wrapping::u32_specs::wrapping_add(acc, (last3 - f.homing) as u32)
                } else {
                    acc
                },
                f.homing,
                last4,
            )
        } else if f.level_gems == 71 {
            (
                if f.homing < last4 {
                    vstd::wrapping::u32_specs::wrapping_add(acc, (last4 - f.homing) as u32)
                } else {
                    acc
                },
                last3,
                f.homing,
            )
        } else {
            (acc, last3, last4)
        }
    }
}

impl StatsBlockWithFrames {
    /// The frames before second `n`, leaving out the last frame.
    pub fn frames_until(&self, n: usize) -> (r: Vec<StatsFrame>)
        ensures
            r@ == self.frames@.subrange(0, frames_kept(n, self.frames@.len())),
    {
        let len = self.frames.len();
        let k = if len == 0 {
            0
        } else if n >= len {
            len - 1
        } else {
            n
        };
        let mut r: Vec<StatsFrame> = Vec::new();
        let mut i: usize = 0;
        while i < k
            invariant
                k <= len == self.frames@.len(),
                i <= k,
                r@ =~= self.frames@.subrange(0, i as int),
            decreases k - i,
        {
            r.push(self.frames[i]);
            i = i + 1;
        }
        r
    }

    /// Homing daggers spent before second `time` (over all frames but the
    /// last when `None`).
    pub fn homing_usage_from_frames(&self, time: Option<usize>) -> (r: u32)
        ensures
            r == homing_usage(
                self.frames@.subrange(
                    0,
                    frames_kept(
                        match time {
                            Some(t) => t,
                            None => usize::MAX,
                        },
                        self.frames@.len(),
                    ),
                ),
            ).0,
    {
        let cutoff = match time {
            Some(t) => t,
            None => usize::MAX,
        };
        let frames = self.frames_until(cutoff);
        let mut acc: u32 = 0;
        let mut last3: i32 = 0;
        let mut last4: i32 = 0;
        let mut i: usize = 0;
        while i < frames.len()
            invariant
                i <= frames@.len(),
                (acc, last3, last4) == homing_usage(frames@.subrange(0, i as int)),
            decreases frames@.len() - i,
        {
            let f = frames[i];
            assert(frames@.subrange(0, i + 1).drop_last() =~= frames@.subrange(0, i as int));
            if f.level_gems == 70 {
                if f.homing < last3 {
                    let d = (last3 as i64 - f.homing as i64) as u32;
                    acc = acc.wrapping_add(d);
                }
                last3 = f.homing;
            } else if f.level_gems == 71 {
                if f.homing < last4 {
                    let d = (last4 as i64 - f.homing as i64) as u32;
                    acc = acc.wrapping_add(d);
                }
                last4 = f.homing;
            }
            i = i + 1;
        }
        assert(frames@.subrange(0, frames@.len() as int) =~= frames@);
        acc
    }
}

} // verus!
