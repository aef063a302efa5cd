//! Submitting a run to the custom leaderboards: the per-frame game state, the
//! canonical run summary and its encrypted validation token.

use super::models::{GameMode, OperatingSystem};
use crate::models::{name_text, StatsBlockWithFrames, StatsFrame};
use crate::utils::{hex_string, md5_to_string, string_from_utf8};
use aes::cipher::block_padding::Pkcs7;
use aes::cipher::{BlockEncryptMut, KeyIvInit};
use vstd::prelude::*;
use vstd::string::*;
use vstd::utf8::*;

verus! {

/// The shared secrets of the validation token.
pub struct DdclSecrets {
    pub iv: String,
    pub pass: String,
    pub salt: String,
}

/// Per-frame series of a run, one entry per frame.
#[derive(Debug, Clone)]
pub struct GameState {
    pub gems_collected: Vec<i32>,
    pub enemies_killed: Vec<i32>,
    pub daggers_fired: Vec<i32>,
    pub daggers_hit: Vec<i32>,
    pub enemies_alive: Vec<i32>,
    pub homing_daggers: Vec<i32>,
    pub homing_daggers_eaten: Vec<i32>,
    pub gems_despawned: Vec<i32>,
    pub gems_eaten: Vec<i32>,
    pub gems_total: Vec<i32>,
    pub skull1s_alive: Vec<i32>,
    pub skull2s_alive: Vec<i32>,
    pub skull3s_alive: Vec<i32>,
    pub spiderlings_alive: Vec<i32>,
    pub skull4s_alive: Vec<i32>,
    pub squid1s_alive: Vec<i32>,
    pub squid2s_alive: Vec<i32>,
    pub squid3s_alive: Vec<i32>,
    pub centipedes_alive: Vec<i32>,
    pub gigapedes_alive: Vec<i32>,
    pub spider1s_alive: Vec<i32>,
    pub spider2s_alive: Vec<i32>,
    pub leviathans_alive: Vec<i32>,
    pub orbs_alive: Vec<i32>,
    pub thorns_alive: Vec<i32>,
    pub ghostpedes_alive: Vec<i32>,
    pub spider_eggs_alive: Vec<i32>,
    pub skull1s_killed: Vec<i32>,
    pub skull2s_killed: Vec<i32>,
    pub skull3s_killed: Vec<i32>,
    pub spiderlings_killed: Vec<i32>,
    pub skull4s_killed: Vec<i32>,
    pub squid1s_killed: Vec<i32>,
    pub squid2s_killed: Vec<i32>,
    pub squid3s_killed: Vec<i32>,
    pub centipedes_killed: Vec<i32>,
    pub gigapedes_killed: Vec<i32>,
    pub spider1s_killed: Vec<i32>,
    pub spider2s_killed: Vec<i32>,
    pub leviathans_killed: Vec<i32>,
    pub orbs_killed: Vec<i32>,
    pub thorns_killed: Vec<i32>,
    pub ghostpedes_killed: Vec<i32>,
    pub spider_eggs_killed: Vec<i32>,
}

/// The record sent to the leaderboard service.
#[derive(Debug, Clone)]
pub struct SubmitRunRequest {
    pub survival_hash_md5: String,
    pub player_id: i32,
    pub player_name: String,
    pub time: i32,
    pub gems_collected: i32,
    pub enemies_killed: i32,
    pub daggers_fired: i32,
    pub daggers_hit: i32,
    pub enemies_alive: i32,
    pub homing_daggers: i32,
    pub homing_daggers_eaten: i32,
    pub gems_despawned: i32,
    pub gems_eaten: i32,
    pub gems_total: i32,
    pub death_type: u8,
    pub level_up_time2: i32,
    pub level_up_time3: i32,
    pub level_up_time4: i32,
    pub client_version: String,
    pub operating_system: OperatingSystem,
    pub build_mode: String,
    pub client: String,
    pub validation: String,
    pub is_replay: bool,
    pub prohibited_mods: bool,
    pub game_data: GameState,
    pub status: i32,
    pub replay_data: String,
    pub replay_player_id: i32,
    pub game_mode: GameMode,
    pub time_attack_or_race_finished: bool,
}

/// The run's times in units of 1/10000 s, rounded toward zero: the time and
/// the times level 2, 3 and 4 were reached.
#[derive(Debug, Clone, Copy, PartialEq, Eq, Structural)]
pub struct RunTimes {
    pub time: i32,
    pub level_up_time2: i32,
    pub level_up_time3: i32,
    pub level_up_time4: i32,
}

/// Why a submission could not be built.
#[derive(Debug, Clone, Copy, PartialEq, Eq, Structural)]
pub enum SubmitError {
    MissingSecrets,
    /// The snapshot holds no frame.
    NoFrames,
    /// The IV is not 16 bytes.
    CryptoError,
    EmptyReplayBuffer,
}

// ---------------------------------------------------------------- game state

/// One per-frame quantity.
#[derive(Debug, Clone, Copy, PartialEq, Eq, Structural)]
pub enum FrameField {
    GemsCollected,
    Kills,
    DaggersFired,
    DaggersHit,
    EnemiesAlive,
    Homing,
    DaggersEaten,
    GemsDespawned,
    GemsEaten,
    GemsTotal,
    /// Enemies alive, by enemy slot (0 to 16).
    Alive(usize),
    /// Enemies killed, by enemy slot (0 to 16).
    Killed(usize),
}

pub open spec fn field_value(f: StatsFrame, k: FrameField) -> i32 {
    match k {
        FrameField::GemsCollected => f.gems_collected,
        FrameField::Kills => f.kills,
        FrameField::DaggersFired => f.daggers_fired,
        FrameField::DaggersHit => f.daggers_hit,
        FrameField::EnemiesAlive => f.enemies_alive,
        FrameField::Homing => f.homing,
        FrameField::DaggersEaten => f.daggers_eaten,
        FrameField::GemsDespawned => f.gems_despawned,
        FrameField::GemsEaten => f.gems_eaten,
        FrameField::GemsTotal => f.gems_total,
        FrameField::Alive(i) => f.per_enemy_alive_count@[i as int] as i32,
        FrameField::Killed(i) => f.per_enemy_kill_count@[i as int] as i32,
    }
}

pub open spec fn field_ok(k: FrameField) -> bool {
    match k {
        FrameField::Alive(i) => i < 17,
        FrameField::Killed(i) => i < 17,
        _ => true,
    }
}

fn frame_value(f: &StatsFrame, k: FrameField) -> (r: i32)
    requires
        field_ok(k),
    ensures
        r == field_value(*f, k),
{
    match k {
        FrameField::GemsCollected => f.gems_collected,
        FrameField::Kills => f.kills,
        FrameField::DaggersFired => f.daggers_fired,
        FrameField::DaggersHit => f.daggers_hit,
        FrameField::EnemiesAlive => f.enemies_alive,
        FrameField::Homing => f.homing,
        FrameField::DaggersEaten => f.daggers_eaten,
        FrameField::GemsDespawned => f.gems_despawned,
        FrameField::GemsEaten => f.gems_eaten,
        FrameField::GemsTotal => f.gems_total,
        FrameField::Alive(i) => f.per_enemy_alive_count[i] as i32,
        FrameField::Killed(i) => f.per_enemy_kill_count[i] as i32,
    }
}

/// The series of one quantity over the frames.
pub fn series(frames: &Vec<StatsFrame>, k: FrameField) -> (r: Vec<i32>)
    requires
        field_ok(k),
    ensures
        r@ == Seq::new(frames@.len(), |i: int| field_value(frames@[i], k)),
{
    let mut r: Vec<i32> = Vec::new();
    let mut i: usize = 0;
    while i < frames.len()
        invariant
            field_ok(k),
            i <= frames@.len(),
            r@ =~= Seq::new(i as nat, |j: int| field_value(frames@[j], k)),
        decreases frames@.len() - i,
    {
        r.push(frame_value(&frames[i], k));
        i = i + 1;
    }
    r
}

/// `g` holds, for each tracked quantity, its value on every frame.
pub open spec fn game_state_of(g: GameState, frames: Seq<StatsFrame>) -> bool {
    &&& g.gems_collected@ == Seq::new(frames.len(), |i: int| field_value(frames[i], FrameField::GemsCollected))
    &&& g.enemies_killed@ == Seq::new(frames.len(), |i: int| field_value(frames[i], FrameField::Kills))
    &&& g.daggers_fired@ == Seq::new(frames.len(), |i: int| field_value(frames[i], FrameField::DaggersFired))
    &&& g.daggers_hit@ == Seq::new(frames.len(), |i: int| field_value(frames[i], FrameField::DaggersHit))
    &&& g.enemies_alive@ == Seq::new(frames.len(), |i: int| field_value(frames[i], FrameField::EnemiesAlive))
    &&& g.homing_daggers@ == Seq::new(frames.len(), |i: int| field_value(frames[i], FrameField::Homing))
    &&& g.homing_daggers_eaten@ == Seq::new(frames.len(), |i: int| field_value(frames[i], FrameField::DaggersEaten))
    &&& g.gems_despawned@ == Seq::new(frames.len(), |i: int| field_value(frames[i], FrameField::GemsDespawned))
    &&& g.gems_eaten@ == Seq::new(frames.len(), |i: int| field_value(frames[i], FrameField::GemsEaten))
    &&& g.gems_total@ == Seq::new(frames.len(), |i: int| field_value(frames[i], FrameField::GemsTotal))
    &&& g.skull1s_alive@ == Seq::new(frames.len(), |i: int| field_value(frames[i], FrameField::Alive(0)))
    &&& g.skull2s_alive@ == Seq::new(frames.len(), |i: int| field_value(frames[i], FrameField::Alive(1)))
    &&& g.skull3s_alive@ == Seq::new(frames.len(), |i: int| field_value(frames[i], FrameField::Alive(2)))
    &&& g.spiderlings_alive@ == Seq::new(frames.len(), |i: int| field_value(frames[i], FrameField::Alive(3)))
    &&& g.skull4s_alive@ == Seq::new(frames.len(), |i: int| field_value(frames[i], FrameField::Alive(4)))
    &&& g.squid1s_alive@ == Seq::new(frames.len(), |i: int| field_value(frames[i], FrameField::Alive(5)))
    &&& g.squid2s_alive@ == Seq::new(frames.len(), |i: int| field_value(frames[i], FrameField::Alive(6)))
    &&& g.squid3s_alive@ == Seq::new(frames.len(), |i: int| field_value(frames[i], FrameField::Alive(7)))
    &&& g.centipedes_alive@ == Seq::new(frames.len(), |i: int| field_value(frames[i], FrameField::Alive(8)))
    &&& g.gigapedes_alive@ == Seq::new(frames.len(), |i: int| field_value(frames[i], FrameField::Alive(9)))
    &&& g.spider1s_alive@ == Seq::new(frames.len(), |i: int| field_value(frames[i], FrameField::Alive(10)))
    &&& g.spider2s_alive@ == Seq::new(frames.len(), |i: int| field_value(frames[i], FrameField::Alive(11)))
    &&& g.leviathans_alive@ == Seq::new(frames.len(), |i: int| field_value(frames[i], FrameField::Alive(12)))
    &&& g.orbs_alive@ == Seq::new(frames.len(), |i: int| field_value(frames[i], FrameField::Alive(13)))
    &&& g.thorns_alive@ == Seq::new(frames.len(), |i: int| field_value(frames[i], FrameField::Alive(14)))
    &&& g.ghostpedes_alive@ == Seq::new(frames.len(), |i: int| field_value(frames[i], FrameField::Alive(15)))
    &&& g.spider_eggs_alive@ == Seq::new(frames.len(), |i: int| field_value(frames[i], FrameField::Alive(16)))
    &&& g.skull1s_killed@ == Seq::new(frames.len(), |i: int| field_value(frames[i], FrameField::Killed(0)))
    &&& g.skull2s_killed@ == Seq::new(frames.len(), |i: int| field_value(frames[i], FrameField::Killed(1)))
    &&& g.skull3s_killed@ == Seq::new(frames.len(), |i: int| field_value(frames[i], FrameField::Killed(2)))
    &&& g.spiderlings_killed@ == Seq::new(frames.len(), |i: int| field_value(frames[i], FrameField::Killed(3)))
    &&& g.skull4s_killed@ == Seq::new(frames.len(), |i: int| field_value(frames[i], FrameField::Killed(4)))
    &&& g.squid1s_killed@ == Seq::new(frames.len(), |i: int| field_value(frames[i], FrameField::Killed(5)))
    &&& g.squid2s_killed@ == Seq::new(frames.len(), |i: int| field_value(frames[i], FrameField::Killed(6)))
    &&& g.squid3s_killed@ == Seq::new(frames.len(), |i: int| field_value(frames[i], FrameField::Killed(7)))
    &&& g.centipedes_killed@ == Seq::new(frames.len(), |i: int| field_value(frames[i], FrameField::Killed(8)))
    &&& g.gigapedes_killed@ == Seq::new(frames.len(), |i: int| field_value(frames[i], FrameField::Killed(9)))
    &&& g.spider1s_killed@ == Seq::new(frames.len(), |i: int| field_value(frames[i], FrameField::Killed(10)))
    &&& g.spider2s_killed@ == Seq::new(frames.len(), |i: int| field_value(frames[i], FrameField::Killed(11)))
    &&& g.leviathans_killed@ == Seq::new(frames.len(), |i: int| field_value(frames[i], FrameField::Killed(12)))
    &&& g.orbs_killed@ == Seq::new(frames.len(), |i: int| field_value(frames[i], FrameField::Killed(13)))
    &&& g.thorns_killed@ == Seq::new(frames.len(), |i: int| field_value(frames[i], FrameField::Killed(14)))
    &&& g.ghostpedes_killed@ == Seq::new(frames.len(), |i: int| field_value(frames[i], FrameField::Killed(15)))
    &&& g.spider_eggs_killed@ == Seq::new(frames.len(), |i: int| field_value(frames[i], FrameField::Killed(16)))
}

impl GameState {
    /// The per-frame series of a run.
    pub fn from_frames(frames: &Vec<StatsFrame>) -> (g: Self)
        ensures
            game_state_of(g, frames@),
    {
        GameState {
            gems_collected: series(frames, FrameField::GemsCollected),
            enemies_killed: series(frames, FrameField::Kills),
            daggers_fired: series(frames, FrameField::DaggersFired),
            daggers_hit: series(frames, FrameField::DaggersHit),
            enemies_alive: series(frames, FrameField::EnemiesAlive),
            homing_daggers: series(frames, FrameField::Homing),
            homing_daggers_eaten: series(frames, FrameField::DaggersEaten),
            gems_despawned: series(frames, FrameField::GemsDespawned),
            gems_eaten: series(frames, FrameField::GemsEaten),
            gems_total: series(frames, FrameField::GemsTotal),
            skull1s_alive: series(frames, FrameField::Alive(0)),
            skull2s_alive: series(frames, FrameField::Alive(1)),
            skull3s_alive: series(frames, FrameField::Alive(2)),
            spiderlings_alive: series(frames, FrameField::Alive(3)),
            skull4s_alive: series(frames, FrameField::Alive(4)),
            squid1s_alive: series(frames, FrameField::Alive(5)),
            squid2s_alive: series(frames, FrameField::Alive(6)),
            squid3s_alive: series(frames, FrameField::Alive(7)),
            centipedes_alive: series(frames, FrameField::Alive(8)),
            gigapedes_alive: series(frames, FrameField::Alive(9)),
            spider1s_alive: series(frames, FrameField::Alive(10)),
            spider2s_alive: series(frames, FrameField::Alive(11)),
            leviathans_alive: series(frames, FrameField::Alive(12)),
            orbs_alive: series(frames, FrameField::Alive(13)),
            thorns_alive: series(frames, FrameField::Alive(14)),
            ghostpedes_alive: series(frames, FrameField::Alive(15)),
            spider_eggs_alive: series(frames, FrameField::Alive(16)),
            skull1s_killed: series(frames, FrameField::Killed(0)),
            skull2s_killed: series(frames, FrameField::Killed(1)),
            skull3s_killed: series(frames, FrameField::Killed(2)),
            spiderlings_killed: series(frames, FrameField::Killed(3)),
            skull4s_killed: series(frames, FrameField::Killed(4)),
            squid1s_killed: series(frames, FrameField::Killed(5)),
            squid2s_killed: series(frames, FrameField::Killed(6)),
            squid3s_killed: series(frames, FrameField::Killed(7)),
            centipedes_killed: series(frames, FrameField::Killed(8)),
            gigapedes_killed: series(frames, FrameField::Killed(9)),
            spider1s_killed: series(frames, FrameField::Killed(10)),
            spider2s_killed: series(frames, FrameField::Killed(11)),
            leviathans_killed: series(frames, FrameField::Killed(12)),
            orbs_killed: series(frames, FrameField::Killed(13)),
            thorns_killed: series(frames, FrameField::Killed(14)),
            ghostpedes_killed: series(frames, FrameField::Killed(15)),
            spider_eggs_killed: series(frames, FrameField::Killed(16)),
        }
    }
}

// ---------------------------------------------------------------- the run summary

/// Decimal digits of a natural number.
pub open spec fn digits(n: nat) -> Seq<char>
    decreases n,
{
    if n < 10 {
        seq![(48 + n) as char]
    } else {
        digits(n / 10) + seq![(48 + n % 10) as char]
    }
}

/// Decimal text of an integer, with `-` before a negative one.
pub open spec fn dec(v: int) -> Seq<char> {
    if v < 0 {
        seq!['-'] + digits((-v) as nat)
    } else {
        digits(v as nat)
    }
}

fn one_char(s: &'static str, i: usize) -> (r: &'static str)
    requires
        s.is_ascii(),
        i < s@.len() <= 16,
    ensures
        r@ == seq![s@[i as int]],
{
    let r = s.substring_ascii(i, i + 1);
    assert(r@ =~= seq![s@[i as int]]);
    r
}

fn append_digits(s: &mut String, n: u64)
    ensures
        final(s)@ == old(s)@ + digits(n as nat),
    decreases n,
{
    if n >= 10 {
        append_digits(s, n / 10);
    }
    let table = "0123456789";
    proof {
        reveal_strlit("0123456789");
    }
    s.append(one_char(table, (n % 10) as usize));
    assert(digits(n as nat) == if n < 10 {
        seq![(48 + n) as char]
    } else {
        digits((n / 10) as nat) + seq![(48 + n % 10) as char]
    });
}

fn append_decimal(s: &mut String, v: i64)
    ensures
        final(s)@ == old(s)@ + dec(v as int),
{
    if v < 0 {
        let minus = "-";
        proof {
            reveal_strlit("-");
        }
        s.append(minus);
        let n: u64 = if v == i64::MIN {
            9223372036854775808u64
        } else {
            (-v) as u64
        };
        append_digits(s, n);
        assert(old(s)@ + dec(v as int) =~= old(s)@ + seq!['-'] + digits(n as nat));
    } else {
        append_digits(s, v as u64);
    }
}

fn append_str(s: &mut String, t: &str)
    ensures
        final(s)@ == old(s)@ + t@,
{
    s.append(t);
}

/// The fields the validation token covers, `;`-separated, in the service's
/// order; the three level-up times at the end are `,`-separated.
pub open spec fn validation_text(
    player_id: i32,
    times: RunTimes,
    last: StatsFrame,
    death_type: u8,
    is_replay: bool,
    md5: Seq<u8>,
) -> Seq<char> {
    dec(player_id as int) + seq![';'] + dec(times.time as int) + seq![';'] + dec(
        last.gems_collected as int,
    ) + seq![';'] + dec(last.gems_despawned as int) + seq![';'] + dec(last.gems_eaten as int)
        + seq![';'] + dec(last.gems_total as int) + seq![';'] + dec(last.kills as int) + seq![';']
        + dec(death_type as int) + seq![';'] + dec(last.daggers_hit as int) + seq![';'] + dec(
        last.daggers_fired as int,
    ) + seq![';'] + dec(last.enemies_alive as int) + seq![';'] + dec(last.homing as int) + seq![
        ';',
    ] + dec(last.daggers_eaten as int) + seq![';'] + (if is_replay {
        seq!['1']
    } else {
        seq!['0']
    }) + seq![';'] + hex_string(md5, true) + seq![';'] + dec(times.level_up_time2 as int)
        + seq![','] + dec(times.level_up_time3 as int) + seq![','] + dec(
        times.level_up_time4 as int,
    )
}

/// Builds the run summary that the validation token encrypts.
pub fn validation_string(
    player_id: i32,
    times: RunTimes,
    last: &StatsFrame,
    death_type: u8,
    is_replay: bool,
    md5: &[u8],
) -> (r: String)
    ensures
        r@ == validation_text(player_id, times, *last, death_type, is_replay, md5@),
{
    let semi = ";";
    let comma = ",";
    let one = "1";
    let zero = "0";
    proof {
        reveal_strlit(";");
        reveal_strlit(",");
        reveal_strlit("1");
        reveal_strlit("0");
    }
    let mut s = String::new();
    append_decimal(&mut s, player_id as i64);
    append_str(&mut s, semi);
    append_decimal(&mut s, times.time as i64);
    append_str(&mut s, semi);
    append_decimal(&mut s, last.gems_collected as i64);
    append_str(&mut s, semi);
    append_decimal(&mut s, last.gems_despawned as i64);
    append_str(&mut s, semi);
    append_decimal(&mut s, last.gems_eaten as i64);
    append_str(&mut s, semi);
    append_decimal(&mut s, last.gems_total as i64);
    append_str(&mut s, semi);
    append_decimal(&mut s, last.kills as i64);
    append_str(&mut s, semi);
    append_decimal(&mut s, death_type as i64);
    append_str(&mut s, semi);
    append_decimal(&mut s, last.daggers_hit as i64);
    append_str(&mut s, semi);
    append_decimal(&mut s, last.daggers_fired as i64);
    append_str(&mut s, semi);
    append_decimal(&mut s, last.enemies_alive as i64);
    append_str(&mut s, semi);
    append_decimal(&mut s, last.homing as i64);
    append_str(&mut s, semi);
    append_decimal(&mut s, last.daggers_eaten as i64);
    append_str(&mut s, semi);
    if is_replay {
        append_str(&mut s, one);
    } else {
        append_str(&mut s, zero);
    }
    append_str(&mut s, semi);
    let hex = md5_to_string(md5);
    append_str(&mut s, hex.as_str());
    append_str(&mut s, semi);
    append_decimal(&mut s, times.level_up_time2 as i64);
    append_str(&mut s, comma);
    append_decimal(&mut s, times.level_up_time3 as i64);
    append_str(&mut s, comma);
    append_decimal(&mut s, times.level_up_time4 as i64);
    assert(s@ =~= validation_text(player_id, times, *last, death_type, is_replay, md5@));
    s
}

// ---------------------------------------------------------------- the token

/// Name for the key PBKDF2-HMAC-SHA1 derives: `len` bytes from the secret
/// and salt with the given iteration count.
pub uninterp spec fn pbkdf2_hmac_sha1(iterations: u32, salt: Seq<u8>, secret: Seq<u8>, len: nat) -> Seq<u8>;

/// Name for AES-128-CBC encryption with PKCS#7 padding.
pub uninterp spec fn aes128_cbc_pkcs7(key: Seq<u8>, iv: Seq<u8>, plain: Seq<u8>) -> Seq<u8>;

/// Name for RFC 4648 base32 text with `=` padding, as ASCII bytes.
pub uninterp spec fn base32_rfc4648(data: Seq<u8>) -> Seq<u8>;

/// Name for standard base64 text with padding, as ASCII bytes.
pub uninterp spec fn base64_standard(data: Seq<u8>) -> Seq<u8>;

/// A character of the standard base64 alphabet, or the padding `=`.
pub open spec fn is_base64_byte(c: u8) -> bool {
    (65 <= c <= 90) || (97 <= c <= 122) || (48 <= c <= 57) || c == 43 || c == 47 || c == 61
}

/// A character of the RFC 4648 base32 alphabet, or the padding `=`.
pub open spec fn is_base32_byte(c: u8) -> bool {
    (65 <= c <= 90) || (50 <= c <= 55) || c == 61
}

/// A character of the RFC 4648 base32 alphabet, or the padding `=`.
pub open spec fn is_base32_char(c: char) -> bool {
    ('A' <= c <= 'Z') || ('2' <= c <= '7') || c == '='
}

/// Relies on `ring::pbkdf2::derive` with `PBKDF2_HMAC_SHA1`: the 16-byte key
/// depends on the iteration count, salt and secret alone.
#[verifier::external_body]
fn derive_key(iterations: u32, salt: &[u8], secret: &[u8]) -> (r: [u8; 16])
    requires
        iterations > 0,
    ensures
        r@ == pbkdf2_hmac_sha1(iterations, salt@, secret@, 16),
{
    let mut out = [0u8; 16];
    let n = std::num::NonZeroU32::new(iterations).unwrap();
    ring::pbkdf2::derive(ring::pbkdf2::PBKDF2_HMAC_SHA1, n, salt, secret, &mut out);
    out
}

/// Relies on `cbc::Encryptor<aes::Aes128>`: `new_from_slices` accepts a
/// 16-byte key and a 16-byte IV and nothing else, and PKCS#7 padding always
/// adds 1 to 16 bytes, up to a whole number of 16-byte blocks.
#[verifier::external_body]
fn aes128_cbc_encrypt(key: &[u8], iv: &[u8], plain: &[u8]) -> (r: Option<Vec<u8>>)
    ensures
        r is Some <==> (key@.len() == 16 && iv@.len() == 16),
        r matches Some(c) ==> c@ == aes128_cbc_pkcs7(key@, iv@, plain@),
        r matches Some(c) ==> c@.len() == 16 * (plain@.len() / 16 + 1),
{
    let cipher = cbc::Encryptor::<aes::Aes128>::new_from_slices(key, iv).ok()?;
    Some(cipher.encrypt_padded_vec_mut::<Pkcs7>(plain))
}

/// Relies on `base32::encode` with `RFC4648 { padding: true }`: eight
/// characters of the RFC 4648 alphabet or `=` for every five bytes begun.
#[verifier::external_body]
fn base32_encode(data: &[u8]) -> (r: Vec<u8>)
    ensures
        r@ == base32_rfc4648(data@),
        r@.len() == 8 * ((data@.len() + 4) / 5),
        forall|i: int| 0 <= i < r@.len() ==> is_base32_byte(#[trigger] r@[i]),
{
    base32::encode(base32::Alphabet::RFC4648 { padding: true }, data).into_bytes()
}

/// Relies on `base64::encode`: the standard alphabet with `=` padding, four
/// characters for every three bytes begun.
#[verifier::external_body]
pub(crate) fn base64_encode(data: &[u8]) -> (r: Vec<u8>)
    ensures
        r@ == base64_standard(data@),
        r@.len() == 4 * ((data@.len() + 2) / 3),
        forall|i: int| 0 <= i < r@.len() ==> is_base64_byte(#[trigger] r@[i]),
{
    base64::encode(data).into_bytes()
}

/// Base64 text as a string.
pub(crate) fn base64_string(data: &[u8]) -> (r: String)
    ensures
        r@ == decode_utf8(base64_standard(data@)),
{
    let b = base64_encode(data);
    assert forall|i: int| 0 <= i < b@.len() implies b@[i] <= 0x7f by {
        assert(is_base64_byte(b@[i]));
    }
    ascii_to_string(b)
}

/// Iterations of the key derivation.
pub const PBKDF2_ITERATIONS: u32 = 65536;

/// The validation token before its `=` padding is removed, as bytes.
pub open spec fn token_bytes(plain: Seq<u8>, password: Seq<u8>, salt: Seq<u8>, iv: Seq<u8>) -> Seq<u8> {
    base32_rfc4648(
        aes128_cbc_pkcs7(pbkdf2_hmac_sha1(PBKDF2_ITERATIONS, salt, password, 16), iv, plain),
    )
}

proof fn lemma_ascii_valid(b: Seq<u8>)
    requires
        forall|i: int| 0 <= i < b.len() ==> b[i] <= 0x7f,
    ensures
        valid_utf8(b),
{
    assert(b.subrange(0, 0) =~= Seq::<u8>::empty());
    assert(valid_utf8(Seq::<u8>::empty()));
    partial_valid_utf8_extend_ascii_block(b, 0, b.len() as int);
    assert(b.subrange(0, b.len() as int) =~= b);
}

/// ASCII bytes decode to the characters with the same codes.
proof fn lemma_ascii_decode(b: Seq<u8>)
    requires
        forall|i: int| 0 <= i < b.len() ==> b[i] <= 0x7f,
    ensures
        decode_utf8(b) == Seq::new(b.len(), |i: int| b[i] as char),
{
    let c = Seq::new(b.len(), |i: int| b[i] as char);
    assert(is_ascii_chars(c));
    is_ascii_chars_encode_utf8(c);
    assert(encode_utf8(c) =~= b);
    encode_utf8_decode_utf8(c);
}

pub(crate) fn ascii_to_string(b: Vec<u8>) -> (r: String)
    requires
        forall|i: int| 0 <= i < b@.len() ==> b@[i] <= 0x7f,
    ensures
        r@ == decode_utf8(b@),
        r@ == Seq::new(b@.len(), |i: int| b@[i] as char),
{
    proof {
        lemma_ascii_valid(b@);
        lemma_ascii_decode(b@);
    }
    match string_from_utf8(b) {
        Ok(s) => s,
        Err(_) => String::new(),
    }
}

/// Encrypts `plain` with a key derived from `password` and `salt`
/// (PBKDF2-HMAC-SHA1, 65,536 iterations, 16 bytes) under AES-128-CBC with
/// PKCS#7 padding and the IV `iv`, and encodes the result as padded base32.
pub fn encrypt_and_encode(plain: &str, password: &str, salt: &str, iv: &str) -> (r: Result<String, SubmitError>)
    ensures
        r is Ok <==> iv.spec_bytes().len() == 16,
        r is Err ==> r == Err::<String, SubmitError>(SubmitError::CryptoError),
        r matches Ok(s) ==> s@ == decode_utf8(
            token_bytes(plain.spec_bytes(), password.spec_bytes(), salt.spec_bytes(), iv.spec_bytes()),
        ),
        r matches Ok(s) ==> s@.len() == 8 * ((16 * (plain.spec_bytes().len() / 16 + 1) + 4) / 5),
        r matches Ok(s) ==> s@.len() % 8 == 0,
        r matches Ok(s) ==> forall|i: int| 0 <= i < s@.len() ==> is_base32_char(#[trigger] s@[i]),
{
    let key = derive_key(PBKDF2_ITERATIONS, salt.as_bytes(), password.as_bytes());
    let cipher = match aes128_cbc_encrypt(key.as_slice(), iv.as_bytes(), plain.as_bytes()) {
        Some(c) => c,
        None => {
            return Err(SubmitError::CryptoError);
        },
    };
    let encoded = base32_encode(cipher.as_slice());
    assert(8 * ((cipher@.len() + 4) / 5) % 8 == 0) by (nonlinear_arith);
    assert forall|i: int| 0 <= i < encoded@.len() implies encoded@[i] <= 0x7f by {
        assert(is_base32_byte(encoded@[i]));
    }
    let s = ascii_to_string(encoded);
    assert forall|i: int| 0 <= i < s@.len() implies is_base32_char(#[trigger] s@[i]) by {
        assert(is_base32_byte(encoded@[i]));
        assert(s@[i] == encoded@[i] as char);
    }
    Ok(s)
}

/// The bytes of `b` other than `=`, in order.
pub open spec fn strip_padding(b: Seq<u8>) -> Seq<u8>
    decreases b.len(),
{
    if b.len() == 0 {
        Seq::empty()
    } else {
        strip_padding(b.drop_last()) + if b.last() == 61 {
            Seq::empty()
        } else {
            seq![b.last()]
        }
    }
}

proof fn lemma_strip_padding_ascii(b: Seq<u8>)
    requires
        forall|i: int| 0 <= i < b.len() ==> b[i] <= 0x7f,
    ensures
        forall|i: int| 0 <= i < strip_padding(b).len() ==> #[trigger] strip_padding(b)[i] <= 0x7f,
        forall|i: int| 0 <= i < strip_padding(b).len() ==> #[trigger] strip_padding(b)[i] != 61,
    decreases b.len(),
{
    if b.len() > 0 {
        let d = b.drop_last();
        assert forall|i: int| 0 <= i < d.len() implies d[i] <= 0x7f by {
            assert(d[i] == b[i]);
        }
        lemma_strip_padding_ascii(d);
        let t: Seq<u8> = if b.last() == 61 {
            Seq::empty()
        } else {
            seq![b.last()]
        };
        assert(strip_padding(b) == strip_padding(d) + t);
        assert forall|i: int| 0 <= i < strip_padding(b).len() implies #[trigger] strip_padding(b)[i] <= 0x7f && strip_padding(b)[i] != 61 by {
            if i < strip_padding(d).len() {
                assert(strip_padding(b)[i] == strip_padding(d)[i]);
            } else {
                assert(strip_padding(b)[i] == b.last());
            }
        }
    }
}

/// The validation token as sent: the padded base32 text without its `=`.
pub fn validation_token(plain: &str, password: &str, salt: &str, iv: &str) -> (r: Result<String, SubmitError>)
    ensures
        r is Ok <==> iv.spec_bytes().len() == 16,
        r is Err ==> r == Err::<String, SubmitError>(SubmitError::CryptoError),
        r matches Ok(s) ==> s@ == decode_utf8(
            strip_padding(
                token_bytes(plain.spec_bytes(), password.spec_bytes(), salt.spec_bytes(), iv.spec_bytes()),
            ),
        ),
        r matches Ok(s) ==> forall|i: int| 0 <= i < s@.len() ==> #[trigger] s@[i] != '=',
{
    let key = derive_key(PBKDF2_ITERATIONS, salt.as_bytes(), password.as_bytes());
    let cipher = match aes128_cbc_encrypt(key.as_slice(), iv.as_bytes(), plain.as_bytes()) {
        Some(c) => c,
        None => {
            return Err(SubmitError::CryptoError);
        },
    };
    let encoded = base32_encode(cipher.as_slice());
    let mut out: Vec<u8> = Vec::new();
    let mut i: usize = 0;
    while i < encoded.len()
        invariant
            i <= encoded@.len(),
            out@ == strip_padding(encoded@.subrange(0, i as int)),
        decreases encoded@.len() - i,
    {
        assert(encoded@.subrange(0, i + 1).drop_last() =~= encoded@.subrange(0, i as int));
        if encoded[i] != 61 {
            out.push(encoded[i]);
        } else {
            assert(out@ + Seq::<u8>::empty() =~= out@);
        }
        i = i + 1;
    }
    assert(encoded@.subrange(0, encoded@.len() as int) =~= encoded@);
    assert forall|k: int| 0 <= k < encoded@.len() implies encoded@[k] <= 0x7f by {
        assert(is_base32_byte(encoded@[k]));
    }
    proof {
        lemma_strip_padding_ascii(encoded@);
    }
    let s = ascii_to_string(out);
    assert forall|i: int| 0 <= i < s@.len() implies #[trigger] s@[i] != '=' by {
        assert(out@[i] != 61);
        assert(s@[i] == out@[i] as char);
    }
    Ok(s)
}

// ---------------------------------------------------------------- the request

/// `req` is the submission of `run` with these secrets, client, version,
/// replay, times and platform.
pub open spec fn request_of(
    req: SubmitRunRequest,
    run: StatsBlockWithFrames,
    sec: DdclSecrets,
    client: Seq<char>,
    version: Seq<char>,
    replay: Seq<u8>,
    times: RunTimes,
    os: OperatingSystem,
) -> bool {
    let last = run.frames@.last();
    let b = run.block;
    &&& req.player_id == b.player_id
    &&& req.player_name@ == name_text(b.username@)
    &&& req.time == times.time
    &&& req.gems_collected == last.gems_collected
    &&& req.enemies_killed == last.kills
    &&& req.daggers_fired == last.daggers_fired
    &&& req.daggers_hit == last.daggers_hit
    &&& req.enemies_alive == last.enemies_alive
    &&& req.homing_daggers == last.homing
    &&& req.homing_daggers_eaten == last.daggers_eaten
    &&& req.gems_despawned == last.gems_despawned
    &&& req.gems_eaten == last.gems_eaten
    &&& req.gems_total == last.gems_total
    &&& req.death_type == b.death_type
    &&& req.level_up_time2 == times.level_up_time2
    &&& req.level_up_time3 == times.level_up_time3
    &&& req.level_up_time4 == times.level_up_time4
    &&& req.client_version@ == version
    &&& req.client@ == client
    &&& req.operating_system == os
    &&& req.build_mode@ == "Release"@
    &&& req.is_replay == b.is_replay
    &&& req.prohibited_mods == b.prohibited_mods
    &&& req.status == b.status
    &&& req.replay_player_id == b.replay_player_id
    &&& req.game_mode == GameMode::Default
    &&& !req.time_attack_or_race_finished
    &&& game_state_of(req.game_data, run.frames@)
    &&& req.replay_data@ == decode_utf8(base64_standard(replay))
    &&& req.survival_hash_md5@ == decode_utf8(base64_standard(b.survival_md5@))
    &&& req.validation@ == decode_utf8(
        strip_padding(
            token_bytes(
                encode_utf8(
                    validation_text(
                        b.player_id,
                        times,
                        last,
                        b.death_type,
                        b.is_replay,
                        b.survival_md5@,
                    ),
                ),
                encode_utf8(sec.pass@),
                encode_utf8(sec.salt@),
                encode_utf8(sec.iv@),
            ),
        ),
    )
}


impl SubmitRunRequest {
    /// Builds the submission of a run: the last frame's counters, the
    /// per-frame series, the validation token over the run summary, and the
    /// replay and survival hash in base64. The platform tag is `os`; the
    /// time-attack flag is never set, as the stats block does not carry it.
    pub fn from_compiled_run(
        run: &StatsBlockWithFrames,
        secrets: Option<DdclSecrets>,
        client: &str,
        version: &str,
        replay_bin: &[u8],
        times: RunTimes,
        os: OperatingSystem,
    ) -> (r: Result<Self, SubmitError>)
        ensures
            secrets is None ==> r == Err::<Self, SubmitError>(SubmitError::MissingSecrets),
            secrets is Some && run.frames@.len() == 0 ==> r == Err::<Self, SubmitError>(
                SubmitError::NoFrames,
            ),
            r is Ok <==> (secrets matches Some(sec) && run.frames@.len() > 0 && encode_utf8(
                sec.iv@,
            ).len() == 16),
            r matches Ok(req) ==> request_of(
                req,
                *run,
                secrets->Some_0,
                client@,
                version@,
                replay_bin@,
                times,
                os,
            ),
    {
        let sec = match secrets {
            Some(s) => s,
            None => {
                return Err(SubmitError::MissingSecrets);
            },
        };
        let n = run.frames.len();
        if n == 0 {
            return Err(SubmitError::NoFrames);
        }
        let last = &run.frames[n - 1];
        let b = &run.block;
        let game_data = GameState::from_frames(&run.frames);
        let to_encrypt = validation_string(
            b.player_id,
            times,
            last,
            b.death_type,
            b.is_replay,
            b.survival_md5.as_slice(),
        );
        let validation = validation_token(
            to_encrypt.as_str(),
            sec.pass.as_str(),
            sec.salt.as_str(),
            sec.iv.as_str(),
        )?;
        let release = "Release";
        Ok(
            SubmitRunRequest {
                survival_hash_md5: base64_string(b.survival_md5.as_slice()),
                player_id: b.player_id,
                player_name: b.player_username(),
                time: times.time,
                gems_collected: last.gems_collected,
                enemies_killed: last.kills,
                daggers_fired: last.daggers_fired,
                daggers_hit: last.daggers_hit,
                enemies_alive: last.enemies_alive,
                homing_daggers: last.homing,
                homing_daggers_eaten: last.daggers_eaten,
                gems_despawned: last.gems_despawned,
                gems_eaten: last.gems_eaten,
                gems_total: last.gems_total,
                death_type: b.death_type,
                level_up_time2: times.level_up_time2,
                level_up_time3: times.level_up_time3,
                level_up_time4: times.level_up_time4,
                client_version: String::from_str(version),
                operating_system: os,
                build_mode: String::from_str(release),
                client: String::from_str(client),
                validation,
                is_replay: b.is_replay,
                prohibited_mods: b.prohibited_mods,
                game_data,
                status: b.status,
                replay_data: base64_string(replay_bin),
                replay_player_id: b.replay_player_id,
                game_mode: GameMode::Default,
                time_attack_or_race_finished: false,
            },
        )
    }
}

/// The submission of a run with its replay: refused when the replay is
/// empty, otherwise `SubmitRunRequest::from_compiled_run`.
pub fn prepare_submission(
    run: &StatsBlockWithFrames,
    secrets: Option<DdclSecrets>,
    client: &str,
    version: &str,
    replay_bin: &[u8],
    times: RunTimes,
    os: OperatingSystem,
) -> (r: Result<SubmitRunRequest, SubmitError>)
    ensures
        replay_bin@.len() == 0 ==> r == Err::<SubmitRunRequest, SubmitError>(
            SubmitError::EmptyReplayBuffer,
        ),
        replay_bin@.len() > 0 && secrets is None ==> r == Err::<SubmitRunRequest, SubmitError>(
            SubmitError::MissingSecrets,
        ),
        replay_bin@.len() > 0 && secrets is Some && run.frames@.len() == 0 ==> r == Err::<
            SubmitRunRequest,
            SubmitError,
        >(SubmitError::NoFrames),
        r is Ok <==> (replay_bin@.len() > 0 && (secrets matches Some(sec) && run.frames@.len() > 0
            && encode_utf8(sec.iv@).len() == 16)),
        r matches Ok(req) ==> request_of(
            req,
            *run,
            secrets->Some_0,
            client@,
            version@,
            replay_bin@,
            times,
            os,
        ),
{
    if replay_bin.len() == 0 {
        return Err(SubmitError::EmptyReplayBuffer);
    }
    SubmitRunRequest::from_compiled_run(run, secrets, client, version, replay_bin, times, os)
}

} // verus!
