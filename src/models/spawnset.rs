//! The spawnset file: header, 51x51 arena, spawn table and versioned settings.
//! Floating-point fields are kept as their IEEE-754 bit patterns.

use crate::codec::{
    fits, get_i32, get_u32, get_u8, le32, le_i32, le_u32, lemma_i32_u32, lemma_words_at_bytes,
    push_u32, push_words, read_words, words_at, words_bytes,
};
use vstd::bytes::*;
use vstd::prelude::*;

verus! {

pub const HEADER_WORDS: usize = 9;
pub const ARENA_WORDS: usize = 2601;
pub const SPAWNS_HEADER_WORDS: usize = 10;
pub const SPAWN_WORDS: usize = 7;
/// Byte offset of the arena.
pub const ARENA_OFFSET: usize = 36;
/// Byte offset of the spawns header.
pub const SPAWNS_HEADER_OFFSET: usize = 10440;
/// Byte offset of the spawn count, the last field of the spawns header.
pub const SPAWN_COUNT_OFFSET: usize = 10476;
/// Byte offset of the first spawn.
pub const SPAWNS_OFFSET: usize = 10480;
pub const SPAWN_SIZE: usize = 28;

/// An enemy taxonomy: the enemy kinds that the `i32` tag of a spawn names.
pub trait EnemyKind: Sized + Copy {
    spec fn spec_tag(&self) -> i32;

    spec fn spec_from_tag(t: i32) -> Option<Self>;

    proof fn lemma_tag_of_from_tag(t: i32)
        ensures
            Self::spec_from_tag(t) matches Some(e) ==> e.spec_tag() == t,
    ;

    fn tag(&self) -> (r: i32)
        ensures
            r == self.spec_tag(),
    ;

    fn from_tag(t: i32) -> (r: Option<Self>)
        ensures
            r == Self::spec_from_tag(t),
    ;
}

#[derive(Debug, Clone, Copy, PartialEq, Eq, Structural)]
pub enum V3Enemies {
    Squid1,
    Squid2,
    Centipede,
    Spider1,
    Leviathan,
    Gigapede,
    Squid3,
    Thorn,
    Spider2,
    Ghostpede,
    Empty,
}

#[derive(Debug, Clone, Copy, PartialEq, Eq, Structural)]
pub enum V2Enemies {
    Squid1,
    Squid2,
    Centipede,
    Spider1,
    Leviathan,
    Gigapede,
    Squid3,
    Andras,
    Spider2,
    Empty,
}

#[derive(Debug, Clone, Copy, PartialEq, Eq, Structural)]
pub enum V1Enemies {
    Squid1,
    Squid2,
    Centipede,
    Spider1,
    Leviathan,
    Gigapede,
    Empty,
}

impl EnemyKind for V3Enemies {
    open spec fn spec_tag(&self) -> i32 {
        match self {
            V3Enemies::Squid1 => 0,
            V3Enemies::Squid2 => 1,
            V3Enemies::Centipede => 2,
            V3Enemies::Spider1 => 3,
            V3Enemies::Leviathan => 4,
            V3Enemies::Gigapede => 5,
            V3Enemies::Squid3 => 6,
            V3Enemies::Thorn => 7,
            V3Enemies::Spider2 => 8,
            V3Enemies::Ghostpede => 9,
            V3Enemies::Empty => -1i32,
        }
    }

    open spec fn spec_from_tag(t: i32) -> Option<Self> {
        if t == 0 {
            Some(V3Enemies::Squid1)
        } else if t == 1 {
            Some(V3Enemies::Squid2)
        } else if t == 2 {
            Some(V3Enemies::Centipede)
        } else if t == 3 {
            Some(V3Enemies::Spider1)
        } else if t == 4 {
            Some(V3Enemies::Leviathan)
        } else if t == 5 {
            Some(V3Enemies::Gigapede)
        } else if t == 6 {
            Some(V3Enemies::Squid3)
        } else if t == 7 {
            Some(V3Enemies::Thorn)
        } else if t == 8 {
            Some(V3Enemies::Spider2)
        } else if t == 9 {
            Some(V3Enemies::Ghostpede)
        } else if t == -1 {
            Some(V3Enemies::Empty)
        } else {
            None
        }
    }

    proof fn lemma_tag_of_from_tag(t: i32) {
    }

    fn tag(&self) -> (r: i32) {
        match self {
            V3Enemies::Squid1 => 0,
            V3Enemies::Squid2 => 1,
            V3Enemies::Centipede => 2,
            V3Enemies::Spider1 => 3,
            V3Enemies::Leviathan => 4,
            V3Enemies::Gigapede => 5,
            V3Enemies::Squid3 => 6,
            V3Enemies::Thorn => 7,
            V3Enemies::Spider2 => 8,
            V3Enemies::Ghostpede => 9,
            V3Enemies::Empty => -1i32,
        }
    }

    fn from_tag(t: i32) -> (r: Option<Self>) {
        match t {
            0 => Some(V3Enemies::Squid1),
            1 => Some(V3Enemies::Squid2),
            2 => Some(V3Enemies::Centipede),
            3 => Some(V3Enemies::Spider1),
            4 => Some(V3Enemies::Leviathan),
            5 => Some(V3Enemies::Gigapede),
            6 => Some(V3Enemies::Squid3),
            7 => Some(V3Enemies::Thorn),
            8 => Some(V3Enemies::Spider2),
            9 => Some(V3Enemies::Ghostpede),
            -1 => Some(V3Enemies::Empty),
            _ => None,
        }
    }
}

impl EnemyKind for V2Enemies {
    open spec fn spec_tag(&self) -> i32 {
        match self {
            V2Enemies::Squid1 => 0,
            V2Enemies::Squid2 => 1,
            V2Enemies::Centipede => 2,
            V2Enemies::Spider1 => 3,
            V2Enemies::Leviathan => 4,
            V2Enemies::Gigapede => 5,
            V2Enemies::Squid3 => 6,
            V2Enemies::Andras => 7,
            V2Enemies::Spider2 => 8,
            V2Enemies::Empty => -1i32,
        }
    }

    open spec fn spec_from_tag(t: i32) -> Option<Self> {
        if t == 0 {
            Some(V2Enemies::Squid1)
        } else if t == 1 {
            Some(V2Enemies::Squid2)
        } else if t == 2 {
            Some(V2Enemies::Centipede)
        } else if t == 3 {
            Some(V2Enemies::Spider1)
        } else if t == 4 {
            Some(V2Enemies::Leviathan)
        } else if t == 5 {
            Some(V2Enemies::Gigapede)
        } else if t == 6 {
            Some(V2Enemies::Squid3)
        } else if t == 7 {
            Some(V2Enemies::Andras)
        } else if t == 8 {
            Some(V2Enemies::Spider2)
        } else if t == -1 {
            Some(V2Enemies::Empty)
        } else {
            None
        }
    }

    proof fn lemma_tag_of_from_tag(t: i32) {
    }

    fn tag(&self) -> (r: i32) {
        match self {
            V2Enemies::Squid1 => 0,
            V2Enemies::Squid2 => 1,
            V2Enemies::Centipede => 2,
            V2Enemies::Spider1 => 3,
            V2Enemies::Leviathan => 4,
            V2Enemies::Gigapede => 5,
            V2Enemies::Squid3 => 6,
            V2Enemies::Andras => 7,
            V2Enemies::Spider2 => 8,
            V2Enemies::Empty => -1i32,
        }
    }

    fn from_tag(t: i32) -> (r: Option<Self>) {
        match t {
            0 => Some(V2Enemies::Squid1),
            1 => Some(V2Enemies::Squid2),
            2 => Some(V2Enemies::Centipede),
            3 => Some(V2Enemies::Spider1),
            4 => Some(V2Enemies::Leviathan),
            5 => Some(V2Enemies::Gigapede),
            6 => Some(V2Enemies::Squid3),
            7 => Some(V2Enemies::Andras),
            8 => Some(V2Enemies::Spider2),
            -1 => Some(V2Enemies::Empty),
            _ => None,
        }
    }
}

impl EnemyKind for V1Enemies {
    open spec fn spec_tag(&self) -> i32 {
        match self {
            V1Enemies::Squid1 => 0,
            V1Enemies::Squid2 => 1,
            V1Enemies::Centipede => 2,
            V1Enemies::Spider1 => 3,
            V1Enemies::Leviathan => 4,
            V1Enemies::Gigapede => 5,
            V1Enemies::Empty => -1i32,
        }
    }

    open spec fn spec_from_tag(t: i32) -> Option<Self> {
        if t == 0 {
            Some(V1Enemies::Squid1)
        } else if t == 1 {
            Some(V1Enemies::Squid2)
        } else if t == 2 {
            Some(V1Enemies::Centipede)
        } else if t == 3 {
            Some(V1Enemies::Spider1)
        } else if t == 4 {
            Some(V1Enemies::Leviathan)
        } else if t == 5 {
            Some(V1Enemies::Gigapede)
        } else if t == -1 {
            Some(V1Enemies::Empty)
        } else {
            None
        }
    }

    proof fn lemma_tag_of_from_tag(t: i32) {
    }

    fn tag(&self) -> (r: i32) {
        match self {
            V1Enemies::Squid1 => 0,
            V1Enemies::Squid2 => 1,
            V1Enemies::Centipede => 2,
            V1Enemies::Spider1 => 3,
            V1Enemies::Leviathan => 4,
            V1Enemies::Gigapede => 5,
            V1Enemies::Empty => -1i32,
        }
    }

    fn from_tag(t: i32) -> (r: Option<Self>) {
        match t {
            0 => Some(V1Enemies::Squid1),
            1 => Some(V1Enemies::Squid2),
            2 => Some(V1Enemies::Centipede),
            3 => Some(V1Enemies::Spider1),
            4 => Some(V1Enemies::Leviathan),
            5 => Some(V1Enemies::Gigapede),
            -1 => Some(V1Enemies::Empty),
            _ => None,
        }
    }
}

impl Default for V3Enemies {
    fn default() -> (r: Self)
        ensures
            r == V3Enemies::Empty,
    {
        V3Enemies::Empty
    }
}

impl Default for V2Enemies {
    fn default() -> (r: Self)
        ensures
            r == V2Enemies::Empty,
    {
        V2Enemies::Empty
    }
}

impl Default for V1Enemies {
    fn default() -> (r: Self)
        ensures
            r == V1Enemies::Empty,
    {
        V1Enemies::Empty
    }
}

/// One row of the spawn table: an enemy, the delay before it (f32 bits) and
/// five words the game keeps there.
#[derive(Debug, Clone, Copy)]
pub struct Spawn<SpawnType> {
    pub enemy_type: SpawnType,
    pub delay: u32,
    pub _u1: u32,
    pub _u2: u32,
    pub _u3: u32,
    pub _u4: u32,
    pub _u5: u32,
}

/// The file header; radii, shrink rate and brightness are f32 bits.
#[derive(Debug, Clone, Copy, PartialEq, Eq, Structural)]
pub struct Header {
    pub spawn_version: i32,
    pub world_version: i32,
    pub shrink_end_radius: u32,
    pub shrink_start_radius: u32,
    pub shrink_rate: u32,
    pub brightness: u32,
    pub game_mode: i32,
    pub _u1: u32,
    pub _u2: u32,
}

/// The 51x51 tile heights (f32 bits), row by row.
#[derive(Debug, Clone)]
pub struct Arena {
    pub data: Vec<u32>,
}

#[derive(Debug, Clone, Copy, PartialEq, Eq, Structural)]
pub struct SpawnsHeader {
    pub _u1: u32,
    pub _u2: u32,
    pub _u3: u32,
    pub _u4: u32,
    pub devil_dagger_time: i32,
    pub gold_dagger_time: i32,
    pub silver_dagger_time: i32,
    pub bronze_dagger_time: i32,
    pub _u5: u32,
    pub spawn_count: i32,
}

/// Settings of version 5 and later; `timer_start` (f32 bits) from version 6.
#[derive(Debug, Clone, Copy, PartialEq, Eq, Structural)]
pub struct Settings {
    pub initial_hand: u8,
    pub additional_gems: i32,
    pub timer_start: Option<u32>,
}

#[derive(Debug, Clone)]
pub struct Spawnset<SpawnType> {
    pub header: Header,
    pub arena: Arena,
    pub spawns_header: SpawnsHeader,
    pub spawns: Vec<Spawn<SpawnType>>,
    pub settings: Option<Settings>,
}

/// Why a spawnset could not be read.
#[derive(Debug, Clone, Copy, PartialEq, Eq, Structural)]
pub enum SpawnsetError {
    /// The bytes end before the spawnset does.
    Truncated,
    /// The spawn count is negative.
    NegativeSpawnCount,
    /// A spawn names an enemy tag outside the taxonomy.
    UnknownEnemy,
}

// ---------------------------------------------------------------- the layout

pub open spec fn header_words(h: Header) -> Seq<u32> {
    seq![
        h.spawn_version as u32,
        h.world_version as u32,
        h.shrink_end_radius,
        h.shrink_start_radius,
        h.shrink_rate,
        h.brightness,
        h.game_mode as u32,
        h._u1,
        h._u2,
    ]
}

pub open spec fn header_from_words(w: Seq<u32>) -> Header {
    Header {
        spawn_version: w[0] as i32,
        world_version: w[1] as i32,
        shrink_end_radius: w[2],
        shrink_start_radius: w[3],
        shrink_rate: w[4],
        brightness: w[5],
        game_mode: w[6] as i32,
        _u1: w[7],
        _u2: w[8],
    }
}

pub open spec fn spawns_header_words(h: SpawnsHeader) -> Seq<u32> {
    seq![
        h._u1,
        h._u2,
        h._u3,
        h._u4,
        h.devil_dagger_time as u32,
        h.gold_dagger_time as u32,
        h.silver_dagger_time as u32,
        h.bronze_dagger_time as u32,
        h._u5,
        h.spawn_count as u32,
    ]
}

pub open spec fn spawns_header_from_words(w: Seq<u32>) -> SpawnsHeader {
    SpawnsHeader {
        _u1: w[0],
        _u2: w[1],
        _u3: w[2],
        _u4: w[3],
        devil_dagger_time: w[4] as i32,
        gold_dagger_time: w[5] as i32,
        silver_dagger_time: w[6] as i32,
        bronze_dagger_time: w[7] as i32,
        _u5: w[8],
        spawn_count: w[9] as i32,
    }
}

pub open spec fn spawn_words<E: EnemyKind>(s: Spawn<E>) -> Seq<u32> {
    seq![s.enemy_type.spec_tag() as u32, s.delay, s._u1, s._u2, s._u3, s._u4, s._u5]
}

pub open spec fn spawn_from_words<E: EnemyKind>(w: Seq<u32>) -> Spawn<E> {
    Spawn {
        enemy_type: E::spec_from_tag(w[0] as i32)->Some_0,
        delay: w[1],
        _u1: w[2],
        _u2: w[3],
        _u3: w[4],
        _u4: w[5],
        _u5: w[6],
    }
}

/// The words of a spawn table, spawn after spawn.
pub open spec fn spawns_words<E: EnemyKind>(s: Seq<Spawn<E>>) -> Seq<u32>
    decreases s.len(),
{
    if s.len() == 0 {
        Seq::empty()
    } else {
        spawns_words(s.drop_last()) + spawn_words(s.last())
    }
}

/// Bytes of the settings block for a spawn version.
pub open spec fn settings_len(version: i32) -> int {
    if version >= 6 {
        9
    } else if version >= 5 {
        5
    } else {
        0
    }
}

pub open spec fn settings_bytes(version: i32, settings: Option<Settings>) -> Seq<u8> {
    match settings {
        None => Seq::empty(),
        Some(st) => (if version >= 5 {
            seq![st.initial_hand] + le32(st.additional_gems as u32)
        } else {
            Seq::empty()
        }) + (match st.timer_start {
            Some(t) => if version >= 6 {
                le32(t)
            } else {
                Seq::empty()
            },
            None => Seq::empty(),
        }),
    }
}

/// The bytes a spawnset is written as.
pub open spec fn spawnset_bytes<E: EnemyKind>(s: Spawnset<E>) -> Seq<u8> {
    words_bytes(
        header_words(s.header) + s.arena.data@ + spawns_header_words(s.spawns_header)
            + spawns_words(s.spawns@),
    ) + settings_bytes(s.header.spawn_version, s.settings)
}

/// The spawn count field of spawnset bytes.
pub open spec fn spawn_count_of(b: Seq<u8>) -> int {
    le_i32(b, SPAWN_COUNT_OFFSET as int) as int
}

/// Offset of the settings block of spawnset bytes.
pub open spec fn settings_offset(b: Seq<u8>) -> int {
    SPAWNS_OFFSET + SPAWN_SIZE * spawn_count_of(b)
}

/// Length of the spawnset at the front of `b`.
pub open spec fn spawnset_len(b: Seq<u8>) -> int {
    settings_offset(b) + settings_len(le_i32(b, 0))
}

/// `b` starts with a spawnset that the taxonomy `E` can read.
pub open spec fn spawnset_valid<E: EnemyKind>(b: Seq<u8>) -> bool {
    &&& b.len() >= SPAWNS_OFFSET
    &&& spawn_count_of(b) >= 0
    &&& spawnset_len(b) <= b.len()
    &&& forall|i: int|
        0 <= i < spawn_count_of(b) ==> (#[trigger] E::spec_from_tag(
            le_i32(b, SPAWNS_OFFSET + SPAWN_SIZE * i),
        )) is Some
}

pub open spec fn settings_at(b: Seq<u8>, version: i32, p: int) -> Option<Settings> {
    if version >= 5 {
        Some(
            Settings {
                initial_hand: b[p],
                additional_gems: le_i32(b, p + 1),
                timer_start: if version >= 6 {
                    Some(le_u32(b, p + 5))
                } else {
                    None
                },
            },
        )
    } else {
        None
    }
}

/// `s` is the spawnset that the front of `b` holds.
pub open spec fn spawnset_decodes_to<E: EnemyKind>(b: Seq<u8>, s: Spawnset<E>) -> bool {
    &&& s.header == header_from_words(words_at(b, 0, HEADER_WORDS as nat))
    &&& s.arena.data@ == words_at(b, ARENA_OFFSET as int, ARENA_WORDS as nat)
    &&& s.spawns_header == spawns_header_from_words(
        words_at(b, SPAWNS_HEADER_OFFSET as int, SPAWNS_HEADER_WORDS as nat),
    )
    &&& s.spawns@.len() == spawn_count_of(b)
    &&& forall|i: int|
        0 <= i < s.spawns@.len() ==> #[trigger] s.spawns@[i] == spawn_from_words::<E>(
            words_at(b, SPAWNS_OFFSET + SPAWN_SIZE * i, SPAWN_WORDS as nat),
        )
    &&& s.settings == settings_at(b, s.header.spawn_version, settings_offset(b))
}


// ---------------------------------------------------------------- defaults

impl<T: EnemyKind + Default> Default for Spawn<T> {
    fn default() -> (r: Self)
        ensures
            r.delay == 0 && r._u1 == 0 && r._u2 == 3 && r._u3 == 0 && r._u4 == 1106247680 && r._u5
                == 10,
    {
        Spawn {
            enemy_type: T::default(),
            delay: 0,
            _u1: 0,
            _u2: 3,
            _u3: 0,
            _u4: 1106247680,
            _u5: 10,
        }
    }
}

impl Default for Header {
    /// Version 6 / world 9, shrinking from radius 50 to 20 at 0.025 per
    /// second, brightness 60.
    fn default() -> (r: Self)
        ensures
            r == (Header {
                spawn_version: 6,
                world_version: 9,
                shrink_end_radius: 0x41A00000,
                shrink_start_radius: 0x42480000,
                shrink_rate: 0x3CCCCCCD,
                brightness: 0x42700000,
                game_mode: 0,
                _u1: 51,
                _u2: 1,
            }),
    {
        Header {
            spawn_version: 6,
            world_version: 9,
            shrink_end_radius: 0x41A00000,
            shrink_start_radius: 0x42480000,
            shrink_rate: 0x3CCCCCCD,
            brightness: 0x42700000,
            game_mode: 0,
            _u1: 51,
            _u2: 1,
        }
    }
}

/// Bits of the f32 tile height -1000.0, a tile that is not there.
pub const VOID_TILE: u32 = 0xC47A0000;

impl Default for Arena {
    /// Every tile at -1000.0.
    fn default() -> (r: Self)
        ensures
            r.data@ == Seq::new(ARENA_WORDS as nat, |i: int| VOID_TILE),
    {
        let mut data: Vec<u32> = Vec::with_capacity(ARENA_WORDS);
        let mut i: usize = 0;
        while i < ARENA_WORDS
            invariant
                i <= ARENA_WORDS,
                data@ =~= Seq::new(i as nat, |j: int| VOID_TILE),
            decreases ARENA_WORDS - i,
        {
            data.push(VOID_TILE);
            i = i + 1;
        }
        Arena { data }
    }
}

impl Arena {
    pub open spec fn wf(&self) -> bool {
        self.data@.len() == ARENA_WORDS
    }

    /// The tile at column `x`, row `y` (f32 bits).
    pub fn get_tile(&self, x: u16, y: u16) -> (r: &u32)
        requires
            self.wf(),
            (y as int) * 51 + (x as int) < ARENA_WORDS,
        ensures
            *r == self.data@[(y as int) * 51 + (x as int)],
    {
        &self.data[y as usize * 51 + x as usize]
    }

    /// Sets the tile at column `x`, row `y` (f32 bits).
    pub fn set_tile(&mut self, x: u16, y: u16, v: u32)
        requires
            old(self).wf(),
            (y as int) * 51 + (x as int) < ARENA_WORDS,
        ensures
            final(self).data@ == old(self).data@.update((y as int) * 51 + (x as int), v),
    {
        let i = y as usize * 51 + x as usize;
        self.data.set(i, v);
    }
}

impl Default for SpawnsHeader {
    fn default() -> (r: Self)
        ensures
            r == (SpawnsHeader {
                devil_dagger_time: 500,
                gold_dagger_time: 250,
                silver_dagger_time: 120,
                bronze_dagger_time: 60,
                spawn_count: 0,
                _u1: 0,
                _u2: 0,
                _u3: 0,
                _u4: 1,
                _u5: 0,
            }),
    {
        SpawnsHeader {
            devil_dagger_time: 500,
            gold_dagger_time: 250,
            silver_dagger_time: 120,
            bronze_dagger_time: 60,
            spawn_count: 0,
            _u1: 0,
            _u2: 0,
            _u3: 0,
            _u4: 1,
            _u5: 0,
        }
    }
}

impl Default for Settings {
    /// Hand 0, no extra gems, timer starting at 0.0.
    fn default() -> (r: Self)
        ensures
            r == (Settings { additional_gems: 0, initial_hand: 0, timer_start: Some(0u32) }),
    {
        Settings { additional_gems: 0, initial_hand: 0, timer_start: Some(0) }
    }
}

// ---------------------------------------------------------------- the codec

proof fn lemma_settings_round_trip(b: Seq<u8>, version: i32, p: int)
    requires
        0 <= p,
        p + settings_len(version) <= b.len(),
    ensures
        settings_bytes(version, settings_at(b, version, p)) == b.subrange(
            p,
            p + settings_len(version),
        ),
{
    lemma_auto_spec_u32_to_from_le_bytes();
    if version >= 5 {
        lemma_i32_u32(le_u32(b, p + 1));
        assert(le32(le_i32(b, p + 1) as u32) == b.subrange(p + 1, p + 5));
        if version >= 6 {
            assert(le32(le_u32(b, p + 5)) == b.subrange(p + 5, p + 9));
            assert(seq![b[p]] + b.subrange(p + 1, p + 5) + b.subrange(p + 5, p + 9)
                =~= b.subrange(p, p + 9));
        } else {
            assert(seq![b[p]] + b.subrange(p + 1, p + 5) + Seq::<u8>::empty() =~= b.subrange(
                p,
                p + 5,
            ));
        }
    } else {
        assert(b.subrange(p, p) =~= Seq::<u8>::empty());
    }
}

proof fn lemma_spawns_round_trip<E: EnemyKind>(b: Seq<u8>, s: Seq<Spawn<E>>, n: int)
    requires
        0 <= n <= s.len(),
        fits(b, SPAWNS_OFFSET as int, SPAWN_SIZE * s.len()),
        forall|i: int|
            0 <= i < s.len() ==> #[trigger] s[i] == spawn_from_words::<E>(
                words_at(b, SPAWNS_OFFSET + SPAWN_SIZE * i, SPAWN_WORDS as nat),
            ),
        forall|i: int|
            0 <= i < s.len() ==> (#[trigger] E::spec_from_tag(
                le_i32(b, SPAWNS_OFFSET + SPAWN_SIZE * i),
            )) is Some,
    ensures
        spawns_words(s.subrange(0, n)) == words_at(
            b,
            SPAWNS_OFFSET as int,
            (SPAWN_WORDS * n) as nat,
        ),
    decreases n,
{
    if n == 0 {
        assert(spawns_words(s.subrange(0, n)) =~= words_at(b, SPAWNS_OFFSET as int, 0));
    } else {
        lemma_spawns_round_trip(b, s, n - 1);
        assert(s.subrange(0, n).drop_last() =~= s.subrange(0, n - 1));
        let i = n - 1;
        let p = SPAWNS_OFFSET + SPAWN_SIZE * i;
        let t = le_i32(b, p);
        assert(E::spec_from_tag(t) is Some);
        E::lemma_tag_of_from_tag(t);
        lemma_i32_u32(le_u32(b, p));
        let w = words_at(b, p, SPAWN_WORDS as nat);
        assert(spawn_words(s[i]) =~= w);
        assert(words_at(b, SPAWNS_OFFSET as int, (SPAWN_WORDS * (n - 1)) as nat) + w =~= words_at(
            b,
            SPAWNS_OFFSET as int,
            (SPAWN_WORDS * n) as nat,
        ));
    }
}

/// Writing out a spawnset read from `b` gives back `b`, when `b` holds
/// exactly one spawnset.
pub proof fn lemma_spawnset_round_trip<E: EnemyKind>(b: Seq<u8>, s: Spawnset<E>)
    requires
        spawnset_valid::<E>(b),
        b.len() == spawnset_len(b),
        spawnset_decodes_to(b, s),
    ensures
        spawnset_bytes(s) == b,
{
    let n = spawn_count_of(b);
    let hw = words_at(b, 0, HEADER_WORDS as nat);
    let shw = words_at(b, SPAWNS_HEADER_OFFSET as int, SPAWNS_HEADER_WORDS as nat);
    lemma_i32_u32(hw[0]);
    lemma_i32_u32(hw[1]);
    lemma_i32_u32(hw[6]);
    assert(header_words(s.header) =~= hw);
    lemma_i32_u32(shw[4]);
    lemma_i32_u32(shw[5]);
    lemma_i32_u32(shw[6]);
    lemma_i32_u32(shw[7]);
    lemma_i32_u32(shw[9]);
    assert(spawns_header_words(s.spawns_header) =~= shw);
    lemma_spawns_round_trip(b, s.spawns@, n);
    assert(s.spawns@.subrange(0, n) =~= s.spawns@);
    let total = (HEADER_WORDS + ARENA_WORDS + SPAWNS_HEADER_WORDS + SPAWN_WORDS * n) as nat;
    assert(hw + s.arena.data@ + shw + words_at(b, SPAWNS_OFFSET as int, (SPAWN_WORDS * n) as nat)
        =~= words_at(b, 0, total));
    lemma_words_at_bytes(b, 0, total);
    let p = settings_offset(b);
    lemma_settings_round_trip(b, s.header.spawn_version, p);
    assert(b.subrange(0, p) + b.subrange(p, b.len() as int) =~= b);
}

impl<SpawnType: EnemyKind> Spawnset<SpawnType> {
    /// Reads the spawnset at the front of `b`; bytes after it are ignored.
    pub fn deserialize(b: &[u8]) -> (r: Result<Self, SpawnsetError>)
        ensures
            r is Ok <==> spawnset_valid::<SpawnType>(b@),
            r matches Ok(s) ==> spawnset_decodes_to(b@, s),
            r == Err::<Self, SpawnsetError>(SpawnsetError::Truncated) <==> (b@.len() < SPAWNS_OFFSET
                || (spawn_count_of(b@) >= 0 && spawnset_len(b@) > b@.len())),
            r == Err::<Self, SpawnsetError>(SpawnsetError::NegativeSpawnCount) <==> (b@.len()
                >= SPAWNS_OFFSET && spawn_count_of(b@) < 0),
    {
        let len = b.len();
        if len < SPAWNS_OFFSET {
            return Err(SpawnsetError::Truncated);
        }
        let hw = read_words(b, 0, HEADER_WORDS);
        let header = Header {
            spawn_version: hw[0] as i32,
            world_version: hw[1] as i32,
            shrink_end_radius: hw[2],
            shrink_start_radius: hw[3],
            shrink_rate: hw[4],
            brightness: hw[5],
            game_mode: hw[6] as i32,
            _u1: hw[7],
            _u2: hw[8],
        };
        assert(header == header_from_words(words_at(b@, 0, HEADER_WORDS as nat)));
        let data = read_words(b, ARENA_OFFSET, ARENA_WORDS);
        let shw = read_words(b, SPAWNS_HEADER_OFFSET, SPAWNS_HEADER_WORDS);
        let spawns_header = SpawnsHeader {
            _u1: shw[0],
            _u2: shw[1],
            _u3: shw[2],
            _u4: shw[3],
            devil_dagger_time: shw[4] as i32,
            gold_dagger_time: shw[5] as i32,
            silver_dagger_time: shw[6] as i32,
            bronze_dagger_time: shw[7] as i32,
            _u5: shw[8],
            spawn_count: shw[9] as i32,
        };
        assert(spawns_header == spawns_header_from_words(
            words_at(b@, SPAWNS_HEADER_OFFSET as int, SPAWNS_HEADER_WORDS as nat),
        ));
        let count = spawns_header.spawn_count;
        assert(count == spawn_count_of(b@));
        if count < 0 {
            return Err(SpawnsetError::NegativeSpawnCount);
        }
        let count = count as usize;
        let version = header.spawn_version;
        assert(version == le_i32(b@, 0));
        let settings_n: usize = if version >= 6 {
            9
        } else if version >= 5 {
            5
        } else {
            0
        };
        let avail = len - SPAWNS_OFFSET;
        if avail < settings_n || (avail - settings_n) / SPAWN_SIZE < count {
            proof {
                if avail >= settings_n {
                    assert(SPAWN_SIZE * count > avail - settings_n) by (nonlinear_arith)
                        requires
                            (avail - settings_n) / 28 < count,
                            avail >= settings_n,
                    ;
                }
            }
            return Err(SpawnsetError::Truncated);
        }
        assert(SPAWN_SIZE * count <= avail - settings_n) by (nonlinear_arith)
            requires
                (avail - settings_n) / 28 >= count,
                avail >= settings_n,
        ;
        let mut spawns: Vec<Spawn<SpawnType>> = Vec::with_capacity(count);
        let mut i: usize = 0;
        while i < count
            invariant
                len == b@.len(),
                count == spawn_count_of(b@),
                SPAWNS_OFFSET + SPAWN_SIZE * count + settings_n <= len,
                settings_n == settings_len(le_i32(b@, 0)),
                i <= count,
                spawns@.len() == i,
                forall|j: int|
                    0 <= j < i ==> #[trigger] spawns@[j] == spawn_from_words::<SpawnType>(
                        words_at(b@, SPAWNS_OFFSET + SPAWN_SIZE * j, SPAWN_WORDS as nat),
                    ),
                forall|j: int|
                    0 <= j < i ==> (#[trigger] SpawnType::spec_from_tag(
                        le_i32(b@, SPAWNS_OFFSET + SPAWN_SIZE * j),
                    )) is Some,
            decreases count - i,
        {
            let p = SPAWNS_OFFSET + SPAWN_SIZE * i;
            let w = read_words(b, p, SPAWN_WORDS);
            assert(w[0] as i32 == le_i32(b@, p as int));
            match SpawnType::from_tag(w[0] as i32) {
                None => {
                    return Err(SpawnsetError::UnknownEnemy);
                },
                Some(e) => {
                    spawns.push(
                        Spawn {
                            enemy_type: e,
                            delay: w[1],
                            _u1: w[2],
                            _u2: w[3],
                            _u3: w[4],
                            _u4: w[5],
                            _u5: w[6],
                        },
                    );
                },
            }
            i = i + 1;
        }
        let p = SPAWNS_OFFSET + SPAWN_SIZE * count;
        let settings = if version >= 5 {
            let initial_hand = get_u8(b, p);
            let additional_gems = get_i32(b, p + 1);
            let timer_start = if version >= 6 {
                Some(get_u32(b, p + 5))
            } else {
                None
            };
            Some(Settings { initial_hand, additional_gems, timer_start })
        } else {
            None
        };
        Ok(Spawnset { header, arena: Arena { data }, spawns_header, spawns, settings })
    }

    /// The bytes of this spawnset: header, arena, spawns header, spawns, and
    /// the settings fields that its spawn version has.
    pub fn serialize(&self) -> (r: Vec<u8>)
        ensures
            r@ == spawnset_bytes(*self),
    {
        let h = &self.header;
        let mut words: Vec<u32> = Vec::new();
        words.push(h.spawn_version as u32);
        words.push(h.world_version as u32);
        words.push(h.shrink_end_radius);
        words.push(h.shrink_start_radius);
        words.push(h.shrink_rate);
        words.push(h.brightness);
        words.push(h.game_mode as u32);
        words.push(h._u1);
        words.push(h._u2);
        assert(words@ =~= header_words(self.header));
        let mut i: usize = 0;
        while i < self.arena.data.len()
            invariant
                i <= self.arena.data@.len(),
                words@ =~= header_words(self.header) + self.arena.data@.subrange(0, i as int),
            decreases self.arena.data@.len() - i,
        {
            words.push(self.arena.data[i]);
            i = i + 1;
        }
        assert(self.arena.data@.subrange(0, self.arena.data@.len() as int) =~= self.arena.data@);
        let sh = &self.spawns_header;
        words.push(sh._u1);
        words.push(sh._u2);
        words.push(sh._u3);
        words.push(sh._u4);
        words.push(sh.devil_dagger_time as u32);
        words.push(sh.gold_dagger_time as u32);
        words.push(sh.silver_dagger_time as u32);
        words.push(sh.bronze_dagger_time as u32);
        words.push(sh._u5);
        words.push(sh.spawn_count as u32);
        let ghost prefix = header_words(self.header) + self.arena.data@ + spawns_header_words(
            self.spawns_header,
        );
        assert(words@ =~= prefix);
        let mut k: usize = 0;
        while k < self.spawns.len()
            invariant
                k <= self.spawns@.len(),
                words@ =~= prefix + spawns_words(self.spawns@.subrange(0, k as int)),
            decreases self.spawns@.len() - k,
        {
            let sp = &self.spawns[k];
            words.push(sp.enemy_type.tag() as u32);
            words.push(sp.delay);
            words.push(sp._u1);
            words.push(sp._u2);
            words.push(sp._u3);
            words.push(sp._u4);
            words.push(sp._u5);
            assert(self.spawns@.subrange(0, k + 1).drop_last() =~= self.spawns@.subrange(
                0,
                k as int,
            ));
            k = k + 1;
        }
        assert(self.spawns@.subrange(0, self.spawns@.len() as int) =~= self.spawns@);
        let mut out: Vec<u8> = Vec::new();
        push_words(&mut out, words.as_slice());
        assert(out@ =~= words_bytes(words@));
        if let Some(settings) = &self.settings {
            if self.header.spawn_version >= 5 {
                out.push(settings.initial_hand);
                push_u32(&mut out, settings.additional_gems as u32);
            }
            if let Some(timer_start) = settings.timer_start {
                if self.header.spawn_version >= 6 {
                    push_u32(&mut out, timer_start);
                }
            }
        }
        assert(out@ =~= spawnset_bytes(*self));
        out
    }

    /// Sets the spawn count to the number of spawns (as an `i32`).
    pub fn recalculate_spawn_count(&mut self)
        ensures
            old(self).spawns@.len() <= i32::MAX ==> final(self).spawns_header.spawn_count
                == old(self).spawns@.len(),
            final(self).spawns@ == old(self).spawns@,
            final(self).header == old(self).header,
            final(self).arena == old(self).arena,
            final(self).settings == old(self).settings,
            final(self).spawns_header == (SpawnsHeader {
                spawn_count: #[verifier::truncate] (old(self).spawns@.len() as i32),
                ..old(self).spawns_header
            }),
    {
        self.spawns_header.spawn_count = #[verifier::truncate] (self.spawns.len() as i32);
    }
}

} // verus!
