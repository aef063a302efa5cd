//! Replay files: the `ddrpl.` envelope, the `DF_RPL2` envelope, and the event
//! stream they carry. Floating-point fields are kept as their f32 bit patterns.

use crate::models::spawnset::{Settings, Spawnset, SpawnsetError, V3Enemies};
use crate::utils::{hex_string, md5_to_string_lower, string_from_utf8};
use crate::codec::{fits, get_i16, get_i32, get_u16, get_u32, get_u64, get_u8, le_i16, le_i32,
    le_u16, le_u32, le_u64};
use vstd::prelude::*;
use vstd::slice::*;
use vstd::utf8::*;

verus! {

pub type EntityId = i32;

pub type PositionInt = [i16; 3];

/// Three f32 values, as bits.
pub type PositionFloat = [u32; 3];

pub type LeviathanData = i32;

#[derive(Debug, Clone, Copy, PartialEq, Eq, Structural)]
pub enum EntityType {
    Dagger,
    Squid1,
    Squid2,
    Squid3,
    /// Skulls and spiderlings.
    Boid,
    Centipede,
    Spider1,
    Spider2,
    Egg,
    Leviathan,
    Gigapede,
    Thorn,
    Ghostpede,
}

#[derive(Debug, Clone, Copy, PartialEq, Eq, Structural)]
pub enum BoidType {
    Skull1,
    Skull2,
    Skull3,
    Skull4,
    Spiderling,
}

#[derive(Debug, Clone, Copy, PartialEq, Eq, Structural)]
pub enum DaggerLevel {
    Level0,
    Level1,
    Level2,
    Level3,
    Level4,
    Level5,
    Level6,
    Level7,
}

#[derive(Debug, Clone, Copy, PartialEq, Eq, Structural)]
pub enum JumpButtonState {
    NotPressed,
    Held,
    JustPressed,
}

#[derive(Debug, Clone, Copy, PartialEq, Eq, Structural)]
pub enum MouseButtonState {
    NotPressed,
    Held,
    Released,
}

#[derive(Debug, Clone, Copy, PartialEq, Eq, Structural)]
pub struct Entity {
    pub id: EntityId,
    pub entity_type: EntityType,
}

#[derive(Debug, Clone, Copy)]
pub struct ThornData {
    pub a: i32,
    pub position: PositionFloat,
    pub rotation: u32,
}

#[derive(Debug, Clone, Copy)]
pub struct EggData {
    pub spider_spawner: EntityId,
    pub funny1: [u32; 3],
    pub funny2: [u32; 3],
}

#[derive(Debug, Clone, Copy)]
pub struct SpiderData {
    pub a: i32,
    pub position: PositionFloat,
}

#[derive(Debug, Clone, Copy)]
pub struct PedeData {
    pub a: i32,
    pub position: PositionFloat,
    pub b: [u32; 3],
    pub funny1: [u32; 3],
    pub funny2: [u32; 3],
    pub funny3: [u32; 3],
}

#[derive(Debug, Clone, Copy)]
pub struct BoidData {
    pub boid_type: BoidType,
    pub spanwer: EntityId,
    pub position: PositionInt,
    pub funny1: [i16; 3],
    pub funny2: [i16; 3],
    pub funny3: [i16; 3],
    pub funny4: [u32; 3],
    pub speed: u32,
}

#[derive(Debug, Clone, Copy)]
pub struct DaggerData {
    pub a: i32,
    pub position: PositionInt,
    pub orientationa: [i16; 3],
    pub orientationb: [i16; 3],
    pub orientationc: [i16; 3],
    pub b: u8,
    pub dagger_level: DaggerLevel,
}

#[derive(Debug, Clone, Copy)]
pub struct SquidData {
    pub a: i32,
    pub position: PositionFloat,
    pub b: [u32; 3],
    /// Radians, as f32 bits.
    pub rotation: u32,
}

#[derive(Debug, Clone, Copy)]
pub enum EntityData {
    Dagger(DaggerData),
    Squid1(SquidData),
    Squid2(SquidData),
    Squid3(SquidData),
    Boid(BoidData),
    Centipede(PedeData),
    Spider1(SpiderData),
    Spider2(SpiderData),
    Egg(EggData),
    Leviathan(LeviathanData),
    Gigapede(PedeData),
    Thorn(ThornData),
    Ghostpede(PedeData),
}

#[derive(Debug, Clone, Copy)]
pub struct UpdateOrientationData {
    pub a: [i16; 3],
    pub b: [i16; 3],
    pub c: [i16; 3],
}

#[derive(Debug, Clone, Copy, PartialEq, Eq, Structural)]
pub struct DaggerDespawnData {
    pub dagger_id: i32,
}

#[derive(Debug, Clone, Copy, PartialEq, Eq, Structural)]
pub struct PlayerDeathData {
    pub death_type: i32,
}

#[derive(Debug, Clone, Copy, PartialEq, Eq, Structural)]
pub struct EnemyHitData {
    pub enemy_id: i32,
    pub dagger_id: i32,
    pub segment: i32,
}

#[derive(Debug, Clone, Copy)]
pub struct TransmuteData {
    pub a: [i16; 3],
    pub b: [i16; 3],
    pub c: [i16; 3],
    pub d: [i16; 3],
}

#[derive(Debug, Clone, Copy, PartialEq, Eq, Structural)]
pub struct ButtonData {
    pub left: bool,
    pub right: bool,
    pub forward: bool,
    pub backwards: bool,
    pub jump: JumpButtonState,
    pub shoot: MouseButtonState,
    pub homing: MouseButtonState,
}

#[derive(Debug, Clone, Copy, PartialEq, Eq, Structural)]
pub struct MouseData {
    pub x: i16,
    pub y: i16,
    /// On the first frame only: the recorded mouse sensitivity as f32 bits.
    /// The look speed is 500/3 times that value.
    pub look_speed: Option<u32>,
}

#[derive(Debug, Clone, Copy)]
pub enum ReplayEvent {
    Spawn(EntityData),
    UpdateEntityPosition(EntityId, PositionInt),
    UpdateEntityOrientation(EntityId, UpdateOrientationData),
    UpdateEntityTarget(EntityId, [i16; 3]),
    DaggerDewspawn(DaggerDespawnData),
    EnemyHitWeakSpot(EnemyHitData),
    EnemyHitArmor(EnemyHitData),
    PlayerDeath(PlayerDeathData),
    GemPickup,
    Transmute(EntityId, TransmuteData),
    EndFrame(ButtonData, MouseData),
    EndReplay,
}

/// The events of one game tick; the last one ends the frame.
#[derive(Debug, Clone)]
pub struct ReplayFrame {
    pub events: Vec<ReplayEvent>,
}

#[derive(Debug, Clone)]
pub struct ReplayData {
    pub frames: Vec<ReplayFrame>,
    pub entities: Vec<Entity>,
}

/// Why a replay could not be read.
#[derive(Debug, Clone, Copy, PartialEq, Eq, Structural)]
pub enum ReplayError {
    /// The bytes end inside a field.
    Truncated,
    /// A spawn names an entity kind that does not exist.
    UnknownEntity(u8),
    /// A dagger spawn names a level that does not exist.
    UnknownDaggerLevel(u8),
    /// A boid spawn names a kind that does not exist.
    UnknownBoidType(u8),
    /// The byte after a frame's input is present and is not `0x0A`.
    BadFrameTerminator(u8),
    /// More entities than an `i32` id can number.
    TooManyEntities,
    /// The compressed event stream is not valid zlib.
    Decompression,
    /// A player name is not valid UTF-8.
    InvalidUtf8,
    /// The compressed section is longer than the format allows.
    OversizedPayload(u32),
    /// The byte count after the compressed section is not exactly one.
    BadTerminator,
    /// There is no compressed event stream left to decode.
    NoCompressedData,
    /// The embedded spawnset could not be read.
    Spawnset(SpawnsetError),
}

// ---------------------------------------------------------------- tags

pub open spec fn entity_type_of(t: u8) -> Option<EntityType> {
    if t == 0x1 {
        Some(EntityType::Dagger)
    } else if t == 0x3 {
        Some(EntityType::Squid1)
    } else if t == 0x4 {
        Some(EntityType::Squid2)
    } else if t == 0x5 {
        Some(EntityType::Squid3)
    } else if t == 0x6 {
        Some(EntityType::Boid)
    } else if t == 0x7 {
        Some(EntityType::Centipede)
    } else if t == 0x8 {
        Some(EntityType::Spider1)
    } else if t == 0x9 {
        Some(EntityType::Spider2)
    } else if t == 0xA {
        Some(EntityType::Egg)
    } else if t == 0xB {
        Some(EntityType::Leviathan)
    } else if t == 0xC {
        Some(EntityType::Gigapede)
    } else if t == 0xD {
        Some(EntityType::Thorn)
    } else if t == 0xF {
        Some(EntityType::Ghostpede)
    } else {
        None
    }
}

fn read_entity_type(t: u8) -> (r: Option<EntityType>)
    ensures
        r == entity_type_of(t),
{
    match t {
        0x1 => Some(EntityType::Dagger),
        0x3 => Some(EntityType::Squid1),
        0x4 => Some(EntityType::Squid2),
        0x5 => Some(EntityType::Squid3),
        0x6 => Some(EntityType::Boid),
        0x7 => Some(EntityType::Centipede),
        0x8 => Some(EntityType::Spider1),
        0x9 => Some(EntityType::Spider2),
        0xA => Some(EntityType::Egg),
        0xB => Some(EntityType::Leviathan),
        0xC => Some(EntityType::Gigapede),
        0xD => Some(EntityType::Thorn),
        0xF => Some(EntityType::Ghostpede),
        _ => None,
    }
}

pub open spec fn boid_type_of(t: u8) -> Option<BoidType> {
    if t == 1 {
        Some(BoidType::Skull1)
    } else if t == 2 {
        Some(BoidType::Skull2)
    } else if t == 3 {
        Some(BoidType::Skull3)
    } else if t == 4 {
        Some(BoidType::Spiderling)
    } else if t == 5 {
        Some(BoidType::Skull4)
    } else {
        None
    }
}

fn read_boid_type(t: u8) -> (r: Option<BoidType>)
    ensures
        r == boid_type_of(t),
{
    match t {
        1 => Some(BoidType::Skull1),
        2 => Some(BoidType::Skull2),
        3 => Some(BoidType::Skull3),
        4 => Some(BoidType::Spiderling),
        5 => Some(BoidType::Skull4),
        _ => None,
    }
}

pub open spec fn dagger_level_of(t: u8) -> Option<DaggerLevel> {
    if t == 0 {
        Some(DaggerLevel::Level0)
    } else if t == 1 {
        Some(DaggerLevel::Level1)
    } else if t == 2 {
        Some(DaggerLevel::Level2)
    } else if t == 3 {
        Some(DaggerLevel::Level3)
    } else if t == 4 {
        Some(DaggerLevel::Level4)
    } else if t == 5 {
        Some(DaggerLevel::Level5)
    } else if t == 6 {
        Some(DaggerLevel::Level6)
    } else if t == 7 {
        Some(DaggerLevel::Level7)
    } else {
        None
    }
}

fn read_dagger_level(t: u8) -> (r: Option<DaggerLevel>)
    ensures
        r == dagger_level_of(t),
{
    match t {
        0 => Some(DaggerLevel::Level0),
        1 => Some(DaggerLevel::Level1),
        2 => Some(DaggerLevel::Level2),
        3 => Some(DaggerLevel::Level3),
        4 => Some(DaggerLevel::Level4),
        5 => Some(DaggerLevel::Level5),
        6 => Some(DaggerLevel::Level6),
        7 => Some(DaggerLevel::Level7),
        _ => None,
    }
}

/// Jump state byte: 0 not pressed, 2 just pressed, anything else held.
pub open spec fn jump_of(v: u8) -> JumpButtonState {
    if v == 0 {
        JumpButtonState::NotPressed
    } else if v == 2 {
        JumpButtonState::JustPressed
    } else {
        JumpButtonState::Held
    }
}

fn read_jump(v: u8) -> (r: JumpButtonState)
    ensures
        r == jump_of(v),
{
    match v {
        0 => JumpButtonState::NotPressed,
        2 => JumpButtonState::JustPressed,
        _ => JumpButtonState::Held,
    }
}

/// Mouse button byte: 0 not pressed, 2 released, anything else held.
pub open spec fn mouse_btn_of(v: u8) -> MouseButtonState {
    if v == 0 {
        MouseButtonState::NotPressed
    } else if v == 2 {
        MouseButtonState::Released
    } else {
        MouseButtonState::Held
    }
}

fn read_mouse_btn(v: u8) -> (r: MouseButtonState)
    ensures
        r == mouse_btn_of(v),
{
    match v {
        0 => MouseButtonState::NotPressed,
        2 => MouseButtonState::Released,
        _ => MouseButtonState::Held,
    }
}

/// What the polymorphic hit triple `(a, b, c)` of opcode 0x5 stands for.
pub open spec fn hit_event(a: i32, b: i32, c: i32) -> ReplayEvent {
    if a == 0 {
        ReplayEvent::PlayerDeath(PlayerDeathData { death_type: b })
    } else if b == 0 && c == 0 {
        ReplayEvent::DaggerDewspawn(DaggerDespawnData { dagger_id: a })
    } else if a < 0 {
        ReplayEvent::EnemyHitArmor(
            EnemyHitData {
                enemy_id: if a == i32::MIN { a } else { (-a) as i32 },
                dagger_id: b,
                segment: c,
            },
        )
    } else {
        ReplayEvent::EnemyHitWeakSpot(EnemyHitData { enemy_id: a, dagger_id: b, segment: c })
    }
}

/// Classifies the hit triple of opcode 0x5 by its zero and sign pattern.
pub fn classify_hit(a: i32, b: i32, c: i32) -> (r: ReplayEvent)
    ensures
        r == hit_event(a, b, c),
{
    if a == 0 {
        ReplayEvent::PlayerDeath(PlayerDeathData { death_type: b })
    } else if b == 0 && c == 0 {
        ReplayEvent::DaggerDewspawn(DaggerDespawnData { dagger_id: a })
    } else if a < 0 {
        let enemy_id = if a == i32::MIN {
            a
        } else {
            -a
        };
        ReplayEvent::EnemyHitArmor(EnemyHitData { enemy_id, dagger_id: b, segment: c })
    } else {
        ReplayEvent::EnemyHitWeakSpot(EnemyHitData { enemy_id: a, dagger_id: b, segment: c })
    }
}

// ---------------------------------------------------------------- field groups

pub open spec fn i16x3_at(b: Seq<u8>, p: int) -> [i16; 3] {
    [le_i16(b, p), le_i16(b, p + 2), le_i16(b, p + 4)]
}

pub open spec fn u32x3_at(b: Seq<u8>, p: int) -> [u32; 3] {
    [le_u32(b, p), le_u32(b, p + 4), le_u32(b, p + 8)]
}

fn get_i16x3(b: &[u8], p: usize) -> (r: [i16; 3])
    requires
        fits(b@, p as int, 6),
    ensures
        r == i16x3_at(b@, p as int),
{
    let _len = b.len();
    [get_i16(b, p), get_i16(b, p + 2), get_i16(b, p + 4)]
}

fn get_u32x3(b: &[u8], p: usize) -> (r: [u32; 3])
    requires
        fits(b@, p as int, 12),
    ensures
        r == u32x3_at(b@, p as int),
{
    let _len = b.len();
    [get_u32(b, p), get_u32(b, p + 4), get_u32(b, p + 8)]
}

// ---------------------------------------------------------------- spawns

/// Byte length of the payload of a spawn of kind `t`.
pub open spec fn spawn_payload_len(t: EntityType) -> int {
    match t {
        EntityType::Dagger => 30,
        EntityType::Squid1 | EntityType::Squid2 | EntityType::Squid3 => 32,
        EntityType::Boid => 45,
        EntityType::Centipede | EntityType::Gigapede | EntityType::Ghostpede => 64,
        EntityType::Spider1 | EntityType::Spider2 => 16,
        EntityType::Egg => 28,
        EntityType::Thorn => 20,
        EntityType::Leviathan => 4,
    }
}

pub open spec fn squid_at(b: Seq<u8>, p: int) -> SquidData {
    SquidData {
        a: le_i32(b, p),
        position: u32x3_at(b, p + 4),
        b: u32x3_at(b, p + 16),
        rotation: le_u32(b, p + 28),
    }
}

pub open spec fn pede_at(b: Seq<u8>, p: int) -> PedeData {
    PedeData {
        a: le_i32(b, p),
        position: u32x3_at(b, p + 4),
        b: u32x3_at(b, p + 16),
        funny1: u32x3_at(b, p + 28),
        funny2: u32x3_at(b, p + 40),
        funny3: u32x3_at(b, p + 52),
    }
}

pub open spec fn spider_at(b: Seq<u8>, p: int) -> SpiderData {
    SpiderData { a: le_i32(b, p), position: u32x3_at(b, p + 4) }
}

/// The payload of a spawn of kind `t` at `p`.
pub open spec fn spawn_payload(b: Seq<u8>, p: int, t: EntityType) -> Result<EntityData, ReplayError> {
    if !fits(b, p, spawn_payload_len(t)) {
        Err(ReplayError::Truncated)
    } else {
        match t {
            EntityType::Dagger => match dagger_level_of(b[p + 29]) {
                None => Err(ReplayError::UnknownDaggerLevel(b[p + 29])),
                Some(level) => Ok(
                    EntityData::Dagger(
                        DaggerData {
                            a: le_i32(b, p),
                            position: i16x3_at(b, p + 4),
                            orientationa: i16x3_at(b, p + 10),
                            orientationb: i16x3_at(b, p + 16),
                            orientationc: i16x3_at(b, p + 22),
                            b: b[p + 28],
                            dagger_level: level,
                        },
                    ),
                ),
            },
            EntityType::Squid1 => Ok(EntityData::Squid1(squid_at(b, p))),
            EntityType::Squid2 => Ok(EntityData::Squid2(squid_at(b, p))),
            EntityType::Squid3 => Ok(EntityData::Squid3(squid_at(b, p))),
            EntityType::Boid => match boid_type_of(b[p + 4]) {
                None => Err(ReplayError::UnknownBoidType(b[p + 4])),
                Some(boid_type) => Ok(
                    EntityData::Boid(
                        BoidData {
                            spanwer: le_i32(b, p),
                            boid_type,
                            position: i16x3_at(b, p + 5),
                            funny1: i16x3_at(b, p + 11),
                            funny2: i16x3_at(b, p + 17),
                            funny3: i16x3_at(b, p + 23),
                            funny4: u32x3_at(b, p + 29),
                            speed: le_u32(b, p + 41),
                        },
                    ),
                ),
            },
            EntityType::Centipede => Ok(EntityData::Centipede(pede_at(b, p))),
            EntityType::Gigapede => Ok(EntityData::Gigapede(pede_at(b, p))),
            EntityType::Ghostpede => Ok(EntityData::Ghostpede(pede_at(b, p))),
            EntityType::Spider1 => Ok(EntityData::Spider1(spider_at(b, p))),
            EntityType::Spider2 => Ok(EntityData::Spider2(spider_at(b, p))),
            EntityType::Egg => Ok(
                EntityData::Egg(
                    EggData {
                        spider_spawner: le_i32(b, p),
                        funny1: u32x3_at(b, p + 4),
                        funny2: u32x3_at(b, p + 16),
                    },
                ),
            ),
            EntityType::Thorn => Ok(
                EntityData::Thorn(
                    ThornData {
                        a: le_i32(b, p),
                        position: u32x3_at(b, p + 4),
                        rotation: le_u32(b, p + 16),
                    },
                ),
            ),
            EntityType::Leviathan => Ok(EntityData::Leviathan(le_i32(b, p))),
        }
    }
}

/// The entity kind that spawn data describes.
pub open spec fn entity_type_of_data(d: EntityData) -> EntityType {
    match d {
        EntityData::Dagger(_) => EntityType::Dagger,
        EntityData::Squid1(_) => EntityType::Squid1,
        EntityData::Squid2(_) => EntityType::Squid2,
        EntityData::Squid3(_) => EntityType::Squid3,
        EntityData::Boid(_) => EntityType::Boid,
        EntityData::Centipede(_) => EntityType::Centipede,
        EntityData::Spider1(_) => EntityType::Spider1,
        EntityData::Spider2(_) => EntityType::Spider2,
        EntityData::Egg(_) => EntityType::Egg,
        EntityData::Leviathan(_) => EntityType::Leviathan,
        EntityData::Gigapede(_) => EntityType::Gigapede,
        EntityData::Thorn(_) => EntityType::Thorn,
        EntityData::Ghostpede(_) => EntityType::Ghostpede,
    }
}

fn read_squid(b: &[u8], p: usize) -> (r: SquidData)
    requires
        fits(b@, p as int, 32),
    ensures
        r == squid_at(b@, p as int),
{
    let _len = b.len();
    SquidData {
        a: get_i32(b, p),
        position: get_u32x3(b, p + 4),
        b: get_u32x3(b, p + 16),
        rotation: get_u32(b, p + 28),
    }
}

fn read_pede(b: &[u8], p: usize) -> (r: PedeData)
    requires
        fits(b@, p as int, 64),
    ensures
        r == pede_at(b@, p as int),
{
    let _len = b.len();
    PedeData {
        a: get_i32(b, p),
        position: get_u32x3(b, p + 4),
        b: get_u32x3(b, p + 16),
        funny1: get_u32x3(b, p + 28),
        funny2: get_u32x3(b, p + 40),
        funny3: get_u32x3(b, p + 52),
    }
}

fn read_spider(b: &[u8], p: usize) -> (r: SpiderData)
    requires
        fits(b@, p as int, 16),
    ensures
        r == spider_at(b@, p as int),
{
    let _len = b.len();
    SpiderData { a: get_i32(b, p), position: get_u32x3(b, p + 4) }
}

fn payload_len(t: EntityType) -> (r: usize)
    ensures
        r == spawn_payload_len(t),
{
    match t {
        EntityType::Dagger => 30,
        EntityType::Squid1 | EntityType::Squid2 | EntityType::Squid3 => 32,
        EntityType::Boid => 45,
        EntityType::Centipede | EntityType::Gigapede | EntityType::Ghostpede => 64,
        EntityType::Spider1 | EntityType::Spider2 => 16,
        EntityType::Egg => 28,
        EntityType::Thorn => 20,
        EntityType::Leviathan => 4,
    }
}

fn read_spawn_payload(b: &[u8], p: usize, t: EntityType) -> (r: Result<EntityData, ReplayError>)
    ensures
        r == spawn_payload(b@, p as int, t),
{
    let len = b.len();
    let n = payload_len(t);
    if p > len || len - p < n {
        return Err(ReplayError::Truncated);
    }
    match t {
        EntityType::Dagger => {
            let lv = get_u8(b, p + 29);
            match read_dagger_level(lv) {
                None => Err(ReplayError::UnknownDaggerLevel(lv)),
                Some(level) => Ok(
                    EntityData::Dagger(
                        DaggerData {
                            a: get_i32(b, p),
                            position: get_i16x3(b, p + 4),
                            orientationa: get_i16x3(b, p + 10),
                            orientationb: get_i16x3(b, p + 16),
                            orientationc: get_i16x3(b, p + 22),
                            b: get_u8(b, p + 28),
                            dagger_level: level,
                        },
                    ),
                ),
            }
        },
        EntityType::Squid1 => Ok(EntityData::Squid1(read_squid(b, p))),
        EntityType::Squid2 => Ok(EntityData::Squid2(read_squid(b, p))),
        EntityType::Squid3 => Ok(EntityData::Squid3(read_squid(b, p))),
        EntityType::Boid => {
            let bt = get_u8(b, p + 4);
            match read_boid_type(bt) {
                None => Err(ReplayError::UnknownBoidType(bt)),
                Some(boid_type) => Ok(
                    EntityData::Boid(
                        BoidData {
                            spanwer: get_i32(b, p),
                            boid_type,
                            position: get_i16x3(b, p + 5),
                            funny1: get_i16x3(b, p + 11),
                            funny2: get_i16x3(b, p + 17),
                            funny3: get_i16x3(b, p + 23),
                            funny4: get_u32x3(b, p + 29),
                            speed: get_u32(b, p + 41),
                        },
                    ),
                ),
            }
        },
        EntityType::Centipede => Ok(EntityData::Centipede(read_pede(b, p))),
        EntityType::Gigapede => Ok(EntityData::Gigapede(read_pede(b, p))),
        EntityType::Ghostpede => Ok(EntityData::Ghostpede(read_pede(b, p))),
        EntityType::Spider1 => Ok(EntityData::Spider1(read_spider(b, p))),
        EntityType::Spider2 => Ok(EntityData::Spider2(read_spider(b, p))),
        EntityType::Egg => Ok(
            EntityData::Egg(
                EggData {
                    spider_spawner: get_i32(b, p),
                    funny1: get_u32x3(b, p + 4),
                    funny2: get_u32x3(b, p + 16),
                },
            ),
        ),
        EntityType::Thorn => Ok(
            EntityData::Thorn(
                ThornData {
                    a: get_i32(b, p),
                    position: get_u32x3(b, p + 4),
                    rotation: get_u32(b, p + 16),
                },
            ),
        ),
        EntityType::Leviathan => Ok(EntityData::Leviathan(get_i32(b, p))),
    }
}


// ---------------------------------------------------------------- events

/// The frame input of opcode 0x9 starting at `q`: buttons, mouse motion, the
/// sensitivity on the first frame, then an optional `0x0A` byte.
pub open spec fn end_frame_at(b: Seq<u8>, q: int, first: bool) -> Result<(ReplayEvent, int), ReplayError> {
    let look: int = if first {
        4
    } else {
        0
    };
    if !fits(b, q, 11 + look) {
        Err(ReplayError::Truncated)
    } else {
        let buttons = ButtonData {
            left: b[q] != 0,
            right: b[q + 1] != 0,
            forward: b[q + 2] != 0,
            backwards: b[q + 3] != 0,
            jump: jump_of(b[q + 4]),
            shoot: mouse_btn_of(b[q + 5]),
            homing: mouse_btn_of(b[q + 6]),
        };
        let mouse = MouseData {
            x: le_i16(b, q + 7),
            y: le_i16(b, q + 9),
            look_speed: if first {
                Some(le_u32(b, q + 11))
            } else {
                None
            },
        };
        let m = q + 11 + look;
        if m < b.len() {
            if b[m] != 0x0A {
                Err(ReplayError::BadFrameTerminator(b[m]))
            } else {
                Ok((ReplayEvent::EndFrame(buttons, mouse), m + 1))
            }
        } else {
            Ok((ReplayEvent::EndFrame(buttons, mouse), m))
        }
    }
}

/// The event at `p` and the position after it. `first` tells whether no
/// frame has ended yet.
pub open spec fn event_at(b: Seq<u8>, p: int, first: bool) -> Result<(ReplayEvent, int), ReplayError> {
    if !fits(b, p, 1) {
        Err(ReplayError::Truncated)
    } else {
        let op = b[p];
        let q = p + 1;
        if op == 0x0 {
            if !fits(b, q, 1) {
                Err(ReplayError::Truncated)
            } else {
                match entity_type_of(b[q]) {
                    None => Err(ReplayError::UnknownEntity(b[q])),
                    Some(t) => match spawn_payload(b, q + 1, t) {
                        Ok(d) => Ok((ReplayEvent::Spawn(d), q + 1 + spawn_payload_len(t))),
                        Err(e) => Err(e),
                    },
                }
            }
        } else if op == 0x1 {
            if !fits(b, q, 10) {
                Err(ReplayError::Truncated)
            } else {
                Ok((ReplayEvent::UpdateEntityPosition(le_i32(b, q), i16x3_at(b, q + 4)), q + 10))
            }
        } else if op == 0x2 {
            if !fits(b, q, 22) {
                Err(ReplayError::Truncated)
            } else {
                Ok(
                    (
                        ReplayEvent::UpdateEntityOrientation(
                            le_i32(b, q),
                            UpdateOrientationData {
                                a: i16x3_at(b, q + 4),
                                b: i16x3_at(b, q + 10),
                                c: i16x3_at(b, q + 16),
                            },
                        ),
                        q + 22,
                    ),
                )
            }
        } else if op == 0x4 {
            if !fits(b, q, 10) {
                Err(ReplayError::Truncated)
            } else {
                Ok((ReplayEvent::UpdateEntityTarget(le_i32(b, q), i16x3_at(b, q + 4)), q + 10))
            }
        } else if op == 0x5 {
            if !fits(b, q, 12) {
                Err(ReplayError::Truncated)
            } else {
                Ok((hit_event(le_i32(b, q), le_i32(b, q + 4), le_i32(b, q + 8)), q + 12))
            }
        } else if op == 0x6 {
            Ok((ReplayEvent::GemPickup, q))
        } else if op == 0x7 {
            if !fits(b, q, 28) {
                Err(ReplayError::Truncated)
            } else {
                Ok(
                    (
                        ReplayEvent::Transmute(
                            le_i32(b, q),
                            TransmuteData {
                                a: i16x3_at(b, q + 4),
                                b: i16x3_at(b, q + 10),
                                c: i16x3_at(b, q + 16),
                                d: i16x3_at(b, q + 22),
                            },
                        ),
                        q + 28,
                    ),
                )
            }
        } else if op == 0x9 {
            end_frame_at(b, q, first)
        } else {
            Ok((ReplayEvent::EndReplay, q))
        }
    }
}

/// The events from `p` up to and including the first `EndReplay`.
pub open spec fn events_from(b: Seq<u8>, p: int, first: bool) -> Result<Seq<ReplayEvent>, ReplayError>
    decreases b.len() - p,
{
    match event_at(b, p, first) {
        Err(e) => Err(e),
        Ok((ev, q)) => if ev is EndReplay {
            Ok(seq![ev])
        } else if p < q <= b.len() {
            match events_from(b, q, first && !(ev is EndFrame)) {
                Ok(rest) => Ok(seq![ev] + rest),
                Err(e) => Err(e),
            }
        } else {
            Err(ReplayError::Truncated)
        },
    }
}

fn read_end_frame(b: &[u8], q: usize, first: bool) -> (r: Result<(ReplayEvent, usize), ReplayError>)
    ensures
        r matches Ok((e, n)) ==> end_frame_at(b@, q as int, first) == Ok::<(ReplayEvent, int), ReplayError>((e, n as int)) && q < n <= b@.len(),
        r matches Err(x) ==> end_frame_at(b@, q as int, first) == Err::<(ReplayEvent, int), ReplayError>(x),
{
    let len = b.len();
    let look: usize = if first {
        4
    } else {
        0
    };
    if q > len || len - q < 11 + look {
        return Err(ReplayError::Truncated);
    }
    let buttons = ButtonData {
        left: get_u8(b, q) != 0,
        right: get_u8(b, q + 1) != 0,
        forward: get_u8(b, q + 2) != 0,
        backwards: get_u8(b, q + 3) != 0,
        jump: read_jump(get_u8(b, q + 4)),
        shoot: read_mouse_btn(get_u8(b, q + 5)),
        homing: read_mouse_btn(get_u8(b, q + 6)),
    };
    let mouse = MouseData {
        x: get_i16(b, q + 7),
        y: get_i16(b, q + 9),
        look_speed: if first {
            Some(get_u32(b, q + 11))
        } else {
            None
        },
    };
    let m = q + 11 + look;
    if m < len {
        let t = get_u8(b, m);
        if t != 0x0A {
            Err(ReplayError::BadFrameTerminator(t))
        } else {
            Ok((ReplayEvent::EndFrame(buttons, mouse), m + 1))
        }
    } else {
        Ok((ReplayEvent::EndFrame(buttons, mouse), m))
    }
}

fn read_event(b: &[u8], p: usize, first: bool) -> (r: Result<(ReplayEvent, usize), ReplayError>)
    ensures
        r matches Ok((e, n)) ==> event_at(b@, p as int, first) == Ok::<(ReplayEvent, int), ReplayError>((e, n as int)) && p < n <= b@.len(),
        r matches Err(x) ==> event_at(b@, p as int, first) == Err::<(ReplayEvent, int), ReplayError>(x),
{
    let len = b.len();
    if p >= len {
        return Err(ReplayError::Truncated);
    }
    let op = get_u8(b, p);
    let q = p + 1;
    let avail = len - q;
    match op {
        0x0 => {
            if avail < 1 {
                return Err(ReplayError::Truncated);
            }
            let t = get_u8(b, q);
            match read_entity_type(t) {
                None => Err(ReplayError::UnknownEntity(t)),
                Some(et) => match read_spawn_payload(b, q + 1, et) {
                    Ok(d) => Ok((ReplayEvent::Spawn(d), q + 1 + payload_len(et))),
                    Err(e) => Err(e),
                },
            }
        },
        0x1 => {
            if avail < 10 {
                return Err(ReplayError::Truncated);
            }
            Ok((ReplayEvent::UpdateEntityPosition(get_i32(b, q), get_i16x3(b, q + 4)), q + 10))
        },
        0x2 => {
            if avail < 22 {
                return Err(ReplayError::Truncated);
            }
            let id = get_i32(b, q);
            let data = UpdateOrientationData {
                a: get_i16x3(b, q + 4),
                b: get_i16x3(b, q + 10),
                c: get_i16x3(b, q + 16),
            };
            Ok((ReplayEvent::UpdateEntityOrientation(id, data), q + 22))
        },
        0x4 => {
            if avail < 10 {
                return Err(ReplayError::Truncated);
            }
            Ok((ReplayEvent::UpdateEntityTarget(get_i32(b, q), get_i16x3(b, q + 4)), q + 10))
        },
        0x5 => {
            if avail < 12 {
                return Err(ReplayError::Truncated);
            }
            let a = get_i32(b, q);
            let bb = get_i32(b, q + 4);
            let c = get_i32(b, q + 8);
            Ok((classify_hit(a, bb, c), q + 12))
        },
        0x6 => Ok((ReplayEvent::GemPickup, q)),
        0x7 => {
            if avail < 28 {
                return Err(ReplayError::Truncated);
            }
            let id = get_i32(b, q);
            let data = TransmuteData {
                a: get_i16x3(b, q + 4),
                b: get_i16x3(b, q + 10),
                c: get_i16x3(b, q + 16),
                d: get_i16x3(b, q + 22),
            };
            Ok((ReplayEvent::Transmute(id, data), q + 28))
        },
        0x9 => read_end_frame(b, q, first),
        _ => Ok((ReplayEvent::EndReplay, q)),
    }
}


// ---------------------------------------------------------------- frames

pub open spec fn is_frame_end(e: ReplayEvent) -> bool {
    e is EndFrame || e is EndReplay
}

/// All events of a run of frames, in order.
pub open spec fn frames_events(f: Seq<ReplayFrame>) -> Seq<ReplayEvent>
    decreases f.len(),
{
    if f.len() == 0 {
        Seq::empty()
    } else {
        frames_events(f.drop_last()) + f.last().events@
    }
}

/// A frame is a non-empty run of events whose last one, and only that one,
/// ends the frame.
pub open spec fn frame_wf(f: ReplayFrame) -> bool {
    &&& f.events@.len() > 0
    &&& is_frame_end(f.events@.last())
    &&& forall|i: int| 0 <= i < f.events@.len() - 1 ==> !is_frame_end(#[trigger] f.events@[i])
}

/// The kinds of the entities that the spawn events bring in, in order.
pub open spec fn spawned_types(evs: Seq<ReplayEvent>) -> Seq<EntityType>
    decreases evs.len(),
{
    if evs.len() == 0 {
        Seq::empty()
    } else {
        spawned_types(evs.drop_last()) + match evs.last() {
            ReplayEvent::Spawn(d) => seq![entity_type_of_data(d)],
            _ => Seq::empty(),
        }
    }
}

proof fn lemma_spawned_types_append(a: Seq<ReplayEvent>, c: Seq<ReplayEvent>)
    ensures
        spawned_types(a + c) == spawned_types(a) + spawned_types(c),
    decreases c.len(),
{
    if c.len() == 0 {
        assert(a + c =~= a);
        assert(spawned_types(a) + spawned_types(c) =~= spawned_types(a));
    } else {
        assert((a + c).drop_last() =~= a + c.drop_last());
        lemma_spawned_types_append(a, c.drop_last());
        assert(spawned_types(a + c) =~= spawned_types(a) + spawned_types(c));
    }
}

/// `d` holds the events `evs` cut into frames, and one entity per spawn,
/// numbered from 1.
pub open spec fn replay_data_of(d: ReplayData, evs: Seq<ReplayEvent>) -> bool {
    &&& frames_events(d.frames@) == evs
    &&& forall|i: int| 0 <= i < d.frames@.len() ==> frame_wf(#[trigger] d.frames@[i])
    &&& d.entities@.len() == spawned_types(evs).len()
    &&& forall|k: int|
        0 <= k < d.entities@.len() ==> #[trigger] d.entities@[k] == (Entity {
            id: (k + 1) as i32,
            entity_type: spawned_types(evs)[k],
        })
}

/// What decoding the event stream `b` yields: the events up to the end
/// marker, as long as their entities can be numbered by `i32`.
pub open spec fn stream_decodes_to(b: Seq<u8>, r: Result<ReplayData, ReplayError>) -> bool {
    match events_from(b, 0, true) {
        Err(e) => r == Err::<ReplayData, ReplayError>(e),
        Ok(evs) => if spawned_types(evs).len() <= i32::MAX {
            r matches Ok(d) && replay_data_of(d, evs)
        } else {
            r == Err::<ReplayData, ReplayError>(ReplayError::TooManyEntities)
        },
    }
}

/// The event stream decodes without error.
pub open spec fn stream_ok(b: Seq<u8>) -> bool {
    events_from(b, 0, true) matches Ok(evs) && spawned_types(evs).len() <= i32::MAX
}

pub open spec fn then_events(done: Seq<ReplayEvent>, rest: Result<Seq<ReplayEvent>, ReplayError>) -> Result<Seq<ReplayEvent>, ReplayError> {
    match rest {
        Ok(r) => Ok(done + r),
        Err(e) => Err(e),
    }
}

/// Name for what zlib inflation of a byte string gives: `None` when the bytes
/// do not start with a complete zlib stream.
pub uninterp spec fn zlib_inflated(data: Seq<u8>) -> Option<Seq<u8>>;

/// Relies on libflate's `non_blocking::zlib::Decoder` and `Read::read_to_end`:
/// inflating the zlib stream at the front of `data` depends on those bytes
/// alone; the decoder runs a loop over its states, so no input nests calls.
#[verifier::external_body]
fn zlib_decompress(data: &[u8]) -> (r: Option<Vec<u8>>)
    ensures
        r is Some <==> zlib_inflated(data@) is Some,
        r matches Some(v) ==> zlib_inflated(data@) == Some(v@),
{
    let mut out = Vec::new();
    let mut dec = libflate::non_blocking::zlib::Decoder::new(data);
    std::io::Read::read_to_end(&mut dec, &mut out).ok()?;
    Some(out)
}

impl ReplayData {
    /// Decodes an inflated event stream into frames and an entity table.
    pub fn decode_events(b: &[u8]) -> (r: Result<ReplayData, ReplayError>)
        ensures
            stream_decodes_to(b@, r),
    {
        let len = b.len();
        let mut frames: Vec<ReplayFrame> = Vec::new();
        let mut entities: Vec<Entity> = Vec::new();
        let mut current: Vec<ReplayEvent> = Vec::new();
        let mut first = true;
        let mut pos: usize = 0;
        let mut too_many = false;
        assert(frames_events(frames@) + current@ =~= Seq::<ReplayEvent>::empty());
        assert(then_events(Seq::empty(), events_from(b@, 0, true)) =~= events_from(b@, 0, true));
        loop
            invariant
                len == b@.len(),
                pos <= len,
                events_from(b@, 0, true) == then_events(
                    frames_events(frames@) + current@,
                    events_from(b@, pos as int, first),
                ),
                forall|i: int| 0 <= i < frames@.len() ==> frame_wf(#[trigger] frames@[i]),
                forall|i: int| 0 <= i < current@.len() ==> !is_frame_end(#[trigger] current@[i]),
                !too_many ==> entities@.len() == spawned_types(frames_events(frames@) + current@).len(),
                too_many ==> spawned_types(frames_events(frames@) + current@).len() > i32::MAX,
                entities@.len() <= i32::MAX,
                forall|k: int|
                    0 <= k < entities@.len() ==> #[trigger] entities@[k] == (Entity {
                        id: (k + 1) as i32,
                        entity_type: spawned_types(frames_events(frames@) + current@)[k],
                    }),
            decreases len - pos,
        {
            let ghost done = frames_events(frames@) + current@;
            let (ev, next) = match read_event(b, pos, first) {
                Ok(x) => x,
                Err(e) => {
                    return Err(e);
                },
            };
            let ghost rest = events_from(b@, next as int, first && !(ev is EndFrame));
            assert(ev is EndReplay ==> events_from(b@, pos as int, first) == Ok::<Seq<ReplayEvent>, ReplayError>(seq![ev]));
            assert(!(ev is EndReplay) ==> events_from(b@, pos as int, first) == then_events(seq![ev], rest));
            proof {
                lemma_spawned_types_append(done, seq![ev]);
                assert(seq![ev].drop_last() =~= Seq::<ReplayEvent>::empty());
                assert(spawned_types(Seq::<ReplayEvent>::empty()) =~= Seq::<EntityType>::empty());
                assert(spawned_types(seq![ev]) =~= match ev {
                    ReplayEvent::Spawn(d) => seq![entity_type_of_data(d)],
                    _ => Seq::<EntityType>::empty(),
                });
            }
            if let ReplayEvent::Spawn(d) = ev {
                if too_many {
                } else if entities.len() >= i32::MAX as usize {
                    too_many = true;
                } else {
                    let id = (entities.len() + 1) as i32;
                    entities.push(Entity { id, entity_type: entity_kind(&d) });
                }
            }
            current.push(ev);
            assert(done + seq![ev] =~= frames_events(frames@) + current@);
            let ghost old_frames = frames@;
            match ev {
                ReplayEvent::EndReplay => {
                    frames.push(ReplayFrame { events: current });
                    assert(frames@.drop_last() =~= old_frames);
                    if too_many {
                        assert(frames_events(frames@) =~= done + seq![ev]);
                        return Err(ReplayError::TooManyEntities);
                    }
                    let data = ReplayData { frames, entities };
                    assert(frames_events(data.frames@) =~= done + seq![ev]);
                    assert(events_from(b@, 0, true) == Ok::<Seq<ReplayEvent>, ReplayError>(done + seq![ev]));
                    return Ok(data);
                },
                ReplayEvent::EndFrame(_, _) => {
                    frames.push(ReplayFrame { events: current });
                    assert(frames@.drop_last() =~= old_frames);
                    current = Vec::new();
                    first = false;
                    assert(frames_events(frames@) + current@ =~= done + seq![ev]);
                    assert(then_events(done + seq![ev], rest) == then_events(done, then_events(seq![ev], rest))) by {
                        if let Ok(r) = rest {
                            assert(done + seq![ev] + r =~= done + (seq![ev] + r));
                        }
                    }
                },
                _ => {
                    assert(then_events(done + seq![ev], rest) == then_events(done, then_events(seq![ev], rest))) by {
                        if let Ok(r) = rest {
                            assert(done + seq![ev] + r =~= done + (seq![ev] + r));
                        }
                    }
                },
            }
            pos = next;
        }
    }

    /// Inflates a zlib-compressed event stream and decodes it.
    pub fn from_reader(compressed: &[u8]) -> (r: Result<ReplayData, ReplayError>)
        ensures
            zlib_inflated(compressed@) is None ==> r == Err::<ReplayData, ReplayError>(ReplayError::Decompression),
            zlib_inflated(compressed@) matches Some(d) ==> stream_decodes_to(d, r),
    {
        match zlib_decompress(compressed) {
            None => Err(ReplayError::Decompression),
            Some(d) => ReplayData::decode_events(d.as_slice()),
        }
    }
}

fn entity_kind(d: &EntityData) -> (r: EntityType)
    ensures
        r == entity_type_of_data(*d),
{
    match d {
        EntityData::Dagger(_) => EntityType::Dagger,
        EntityData::Squid1(_) => EntityType::Squid1,
        EntityData::Squid2(_) => EntityType::Squid2,
        EntityData::Squid3(_) => EntityType::Squid3,
        EntityData::Boid(_) => EntityType::Boid,
        EntityData::Centipede(_) => EntityType::Centipede,
        EntityData::Spider1(_) => EntityType::Spider1,
        EntityData::Spider2(_) => EntityType::Spider2,
        EntityData::Egg(_) => EntityType::Egg,
        EntityData::Leviathan(_) => EntityType::Leviathan,
        EntityData::Gigapede(_) => EntityType::Gigapede,
        EntityData::Thorn(_) => EntityType::Thorn,
        EntityData::Ghostpede(_) => EntityType::Ghostpede,
    }
}


// ---------------------------------------------------------------- envelopes

#[derive(Debug, Clone)]
pub struct DfRpl2Header {
    pub player_name: String,
    pub funny_bytes: Vec<u8>,
}

#[derive(Debug, Clone)]
pub struct DfRpl2 {
    pub header: DfRpl2Header,
    pub data: ReplayData,
}

/// Values derived by replaying the events of a `ddrpl.` file.
#[derive(Debug, Clone)]
pub struct ExtraData {
    /// Homing daggers held at the end of each frame.
    pub homing: Vec<i32>,
    /// Homing daggers used up to the end of each frame.
    pub homing_used: Vec<i32>,
    pub starting_gems: i32,
    pub starting_hand: u8,
    /// The recorded mouse sensitivity (f32 bits); the look speed is 500/3
    /// times it.
    pub look_speed: u32,
    /// Tick (1/60 s) at which level 2 was reached, 0 if never.
    pub lvl2_time: usize,
    /// Tick (1/60 s) at which level 3 was reached, 0 if never.
    pub lvl3_time: usize,
    /// Tick (1/60 s) at which level 4 was reached, 0 if never.
    pub lvl4_time: usize,
}

#[derive(Debug, Clone)]
pub struct DdRplHeader {
    pub file_version: u32,
    /// Seconds since 2016-02-18 00:00 UTC (Unix time 1455753600).
    pub recorded_at: u64,
    /// f32 bits.
    pub time: u32,
    /// f32 bits.
    pub starting_time: u32,
    pub daggers_fired: u32,
    pub death_type: i32,
    pub gems: u32,
    pub kills: u32,
    pub daggers_hit: u32,
    pub player_name: String,
    pub player_id: i32,
    pub spawnset_bin: Vec<u8>,
    pub spawnset_hash: String,
    pub compressed_data_len: u32,
    pub spawnset: Option<Spawnset<V3Enemies>>,
}

#[derive(Debug, Clone)]
pub struct DdRpl {
    pub header: DdRplHeader,
    pub compressed_data: Option<Vec<u8>>,
    pub data: Option<ReplayData>,
    pub extra: Option<ExtraData>,
}

/// Largest compressed section a `ddrpl.` file may hold.
pub const MAX_COMPRESSED_LEN: u32 = 40000000;

/// Offset of the player name of a `ddrpl.` file.
pub open spec fn ddrpl_name_start() -> int {
    54
}

pub open spec fn ddrpl_name_end(b: Seq<u8>) -> int {
    ddrpl_name_start() + le_u32(b, 50)
}

/// Offset of the embedded spawnset: after the name, 10 reserved bytes, the
/// 16-byte spawnset digest and the spawnset length.
pub open spec fn ddrpl_spawnset_start(b: Seq<u8>) -> int {
    ddrpl_name_end(b) + 30
}

pub open spec fn ddrpl_spawnset_len(b: Seq<u8>) -> int {
    le_u32(b, ddrpl_name_end(b) + 26) as int
}

/// Offset of the compressed-section length.
pub open spec fn ddrpl_payload_len_at(b: Seq<u8>) -> int {
    ddrpl_spawnset_start(b) + ddrpl_spawnset_len(b)
}

pub open spec fn ddrpl_payload_start(b: Seq<u8>) -> int {
    ddrpl_payload_len_at(b) + 4
}

pub open spec fn ddrpl_payload_len(b: Seq<u8>) -> u32 {
    le_u32(b, ddrpl_payload_len_at(b))
}

/// The fields up to the compressed-section length are all there and the name
/// is UTF-8.
pub open spec fn ddrpl_header_ok(b: Seq<u8>) -> bool {
    &&& fits(b, 0, ddrpl_name_start())
    &&& fits(b, ddrpl_name_start(), le_u32(b, 50) as int)
    &&& valid_utf8(b.subrange(ddrpl_name_start(), ddrpl_name_end(b)))
    &&& fits(b, ddrpl_name_end(b), 30)
    &&& fits(b, ddrpl_spawnset_start(b), ddrpl_spawnset_len(b) + 4)
}

/// `b` is a well-formed `ddrpl.` file: a complete header, a compressed
/// section of at most 40,000,000 bytes, and exactly one byte after it.
pub open spec fn ddrpl_valid(b: Seq<u8>) -> bool {
    &&& ddrpl_header_ok(b)
    &&& ddrpl_payload_len(b) <= MAX_COMPRESSED_LEN
    &&& b.len() == ddrpl_payload_start(b) + ddrpl_payload_len(b) + 1
}

/// Takes `n` bytes at `p`, if they are there.
fn take_bytes(b: &[u8], p: usize, n: usize) -> (r: Option<Vec<u8>>)
    ensures
        r is Some <==> fits(b@, p as int, n as int),
        r matches Some(v) ==> v@ == b@.subrange(p as int, p + n),
{
    let len = b.len();
    if p > len || len - p < n {
        None
    } else {
        Some(slice_to_vec(slice_subrange(b, p, p + n)))
    }
}

impl DdRpl {
    /// Reads a `ddrpl.` file. The event stream stays compressed until
    /// `calc_data`.
    pub fn from_reader(b: &[u8]) -> (r: Result<DdRpl, ReplayError>)
        ensures
            r is Ok <==> ddrpl_valid(b@),
            r == Err::<DdRpl, ReplayError>(ReplayError::OversizedPayload(ddrpl_payload_len(b@)))
                <== ddrpl_header_ok(b@) && ddrpl_payload_len(b@) > MAX_COMPRESSED_LEN,
            r matches Ok(d) ==> {
                &&& d.header.file_version == le_u32(b@, 6)
                &&& d.header.recorded_at == le_u64(b@, 10)
                &&& d.header.time == le_u32(b@, 18)
                &&& d.header.starting_time == le_u32(b@, 22)
                &&& d.header.daggers_fired == le_u32(b@, 26)
                &&& d.header.death_type == le_i32(b@, 30)
                &&& d.header.gems == le_u32(b@, 34)
                &&& d.header.daggers_hit == le_u32(b@, 38)
                &&& d.header.kills == le_u32(b@, 42)
                &&& d.header.player_id == le_i32(b@, 46)
                &&& d.header.player_name@ == decode_utf8(
                    b@.subrange(ddrpl_name_start(), ddrpl_name_end(b@)),
                )
                &&& d.header.spawnset_hash@ == hex_string(
                    b@.subrange(ddrpl_name_end(b@) + 10, ddrpl_name_end(b@) + 26),
                    false,
                )
                &&& d.header.spawnset_bin@ == b@.subrange(
                    ddrpl_spawnset_start(b@),
                    ddrpl_payload_len_at(b@),
                )
                &&& d.header.compressed_data_len == ddrpl_payload_len(b@)
                &&& d.header.compressed_data_len <= MAX_COMPRESSED_LEN
                &&& d.header.spawnset is None
                &&& d.compressed_data matches Some(c) && c@ == b@.subrange(
                    ddrpl_payload_start(b@),
                    ddrpl_payload_start(b@) + ddrpl_payload_len(b@),
                )
                &&& d.data is None
                &&& d.extra is None
            },
    {
        let len = b.len();
        if len < 54 {
            return Err(ReplayError::Truncated);
        }
        let file_version = get_u32(b, 6);
        let recorded_at = get_u64(b, 10);
        let time = get_u32(b, 18);
        let starting_time = get_u32(b, 22);
        let daggers_fired = get_u32(b, 26);
        let death_type = get_i32(b, 30);
        let gems = get_u32(b, 34);
        let daggers_hit = get_u32(b, 38);
        let kills = get_u32(b, 42);
        let player_id = get_i32(b, 46);
        let name_len = get_u32(b, 50) as usize;
        let name = match take_bytes(b, 54, name_len) {
            Some(v) => v,
            None => {
                return Err(ReplayError::Truncated);
            },
        };
        let player_name = match string_from_utf8(name) {
            Ok(s) => s,
            Err(_) => {
                return Err(ReplayError::InvalidUtf8);
            },
        };
        let p = 54 + name_len;
        if len - p < 30 {
            return Err(ReplayError::Truncated);
        }
        let hash = slice_subrange(b, p + 10, p + 26);
        let spawnset_hash = md5_to_string_lower(hash);
        let spawnset_len = get_u32(b, p + 26) as usize;
        let spawnset_bin = match take_bytes(b, p + 30, spawnset_len) {
            Some(v) => v,
            None => {
                return Err(ReplayError::Truncated);
            },
        };
        let q = p + 30 + spawnset_len;
        if len - q < 4 {
            return Err(ReplayError::Truncated);
        }
        let compressed_data_len = get_u32(b, q);
        if compressed_data_len > MAX_COMPRESSED_LEN {
            return Err(ReplayError::OversizedPayload(compressed_data_len));
        }
        let compressed = match take_bytes(b, q + 4, compressed_data_len as usize) {
            Some(v) => v,
            None => {
                return Err(ReplayError::Truncated);
            },
        };
        if len - (q + 4) - (compressed_data_len as usize) != 1 {
            return Err(ReplayError::BadTerminator);
        }
        let header = DdRplHeader {
            player_name,
            player_id,
            spawnset_hash,
            kills,
            death_type,
            daggers_hit,
            daggers_fired,
            file_version,
            time,
            starting_time,
            gems,
            recorded_at,
            spawnset_bin,
            compressed_data_len,
            spawnset: None,
        };
        Ok(DdRpl { header, data: None, compressed_data: Some(compressed), extra: None })
    }

    /// Inflates and decodes the compressed event stream, which is then
    /// dropped.
    pub fn calc_data(&mut self) -> (r: Result<(), ReplayError>)
        ensures
            old(self).compressed_data is None ==> r == Err::<(), ReplayError>(
                ReplayError::NoCompressedData,
            ) && *final(self) == *old(self),
            old(self).compressed_data matches Some(c) ==> {
                &&& zlib_inflated(c@) is None ==> r == Err::<(), ReplayError>(
                    ReplayError::Decompression,
                )
                &&& zlib_inflated(c@) matches Some(d) ==> stream_decodes_to(
                    d,
                    match r {
                        Ok(_) => Ok(final(self).data->Some_0),
                        Err(e) => Err(e),
                    },
                )
            },
            r is Err ==> *final(self) == *old(self),
            r is Ok ==> final(self).compressed_data is None && final(self).data is Some
                && final(self).header == old(self).header && final(self).extra == old(self).extra,
    {
        match &self.compressed_data {
            None => Err(ReplayError::NoCompressedData),
            Some(c) => {
                let data = ReplayData::from_reader(c.as_slice());
                match data {
                    Ok(d) => {
                        self.data = Some(d);
                        self.compressed_data = None;
                        Ok(())
                    },
                    Err(e) => Err(e),
                }
            },
        }
    }
}

/// The magic, the length-prefixed name (valid UTF-8) and the
/// length-prefixed extra bytes of a `DF_RPL2` file are all there.
pub open spec fn df_rpl2_header_ok(b: Seq<u8>) -> bool {
    let ul = le_u16(b, 7) as int;
    &&& fits(b, 0, 9)
    &&& fits(b, 9, ul + 2)
    &&& valid_utf8(b.subrange(9, 9 + ul))
    &&& fits(b, 11 + ul, le_u16(b, 9 + ul) as int)
}

/// The compressed event stream of a `DF_RPL2` file: all bytes after the header.
pub open spec fn df_rpl2_stream(b: Seq<u8>) -> Seq<u8> {
    let ul = le_u16(b, 7) as int;
    b.subrange(11 + ul + le_u16(b, 9 + ul), b.len() as int)
}

/// `b` is a `DF_RPL2` file whose event stream inflates and decodes.
pub open spec fn df_rpl2_valid(b: Seq<u8>) -> bool {
    &&& df_rpl2_header_ok(b)
    &&& match zlib_inflated(df_rpl2_stream(b)) {
        Some(d) => stream_ok(d),
        None => false,
    }
}

impl DfRpl2 {
    /// Reads a `DF_RPL2` file: magic, length-prefixed name and extra bytes,
    /// then the compressed event stream.
    pub fn from_reader(b: &[u8]) -> (r: Result<DfRpl2, ReplayError>)
        ensures
            r is Ok <==> df_rpl2_valid(b@),
            r matches Ok(x) ==> {
                let ul = le_u16(b@, 7) as int;
                &&& x.header.player_name@ == decode_utf8(b@.subrange(9, 9 + ul))
                &&& x.header.funny_bytes@ == b@.subrange(11 + ul, 11 + ul + le_u16(b@, 9 + ul))
                &&& stream_decodes_to(zlib_inflated(df_rpl2_stream(b@))->Some_0, Ok(x.data))
            },
    {
        let len = b.len();
        if len < 9 {
            return Err(ReplayError::Truncated);
        }
        let name_len = get_u16(b, 7) as usize;
        let name = match take_bytes(b, 9, name_len) {
            Some(v) => v,
            None => {
                return Err(ReplayError::Truncated);
            },
        };
        let player_name = match string_from_utf8(name) {
            Ok(s) => s,
            Err(_) => {
                return Err(ReplayError::InvalidUtf8);
            },
        };
        let p = 9 + name_len;
        if len - p < 2 {
            return Err(ReplayError::Truncated);
        }
        let funny_len = get_u16(b, p) as usize;
        let funny_bytes = match take_bytes(b, p + 2, funny_len) {
            Some(v) => v,
            None => {
                return Err(ReplayError::Truncated);
            },
        };
        let q = p + 2 + funny_len;
        let data = ReplayData::from_reader(slice_subrange(b, q, len))?;
        Ok(DfRpl2 { header: DfRpl2Header { player_name, funny_bytes }, data })
    }
}

impl DdRplHeader {
    /// Reads the embedded spawnset.
    pub fn create_spawnset(&mut self) -> (r: Result<(), SpawnsetError>)
        ensures
            r is Ok <==> crate::models::spawnset::spawnset_valid::<V3Enemies>(
                old(self).spawnset_bin@,
            ),
            r is Ok ==> (final(self).spawnset matches Some(s)
                && crate::models::spawnset::spawnset_decodes_to(old(self).spawnset_bin@, s)),
            r is Err ==> final(self).spawnset == old(self).spawnset,
            final(self).spawnset_bin == old(self).spawnset_bin,
    {
        let s = Spawnset::<V3Enemies>::deserialize(self.spawnset_bin.as_slice())?;
        self.spawnset = Some(s);
        Ok(())
    }
}


// ---------------------------------------------------------------- homing

/// The running state of the homing simulation.
#[derive(Debug, Clone, Copy, PartialEq, Eq, Structural)]
pub struct HomingState {
    pub hand_level: u8,
    pub level_gems: i32,
    pub homing: i32,
    pub homing_used: i32,
    pub look_speed: u32,
    pub lvl2_time: usize,
    pub lvl3_time: usize,
    pub lvl4_time: usize,
}

pub open spec fn wrap_inc(x: i32) -> i32 {
    vstd::wrapping::i32_specs::wrapping_add(x, 1)
}

pub open spec fn wrap_dec(x: i32) -> i32 {
    vstd::wrapping::i32_specs::wrapping_sub(x, 1)
}

/// The state that a spawnset's hand and extra gems start a run in: at hand 3
/// or 4 the gems are homing daggers and the level gem count is 70 or 71.
pub open spec fn homing_start(hand: u8, gems: i32) -> HomingState {
    HomingState {
        hand_level: hand,
        level_gems: if hand == 3 {
            70
        } else if hand == 4 {
            71
        } else {
            gems
        },
        homing: if hand == 3 || hand == 4 {
            gems
        } else {
            0
        },
        homing_used: 0,
        look_speed: 0,
        lvl2_time: 0,
        lvl3_time: 0,
        lvl4_time: 0,
    }
}

/// One event of frame `tick` (counted from 1): gems level the hand up at 10
/// and 70 gems and at 150 homing daggers; a level-6 dagger spends one homing
/// dagger; the first frame carries the sensitivity.
pub open spec fn homing_step(s: HomingState, e: ReplayEvent, tick: usize) -> HomingState {
    match e {
        ReplayEvent::EndFrame(_, m) => match m.look_speed {
            Some(l) => HomingState { look_speed: l, ..s },
            None => s,
        },
        ReplayEvent::GemPickup => if s.hand_level <= 1 {
            let g = wrap_inc(s.level_gems);
            if g >= 10 {
                HomingState { level_gems: 10, hand_level: 2, lvl2_time: tick, ..s }
            } else {
                HomingState { level_gems: g, ..s }
            }
        } else if s.hand_level == 2 {
            let g = wrap_inc(s.level_gems);
            if g >= 70 {
                HomingState { level_gems: 70, hand_level: 3, lvl3_time: tick, ..s }
            } else {
                HomingState { level_gems: g, ..s }
            }
        } else if s.hand_level == 3 {
            let h = wrap_inc(s.homing);
            if h >= 150 {
                HomingState { level_gems: 71, hand_level: 4, homing: 0, lvl4_time: tick, ..s }
            } else {
                HomingState { homing: h, ..s }
            }
        } else {
            HomingState { homing: wrap_inc(s.homing), ..s }
        },
        ReplayEvent::Spawn(EntityData::Dagger(d)) => if d.dagger_level == DaggerLevel::Level6 {
            HomingState { homing: wrap_dec(s.homing), homing_used: wrap_inc(s.homing_used), ..s }
        } else {
            s
        },
        _ => s,
    }
}

/// The state after the events of one frame.
pub open spec fn homing_frame(s: HomingState, evs: Seq<ReplayEvent>, tick: usize) -> HomingState
    decreases evs.len(),
{
    if evs.len() == 0 {
        s
    } else {
        homing_step(homing_frame(s, evs.drop_last(), tick), evs.last(), tick)
    }
}

/// The state after a run of frames.
pub open spec fn homing_frames(s: HomingState, f: Seq<ReplayFrame>) -> HomingState
    decreases f.len(),
{
    if f.len() == 0 {
        s
    } else {
        homing_frame(homing_frames(s, f.drop_last()), f.last().events@, f.len() as usize)
    }
}

/// `x` is what the homing simulation of `frames` gives, from a spawnset with
/// these settings.
pub open spec fn extra_of(x: ExtraData, frames: Seq<ReplayFrame>, settings: Option<Settings>) -> bool {
    let hand = match settings {
        Some(st) => st.initial_hand,
        None => 0,
    };
    let gems = match settings {
        Some(st) => st.additional_gems,
        None => 0,
    };
    let start = homing_start(hand, gems);
    let end = homing_frames(start, frames);
    &&& x.starting_hand == hand
    &&& x.starting_gems == gems
    &&& x.homing@.len() == frames.len()
    &&& x.homing_used@.len() == frames.len()
    &&& forall|i: int|
        0 <= i < frames.len() ==> #[trigger] x.homing@[i] == homing_frames(
            start,
            frames.subrange(0, i + 1),
        ).homing
    &&& forall|i: int|
        0 <= i < frames.len() ==> #[trigger] x.homing_used@[i] == homing_frames(
            start,
            frames.subrange(0, i + 1),
        ).homing_used
    &&& x.look_speed == end.look_speed
    &&& x.lvl2_time == end.lvl2_time
    &&& x.lvl3_time == end.lvl3_time
    &&& x.lvl4_time == end.lvl4_time
}

fn homing_event(s: HomingState, e: &ReplayEvent, tick: usize) -> (r: HomingState)
    ensures
        r == homing_step(s, *e, tick),
{
    match e {
        ReplayEvent::EndFrame(_, m) => match m.look_speed {
            Some(l) => HomingState { look_speed: l, ..s },
            None => s,
        },
        ReplayEvent::GemPickup => if s.hand_level <= 1 {
            let g = s.level_gems.wrapping_add(1);
            if g >= 10 {
                HomingState { level_gems: 10, hand_level: 2, lvl2_time: tick, ..s }
            } else {
                HomingState { level_gems: g, ..s }
            }
        } else if s.hand_level == 2 {
            let g = s.level_gems.wrapping_add(1);
            if g >= 70 {
                HomingState { level_gems: 70, hand_level: 3, lvl3_time: tick, ..s }
            } else {
                HomingState { level_gems: g, ..s }
            }
        } else if s.hand_level == 3 {
            let h = s.homing.wrapping_add(1);
            if h >= 150 {
                HomingState { level_gems: 71, hand_level: 4, homing: 0, lvl4_time: tick, ..s }
            } else {
                HomingState { homing: h, ..s }
            }
        } else {
            HomingState { homing: s.homing.wrapping_add(1), ..s }
        },
        ReplayEvent::Spawn(EntityData::Dagger(d)) => if d.dagger_level == DaggerLevel::Level6 {
            HomingState {
                homing: s.homing.wrapping_sub(1),
                homing_used: s.homing_used.wrapping_add(1),
                ..s
            }
        } else {
            s
        },
        _ => s,
    }
}

/// Replays the frames through the homing simulation: homing daggers held and
/// used at the end of each frame, and the ticks of the level-ups.
pub fn homing_extra(frames: &Vec<ReplayFrame>, settings: Option<Settings>) -> (x: ExtraData)
    ensures
        extra_of(x, frames@, settings),
{
    let (hand, gems) = match settings {
        Some(st) => (st.initial_hand, st.additional_gems),
        None => (0u8, 0i32),
    };
    let mut s = HomingState {
        hand_level: hand,
        level_gems: if hand == 3 {
            70
        } else if hand == 4 {
            71
        } else {
            gems
        },
        homing: if hand == 3 || hand == 4 {
            gems
        } else {
            0
        },
        homing_used: 0,
        look_speed: 0,
        lvl2_time: 0,
        lvl3_time: 0,
        lvl4_time: 0,
    };
    let ghost start = s;
    assert(start == homing_start(hand, gems));
    let mut homing: Vec<i32> = Vec::new();
    let mut homing_used: Vec<i32> = Vec::new();
    let mut i: usize = 0;
    while i < frames.len()
        invariant
            i <= frames@.len(),
            s == homing_frames(start, frames@.subrange(0, i as int)),
            homing@.len() == i,
            homing_used@.len() == i,
            forall|k: int|
                0 <= k < i ==> #[trigger] homing@[k] == homing_frames(
                    start,
                    frames@.subrange(0, k + 1),
                ).homing,
            forall|k: int|
                0 <= k < i ==> #[trigger] homing_used@[k] == homing_frames(
                    start,
                    frames@.subrange(0, k + 1),
                ).homing_used,
        decreases frames@.len() - i,
    {
        let events = &frames[i].events;
        let tick = i + 1;
        let ghost before = s;
        let mut j: usize = 0;
        while j < events.len()
            invariant
                j <= events@.len(),
                s == homing_frame(before, events@.subrange(0, j as int), tick),
            decreases events@.len() - j,
        {
            s = homing_event(s, &events[j], tick);
            assert(events@.subrange(0, j + 1).drop_last() =~= events@.subrange(0, j as int));
            j = j + 1;
        }
        assert(events@.subrange(0, events@.len() as int) =~= events@);
        assert(frames@.subrange(0, i + 1).drop_last() =~= frames@.subrange(0, i as int));
        homing.push(s.homing);
        homing_used.push(s.homing_used);
        i = i + 1;
    }
    assert(frames@.subrange(0, frames@.len() as int) =~= frames@);
    ExtraData {
        homing,
        homing_used,
        starting_gems: gems,
        starting_hand: hand,
        look_speed: s.look_speed,
        lvl2_time: s.lvl2_time,
        lvl3_time: s.lvl3_time,
        lvl4_time: s.lvl4_time,
    }
}

/// The events of a `ddrpl.` replay are decoded or decode, and so is its
/// spawnset.
pub open spec fn extra_available(r: DdRpl) -> bool {
    &&& (r.data is Some || (r.compressed_data matches Some(c) && match zlib_inflated(c@) {
        Some(d) => stream_ok(d),
        None => false,
    }))
    &&& (r.header.spawnset is Some || crate::models::spawnset::spawnset_valid::<V3Enemies>(
        r.header.spawnset_bin@,
    ))
}

impl DdRpl {
    /// Decodes the events and the spawnset when not done yet, then runs the
    /// homing simulation over the frames.
    pub fn create_extra(&mut self) -> (r: Result<(), ReplayError>)
        ensures
            r is Ok <==> extra_available(*old(self)),
            r is Ok ==> (final(self).data matches Some(d) && final(self).header.spawnset matches Some(sp)
                && final(self).extra matches Some(x) && extra_of(x, d.frames@, sp.settings)),
            r is Ok && old(self).data is Some ==> final(self).data == old(self).data,
            r is Ok && old(self).data is None ==> stream_decodes_to(
                zlib_inflated(old(self).compressed_data->Some_0@)->Some_0,
                Ok(final(self).data->Some_0),
            ),
            r is Ok && old(self).header.spawnset is Some ==> final(self).header.spawnset
                == old(self).header.spawnset,
            r is Ok && old(self).header.spawnset is None ==> crate::models::spawnset::spawnset_decodes_to(
                old(self).header.spawnset_bin@,
                final(self).header.spawnset->Some_0,
            ),
            old(self).data is None && old(self).compressed_data is None ==> r == Err::<(), ReplayError>(
                ReplayError::NoCompressedData,
            ),
    {
        if self.data.is_none() {
            self.calc_data()?;
        }
        if self.header.spawnset.is_none() {
            match self.header.create_spawnset() {
                Ok(()) => {},
                Err(e) => {
                    return Err(ReplayError::Spawnset(e));
                },
            }
        }
        let settings = match &self.header.spawnset {
            Some(sp) => sp.settings,
            None => {
                return Err(ReplayError::NoCompressedData);
            },
        };
        match &self.data {
            Some(d) => {
                let x = homing_extra(&d.frames, settings);
                self.extra = Some(x);
                Ok(())
            },
            None => Err(ReplayError::NoCompressedData),
        }
    }
}

} // verus!
