//! The live side: finding the game's base address and stats block, reading
//! the block, its frames and the replay buffer, and injecting a replay.

pub mod proc_mem_wrapper;

use self::proc_mem_wrapper::{Handle, WriteRecord};
use crate::codec::{le32, le_u64};
use crate::models::{
    ddstats_marker, StatsBlockWithFrames, StatsDataBlock, StatsFrame,
    DATA_BLOCK_SIZE, REPLAY_FLAG_OFFSET, REPLAY_LENGTH_OFFSET, STATS_FRAME_SIZE,
};
use vstd::bytes::u32_to_le_bytes;
use vstd::string::*;
use vstd::utf8::*;
use std::collections::HashMap;
use vstd::prelude::*;
use vstd::slice::*;

verus! {

/// Which build of the game runs, and where.
#[derive(Debug, Clone, Copy, PartialEq, Eq, Structural)]
pub enum OperatingSystem {
    Linux,
    LinuxProton,
    Windows,
}

/// Per-platform defaults.
pub struct OsInfo {
    pub default_block_marker: usize,
    pub default_process_name: String,
    pub can_create_child: bool,
    pub offsets: HashMap<String, Vec<usize>>,
}

/// The two addresses that reading the stats block needs, once known.
#[derive(Debug, Clone, Copy, PartialEq, Eq, Structural)]
pub struct Pointers {
    pub ddstats_block: Option<usize>,
    pub base_address: Option<usize>,
}

impl Default for Pointers {
    fn default() -> (r: Self)
        ensures
            r.ddstats_block is None && r.base_address is None,
    {
        Pointers { ddstats_block: None, base_address: None }
    }
}

/// Values that replace the platform defaults.
#[derive(Debug, Clone)]
pub struct MemoryOverride {
    pub block_marker: Option<usize>,
    pub process_name: Option<String>,
}

impl Default for MemoryOverride {
    fn default() -> (r: Self)
        ensures
            r.block_marker is None && r.process_name is None,
    {
        MemoryOverride { block_marker: None, process_name: None }
    }
}

#[derive(Debug, Clone)]
pub struct ConnectionParams {
    pub create_child: bool,
    pub operating_system: OperatingSystem,
    pub overrides: MemoryOverride,
}

/// Why an operation on the game's memory failed.
#[derive(Debug, Clone, Copy, PartialEq, Eq, Structural)]
pub enum MemoryError {
    ProcessNotFound,
    HandleOpenFailed,
    BaseAddressResolutionFailed,
    /// The block does not open with `__ddstats__`.
    MarkerMismatch,
    ReadMemoryFailed,
    WriteMemoryFailed,
    /// Frames or the replay were asked for before a block was read.
    NoSnapshotAvailable,
    /// A count or address in the block is out of range.
    InvalidData,
}

/// Default block marker on native Linux.
pub const LINUX_BLOCK_MARKER: usize = 0x00521C98;

/// Default block marker on Windows and under Proton.
pub const WINDOWS_BLOCK_MARKER: usize = 0x250DC0;

pub open spec fn default_block_marker(os: OperatingSystem) -> usize {
    match os {
        OperatingSystem::Linux => LINUX_BLOCK_MARKER,
        _ => WINDOWS_BLOCK_MARKER,
    }
}

pub open spec fn default_process_name(os: OperatingSystem) -> Seq<char> {
    match os {
        OperatingSystem::Linux => "devildaggers"@,
        OperatingSystem::Windows => "dd.exe"@,
        OperatingSystem::LinuxProton => "wine-preloader"@,
    }
}

impl OsInfo {
    pub fn get_from_os(os: &OperatingSystem) -> (r: Self)
        ensures
            r.default_block_marker == default_block_marker(*os),
            r.default_process_name@ == default_process_name(*os),
            r.can_create_child == (*os == OperatingSystem::Linux),
            r.offsets@ == Map::<String, Vec<usize>>::empty(),
    {
        match os {
            OperatingSystem::Linux => OsInfo {
                can_create_child: true,
                default_block_marker: LINUX_BLOCK_MARKER,
                default_process_name: String::from_str("devildaggers"),
                offsets: HashMap::new(),
            },
            OperatingSystem::Windows => OsInfo {
                can_create_child: false,
                default_block_marker: WINDOWS_BLOCK_MARKER,
                default_process_name: String::from_str("dd.exe"),
                offsets: HashMap::new(),
            },
            OperatingSystem::LinuxProton => OsInfo {
                can_create_child: false,
                default_block_marker: WINDOWS_BLOCK_MARKER,
                default_process_name: String::from_str("wine-preloader"),
                offsets: HashMap::new(),
            },
        }
    }
}

impl ConnectionParams {
    /// Native Linux, no overrides, no restart of the game.
    pub fn empty() -> (r: Self)
        ensures
            !r.create_child,
            r.operating_system == OperatingSystem::Linux,
            r.overrides.block_marker is None,
            r.overrides.process_name is None,
    {
        ConnectionParams {
            create_child: false,
            operating_system: OperatingSystem::Linux,
            overrides: MemoryOverride::default(),
        }
    }
}

/// The block marker in effect: the override, else the platform default.
pub open spec fn block_marker_of(params: ConnectionParams) -> usize {
    match params.overrides.block_marker {
        Some(m) => m,
        None => default_block_marker(params.operating_system),
    }
}

/// Whether the bytes are the ELF signature `7F 45 4C 46`.
pub fn is_elf(start_bytes: &[u8; 4]) -> (r: bool)
    ensures
        r == (start_bytes@ == seq![0x7fu8, 0x45, 0x4c, 0x46]),
{
    let r = start_bytes[0] == 0x7f && start_bytes[1] == 0x45 && start_bytes[2] == 0x4c
        && start_bytes[3] == 0x46;
    assert(r ==> start_bytes@ =~= seq![0x7fu8, 0x45, 0x4c, 0x46]);
    r
}

/// Whether the bytes are the Windows executable signature `MZ`.
pub fn is_windows_exe(start_bytes: &[u8; 2]) -> (r: bool)
    ensures
        r == (start_bytes@ == seq![0x4du8, 0x5a]),
{
    let r = start_bytes[0] == 0x4d && start_bytes[1] == 0x5a;
    assert(r ==> start_bytes@ =~= seq![0x4du8, 0x5a]);
    r
}

// ---------------------------------------------------------------- byte search

/// `needle` occurs in `hay` at `i`.
pub open spec fn occurs_at(hay: Seq<u8>, needle: Seq<u8>, i: int) -> bool {
    0 <= i && i + needle.len() <= hay.len() && hay.subrange(i, i + needle.len()) == needle
}

pub open spec fn contains(hay: Seq<u8>, needle: Seq<u8>) -> bool {
    exists|i: int| occurs_at(hay, needle, i)
}

fn occurs_at_exec(hay: &[u8], needle: &[u8], i: usize) -> (r: bool)
    requires
        i + needle@.len() <= hay@.len(),
    ensures
        r == occurs_at(hay@, needle@, i as int),
{
    let mut j: usize = 0;
    let len = hay.len();
    while j < needle.len()
        invariant
            len == hay@.len(),
            i + needle@.len() <= hay@.len(),
            j <= needle@.len(),
            forall|k: int| 0 <= k < j ==> hay@[i + k] == needle@[k],
        decreases needle@.len() - j,
    {
        if hay[i + j] != needle[j] {
            assert(hay@.subrange(i as int, i + needle@.len())[j as int] != needle@[j as int]);
            return false;
        }
        j = j + 1;
    }
    assert(hay@.subrange(i as int, i + needle@.len()) =~= needle@);
    true
}

/// The first position where `needle` occurs in `hay`.
pub fn find_bytes(hay: &[u8], needle: &[u8]) -> (r: Option<usize>)
    ensures
        r matches Some(i) ==> occurs_at(hay@, needle@, i as int) && forall|k: int|
            0 <= k < i ==> !occurs_at(hay@, needle@, k),
        r is None ==> !contains(hay@, needle@),
{
    if needle.len() > hay.len() {
        return None;
    }
    let last = hay.len() - needle.len();
    let mut i: usize = 0;
    loop
        invariant
            last + needle@.len() == hay@.len(),
            i <= last,
            forall|k: int| 0 <= k < i ==> !occurs_at(hay@, needle@, k),
        decreases last - i,
    {
        if occurs_at_exec(hay, needle, i) {
            return Some(i);
        }
        if i == last {
            return None;
        }
        i = i + 1;
    }
}

// ---------------------------------------------------------------- /proc/<pid>/maps

/// First position at or after `p` holding `c`, or the length.
pub open spec fn scan_until(b: Seq<u8>, p: int, c: u8) -> int
    decreases b.len() - p,
{
    if p < 0 || p >= b.len() {
        b.len() as int
    } else if b[p] == c {
        p
    } else {
        scan_until(b, p + 1, c)
    }
}

/// First position at or after `p` that is not a space, or the length.
pub open spec fn skip_spaces(b: Seq<u8>, p: int) -> int
    decreases b.len() - p,
{
    if p < 0 || p >= b.len() {
        b.len() as int
    } else if b[p] != 32 {
        p
    } else {
        skip_spaces(b, p + 1)
    }
}

/// First position at or after `p` holding a tab or a newline, or the length.
pub open spec fn field_end(b: Seq<u8>, p: int) -> int
    decreases b.len() - p,
{
    if p < 0 || p >= b.len() {
        b.len() as int
    } else if b[p] == 9 || b[p] == 10 {
        p
    } else {
        field_end(b, p + 1)
    }
}

pub open spec fn hex_digit_of(c: u8) -> Option<int> {
    if 48 <= c <= 57 {
        Some(c - 48)
    } else if 97 <= c <= 102 {
        Some(c - 87)
    } else if 65 <= c <= 70 {
        Some(c - 55)
    } else {
        None
    }
}

/// The value of the hex digits in `b[p..e]`, `None` when one is not a digit.
pub open spec fn hex_value(b: Seq<u8>, p: int, e: int) -> Option<int>
    decreases e - p,
{
    if e <= p {
        Some(0)
    } else {
        match (hex_value(b, p, e - 1), hex_digit_of(b[e - 1])) {
            (Some(v), Some(d)) => Some(16 * v + d),
            _ => None,
        }
    }
}

/// An address field: non-empty hex that fits a `usize`.
pub open spec fn address_field(b: Seq<u8>, p: int, e: int) -> Option<usize> {
    if p < e {
        match hex_value(b, p, e) {
            Some(v) => if v <= usize::MAX {
                Some(v as usize)
            } else {
                None
            },
            None => None,
        }
    } else {
        None
    }
}

/// One line of a maps file.
#[derive(Debug, Clone)]
pub struct MapsEntry {
    pub start: usize,
    pub end: usize,
    pub perms: Vec<u8>,
    pub path: Vec<u8>,
}

/// The fields of a maps line `start-end perms offset dev inode path`:
/// start, end, perms and path. Words are separated by runs of spaces; the path
/// runs to a tab, a newline or the end and may not be empty.
pub open spec fn maps_fields(b: Seq<u8>) -> Option<(usize, usize, Seq<u8>, Seq<u8>)> {
    let e0 = scan_until(b, 0, 45);
    let e1 = scan_until(b, e0 + 1, 32);
    let w0 = skip_spaces(b, e1 + 1);
    let e2 = scan_until(b, w0, 32);
    let w1 = skip_spaces(b, e2);
    let e3 = scan_until(b, w1, 32);
    let w2 = skip_spaces(b, e3);
    let e4 = scan_until(b, w2, 32);
    let w3 = skip_spaces(b, e4);
    let e5 = scan_until(b, w3, 32);
    let w4 = skip_spaces(b, e5);
    let e6 = field_end(b, w4);
    if e0 < b.len() && e1 < b.len() && w0 < e2 && w1 < e3 && w2 < e4 && w3 < e5 && w4 < e6 {
        match (address_field(b, 0, e0), address_field(b, e0 + 1, e1)) {
            (Some(start), Some(end)) => Some((start, end, b.subrange(w0, e2), b.subrange(w4, e6))),
            _ => None,
        }
    } else {
        None
    }
}

proof fn lemma_scan_until_bounds(b: Seq<u8>, p: int, c: u8)
    requires
        0 <= p,
    ensures
        p <= b.len() ==> p <= scan_until(b, p, c) <= b.len(),
        p > b.len() ==> scan_until(b, p, c) == b.len(),
    decreases b.len() - p,
{
    if p < b.len() && b[p] != c {
        lemma_scan_until_bounds(b, p + 1, c);
    }
}

fn scan_until_exec(b: &[u8], p: usize, c: u8) -> (r: usize)
    ensures
        r == scan_until(b@, p as int, c),
        r <= b@.len(),
{
    let len = b.len();
    if p >= len {
        return len;
    }
    let mut i = p;
    while i < len && b[i] != c
        invariant
            len == b@.len(),
            p <= i <= len,
            scan_until(b@, p as int, c) == scan_until(b@, i as int, c),
        decreases len - i,
    {
        i = i + 1;
    }
    i
}

fn skip_spaces_exec(b: &[u8], p: usize) -> (r: usize)
    ensures
        r == skip_spaces(b@, p as int),
        r <= b@.len(),
{
    let len = b.len();
    if p >= len {
        return len;
    }
    let mut i = p;
    while i < len && b[i] == 32
        invariant
            len == b@.len(),
            p <= i <= len,
            skip_spaces(b@, p as int) == skip_spaces(b@, i as int),
        decreases len - i,
    {
        i = i + 1;
    }
    i
}

fn field_end_exec(b: &[u8], p: usize) -> (r: usize)
    ensures
        r == field_end(b@, p as int),
        r <= b@.len(),
{
    let len = b.len();
    if p >= len {
        return len;
    }
    let mut i = p;
    while i < len && b[i] != 9 && b[i] != 10
        invariant
            len == b@.len(),
            p <= i <= len,
            field_end(b@, p as int) == field_end(b@, i as int),
        decreases len - i,
    {
        i = i + 1;
    }
    i
}

proof fn lemma_hex_value_none(b: Seq<u8>, p: int, e: int, f: int)
    requires
        p <= e <= f,
        hex_value(b, p, e) is None,
    ensures
        hex_value(b, p, f) is None,
    decreases f - e,
{
    if e < f {
        lemma_hex_value_none(b, p, e, f - 1);
    }
}

proof fn lemma_hex_value_grows(b: Seq<u8>, p: int, e: int, f: int)
    requires
        p <= e <= f,
        hex_value(b, p, e) is Some,
        hex_value(b, p, e)->Some_0 > usize::MAX,
    ensures
        hex_value(b, p, f) is None || hex_value(b, p, f)->Some_0 > usize::MAX,
    decreases f - e,
{
    if e < f {
        lemma_hex_value_grows(b, p, e, f - 1);
        if let Some(v) = hex_value(b, p, f - 1) {
            lemma_hex_value_nonneg(b, p, f - 1);
        }
    }
}

proof fn lemma_hex_value_nonneg(b: Seq<u8>, p: int, e: int)
    requires
        p <= e,
        hex_value(b, p, e) is Some,
    ensures
        hex_value(b, p, e)->Some_0 >= 0,
    decreases e - p,
{
    if p < e {
        lemma_hex_value_nonneg(b, p, e - 1);
    }
}

fn parse_address(b: &[u8], p: usize, e: usize) -> (r: Option<usize>)
    requires
        p <= e <= b@.len(),
    ensures
        r == address_field(b@, p as int, e as int),
{
    if p == e {
        return None;
    }
    let mut v: usize = 0;
    let mut i = p;
    while i < e
        invariant
            p <= i <= e <= b@.len(),
            hex_value(b@, p as int, i as int) == Some(v as int),
        decreases e - i,
    {
        let c = b[i];
        let d: usize = if 48 <= c && c <= 57 {
            (c - 48) as usize
        } else if 97 <= c && c <= 102 {
            (c - 87) as usize
        } else if 65 <= c && c <= 70 {
            (c - 55) as usize
        } else {
            proof {
                lemma_hex_value_none(b@, p as int, i + 1, e as int);
            }
            return None;
        };
        if v > (usize::MAX - d) / 16 {
            proof {
                assert(16 * v + d > usize::MAX) by (nonlinear_arith)
                    requires
                        v > (usize::MAX - d) / 16,
                        d < 16,
                ;
                lemma_hex_value_grows(b@, p as int, i + 1, e as int);
            }
            return None;
        }
        assert(16 * v + d <= usize::MAX) by (nonlinear_arith)
            requires
                v <= (usize::MAX - d) / 16,
                d < 16,
        ;
        v = 16 * v + d;
        i = i + 1;
    }
    Some(v)
}

/// Reads one line of a maps file.
pub fn parse_maps_line(b: &[u8]) -> (r: Option<MapsEntry>)
    ensures
        r is Some <==> maps_fields(b@) is Some,
        r matches Some(m) ==> maps_fields(b@) == Some((m.start, m.end, m.perms@, m.path@)),
{
    let len = b.len();
    proof {
        lemma_scan_until_bounds(b@, 0, 45);
    }
    let e0 = scan_until_exec(b, 0, 45);
    if e0 >= len {
        return None;
    }
    let e1 = scan_until_exec(b, e0 + 1, 32);
    if e1 >= len {
        return None;
    }
    proof {
        lemma_scan_until_bounds(b@, e0 + 1, 32);
    }
    let w0 = skip_spaces_exec(b, e1 + 1);
    let e2 = scan_until_exec(b, w0, 32);
    let w1 = skip_spaces_exec(b, e2);
    let e3 = scan_until_exec(b, w1, 32);
    let w2 = skip_spaces_exec(b, e3);
    let e4 = scan_until_exec(b, w2, 32);
    let w3 = skip_spaces_exec(b, e4);
    let e5 = scan_until_exec(b, w3, 32);
    let w4 = skip_spaces_exec(b, e5);
    let e6 = field_end_exec(b, w4);
    proof {
        lemma_scan_until_bounds(b@, w0 as int, 32);
    }
    if !(w0 < e2 && w1 < e3 && w2 < e4 && w3 < e5 && w4 < e6) {
        return None;
    }
    let start = match parse_address(b, 0, e0) {
        Some(v) => v,
        None => {
            return None;
        },
    };
    let end = match parse_address(b, e0 + 1, e1) {
        Some(v) => v,
        None => {
            return None;
        },
    };
    Some(
        MapsEntry {
            start,
            end,
            perms: slice_to_vec(slice_subrange(b, w0, e2)),
            path: slice_to_vec(slice_subrange(b, w4, e6)),
        },
    )
}

// ---------------------------------------------------------------- base address

/// The text `dd.exe` as bytes.
pub open spec fn dd_exe() -> Seq<u8> {
    seq![100u8, 100, 46, 101, 120, 101]
}

/// A maps entry that may hold the game's executable image: under Proton a
/// mapping of `dd.exe`; otherwise an executable mapping of the process name.
pub open spec fn base_candidate(os: OperatingSystem, name: Seq<u8>, perms: Seq<u8>, path: Seq<u8>) -> bool {
    match os {
        OperatingSystem::LinuxProton => contains(path, dd_exe()),
        _ => contains(path, name) && contains(perms, seq![120u8]),
    }
}

/// The signature an image of the platform's executables opens with: `MZ`
/// under Proton, ELF otherwise.
pub open spec fn image_magic(os: OperatingSystem) -> Seq<u8> {
    match os {
        OperatingSystem::LinuxProton => seq![0x4du8, 0x5a],
        _ => seq![0x7fu8, 0x45, 0x4c, 0x46],
    }
}

/// Start addresses of the candidate entries of the maps text from line start
/// `p` on, in order.
pub open spec fn maps_candidates(b: Seq<u8>, p: int, os: OperatingSystem, name: Seq<u8>) -> Seq<usize>
    decreases b.len() - p,
{
    if p < 0 || p >= b.len() {
        Seq::empty()
    } else {
        let e = scan_until(b, p, 10);
        let here = match maps_fields(b.subrange(p, e)) {
            Some((start, _end, perms, path)) => if base_candidate(os, name, perms, path) {
                seq![start]
            } else {
                Seq::empty()
            },
            None => Seq::empty(),
        };
        if p <= e < b.len() {
            here + maps_candidates(b, e + 1, os, name)
        } else {
            here
        }
    }
}

fn contains_exec(hay: &[u8], needle: &[u8]) -> (r: bool)
    ensures
        r == contains(hay@, needle@),
{
    match find_bytes(hay, needle) {
        Some(_) => true,
        None => false,
    }
}

fn is_candidate(os: OperatingSystem, name: &[u8], e: &MapsEntry) -> (r: bool)
    ensures
        r == base_candidate(os, name@, e.perms@, e.path@),
{
    match os {
        OperatingSystem::LinuxProton => {
            let dd: [u8; 6] = [100, 100, 46, 101, 120, 101];
            assert(dd@ =~= dd_exe());
            contains_exec(e.path.as_slice(), dd.as_slice())
        },
        _ => {
            let x: [u8; 1] = [120];
            assert(x@ =~= seq![120u8]);
            contains_exec(e.path.as_slice(), name) && contains_exec(e.perms.as_slice(), x.as_slice())
        },
    }
}

/// Start addresses of the maps entries that may hold the game's image, in
/// the order of the lines.
pub fn base_candidates(maps: &[u8], os: OperatingSystem, name: &[u8]) -> (r: Vec<usize>)
    ensures
        r@ == maps_candidates(maps@, 0, os, name@),
{
    let len = maps.len();
    let mut r: Vec<usize> = Vec::new();
    let mut p: usize = 0;
    while p < len
        invariant
            len == maps@.len(),
            p <= len,
            r@ + maps_candidates(maps@, p as int, os, name@) == maps_candidates(maps@, 0, os, name@),
        decreases len - p,
    {
        proof {
            lemma_scan_until_bounds(maps@, p as int, 10);
        }
        let e = scan_until_exec(maps, p, 10);
        let line = slice_subrange(maps, p, e);
        match parse_maps_line(line) {
            Some(entry) => {
                if is_candidate(os, name, &entry) {
                    r.push(entry.start);
                }
            },
            None => {},
        }
        if e >= len {
            assert(maps_candidates(maps@, (e + 1) as int, os, name@) =~= Seq::<usize>::empty());
            assert(r@ + maps_candidates(maps@, len as int, os, name@) =~= r@);
            assert(r@ =~= maps_candidates(maps@, 0, os, name@));
            return r;
        }
        p = e + 1;
    }
    assert(maps_candidates(maps@, p as int, os, name@) =~= Seq::<usize>::empty());
    assert(r@ + maps_candidates(maps@, p as int, os, name@) =~= r@);
    r
}

/// The first candidate whose image signature was read and is right.
pub fn first_with_magic(starts: &[usize], magics: &[Option<Vec<u8>>], os: OperatingSystem) -> (r: Option<usize>)
    ensures
        r matches Some(a) ==> exists|i: int|
            0 <= i < starts@.len() && i < magics@.len() && starts@[i] == a && (
            #[trigger] magics@[i] matches Some(m) && m@ == image_magic(os)) && forall|j: int|
                0 <= j < i ==> !(#[trigger] magics@[j] matches Some(m) && m@ == image_magic(os)),
        r is None ==> forall|i: int|
            0 <= i < starts@.len() && i < magics@.len() ==> !(#[trigger] magics@[i] matches Some(m)
                && m@ == image_magic(os)),
{
    let mut i: usize = 0;
    while i < starts.len() && i < magics.len()
        invariant
            i <= starts@.len(),
            forall|k: int|
                0 <= k < i && k < magics@.len() ==> !(#[trigger] magics@[k] matches Some(m) && m@
                    == image_magic(os)),
        decreases starts@.len() - i,
    {
        match &magics[i] {
            Some(m) => {
                let ok = match os {
                    OperatingSystem::LinuxProton => m.len() == 2 && m[0] == 0x4d && m[1] == 0x5a,
                    _ => m.len() == 4 && m[0] == 0x7f && m[1] == 0x45 && m[2] == 0x4c && m[3]
                        == 0x46,
                };
                assert(ok ==> m@ =~= image_magic(os));
                assert(m@ == image_magic(os) ==> ok) by {
                    if m@ == image_magic(os) {
                        assert(m@.len() == image_magic(os).len());
                    }
                };
                if ok {
                    return Some(starts[i]);
                }
            },
            None => {},
        }
        i = i + 1;
    }
    None
}

fn zeroed(n: usize) -> (r: Vec<u8>)
    ensures
        r@.len() == n,
{
    let mut r: Vec<u8> = Vec::with_capacity(n);
    let mut i: usize = 0;
    while i < n
        invariant
            i <= n,
            r@.len() == i,
        decreases n - i,
    {
        r.push(0);
        i = i + 1;
    }
    r
}

/// The process name in effect: the override, else the platform default.
pub open spec fn process_name_of(params: ConnectionParams) -> Seq<char> {
    match params.overrides.process_name {
        Some(n) => n@,
        None => default_process_name(params.operating_system),
    }
}

fn process_name(params: &ConnectionParams) -> (r: String)
    ensures
        r@ == process_name_of(*params),
{
    match &params.overrides.process_name {
        Some(n) => n.clone(),
        None => OsInfo::get_from_os(&params.operating_system).default_process_name,
    }
}

/// Finds the game's base address from the text of its maps file and, under
/// Proton, of its command line: the first candidate mapping whose first bytes
/// read as the platform's executable signature.
pub fn base_addr(handle: &Handle, params: &ConnectionParams, maps: &[u8], cmdline: &[u8]) -> (r: Result<usize, MemoryError>)
    ensures
        r matches Ok(a) ==> maps_candidates(
            maps@,
            0,
            params.operating_system,
            encode_utf8(process_name_of(*params)),
        ).contains(a),
        r == Err::<usize, MemoryError>(MemoryError::ProcessNotFound) <==> (params.operating_system
            == OperatingSystem::LinuxProton && !contains(cmdline@, dd_exe())),
        r is Ok || r == Err::<usize, MemoryError>(MemoryError::ProcessNotFound) || r == Err::<
            usize,
            MemoryError,
        >(MemoryError::BaseAddressResolutionFailed),
        maps_candidates(
            maps@,
            0,
            params.operating_system,
            encode_utf8(process_name_of(*params)),
        ).len() == 0 && r != Err::<usize, MemoryError>(MemoryError::ProcessNotFound) ==> r == Err::<
            usize,
            MemoryError,
        >(MemoryError::BaseAddressResolutionFailed),
{
    let os = params.operating_system;
    if os == OperatingSystem::LinuxProton {
        let dd: [u8; 6] = [100, 100, 46, 101, 120, 101];
        assert(dd@ =~= dd_exe());
        if !contains_exec(cmdline, dd.as_slice()) {
            return Err(MemoryError::ProcessNotFound);
        }
    }
    let name = process_name(params);
    let name_bytes = name.as_str().as_bytes();
    let starts = base_candidates(maps, os, name_bytes);
    let n: usize = if os == OperatingSystem::LinuxProton {
        2
    } else {
        4
    };
    let mut magics: Vec<Option<Vec<u8>>> = Vec::new();
    let mut i: usize = 0;
    while i < starts.len()
        invariant
            i <= starts@.len(),
            magics@.len() == i,
        decreases starts@.len() - i,
    {
        let mut buf = zeroed(n);
        match handle.copy_address(starts[i], buf.as_mut_slice()) {
            Ok(()) => magics.push(Some(buf)),
            Err(_) => magics.push(None),
        }
        i = i + 1;
    }
    match first_with_magic(starts.as_slice(), magics.as_slice(), os) {
        Some(a) => Ok(a),
        None => Err(MemoryError::BaseAddressResolutionFailed),
    }
}

// ---------------------------------------------------------------- the stats block

/// Size of each read of the memory search.
pub const SEARCH_CHUNK: usize = 102400;

/// Where the memory search starts.
pub const SEARCH_START: usize = 0x00010000;

/// `n` bytes at `a` lie within one chunk of the memory search.
pub open spec fn in_one_chunk(a: int, n: int) -> bool {
    a >= SEARCH_START && (a - SEARCH_START) % (SEARCH_CHUNK as int) + n <= SEARCH_CHUNK
}

/// What one chunk of the memory search decides.
#[derive(Debug, Clone, Copy, PartialEq, Eq, Structural)]
pub enum SearchStep {
    /// The needle is at this address.
    Found(usize),
    /// Read the next chunk, at this address.
    Next(usize),
    /// The next address does not fit.
    Stop,
}

/// Where the first occurrence of `needle` in the chunk read at `offset`
/// lies, or else where the next chunk starts.
pub fn search_step(offset: usize, chunk: &[u8], needle: &[u8]) -> (r: SearchStep)
    ensures
        r matches SearchStep::Found(a) ==> exists|i: int|
            a == offset + i && occurs_at(chunk@, needle@, i) && forall|k: int|
                0 <= k < i ==> !#[trigger] occurs_at(chunk@, needle@, k),
        r matches SearchStep::Next(n) ==> !contains(chunk@, needle@) && n == offset + SEARCH_CHUNK,
        r is Stop ==> (contains(chunk@, needle@) || offset + SEARCH_CHUNK > usize::MAX),
        !contains(chunk@, needle@) && offset + SEARCH_CHUNK <= usize::MAX ==> r == SearchStep::Next(
            (offset + SEARCH_CHUNK) as usize,
        ),
        contains(chunk@, needle@) && offset + chunk@.len() <= usize::MAX ==> r is Found,
{
    match find_bytes(chunk, needle) {
        Some(i) => {
            if i > usize::MAX - offset {
                SearchStep::Stop
            } else {
                SearchStep::Found(offset + i)
            }
        },
        None => {
            if offset > usize::MAX - SEARCH_CHUNK {
                SearchStep::Stop
            } else {
                SearchStep::Next(offset + SEARCH_CHUNK)
            }
        },
    }
}

/// Searches the process's memory for `to_find`, in 100 KiB chunks read at
/// 0x10000, 0x10000 + 100 KiB, ... in turn, until a read fails; the result is
/// the first match within the first chunk that holds one.
pub fn mem_search(handle: &Handle, to_find: &[u8]) -> (r: Result<usize, MemoryError>)
    ensures
        r matches Ok(a) ==> in_one_chunk(a as int, to_find@.len() as int),
        to_find@.len() == 0 <==> r == Err::<usize, MemoryError>(MemoryError::InvalidData),
        r is Ok || r == Err::<usize, MemoryError>(MemoryError::InvalidData) || r == Err::<
            usize,
            MemoryError,
        >(MemoryError::ReadMemoryFailed),
{
    if to_find.len() == 0 {
        return Err(MemoryError::InvalidData);
    }
    let mut buf = zeroed(SEARCH_CHUNK);
    let mut offset: usize = SEARCH_START;
    let ghost mut k: nat = 0;
    loop
        invariant
            to_find@.len() > 0,
            offset == SEARCH_START + k * SEARCH_CHUNK,
            buf@.len() == SEARCH_CHUNK,
        decreases usize::MAX - offset,
    {
        match handle.copy_address(offset, buf.as_mut_slice()) {
            Ok(()) => {},
            Err(_) => {
                return Err(MemoryError::ReadMemoryFailed);
            },
        }
        match search_step(offset, buf.as_slice(), to_find) {
            SearchStep::Found(a) => {
                proof {
                    let i = choose|i: int|
                        a == offset + i && occurs_at(buf@, to_find@, i) && forall|k: int|
                            0 <= k < i ==> !#[trigger] occurs_at(buf@, to_find@, k);
                    assert((k * SEARCH_CHUNK + i) % (SEARCH_CHUNK as int) == i) by (nonlinear_arith)
                        requires
                            0 <= i < SEARCH_CHUNK,
                    ;
                }
                return Ok(a);
            },
            SearchStep::Next(n) => {
                offset = n;
                proof {
                    k = k + 1;
                    assert(offset == SEARCH_START + k * SEARCH_CHUNK) by (nonlinear_arith)
                        requires
                            offset == SEARCH_START + (k - 1) * SEARCH_CHUNK + SEARCH_CHUNK,
                    ;
                }
            },
            SearchStep::Stop => {
                return Err(MemoryError::ReadMemoryFailed);
            },
        }
    }
}

/// Where the pointer to the stats block is stored: the base address plus the
/// block marker in effect, if that fits.
pub open spec fn block_pointer_location(params: ConnectionParams, base_address: usize) -> Option<usize> {
    if base_address + block_marker_of(params) <= usize::MAX {
        Some((base_address + block_marker_of(params)) as usize)
    } else {
        None
    }
}

/// Where the pointer to the stats block is stored.
pub fn pointer_location(params: &ConnectionParams, base_address: usize) -> (r: Option<usize>)
    ensures
        r == block_pointer_location(*params, base_address),
{
    let block_start = match params.overrides.block_marker {
        Some(m) => m,
        None => OsInfo::get_from_os(&params.operating_system).default_block_marker,
    };
    if base_address > usize::MAX - block_start {
        None
    } else {
        Some(base_address + block_start)
    }
}

/// Where the stats block is: under Proton the first `__ddstats__` in memory,
/// elsewhere the pointer stored at the base address plus the block marker.
fn calc_pointer_ddstats_block(handle: &Handle, params: &ConnectionParams, base_address: usize) -> (r: Result<usize, MemoryError>)
    ensures
        params.operating_system == OperatingSystem::LinuxProton ==> (r matches Ok(a) ==> in_one_chunk(
            a as int,
            11,
        )),
        params.operating_system == OperatingSystem::LinuxProton ==> r != Err::<usize, MemoryError>(
            MemoryError::InvalidData,
        ),
        params.operating_system != OperatingSystem::LinuxProton ==> (r == Err::<usize, MemoryError>(
            MemoryError::InvalidData,
        ) <==> block_pointer_location(*params, base_address) is None),
        r is Ok || r == Err::<usize, MemoryError>(MemoryError::InvalidData) || r == Err::<
            usize,
            MemoryError,
        >(MemoryError::ReadMemoryFailed),
{
    let block_start = match params.overrides.block_marker {
        Some(m) => m,
        None => OsInfo::get_from_os(&params.operating_system).default_block_marker,
    };
    match params.operating_system {
        OperatingSystem::LinuxProton => {
            let marker: [u8; 11] = [95, 95, 100, 100, 115, 116, 97, 116, 115, 95, 95];
            mem_search(handle, marker.as_slice())
        },
        _ => {
            let at = match pointer_location(params, base_address) {
                Some(a) => a,
                None => {
                    return Err(MemoryError::InvalidData);
                },
            };
            let offsets: [usize; 2] = [at, 0];
            match handle.get_offset(offsets.as_slice()) {
                Ok(p) => Ok(p),
                Err(_) => Err(MemoryError::ReadMemoryFailed),
            }
        },
    }
}

/// Reads the stats block, resolving and caching its address first when it is
/// not known. A block that does not open with `__ddstats__` is rejected and
/// its cached address dropped.
pub fn read_stats_data_block(handle: &Handle, params: &ConnectionParams, pointers: &mut Pointers) -> (r: Result<StatsDataBlock, MemoryError>)
    ensures
        r matches Ok(blk) ==> blk.marker@ == ddstats_marker() && final(pointers).ddstats_block is Some,
        r == Err::<StatsDataBlock, MemoryError>(MemoryError::MarkerMismatch) ==> final(pointers).ddstats_block is None,
        old(pointers).base_address is None ==> r == Err::<StatsDataBlock, MemoryError>(
            MemoryError::BaseAddressResolutionFailed,
        ),
        final(pointers).base_address == old(pointers).base_address,
        old(pointers).ddstats_block matches Some(p) ==> (final(pointers).ddstats_block == Some(p)
            || r == Err::<StatsDataBlock, MemoryError>(MemoryError::MarkerMismatch)),
        r is Ok || r == Err::<StatsDataBlock, MemoryError>(MemoryError::BaseAddressResolutionFailed)
            || r == Err::<StatsDataBlock, MemoryError>(MemoryError::InvalidData) || r == Err::<
            StatsDataBlock,
            MemoryError,
        >(MemoryError::ReadMemoryFailed) || r == Err::<StatsDataBlock, MemoryError>(
            MemoryError::MarkerMismatch,
        ),
        r == Err::<StatsDataBlock, MemoryError>(MemoryError::InvalidData) ==> (old(pointers).ddstats_block
            is None && old(pointers).base_address is Some && params.operating_system
            != OperatingSystem::LinuxProton && block_pointer_location(
            *params,
            old(pointers).base_address->Some_0,
        ) is None),
{
    let base = match pointers.base_address {
        Some(b) => b,
        None => {
            return Err(MemoryError::BaseAddressResolutionFailed);
        },
    };
    let pointer = match pointers.ddstats_block {
        Some(p) => p,
        None => {
            let p = calc_pointer_ddstats_block(handle, params, base)?;
            pointers.ddstats_block = Some(p);
            p
        },
    };
    let mut buf = zeroed(DATA_BLOCK_SIZE);
    match handle.copy_address(pointer, buf.as_mut_slice()) {
        Ok(()) => {},
        Err(_) => {
            return Err(MemoryError::ReadMemoryFailed);
        },
    }
    match StatsDataBlock::from_bytes(buf.as_slice()) {
        Some(blk) => Ok(blk),
        None => {
            pointers.ddstats_block = None;
            Err(MemoryError::MarkerMismatch)
        },
    }
}

/// Address of frame `i` of an array at `ptr`, if it fits.
pub fn frame_address(ptr: usize, i: usize) -> (r: Option<usize>)
    ensures
        r == (if ptr + i * STATS_FRAME_SIZE <= usize::MAX {
            Some((ptr + i * STATS_FRAME_SIZE) as usize)
        } else {
            None::<usize>
        }),
{
    if i > (usize::MAX - ptr) / STATS_FRAME_SIZE {
        assert(i * STATS_FRAME_SIZE > usize::MAX - ptr) by (nonlinear_arith)
            requires
                i > (usize::MAX - ptr) / 112,
        ;
        None
    } else {
        assert(i * STATS_FRAME_SIZE <= usize::MAX - ptr) by (nonlinear_arith)
            requires
                i <= (usize::MAX - ptr) / 112,
        ;
        Some(ptr + i * STATS_FRAME_SIZE)
    }
}

/// The frames of a block fit the address space: none, or the last one's
/// address fits.
pub open spec fn frames_fit(block: StatsDataBlock) -> bool {
    block.stats_frames_loaded == 0 || le_u64(block.stats_base@, 0) as usize + (
    block.stats_frames_loaded - 1) * STATS_FRAME_SIZE <= usize::MAX
}

/// Reads the frames a block points to: `stats_frames_loaded` records of
/// `STATS_FRAME_SIZE` bytes, frame `i` at `frame_address(stats_base, i)`.
pub fn read_frames(handle: &Handle, block: &StatsDataBlock) -> (r: Result<Vec<StatsFrame>, MemoryError>)
    ensures
        r matches Ok(v) ==> v@.len() == block.stats_frames_loaded,
        r == Err::<Vec<StatsFrame>, MemoryError>(MemoryError::InvalidData) <==> (
        block.stats_frames_loaded < 0 || !frames_fit(*block)),
        block.stats_frames_loaded == 0 ==> (r matches Ok(v) && v@.len() == 0),
        r is Ok || r == Err::<Vec<StatsFrame>, MemoryError>(MemoryError::InvalidData) || r == Err::<
            Vec<StatsFrame>,
            MemoryError,
        >(MemoryError::ReadMemoryFailed),
{
    if block.stats_frames_loaded < 0 {
        return Err(MemoryError::InvalidData);
    }
    let len = block.stats_frames_loaded as usize;
    let ptr = block.get_stats_pointer();
    if len > 0 && frame_address(ptr, len - 1).is_none() {
        return Err(MemoryError::InvalidData);
    }
    let mut res: Vec<StatsFrame> = Vec::new();
    let mut buf = zeroed(STATS_FRAME_SIZE);
    let mut i: usize = 0;
    while i < len
        invariant
            i <= len,
            len == block.stats_frames_loaded,
            len > 0 ==> ptr + (len - 1) * STATS_FRAME_SIZE <= usize::MAX,
            ptr == le_u64(block.stats_base@, 0) as usize,
            frames_fit(*block),
            res@.len() == i,
            buf@.len() == STATS_FRAME_SIZE,
        decreases len - i,
    {
        assert(i * STATS_FRAME_SIZE <= (len - 1) * STATS_FRAME_SIZE) by (nonlinear_arith)
            requires
                i <= len - 1,
        ;
        let at = match frame_address(ptr, i) {
            Some(a) => a,
            None => {
                return Err(MemoryError::InvalidData);
            },
        };
        match handle.copy_address(at, buf.as_mut_slice()) {
            Ok(()) => {},
            Err(_) => {
                return Err(MemoryError::ReadMemoryFailed);
            },
        }
        res.push(StatsFrame::from_bytes(buf.as_slice(), 0));
        i = i + 1;
    }
    Ok(res)
}

/// One write into the game's memory.
#[derive(Debug, Clone)]
pub struct MemoryWrite {
    pub address: usize,
    pub bytes: Vec<u8>,
}

/// The writes that load a replay into the game, in the order they must be
/// made: the replay into its buffer, its length (as a little-endian `i32`)
/// at block offset 312, then the flag byte 1 at block offset 316.
pub fn replay_injection_writes(block_address: usize, replay_buffer: usize, replay: &[u8]) -> (r: Result<Vec<MemoryWrite>, MemoryError>)
    ensures
        r is Ok <==> block_address + REPLAY_FLAG_OFFSET <= usize::MAX,
        r is Err ==> r == Err::<Vec<MemoryWrite>, MemoryError>(MemoryError::InvalidData),
        r matches Ok(w) ==> {
            &&& w@.len() == 3
            &&& w@[0].address == replay_buffer && w@[0].bytes@ == replay@
            &&& w@[1].address == block_address + REPLAY_LENGTH_OFFSET
            &&& w@[1].bytes@ == le32(replay@.len() as u32)
            &&& w@[2].address == block_address + REPLAY_FLAG_OFFSET
            &&& w@[2].bytes@ == seq![1u8]
        },
{
    if block_address > usize::MAX - REPLAY_FLAG_OFFSET {
        return Err(MemoryError::InvalidData);
    }
    let mut w: Vec<MemoryWrite> = Vec::new();
    w.push(MemoryWrite { address: replay_buffer, bytes: slice_to_vec(replay) });
    w.push(
        MemoryWrite {
            address: block_address + REPLAY_LENGTH_OFFSET,
            bytes: u32_to_le_bytes(replay.len() as u32),
        },
    );
    let mut flag: Vec<u8> = Vec::new();
    flag.push(1);
    w.push(MemoryWrite { address: block_address + REPLAY_FLAG_OFFSET, bytes: flag });
    Ok(w)
}

/// The writes that load a replay, as (address, bytes), in order.
pub open spec fn injection_plan(block_address: usize, replay_buffer: usize, replay: Seq<u8>) -> Seq<
    (usize, Seq<u8>),
> {
    seq![
        (replay_buffer, replay),
        ((block_address + REPLAY_LENGTH_OFFSET) as usize, le32(replay.len() as u32)),
        ((block_address + REPLAY_FLAG_OFFSET) as usize, seq![1u8]),
    ]
}

/// `added` is a prefix of `plan`, made in order, where every write but the
/// last succeeded, and the last one failed unless all three were made and
/// the whole load succeeded (`ok`).
pub open spec fn injection_log(added: Seq<WriteRecord>, plan: Seq<(usize, Seq<u8>)>, ok: bool) -> bool {
    &&& 1 <= added.len() <= plan.len()
    &&& forall|j: int| 0 <= j < added.len() ==> #[trigger] added[j].0 == plan[j].0 && added[j].1 == plan[j].1
    &&& forall|j: int| 0 <= j < added.len() - 1 ==> #[trigger] added[j].2
    &&& ok <==> (added.len() == plan.len() && added.last().2)
}

/// A connection to a running game.
pub struct GameConnection {
    pub pid: u32,
    pub path: String,
    pub handle: Handle,
    pub base_address: usize,
    pub last_fetch: Option<StatsBlockWithFrames>,
    pub params: ConnectionParams,
    pub pointers: Pointers,
}

fn copy_snapshot(s: &StatsBlockWithFrames) -> (r: StatsBlockWithFrames)
    ensures
        r.block == s.block,
        r.frames@ == s.frames@,
{
    let mut frames: Vec<StatsFrame> = Vec::new();
    let mut i: usize = 0;
    while i < s.frames.len()
        invariant
            i <= s.frames@.len(),
            frames@ =~= s.frames@.subrange(0, i as int),
        decreases s.frames@.len() - i,
    {
        frames.push(s.frames[i]);
        i = i + 1;
    }
    StatsBlockWithFrames { block: s.block, frames }
}

impl GameConnection {
    /// A connection to a process whose base address was found.
    pub fn attach(pid: u32, path: String, handle: Handle, base_address: usize, params: ConnectionParams) -> (r: Self)
        ensures
            r.pid == pid,
            r.base_address == base_address,
            r.pointers.base_address == Some(base_address),
            r.pointers.ddstats_block is None,
            r.last_fetch is None,
    {
        GameConnection {
            pid,
            path,
            handle,
            base_address,
            last_fetch: None,
            params,
            pointers: Pointers { base_address: Some(base_address), ddstats_block: None },
        }
    }

    /// A connection to no process; every read fails.
    pub fn dead_connection() -> (r: Self)
        ensures
            r.pid == 0,
            r.pointers.base_address is None,
            r.pointers.ddstats_block is None,
            r.last_fetch is None,
    {
        GameConnection {
            pid: 0,
            base_address: 0,
            last_fetch: None,
            path: String::new(),
            handle: Handle::null_type(),
            params: ConnectionParams::empty(),
            pointers: Pointers::default(),
        }
    }

    pub fn read_stats_block(&mut self) -> (r: Result<StatsDataBlock, MemoryError>)
        ensures
            r matches Ok(blk) ==> blk.marker@ == ddstats_marker(),
            old(self).pointers.base_address is None ==> r is Err,
    {
        read_stats_data_block(&self.handle, &self.params, &mut self.pointers)
    }

    /// Whether the stats block can be read.
    pub fn is_alive(&mut self) -> (r: bool)
        ensures
            old(self).pointers.base_address is None ==> !r,
    {
        match self.read_stats_block() {
            Ok(_) => true,
            Err(_) => false,
        }
    }

    /// `Ok` when the stats block can be read, else the reason it cannot.
    pub fn is_alive_res(&mut self) -> (r: Result<(), MemoryError>)
        ensures
            old(self).pointers.base_address is None ==> r is Err,
    {
        match self.read_stats_block() {
            Ok(_) => Ok(()),
            Err(e) => Err(e),
        }
    }

    pub fn read_mem(&self, addr: usize, buffer: &mut [u8]) -> (r: Result<(), MemoryError>)
        ensures
            final(buffer)@.len() == old(buffer)@.len(),
    {
        match self.handle.copy_address(addr, buffer) {
            Ok(()) => Ok(()),
            Err(_) => Err(MemoryError::ReadMemoryFailed),
        }
    }

    /// Reads the block and its frames, and keeps them as the last fetch.
    pub fn read_stats_block_with_frames(&mut self) -> (r: Result<StatsBlockWithFrames, MemoryError>)
        ensures
            r matches Ok(s) ==> s.wf() && s.block.marker@ == ddstats_marker(),
            old(self).pointers.base_address is None ==> r is Err,
            r matches Ok(s) ==> (final(self).last_fetch matches Some(l) && l.block == s.block
                && l.frames@ == s.frames@),
    {
        let block = read_stats_data_block(&self.handle, &self.params, &mut self.pointers)?;
        let frames = read_frames(&self.handle, &block)?;
        let res = StatsBlockWithFrames { block, frames };
        self.last_fetch = Some(copy_snapshot(&res));
        Ok(res)
    }

    /// The frames the given block points to.
    pub fn stat_frames_from_block(&mut self, block: &StatsDataBlock) -> (r: Result<Vec<StatsFrame>, MemoryError>)
        ensures
            r matches Ok(v) ==> v@.len() == block.stats_frames_loaded,
            r == Err::<Vec<StatsFrame>, MemoryError>(MemoryError::InvalidData) <==> (
            block.stats_frames_loaded < 0 || !frames_fit(*block)),
            block.stats_frames_loaded == 0 ==> (r matches Ok(v) && v@.len() == 0),
    {
        read_frames(&self.handle, block)
    }

    /// The frames of the last fetched block, read again.
    pub fn stat_frames(&self) -> (r: Result<Vec<StatsFrame>, MemoryError>)
        ensures
            self.last_fetch is None ==> r == Err::<Vec<StatsFrame>, MemoryError>(MemoryError::NoSnapshotAvailable),
            r matches Ok(v) ==> v@.len() == self.last_fetch->Some_0.block.stats_frames_loaded,
            self.last_fetch matches Some(l) ==> (r == Err::<Vec<StatsFrame>, MemoryError>(
                MemoryError::InvalidData,
            ) <==> (l.block.stats_frames_loaded < 0 || !frames_fit(l.block))),
            (self.last_fetch matches Some(l) && l.block.stats_frames_loaded == 0) ==> (r matches Ok(v)
                && v@.len() == 0),
    {
        match &self.last_fetch {
            Some(last) => read_frames(&self.handle, &last.block),
            None => Err(MemoryError::NoSnapshotAvailable),
        }
    }

    /// The last frame of the last fetched block, read again.
    pub fn last_stat_frame(&self) -> (r: Result<StatsFrame, MemoryError>)
        ensures
            self.last_fetch is None ==> r == Err::<StatsFrame, MemoryError>(MemoryError::NoSnapshotAvailable),
            self.last_fetch matches Some(l) ==> (r == Err::<StatsFrame, MemoryError>(
                MemoryError::InvalidData,
            ) <==> (l.block.stats_frames_loaded <= 0 || !frames_fit(l.block))),
            r is Ok || r == Err::<StatsFrame, MemoryError>(MemoryError::NoSnapshotAvailable) || r
                == Err::<StatsFrame, MemoryError>(MemoryError::InvalidData) || r == Err::<
                StatsFrame,
                MemoryError,
            >(MemoryError::ReadMemoryFailed),
    {
        match &self.last_fetch {
            Some(last) => {
                let n = last.block.stats_frames_loaded;
                if n <= 0 {
                    return Err(MemoryError::InvalidData);
                }
                let ptr = last.block.get_stats_pointer();
                let addr = match frame_address(ptr, (n - 1) as usize) {
                    Some(a) => a,
                    None => {
                        return Err(MemoryError::InvalidData);
                    },
                };
                let mut buf = zeroed(STATS_FRAME_SIZE);
                match self.handle.copy_address(addr, buf.as_mut_slice()) {
                    Ok(()) => Ok(StatsFrame::from_bytes(buf.as_slice(), 0)),
                    Err(_) => Err(MemoryError::ReadMemoryFailed),
                }
            },
            None => Err(MemoryError::NoSnapshotAvailable),
        }
    }

    /// The replay buffer of the last fetched block.
    pub fn replay_bin(&mut self) -> (r: Result<Vec<u8>, MemoryError>)
        ensures
            old(self).last_fetch is None ==> r == Err::<Vec<u8>, MemoryError>(MemoryError::NoSnapshotAvailable),
            r matches Ok(v) ==> v@.len() == old(self).last_fetch->Some_0.block.replay_buffer_length,
            old(self).last_fetch matches Some(l) ==> (r == Err::<Vec<u8>, MemoryError>(
                MemoryError::InvalidData,
            ) <==> l.block.replay_buffer_length < 0),
            r is Ok || r == Err::<Vec<u8>, MemoryError>(MemoryError::NoSnapshotAvailable) || r
                == Err::<Vec<u8>, MemoryError>(MemoryError::InvalidData) || r == Err::<
                Vec<u8>,
                MemoryError,
            >(MemoryError::ReadMemoryFailed),
    {
        match &self.last_fetch {
            Some(last) => {
                if last.block.replay_buffer_length < 0 {
                    return Err(MemoryError::InvalidData);
                }
                let len = last.block.replay_buffer_length as usize;
                let ptr = last.block.get_replay_pointer();
                let mut res = zeroed(len);
                match self.handle.copy_address(ptr, res.as_mut_slice()) {
                    Ok(()) => Ok(res),
                    Err(_) => Err(MemoryError::ReadMemoryFailed),
                }
            },
            None => Err(MemoryError::NoSnapshotAvailable),
        }
    }

    /// Loads a replay into the game: the replay into the buffer of the last
    /// fetched block, then its length, then the flag that starts playback.
    /// It stops at the first write that fails.
    pub fn play_replay(&mut self, replay: &[u8]) -> (r: Result<(), MemoryError>)
        ensures
            r == Err::<(), MemoryError>(MemoryError::NoSnapshotAvailable) <==> (old(self).last_fetch is None
                || old(self).pointers.ddstats_block is None),
            r == Err::<(), MemoryError>(MemoryError::InvalidData) <==> (old(self).last_fetch is Some
                && old(self).pointers.ddstats_block is Some && old(self).pointers.ddstats_block->Some_0
                + REPLAY_FLAG_OFFSET > usize::MAX),
            r is Ok || r == Err::<(), MemoryError>(MemoryError::NoSnapshotAvailable) || r == Err::<
                (),
                MemoryError,
            >(MemoryError::InvalidData) || r == Err::<(), MemoryError>(MemoryError::WriteMemoryFailed),
            r == Err::<(), MemoryError>(MemoryError::NoSnapshotAvailable) || r == Err::<(), MemoryError>(
                MemoryError::InvalidData,
            ) ==> final(self).handle.writes@ == old(self).handle.writes@,
            r is Ok || r == Err::<(), MemoryError>(MemoryError::WriteMemoryFailed) ==> {
                let before = old(self).handle.writes@;
                let after = final(self).handle.writes@;
                &&& after.subrange(0, before.len() as int) == before
                &&& injection_log(
                    after.subrange(before.len() as int, after.len() as int),
                    injection_plan(
                        old(self).pointers.ddstats_block->Some_0,
                        le_u64(old(self).last_fetch->Some_0.block.replay_base@, 0) as usize,
                        replay@,
                    ),
                    r is Ok,
                )
            },
            final(self).last_fetch == old(self).last_fetch,
            final(self).pointers == old(self).pointers,
    {
        let (ddstats_addr, buffer) = match (&self.last_fetch, self.pointers.ddstats_block) {
            (Some(l), Some(a)) => (a, l.block.get_replay_pointer()),
            _ => {
                return Err(MemoryError::NoSnapshotAvailable);
            },
        };
        let writes = replay_injection_writes(ddstats_addr, buffer, replay)?;
        let ghost plan = injection_plan(ddstats_addr, buffer, replay@);
        let ghost before = self.handle.writes@;
        assert forall|j: int| 0 <= j < 3 implies #[trigger] writes@[j].address == plan[j].0
            && writes@[j].bytes@ == plan[j].1 by {}
        let mut i: usize = 0;
        while i < writes.len()
            invariant
                writes@.len() == 3,
                i <= 3,
                forall|j: int| 0 <= j < 3 ==> #[trigger] writes@[j].address == plan[j].0
                    && writes@[j].bytes@ == plan[j].1,
                self.handle.writes@.len() == before.len() + i,
                self.handle.writes@.subrange(0, before.len() as int) == before,
                forall|j: int|
                    0 <= j < i ==> #[trigger] self.handle.writes@[before.len() + j] == (
                        plan[j].0,
                        plan[j].1,
                        true,
                    ),
                self.last_fetch == old(self).last_fetch,
                self.pointers == old(self).pointers,
                old(self).last_fetch is Some,
                old(self).pointers.ddstats_block == Some(ddstats_addr),
                ddstats_addr + REPLAY_FLAG_OFFSET <= usize::MAX,
                buffer == le_u64(old(self).last_fetch->Some_0.block.replay_base@, 0) as usize,
                before == old(self).handle.writes@,
                plan == injection_plan(ddstats_addr, buffer, replay@),
            decreases 3 - i,
        {
            let w = &writes[i];
            let res = self.handle.write(w.address, w.bytes.as_slice());
            let ghost after = self.handle.writes@;
            assert(after.subrange(0, before.len() as int) =~= before);
            match res {
                Ok(()) => {},
                Err(_) => {
                    assert(after.subrange(before.len() as int, after.len() as int) =~= Seq::new(
                        (i + 1) as nat,
                        |j: int| after[before.len() + j],
                    ));
                    return Err(MemoryError::WriteMemoryFailed);
                },
            }
            i = i + 1;
        }
        proof {
            let after = self.handle.writes@;
            let added = after.subrange(before.len() as int, after.len() as int);
            assert forall|j: int| 0 <= j < 3 implies #[trigger] added[j] == (plan[j].0, plan[j].1, true) by {
                assert(added[j] == after[before.len() + j]);
            }
        }
        Ok(())
    }
}

} // verus!
