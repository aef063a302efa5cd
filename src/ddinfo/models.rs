//! What the leaderboard service sends and accepts.

use vstd::prelude::*;

verus! {

/// The platforms the service knows.
#[derive(Debug, Clone, Copy, PartialEq, Eq, Structural)]
pub enum OperatingSystem {
    Windows,
    Linux,
}

/// Where the stats block marker lies for a platform.
#[derive(Debug, Clone, Copy, PartialEq, Eq, Structural)]
pub struct MarkerResponse {
    pub value: usize,
}

#[derive(Debug, Clone)]
pub struct Tool {
    pub name: String,
    pub display_name: String,
    pub version_number: String,
    pub version_number_required: String,
    pub changelog: Vec<ChangelogEntry>,
}

#[derive(Debug, Clone)]
pub struct ChangelogEntry {
    pub version_number: String,
    pub date: String,
    pub changes: Vec<Change>,
}

#[derive(Debug, Clone)]
pub struct Change {
    pub description: String,
    pub sub_changes: Option<Vec<String>>,
}

#[derive(Debug, Clone)]
pub struct DdstatsRustIntegration {
    pub required_version: String,
}

#[derive(Debug, Clone)]
pub struct GetSpawnsetByHash {
    pub name: String,
    pub author_name: String,
    pub custom_leaderboard: Option<String>,
}

#[derive(Debug, Clone, Copy, PartialEq, Eq, Structural)]
pub enum GameMode {
    Default,
    TimeAttack,
}

#[derive(Debug, Clone)]
pub struct SpawnsetForDdcl {
    pub spawnset_id: i32,
    pub name: String,
    pub author_name: String,
    pub custom_leaderboard: Option<SpawnsetCustomLeaderboard>,
}

#[derive(Debug, Clone)]
pub struct SpawnsetCustomLeaderboard {
    pub custom_leaderboard_id: i32,
    pub custom_entries: Vec<SpawnsetCustomEntry>,
}

#[derive(Debug, Clone, Copy, PartialEq, Eq, Structural)]
pub struct SpawnsetCustomEntry {
    pub custom_entry_id: i32,
    pub time: i32,
    pub has_replay: bool,
}

/// Dagger ranks of a custom leaderboard, lowest first.
#[derive(Debug, Clone, Copy, PartialEq, Eq, Structural)]
pub enum CustomLeaderboardDagger {
    Pleb,
    Bronze,
    Silver,
    Gold,
    Devil,
    Leviathan,
}

/// The rank of a dagger, 0 for `Pleb` up to 5 for `Leviathan`.
pub open spec fn dagger_rank(d: CustomLeaderboardDagger) -> int {
    match d {
        CustomLeaderboardDagger::Pleb => 0,
        CustomLeaderboardDagger::Bronze => 1,
        CustomLeaderboardDagger::Silver => 2,
        CustomLeaderboardDagger::Gold => 3,
        CustomLeaderboardDagger::Devil => 4,
        CustomLeaderboardDagger::Leviathan => 5,
    }
}

impl CustomLeaderboardDagger {
    pub fn rank(&self) -> (r: u8)
        ensures
            r == dagger_rank(*self),
    {
        match self {
            CustomLeaderboardDagger::Pleb => 0,
            CustomLeaderboardDagger::Bronze => 1,
            CustomLeaderboardDagger::Silver => 2,
            CustomLeaderboardDagger::Gold => 3,
            CustomLeaderboardDagger::Devil => 4,
            CustomLeaderboardDagger::Leviathan => 5,
        }
    }
}

impl PartialOrd for CustomLeaderboardDagger {
    fn partial_cmp(&self, other: &Self) -> (r: Option<std::cmp::Ordering>)
        ensures
            r == Some(
                if dagger_rank(*self) < dagger_rank(*other) {
                    std::cmp::Ordering::Less
                } else if dagger_rank(*self) > dagger_rank(*other) {
                    std::cmp::Ordering::Greater
                } else {
                    std::cmp::Ordering::Equal
                },
            ),
    {
        let a = self.rank();
        let b = other.rank();
        if a < b {
            Some(std::cmp::Ordering::Less)
        } else if a > b {
            Some(std::cmp::Ordering::Greater)
        } else {
            Some(std::cmp::Ordering::Equal)
        }
    }
}

impl vstd::std_specs::cmp::PartialOrdSpecImpl for CustomLeaderboardDagger {
    open spec fn obeys_partial_cmp_spec() -> bool {
        true
    }

    open spec fn partial_cmp_spec(&self, other: &CustomLeaderboardDagger) -> Option<std::cmp::Ordering> {
        Some(
            if dagger_rank(*self) < dagger_rank(*other) {
                std::cmp::Ordering::Less
            } else if dagger_rank(*self) > dagger_rank(*other) {
                std::cmp::Ordering::Greater
            } else {
                std::cmp::Ordering::Equal
            },
        )
    }
}

} // verus!
