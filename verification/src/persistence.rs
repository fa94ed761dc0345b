//! Discovery bookkeeping and the decisions around saved state: which cells
//! hold a star, what is logged when the player enters a system, where the
//! player spawns, and when state is saved. The database itself lives
//! outside the library; these functions take what it returned.
use crate::text::{int_decimal, push_decimal, str_eq, string_of};
use crate::universe::spawner::{
    lemma_star_exists_iff_listed, sector_in_range, sector_stars_spec, sector_step_spec, sector_uses_store_spec,
    SectorStep, StoreRead,
};
use crate::universe::star_common::{star_exists, star_exists_spec};
use crate::universe::{sector_of, GridCell, PlanetType, SectorIndex, StarType};
use vstd::prelude::*;

verus! {

/// A named star system in the registry.
#[derive(Debug)]
pub struct DiscoveredWorld {
    pub cell_x: i64,
    pub cell_y: i64,
    pub cell_z: i64,
    pub name: String,
    pub finder: String,
    pub note: String,
    pub date: String,
    pub object_type: String,
}

/// The registry entry type under its shorter name.
pub type Discovery = DiscoveredWorld;

/// The default label of the system in a cell: `S x,y,z`.
pub open spec fn default_system_name(cell: GridCell) -> Seq<char> {
    "S "@ + int_decimal(cell.x as int) + ","@ + int_decimal(cell.y as int) + ","@ + int_decimal(cell.z as int)
}

/// The default label of a planet in a cell: `P x,y,z`.
pub open spec fn default_planet_name(cell: GridCell) -> Seq<char> {
    "P "@ + int_decimal(cell.x as int) + ","@ + int_decimal(cell.y as int) + ","@ + int_decimal(cell.z as int)
}

fn cell_label(prefix: char, cell: GridCell) -> (result: String)
    ensures
        result@ == seq![prefix, ' '] + int_decimal(cell.x as int) + ","@ + int_decimal(cell.y as int) + ","@
            + int_decimal(cell.z as int),
{
    let mut v: Vec<char> = Vec::new();
    v.push(prefix);
    v.push(' ');
    push_decimal(&mut v, cell.x);
    v.push(',');
    push_decimal(&mut v, cell.y);
    v.push(',');
    push_decimal(&mut v, cell.z);
    proof {
        reveal_strlit(",");
    }
    assert(v@ =~= seq![prefix, ' '] + int_decimal(cell.x as int) + ","@ + int_decimal(cell.y as int) + ","@
        + int_decimal(cell.z as int));
    string_of(&v)
}

/// The default label of the system in `cell`, `S x,y,z`.
pub fn system_default_name(cell: GridCell) -> (result: String)
    ensures
        result@ == default_system_name(cell),
{
    proof {
        reveal_strlit("S ");
        assert("S "@ =~= seq!['S', ' ']);
    }
    cell_label('S', cell)
}

/// The default label of a planet in `cell`, `P x,y,z`.
pub fn planet_default_name(cell: GridCell) -> (result: String)
    ensures
        result@ == default_planet_name(cell),
{
    proof {
        reveal_strlit("P ");
        assert("P "@ =~= seq!['P', ' ']);
    }
    cell_label('P', cell)
}



/// Whether a star system sits in a cell of the universe with the given
/// seed: exactly where the spawner places a star (see `star_exists_spec`).
pub open spec fn has_star_spec(cell: GridCell, uni_seed: u64) -> bool {
    star_exists_spec(cell.x, cell.y, cell.z, uni_seed)
}

/// Whether the cell holds a star system, by the same test as the spawner.
pub fn has_star(cell: &GridCell, uni_seed: u64) -> (result: bool)
    ensures
        result == has_star_spec(*cell, uni_seed),
        cell.is_origin_spec() ==> result,
{
    star_exists(cell.x, cell.y, cell.z, uni_seed)
}

/// An unknown cell is logged automatically (see `enter_system`) exactly
/// where the spawner generates a star: exactly when the cell is among the
/// star cells of its own sector.
pub proof fn lemma_auto_discovery_matches_spawner(cell: GridCell, uni_seed: u64)
    requires
        sector_in_range(sector_of(cell)),
    ensures
        has_star_spec(cell, uni_seed) <==> sector_stars_spec(sector_of(cell), uni_seed).contains(cell),
{
    lemma_star_exists_iff_listed(cell, uni_seed);
}

/// What the registry answered for a cell.
#[derive(Debug)]
pub enum DiscoveryLookup {
    Found(DiscoveredWorld),
    Missing,
    Failed,
}

/// The system the player is in and its registry entry.
#[derive(Debug)]
pub struct CurrentSystemData {
    pub cell: GridCell,
    pub discovery: Option<DiscoveredWorld>,
    pub is_dirty: bool,
}

/// The entry logged automatically when a system with a star is entered
/// that the registry does not know.
pub open spec fn auto_discovery_spec(d: DiscoveredWorld, cell: GridCell) -> bool {
    &&& d.cell_x == cell.x
    &&& d.cell_y == cell.y
    &&& d.cell_z == cell.z
    &&& d.name@ == default_system_name(cell)
    &&& d.finder@ == "System AI"@
    &&& d.note@ == "Autologged"@
    &&& d.date@ == "2026"@
    &&& d.object_type@ == "Star System"@
}

/// The automatic registry entry for a system with a star in `cell`.
pub fn auto_discovery(cell: GridCell) -> (result: DiscoveredWorld)
    ensures
        auto_discovery_spec(result, cell),
{
    DiscoveredWorld {
        cell_x: cell.x,
        cell_y: cell.y,
        cell_z: cell.z,
        name: system_default_name(cell),
        finder: "System AI".to_string(),
        note: "Autologged".to_string(),
        date: "2026".to_string(),
        object_type: "Star System".to_string(),
    }
}

impl CurrentSystemData {
    /// No system entered yet.
    pub fn new() -> (result: CurrentSystemData)
        ensures
            result.cell == GridCell::new_spec(0, 0, 0),
            result.discovery is None,
            !result.is_dirty,
    {
        CurrentSystemData { cell: GridCell { x: 0, y: 0, z: 0 }, discovery: None, is_dirty: false }
    }

    /// The player entered `cell` of the universe with seed `uni_seed`, and
    /// the registry answered `lookup`. A known entry is shown; an unknown
    /// cell where the spawner places a star yields the automatic entry to
    /// store, which is returned (and not shown until
    /// `record_auto_discovery` reports the outcome); otherwise nothing is
    /// shown. The display is marked for refresh in every case.
    pub fn enter_system(&mut self, cell: GridCell, lookup: DiscoveryLookup, uni_seed: u64) -> (to_store: Option<
        DiscoveredWorld,
    >)
        ensures
            final(self).cell == cell,
            final(self).is_dirty,
            match lookup {
                DiscoveryLookup::Found(d) => final(self).discovery == Some(d) && to_store is None,
                DiscoveryLookup::Missing => if has_star_spec(cell, uni_seed) {
                    final(self).discovery is None && (to_store matches Some(d) && auto_discovery_spec(d, cell))
                } else {
                    final(self).discovery is None && to_store is None
                },
                DiscoveryLookup::Failed => final(self).discovery is None && to_store is None,
            },
    {
        self.cell = cell;
        self.is_dirty = true;
        match lookup {
            DiscoveryLookup::Found(d) => {
                self.discovery = Some(d);
                None
            },
            DiscoveryLookup::Missing => {
                self.discovery = None;
                if has_star(&cell, uni_seed) {
                    Some(auto_discovery(cell))
                } else {
                    None
                }
            },
            DiscoveryLookup::Failed => {
                self.discovery = None;
                None
            },
        }
    }

    /// The automatic entry was stored (`saved`) or storing it failed: a
    /// stored entry is shown, a failed one is not.
    pub fn record_auto_discovery(&mut self, entry: DiscoveredWorld, saved: bool)
        ensures
            final(self).cell == old(self).cell,
            final(self).is_dirty == old(self).is_dirty,
            saved ==> final(self).discovery == Some(entry),
            !saved ==> final(self).discovery is None,
    {
        if saved {
            self.discovery = Some(entry);
        } else {
            self.discovery = None;
        }
    }
}

/// The scenario whose origin sector is seeded with the real solar system.
pub open spec fn is_our_system(scenario: Seq<char>) -> bool {
    scenario == "our_system"@
}

/// Whether the scenario asks for the predefined solar system, so that the
/// origin sector must be looked up and seeded if absent.
pub fn wants_predefined_system(scenario: &str) -> (result: bool)
    ensures
        result == is_our_system(scenario@),
{
    str_eq(scenario, "our_system")
}

/// Whether the predefined system must be written: the scenario asks for
/// it and the origin sector is not stored yet.
pub fn needs_predefined_seed(scenario: &str, origin_sector_stored: bool) -> (result: bool)
    ensures
        result == (is_our_system(scenario@) && !origin_sector_stored),
{
    wants_predefined_system(scenario) && !origin_sector_stored
}

/// The scenario in which the player starts beside Jupiter and nothing is saved.
pub open spec fn is_jupiter(scenario: Seq<char>) -> bool {
    scenario == "jupiter"@
}

/// Whether the player's state is saved periodically: never in the Jupiter
/// scenario.
pub fn saves_player_state(scenario: &str) -> (result: bool)
    ensures
        result == !is_jupiter(scenario@),
{
    !str_eq(scenario, "jupiter")
}

/// Launch choices that decide where the player spawns.
#[derive(Debug)]
pub struct PersistenceConfig {
    pub scenario: String,
    pub force_origin: bool,
    pub star_override: Option<StarType>,
    pub planet_override: Option<PlanetType>,
}

/// Where the player starts.
#[derive(Clone, Copy, Debug, PartialEq, Eq, Structural)]
pub enum SpawnPlan {
    /// At the origin, outside a star of the forced kind.
    StarOverride(StarType),
    /// At the origin, near a planet of the forced kind.
    PlanetOverride(PlanetType),
    /// At the origin cell's centre.
    Origin,
    /// In front of Jupiter.
    Jupiter,
    /// From the saved state, if any.
    Saved,
}

/// Where the player starts, given the launch choices.
pub open spec fn spawn_plan_spec(c: PersistenceConfig) -> SpawnPlan {
    if c.force_origin || c.star_override is Some {
        match c.star_override {
            Some(t) => SpawnPlan::StarOverride(t),
            None => match c.planet_override {
                Some(p) => SpawnPlan::PlanetOverride(p),
                None => SpawnPlan::Origin,
            },
        }
    } else if is_jupiter(c.scenario@) {
        SpawnPlan::Jupiter
    } else {
        SpawnPlan::Saved
    }
}

impl PersistenceConfig {
    /// Where the player starts: a forced origin or star override puts the
    /// player at the origin (beside the forced star or planet if any); the
    /// Jupiter scenario starts in front of Jupiter; otherwise the saved
    /// state decides.
    pub fn spawn_plan(&self) -> (result: SpawnPlan)
        ensures
            result == spawn_plan_spec(*self),
    {
        if self.force_origin || self.star_override.is_some() {
            match self.star_override {
                Some(t) => SpawnPlan::StarOverride(t),
                None => match self.planet_override {
                    Some(p) => SpawnPlan::PlanetOverride(p),
                    None => SpawnPlan::Origin,
                },
            }
        } else if str_eq(self.scenario.as_str(), "jupiter") {
            SpawnPlan::Jupiter
        } else {
            SpawnPlan::Saved
        }
    }
}

impl PersistenceConfig {
    /// A jump from the terminal: the origin's star kind is forced to
    /// `star_type` from now on; nothing else changes.
    pub fn apply_jump(&mut self, star_type: StarType)
        ensures
            final(self).star_override == Some(star_type),
            final(self).scenario@ == old(self).scenario@,
            final(self).force_origin == old(self).force_origin,
            final(self).planet_override == old(self).planet_override,
    {
        self.star_override = Some(star_type);
    }
}

/// Once a star kind is forced (as after a jump), the player is placed by
/// that override, and the origin sector is generated afresh with it: it is
/// neither read from nor written to the store, whatever the store holds.
pub proof fn lemma_jump_regenerates_origin(config: PersistenceConfig, star_type: StarType, read: StoreRead)
    requires
        config.star_override == Some(star_type),
    ensures
        spawn_plan_spec(config) == SpawnPlan::StarOverride(star_type),
        !sector_uses_store_spec(SectorIndex { x: 0, y: 0, z: 0 }, true, config.planet_override is Some),
        sector_step_spec(SectorIndex { x: 0, y: 0, z: 0 }, true, config.planet_override is Some, read)
            == SectorStep::Generate,
{
}


/// Longest time, in seconds, over which a saved ship drifts (one week).
pub const MAX_DRIFT_SECONDS: i64 = 604800;

/// How long a loaded ship drifts: the time since it was saved, clamped to
/// between zero and a week.
pub fn drift_seconds(now: i64, saved_at: i64) -> (result: i64)
    requires
        i64::MIN <= now - saved_at <= i64::MAX,
    ensures
        result == (if now - saved_at < 0 {
            0
        } else if now - saved_at > MAX_DRIFT_SECONDS {
            MAX_DRIFT_SECONDS as int
        } else {
            now - saved_at
        }),
        0 <= result <= MAX_DRIFT_SECONDS,
{
    let delta = now - saved_at;
    if delta < 0 {
        0
    } else if delta > MAX_DRIFT_SECONDS {
        MAX_DRIFT_SECONDS
    } else {
        delta
    }
}

} // verus!
