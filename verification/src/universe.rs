//! The procedural universe: cells, sectors, star and planet kinds.
pub mod spawner;
pub mod star_common;
pub mod terrain;

use crate::text::{eq_ignore_ascii_case, eq_ignore_ascii_case_spec};
use vstd::prelude::*;

verus! {

/// Number of grid cells along each edge of a sector.
pub const SECTOR_SIZE: i64 = 10;

/// A cell of the floating-origin grid, addressed by integers.
#[derive(Clone, Copy, Debug, PartialEq, Eq, Hash, Structural)]
pub struct GridCell {
    pub x: i64,
    pub y: i64,
    pub z: i64,
}

impl GridCell {
    /// The cell at the given coordinates.
    pub fn new(x: i64, y: i64, z: i64) -> (result: GridCell)
        ensures
            result == (GridCell { x, y, z }),
    {
        GridCell { x, y, z }
    }

    /// The cell at the given coordinates.
    pub open spec fn new_spec(x: i64, y: i64, z: i64) -> GridCell {
        GridCell { x, y, z }
    }

    /// Whether this is the origin cell (0, 0, 0).
    pub open spec fn is_origin_spec(self) -> bool {
        self.x == 0 && self.y == 0 && self.z == 0
    }

    /// Whether this is the origin cell (0, 0, 0).
    pub fn is_origin(&self) -> (result: bool)
        ensures
            result == self.is_origin_spec(),
    {
        self.x == 0 && self.y == 0 && self.z == 0
    }
}

/// The seed of the whole universe.
#[derive(Clone, Copy, Debug, PartialEq, Eq, Structural)]
pub struct UniverseSeed(pub u64);

/// How planets are textured: generated per pixel on the GPU, or baked once.
#[derive(Clone, Copy, Debug, PartialEq, Eq, Structural)]
pub enum RenderMode {
    Procedural,
    Baked,
}

impl Default for RenderMode {
    fn default() -> (result: RenderMode)
        ensures
            result == RenderMode::Baked,
    {
        RenderMode::Baked
    }
}

/// The scenario being played and the seed in use.
#[derive(Debug)]
pub struct UniverseConfig {
    pub scenario_name: String,
    pub active_seed: u64,
}

/// The index of a sector, a cube of `SECTOR_SIZE` cells along each edge.
#[derive(Clone, Copy, Debug, PartialEq, Eq, Hash, Structural)]
pub struct SectorIndex {
    pub x: i64,
    pub y: i64,
    pub z: i64,
}

/// The sector that holds a cell: each coordinate divided by the sector size,
/// rounding toward negative infinity.
pub open spec fn sector_of(cell: GridCell) -> SectorIndex {
    SectorIndex {
        x: (cell.x / SECTOR_SIZE) as i64,
        y: (cell.y / SECTOR_SIZE) as i64,
        z: (cell.z / SECTOR_SIZE) as i64,
    }
}

fn div_sector(v: i64) -> (result: i64)
    ensures
        result == v / SECTOR_SIZE,
{
    match v.checked_div_euclid(SECTOR_SIZE) {
        Some(q) => q,
        None => {
            assert(i64::MIN <= v / SECTOR_SIZE <= i64::MAX) by (nonlinear_arith)
                requires
                    i64::MIN <= v <= i64::MAX,
            ;
            0
        },
    }
}

impl SectorIndex {
    /// The sector that holds the given cell (Euclidean division of each
    /// coordinate by `SECTOR_SIZE`).
    pub fn from_cell(cell: GridCell) -> (result: SectorIndex)
        ensures
            result == sector_of(cell),
    {
        SectorIndex { x: div_sector(cell.x), y: div_sector(cell.y), z: div_sector(cell.z) }
    }
}

/// Kinds of stars.
#[derive(Clone, Copy, Debug, PartialEq, Eq, Hash, Structural)]
pub enum StarType {
    BlueGiant,
    YellowDwarf,
    RedDwarf,
}

/// The name under which a star kind is written and looked up.
pub open spec fn star_type_name(t: StarType) -> Seq<char> {
    match t {
        StarType::BlueGiant => "BlueGiant"@,
        StarType::YellowDwarf => "YellowDwarf"@,
        StarType::RedDwarf => "RedDwarf"@,
    }
}

/// The star kind named by `s`, ASCII case ignored.
pub open spec fn star_type_named(s: Seq<char>) -> Option<StarType> {
    if eq_ignore_ascii_case_spec(s, "BlueGiant"@) {
        Some(StarType::BlueGiant)
    } else if eq_ignore_ascii_case_spec(s, "YellowDwarf"@) {
        Some(StarType::YellowDwarf)
    } else if eq_ignore_ascii_case_spec(s, "RedDwarf"@) {
        Some(StarType::RedDwarf)
    } else {
        None
    }
}

impl StarType {
    /// The kind's name, as its `Debug` form writes it.
    pub fn name(&self) -> (result: &'static str)
        ensures
            result@ == star_type_name(*self),
    {
        match self {
            StarType::BlueGiant => "BlueGiant",
            StarType::YellowDwarf => "YellowDwarf",
            StarType::RedDwarf => "RedDwarf",
        }
    }

    /// The star kind whose name matches `s`, ASCII case ignored.
    pub fn from_str(s: &str) -> (result: Option<StarType>)
        ensures
            result == star_type_named(s@),
            result matches Some(t) ==> eq_ignore_ascii_case_spec(s@, star_type_name(t)),
            result is None ==> forall|t: StarType| !eq_ignore_ascii_case_spec(s@, #[trigger] star_type_name(t)),
    {
        if eq_ignore_ascii_case(s, StarType::BlueGiant.name()) {
            Some(StarType::BlueGiant)
        } else if eq_ignore_ascii_case(s, StarType::YellowDwarf.name()) {
            Some(StarType::YellowDwarf)
        } else if eq_ignore_ascii_case(s, StarType::RedDwarf.name()) {
            Some(StarType::RedDwarf)
        } else {
            proof {
                assert forall|t: StarType| !eq_ignore_ascii_case_spec(s@, #[trigger] star_type_name(t)) by {
                    match t {
                        StarType::BlueGiant => {},
                        StarType::YellowDwarf => {},
                        StarType::RedDwarf => {},
                    }
                }
            }
            None
        }
    }
}

/// Kinds of planets.
#[derive(Clone, Copy, Debug, PartialEq, Eq, Hash, Structural)]
pub enum PlanetType {
    Terran,
    Ice,
    Magma,
    GasGiant,
}

impl Default for PlanetType {
    fn default() -> (result: PlanetType)
        ensures
            result == PlanetType::Terran,
    {
        PlanetType::Terran
    }
}

/// The name under which a planet kind is written and looked up.
pub open spec fn planet_type_name(t: PlanetType) -> Seq<char> {
    match t {
        PlanetType::Terran => "Terran"@,
        PlanetType::Ice => "Ice"@,
        PlanetType::Magma => "Magma"@,
        PlanetType::GasGiant => "GasGiant"@,
    }
}

/// The survey line shown for a planet kind.
pub open spec fn planet_description(t: PlanetType) -> Seq<char> {
    match t {
        PlanetType::Terran => "Class: Terran | Atmos: N2/O2 | Gravity: 1.0g"@,
        PlanetType::Ice => "Class: Frozen | Atmos: Thin CO2 | Gravity: 0.6g"@,
        PlanetType::Magma => "Class: Volcanic | Atmos: S02 | Gravity: 0.9g"@,
        PlanetType::GasGiant => "Class: Gas Giant | Atmos: H2/He | Gravity: 4.5g"@,
    }
}

/// The planet kind named by `s`, ASCII case ignored.
pub open spec fn planet_type_named(s: Seq<char>) -> Option<PlanetType> {
    if eq_ignore_ascii_case_spec(s, "Terran"@) {
        Some(PlanetType::Terran)
    } else if eq_ignore_ascii_case_spec(s, "Ice"@) {
        Some(PlanetType::Ice)
    } else if eq_ignore_ascii_case_spec(s, "Magma"@) {
        Some(PlanetType::Magma)
    } else if eq_ignore_ascii_case_spec(s, "GasGiant"@) {
        Some(PlanetType::GasGiant)
    } else {
        None
    }
}

impl PlanetType {
    /// The kind's name, as its `Debug` form writes it.
    pub fn name(&self) -> (result: &'static str)
        ensures
            result@ == planet_type_name(*self),
    {
        match self {
            PlanetType::Terran => "Terran",
            PlanetType::Ice => "Ice",
            PlanetType::Magma => "Magma",
            PlanetType::GasGiant => "GasGiant",
        }
    }

    /// The survey line shown in the console for this kind of planet.
    pub fn description(&self) -> (result: String)
        ensures
            result@ == planet_description(*self),
    {
        let s: &str = match self {
            PlanetType::Terran => "Class: Terran | Atmos: N2/O2 | Gravity: 1.0g",
            PlanetType::Ice => "Class: Frozen | Atmos: Thin CO2 | Gravity: 0.6g",
            PlanetType::Magma => "Class: Volcanic | Atmos: S02 | Gravity: 0.9g",
            PlanetType::GasGiant => "Class: Gas Giant | Atmos: H2/He | Gravity: 4.5g",
        };
        s.to_string()
    }

    /// The planet kind whose name matches `s`, ASCII case ignored.
    pub fn from_str(s: &str) -> (result: Option<PlanetType>)
        ensures
            result == planet_type_named(s@),
            result matches Some(t) ==> eq_ignore_ascii_case_spec(s@, planet_type_name(t)),
            result is None ==> forall|t: PlanetType| !eq_ignore_ascii_case_spec(s@, #[trigger] planet_type_name(t)),
    {
        if eq_ignore_ascii_case(s, PlanetType::Terran.name()) {
            Some(PlanetType::Terran)
        } else if eq_ignore_ascii_case(s, PlanetType::Ice.name()) {
            Some(PlanetType::Ice)
        } else if eq_ignore_ascii_case(s, PlanetType::Magma.name()) {
            Some(PlanetType::Magma)
        } else if eq_ignore_ascii_case(s, PlanetType::GasGiant.name()) {
            Some(PlanetType::GasGiant)
        } else {
            proof {
                assert forall|t: PlanetType| !eq_ignore_ascii_case_spec(s@, #[trigger] planet_type_name(t)) by {
                    match t {
                        PlanetType::Terran => {},
                        PlanetType::Ice => {},
                        PlanetType::Magma => {},
                        PlanetType::GasGiant => {},
                    }
                }
            }
            None
        }
    }
}

/// A planet's kind, attached to a planet.
#[derive(Clone, Copy, Debug, PartialEq, Eq, Structural)]
pub struct PlanetDetails(pub PlanetType);

} // verus!
