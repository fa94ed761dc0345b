//! Which sectors and star systems exist around the camera: the cells of a
//! sector, the sectors to generate, the level of detail of each sector in
//! view, and which spawned systems are far enough away to be removed.
use crate::persistence::{default_planet_name, default_system_name, planet_default_name, system_default_name};
use crate::universe::star_common::{star_exists, star_exists_spec};
use std::collections::hash_map::DefaultHasher;
use std::hash::{BuildHasher, BuildHasherDefault};
use rand::{Rng, SeedableRng};
use crate::text::{concat_str, str_eq};
use crate::universe::{sector_of, GridCell, PlanetType, SectorIndex, StarType, SECTOR_SIZE};
use std::collections::HashMap;
use vstd::prelude::*;

verus! {

/// The position of the `i`-th point of a cube of `side` points per edge,
/// enumerated with the first coordinate outermost and the last innermost.
pub open spec fn cube_offset(i: int, side: int) -> (int, int, int) {
    ((i / side) / side, (i / side) % side, i % side)
}

/// The number of points in a cube of `side` points per edge.
pub open spec fn cube_len(side: int) -> int {
    side * side * side
}

proof fn lemma_cube_offset_bounds(i: int, side: int)
    requires
        side > 0,
        0 <= i < cube_len(side),
    ensures
        0 <= cube_offset(i, side).0 < side,
        0 <= cube_offset(i, side).1 < side,
        0 <= cube_offset(i, side).2 < side,
{
    vstd::arithmetic::div_mod::lemma_div_pos_is_pos(i, side);
    vstd::arithmetic::div_mod::lemma_div_pos_is_pos(i / side, side);
    assert(i < side * (side * side)) by (nonlinear_arith)
        requires
            i < side * side * side,
    ;
    vstd::arithmetic::div_mod::lemma_multiply_divide_lt(i, side, side * side);
    vstd::arithmetic::div_mod::lemma_multiply_divide_lt(i / side, side, side);
    vstd::arithmetic::div_mod::lemma_mod_bound(i, side);
    vstd::arithmetic::div_mod::lemma_div_pos_is_pos(i, side);
    vstd::arithmetic::div_mod::lemma_mod_bound(i / side, side);
}

proof fn lemma_cube_offset_of(a: int, b: int, c: int, side: int)
    requires
        side > 0,
        0 <= a < side,
        0 <= b < side,
        0 <= c < side,
    ensures
        0 <= (a * side + b) * side + c < cube_len(side),
        cube_offset((a * side + b) * side + c, side) == (a, b, c),
{
    let i = (a * side + b) * side + c;
    vstd::arithmetic::div_mod::lemma_fundamental_div_mod_converse(i, side, a * side + b, c);
    vstd::arithmetic::div_mod::lemma_fundamental_div_mod_converse(a * side + b, side, a, b);
    assert(0 <= i < side * side * side) by (nonlinear_arith)
        requires
            side > 0,
            0 <= a < side,
            0 <= b < side,
            0 <= c < side,
            i == (a * side + b) * side + c,
    ;
}

/// The points of a cube of `side` points per edge starting at `base`, in
/// enumeration order. At most 1000 points per edge keeps the count, at most
/// 10^9, within 32 bits.
fn cube_points(bx: i64, by: i64, bz: i64, side: i64) -> (result: Vec<(i64, i64, i64)>)
    requires
        0 < side <= 1000,
        bx + side <= i64::MAX,
        by + side <= i64::MAX,
        bz + side <= i64::MAX,
    ensures
        result@.len() == cube_len(side as int),
        forall|i: int|
            0 <= i < result@.len() ==> #[trigger] result@[i] == (
                (bx + cube_offset(i, side as int).0) as i64,
                (by + cube_offset(i, side as int).1) as i64,
                (bz + cube_offset(i, side as int).2) as i64,
            ),
{
    assert(0 < side * side <= 1_000_000 && 0 < side * side * side <= 1_000_000_000) by (nonlinear_arith)
        requires
            0 < side <= 1000,
    ;
    let total: i64 = side * side * side;
    assert(total == cube_len(side as int)) by (nonlinear_arith)
        requires
            total == side * side * side,
    ;
    let mut out: Vec<(i64, i64, i64)> = Vec::new();
    let mut i: i64 = 0;
    while i < total
        invariant
            0 < side <= 1000,
            bx + side <= i64::MAX,
            by + side <= i64::MAX,
            bz + side <= i64::MAX,
            total == cube_len(side as int),
            0 <= i <= total,
            out@.len() == i,
            forall|k: int|
                0 <= k < i ==> #[trigger] out@[k] == (
                    (bx + cube_offset(k, side as int).0) as i64,
                    (by + cube_offset(k, side as int).1) as i64,
                    (bz + cube_offset(k, side as int).2) as i64,
                ),
        decreases total - i,
    {
        proof {
            lemma_cube_offset_bounds(i as int, side as int);
        }
        let a = (i / side) / side;
        let b = (i / side) % side;
        let c = i % side;
        out.push((bx + a, by + b, bz + c));
        i = i + 1;
    }
    out
}

/// The `i`-th cell of a sector, in generation order.
pub open spec fn sector_cell(sector: SectorIndex, i: int) -> GridCell {
    let o = cube_offset(i, SECTOR_SIZE as int);
    GridCell {
        x: (sector.x * SECTOR_SIZE + o.0) as i64,
        y: (sector.y * SECTOR_SIZE + o.1) as i64,
        z: (sector.z * SECTOR_SIZE + o.2) as i64,
    }
}

/// Whether every cell of the sector has coordinates that fit in 64 bits.
pub open spec fn sector_in_range(sector: SectorIndex) -> bool {
    &&& i64::MIN <= sector.x * SECTOR_SIZE
    &&& sector.x * SECTOR_SIZE + SECTOR_SIZE <= i64::MAX
    &&& i64::MIN <= sector.y * SECTOR_SIZE
    &&& sector.y * SECTOR_SIZE + SECTOR_SIZE <= i64::MAX
    &&& i64::MIN <= sector.z * SECTOR_SIZE
    &&& sector.z * SECTOR_SIZE + SECTOR_SIZE <= i64::MAX
}

/// The cells of a sector, in the order in which stars are generated:
/// x outermost, then y, then z.
pub fn sector_cells(sector: SectorIndex) -> (result: Vec<GridCell>)
    requires
        sector_in_range(sector),
    ensures
        result@.len() == 1000,
        forall|i: int| 0 <= i < 1000 ==> #[trigger] result@[i] == sector_cell(sector, i),
{
    let points = cube_points(
        sector.x * SECTOR_SIZE,
        sector.y * SECTOR_SIZE,
        sector.z * SECTOR_SIZE,
        SECTOR_SIZE,
    );
    assert(cube_len(10) == 1000);
    let mut out: Vec<GridCell> = Vec::new();
    let mut i: usize = 0;
    while i < points.len()
        invariant
            points@.len() == 1000,
            sector_in_range(sector),
            forall|k: int|
                0 <= k < 1000 ==> #[trigger] points@[k] == (
                    (sector.x * SECTOR_SIZE + cube_offset(k, 10).0) as i64,
                    (sector.y * SECTOR_SIZE + cube_offset(k, 10).1) as i64,
                    (sector.z * SECTOR_SIZE + cube_offset(k, 10).2) as i64,
                ),
            i <= 1000,
            out@.len() == i,
            forall|k: int| 0 <= k < i ==> #[trigger] out@[k] == sector_cell(sector, k),
        decreases 1000 - i,
    {
        let (x, y, z) = points[i];
        out.push(GridCell { x, y, z });
        i = i + 1;
    }
    out
}

/// Every cell that `sector_cells` lists lies in that sector.
pub proof fn lemma_sector_cells_belong(sector: SectorIndex, i: int)
    requires
        sector_in_range(sector),
        0 <= i < 1000,
    ensures
        sector_of(sector_cell(sector, i)) == sector,
{
    assert(cube_len(10) == 1000);
    lemma_cube_offset_bounds(i, 10);
    let o = cube_offset(i, 10);
    vstd::arithmetic::div_mod::lemma_fundamental_div_mod_converse(sector.x * 10 + o.0, 10, sector.x as int, o.0);
    vstd::arithmetic::div_mod::lemma_fundamental_div_mod_converse(sector.y * 10 + o.1, 10, sector.y as int, o.1);
    vstd::arithmetic::div_mod::lemma_fundamental_div_mod_converse(sector.z * 10 + o.2, 10, sector.z as int, o.2);
}

/// Every cell of a sector is listed by `sector_cells`: the cell at offset
/// (dx, dy, dz) from the sector's corner is entry (dx * 10 + dy) * 10 + dz.
pub proof fn lemma_sector_cells_complete(cell: GridCell)
    requires
        sector_in_range(sector_of(cell)),
    ensures
        ({
            let s = sector_of(cell);
            let i = ((cell.x % SECTOR_SIZE) * 10 + cell.y % SECTOR_SIZE) * 10 + cell.z % SECTOR_SIZE;
            0 <= i < 1000 && sector_cell(s, i) == cell
        }),
{
    let s = sector_of(cell);
    let a = cell.x % 10;
    let b = cell.y % 10;
    let c = cell.z % 10;
    vstd::arithmetic::div_mod::lemma_fundamental_div_mod(cell.x as int, 10);
    vstd::arithmetic::div_mod::lemma_fundamental_div_mod(cell.y as int, 10);
    vstd::arithmetic::div_mod::lemma_fundamental_div_mod(cell.z as int, 10);
    vstd::arithmetic::div_mod::lemma_mod_bound(cell.x as int, 10);
    vstd::arithmetic::div_mod::lemma_mod_bound(cell.y as int, 10);
    vstd::arithmetic::div_mod::lemma_mod_bound(cell.z as int, 10);
    lemma_cube_offset_of(a as int, b as int, c as int, 10);
    assert(cube_len(10) == 1000);
}

/// The cells of a sector where the spawner places a star, in generation
/// order.
pub open spec fn sector_stars_spec(sector: SectorIndex, uni_seed: u64) -> Seq<GridCell> {
    Seq::new(1000, |i: int| sector_cell(sector, i)).filter(
        |c: GridCell| star_exists_spec(c.x, c.y, c.z, uni_seed),
    )
}

/// The cells of a sector that hold a star, in generation order.
pub fn sector_star_cells(sector: SectorIndex, uni_seed: u64) -> (result: Vec<GridCell>)
    requires
        sector_in_range(sector),
    ensures
        result@ == sector_stars_spec(sector, uni_seed),
{
    let cells = sector_cells(sector);
    let ghost all = Seq::new(1000, |i: int| sector_cell(sector, i));
    let ghost pred = |c: GridCell| star_exists_spec(c.x, c.y, c.z, uni_seed);
    assert(cells@ =~= all);
    let mut out: Vec<GridCell> = Vec::new();
    let mut i: usize = 0;
    assert(all.subrange(0, 0).filter(pred) =~= Seq::<GridCell>::empty()) by {
        reveal_with_fuel(Seq::filter, 1);
    }
    while i < cells.len()
        invariant
            cells@ == all,
            i <= cells.len(),
            out@ == all.subrange(0, i as int).filter(pred),
            pred == (|c: GridCell| star_exists_spec(c.x, c.y, c.z, uni_seed)),
        decreases cells.len() - i,
    {
        let c = cells[i];
        assert(all.subrange(0, i + 1).drop_last() =~= all.subrange(0, i as int));
        assert(all.subrange(0, i + 1).last() == c);
        proof {
            reveal_with_fuel(Seq::filter, 1);
        }
        if star_exists(c.x, c.y, c.z, uni_seed) {
            out.push(c);
        }
        i = i + 1;
    }
    assert(all.subrange(0, 1000) =~= all);
    out
}

/// A cell holds a star exactly when the spawner lists it among the stars of
/// its own sector.
pub proof fn lemma_star_exists_iff_listed(cell: GridCell, uni_seed: u64)
    requires
        sector_in_range(sector_of(cell)),
    ensures
        star_exists_spec(cell.x, cell.y, cell.z, uni_seed) <==> sector_stars_spec(sector_of(cell), uni_seed).contains(
            cell,
        ),
{
    let s = sector_of(cell);
    let all = Seq::new(1000, |i: int| sector_cell(s, i));
    let pred = |c: GridCell| star_exists_spec(c.x, c.y, c.z, uni_seed);
    lemma_sector_cells_complete(cell);
    let k = ((cell.x % SECTOR_SIZE) * 10 + cell.y % SECTOR_SIZE) * 10 + cell.z % SECTOR_SIZE;
    assert(all[k] == cell);
    all.filter_lemma(pred);
    if sector_stars_spec(s, uni_seed).contains(cell) {
        let j = choose|j: int| 0 <= j < all.filter(pred).len() && all.filter(pred)[j] == cell;
        assert(pred(all.filter(pred)[j]));
    }
}

/// The largest absolute coordinate difference (Chebyshev distance).
pub open spec fn chebyshev(dx: int, dy: int, dz: int) -> int {
    let ax = if dx < 0 { -dx } else { dx };
    let ay = if dy < 0 { -dy } else { dy };
    let az = if dz < 0 { -dz } else { dz };
    if ax >= ay && ax >= az {
        ax
    } else if ay >= az {
        ay
    } else {
        az
    }
}

/// Whether `a - b` can be computed and its absolute value taken in 64 bits.
pub open spec fn diff_fits(a: i64, b: i64) -> bool {
    i64::MIN < a - b <= i64::MAX
}

fn chebyshev_exec(dx: i64, dy: i64, dz: i64) -> (result: i64)
    requires
        dx > i64::MIN,
        dy > i64::MIN,
        dz > i64::MIN,
    ensures
        result == chebyshev(dx as int, dy as int, dz as int),
{
    let ax = if dx < 0 { -dx } else { dx };
    let ay = if dy < 0 { -dy } else { dy };
    let az = if dz < 0 { -dz } else { dz };
    if ax >= ay && ax >= az {
        ax
    } else if ay >= az {
        ay
    } else {
        az
    }
}

/// Radius, in sectors, of the neighbourhood whose star data is generated.
pub const GENERATION_RADIUS: i64 = 1;

/// Radius, in sectors, within which stars are spawned in full detail.
pub const DETAIL_RADIUS: i64 = 1;

/// Radius, in sectors, of the area drawn at all.
pub const VIEW_RADIUS: i64 = 5;

/// Distance, in cells, beyond which a fully spawned system is removed.
pub const FULL_RADIUS: i64 = 20;

/// Distance, in sectors, beyond which a distant GPU sector is removed.
pub const GPU_RADIUS: i64 = 8;

/// The `i`-th sector of the neighbourhood of radius `r` around `center`, in
/// iteration order (x offset outermost, from -r to r).
pub open spec fn neighbour(center: SectorIndex, r: int, i: int) -> SectorIndex {
    let o = cube_offset(i, 2 * r + 1);
    SectorIndex {
        x: (center.x - r + o.0) as i64,
        y: (center.y - r + o.1) as i64,
        z: (center.z - r + o.2) as i64,
    }
}

/// Whether every sector within `r` of `center` has coordinates that fit.
pub open spec fn neighbourhood_in_range(center: SectorIndex, r: int) -> bool {
    &&& i64::MIN <= center.x - r
    &&& center.x + r + 1 <= i64::MAX
    &&& i64::MIN <= center.y - r
    &&& center.y + r + 1 <= i64::MAX
    &&& i64::MIN <= center.z - r
    &&& center.z + r + 1 <= i64::MAX
}

/// The sectors within `r` of `center` (Chebyshev distance), in the order in
/// which the spawner visits them. The radius is at most 499, so that the
/// cube has at most 999 sectors along each edge and at most 999^3 in all,
/// a count that fits in 32 bits.
pub fn sector_neighbourhood(center: SectorIndex, r: i64) -> (result: Vec<SectorIndex>)
    requires
        0 <= r <= 499,
        neighbourhood_in_range(center, r as int),
    ensures
        result@.len() == cube_len(2 * r + 1),
        forall|i: int| 0 <= i < result@.len() ==> #[trigger] result@[i] == neighbour(center, r as int, i),
{
    let side = 2 * r + 1;
    let points = cube_points(center.x - r, center.y - r, center.z - r, side);
    let mut out: Vec<SectorIndex> = Vec::new();
    let mut i: usize = 0;
    while i < points.len()
        invariant
            points@.len() == cube_len(side as int),
            side == 2 * r + 1,
            forall|k: int|
                0 <= k < points@.len() ==> #[trigger] points@[k] == (
                    (center.x - r + cube_offset(k, side as int).0) as i64,
                    (center.y - r + cube_offset(k, side as int).1) as i64,
                    (center.z - r + cube_offset(k, side as int).2) as i64,
                ),
            i <= points.len(),
            out@.len() == i,
            forall|k: int| 0 <= k < i ==> #[trigger] out@[k] == neighbour(center, r as int, k),
        decreases points.len() - i,
    {
        let (x, y, z) = points[i];
        out.push(SectorIndex { x, y, z });
        i = i + 1;
    }
    out
}


/// The offset of the `i`-th neighbour from the centre.
pub open spec fn neighbour_offset(r: int, i: int) -> (int, int, int) {
    let o = cube_offset(i, 2 * r + 1);
    (o.0 - r, o.1 - r, o.2 - r)
}

/// Every listed neighbour lies within `r` of the centre, and its offset
/// is the one `neighbour_offset` gives.
pub proof fn lemma_neighbour_within(center: SectorIndex, r: int, i: int)
    requires
        0 <= r,
        neighbourhood_in_range(center, r),
        0 <= i < cube_len(2 * r + 1),
    ensures
        ({
            let o = neighbour_offset(r, i);
            let s = neighbour(center, r, i);
            &&& -r <= o.0 <= r
            &&& -r <= o.1 <= r
            &&& -r <= o.2 <= r
            &&& s.x == center.x + o.0
            &&& s.y == center.y + o.1
            &&& s.z == center.z + o.2
            &&& chebyshev(o.0, o.1, o.2) <= r
        }),
{
    lemma_cube_offset_bounds(i, 2 * r + 1);
}

/// How a sector in view is drawn.
#[derive(Clone, Copy, Debug, PartialEq, Eq, Structural)]
pub enum SectorLod {
    /// Every star system of the sector is spawned as entities.
    Full,
    /// The sector is drawn by the GPU star renderer.
    Distant,
}

/// The level of detail for a sector at the given offset from the camera's
/// sector: full detail within `DETAIL_RADIUS`, distant beyond.
pub open spec fn lod_for(dx: int, dy: int, dz: int) -> SectorLod {
    if chebyshev(dx, dy, dz) <= DETAIL_RADIUS {
        SectorLod::Full
    } else {
        SectorLod::Distant
    }
}

/// Every sector within `VIEW_RADIUS` of the camera's sector, each with the
/// level of detail in which it is drawn, in the order the view is updated.
pub fn view_plan(center: SectorIndex) -> (result: Vec<(SectorIndex, SectorLod)>)
    requires
        neighbourhood_in_range(center, VIEW_RADIUS as int),
    ensures
        result@.len() == cube_len(2 * VIEW_RADIUS + 1),
        forall|i: int|
            0 <= i < result@.len() ==> #[trigger] result@[i] == (
                neighbour(center, VIEW_RADIUS as int, i),
                lod_for(
                    neighbour_offset(VIEW_RADIUS as int, i).0,
                    neighbour_offset(VIEW_RADIUS as int, i).1,
                    neighbour_offset(VIEW_RADIUS as int, i).2,
                ),
            ),
{
    let sectors = sector_neighbourhood(center, VIEW_RADIUS);
    let side: i64 = 2 * VIEW_RADIUS + 1;
    assert(cube_len(11) == 1331);
    let mut out: Vec<(SectorIndex, SectorLod)> = Vec::new();
    let mut i: usize = 0;
    while i < sectors.len()
        invariant
            neighbourhood_in_range(center, VIEW_RADIUS as int),
            side == 2 * VIEW_RADIUS + 1,
            cube_len(11) == 1331,
            sectors@.len() == cube_len(2 * VIEW_RADIUS + 1),
            forall|k: int| 0 <= k < sectors@.len() ==> #[trigger] sectors@[k] == neighbour(center, VIEW_RADIUS as int, k),
            i <= sectors.len(),
            out@.len() == i,
            forall|k: int|
                0 <= k < i ==> #[trigger] out@[k] == (
                    neighbour(center, VIEW_RADIUS as int, k),
                    lod_for(
                        neighbour_offset(VIEW_RADIUS as int, k).0,
                        neighbour_offset(VIEW_RADIUS as int, k).1,
                        neighbour_offset(VIEW_RADIUS as int, k).2,
                    ),
                ),
        decreases sectors.len() - i,
    {
        proof {
            lemma_cube_offset_bounds(i as int, side as int);
        }
        let k = i as i64;
        let dx = (k / side) / side - VIEW_RADIUS;
        let dy = (k / side) % side - VIEW_RADIUS;
        let dz = k % side - VIEW_RADIUS;
        let d = chebyshev_exec(dx, dy, dz);
        let lod = if d <= DETAIL_RADIUS { SectorLod::Full } else { SectorLod::Distant };
        out.push((sectors[i], lod));
        i = i + 1;
    }
    out
}

/// What the view update does for one sector in view.
#[derive(Clone, Copy, Debug, PartialEq, Eq, Structural)]
pub struct ViewAction {
    /// Spawn the sector's GPU star sector.
    pub spawn_gpu_sector: bool,
    /// Spawn the sector's stars in full (those not spawned yet).
    pub spawn_full_stars: bool,
    /// Remove the sector's GPU star sector.
    pub despawn_gpu_sector: bool,
}

/// The view update for a sector drawn at `lod`: a distant sector gets a GPU
/// star sector unless it has one; a full-detail sector whose star data is
/// ready has its stars spawned and its GPU sector, if any, removed; a
/// full-detail sector whose data is not ready is left as it is.
pub open spec fn view_action_spec(lod: SectorLod, gpu_sector_spawned: bool, stars_ready: bool) -> ViewAction {
    match lod {
        SectorLod::Distant => ViewAction {
            spawn_gpu_sector: !gpu_sector_spawned,
            spawn_full_stars: false,
            despawn_gpu_sector: false,
        },
        SectorLod::Full => ViewAction {
            spawn_gpu_sector: false,
            spawn_full_stars: stars_ready,
            despawn_gpu_sector: stars_ready && gpu_sector_spawned,
        },
    }
}

/// Whether the sector has a GPU star sector once the action is done.
pub open spec fn gpu_sector_after(gpu_sector_spawned: bool, a: ViewAction) -> bool {
    (gpu_sector_spawned && !a.despawn_gpu_sector) || a.spawn_gpu_sector
}

/// Decides the view update for one sector in view.
pub fn view_action(lod: SectorLod, gpu_sector_spawned: bool, stars_ready: bool) -> (result: ViewAction)
    ensures
        result == view_action_spec(lod, gpu_sector_spawned, stars_ready),
        lod == SectorLod::Distant ==> gpu_sector_after(gpu_sector_spawned, result),
        lod == SectorLod::Full && stars_ready ==> !gpu_sector_after(gpu_sector_spawned, result),
        !(result.spawn_gpu_sector && result.spawn_full_stars),
        result.spawn_gpu_sector ==> !gpu_sector_spawned,
        result.despawn_gpu_sector ==> gpu_sector_spawned,
        result.spawn_gpu_sector <==> (lod == SectorLod::Distant && !gpu_sector_spawned),
        result.spawn_full_stars <==> (lod == SectorLod::Full && stars_ready),
        result.despawn_gpu_sector <==> (lod == SectorLod::Full && stars_ready && gpu_sector_spawned),
{
    match lod {
        SectorLod::Distant => ViewAction {
            spawn_gpu_sector: !gpu_sector_spawned,
            spawn_full_stars: false,
            despawn_gpu_sector: false,
        },
        SectorLod::Full => ViewAction {
            spawn_gpu_sector: false,
            spawn_full_stars: stars_ready,
            despawn_gpu_sector: stars_ready && gpu_sector_spawned,
        },
    }
}

/// The star cells that are not spawned yet, in order: a full-detail sector
/// spawns each of its stars once.
pub fn unspawned_cells(stars: &Vec<GridCell>, spawned: &Vec<GridCell>) -> (result: Vec<GridCell>)
    ensures
        result@ == stars@.filter(|c: GridCell| !spawned@.contains(c)),
{
    let ghost pred = |c: GridCell| !spawned@.contains(c);
    let mut out: Vec<GridCell> = Vec::new();
    let mut i: usize = 0;
    assert(stars@.subrange(0, 0).filter(pred) =~= Seq::<GridCell>::empty()) by {
        reveal_with_fuel(Seq::filter, 1);
    }
    while i < stars.len()
        invariant
            i <= stars.len(),
            out@ == stars@.subrange(0, i as int).filter(pred),
            pred == (|c: GridCell| !spawned@.contains(c)),
        decreases stars.len() - i,
    {
        let c = stars[i];
        let mut known = false;
        let mut j: usize = 0;
        while j < spawned.len()
            invariant
                j <= spawned.len(),
                known <==> exists|k: int| 0 <= k < j && spawned@[k] == c,
            decreases spawned.len() - j,
        {
            if spawned[j] == c {
                known = true;
            }
            j = j + 1;
        }
        assert(known <==> spawned@.contains(c));
        assert(stars@.subrange(0, i + 1).drop_last() =~= stars@.subrange(0, i as int));
        assert(stars@.subrange(0, i + 1).last() == c);
        proof {
            reveal_with_fuel(Seq::filter, 1);
        }
        if !known {
            out.push(c);
        }
        i = i + 1;
    }
    assert(stars@.subrange(0, stars@.len() as int) =~= stars@);
    out
}

/// Whether a fully spawned system in `cell` stays spawned while the camera
/// is in `camera`: it is removed once it is more than `FULL_RADIUS` cells
/// away along some axis.
pub fn keeps_full_system(cell: GridCell, camera: GridCell) -> (result: bool)
    requires
        diff_fits(cell.x, camera.x),
        diff_fits(cell.y, camera.y),
        diff_fits(cell.z, camera.z),
    ensures
        result == (chebyshev(cell.x - camera.x, cell.y - camera.y, cell.z - camera.z) <= FULL_RADIUS),
{
    chebyshev_exec(cell.x - camera.x, cell.y - camera.y, cell.z - camera.z) <= FULL_RADIUS
}

/// Whether a distant GPU sector stays while the camera is in the sector
/// `center`: it is removed once it is more than `GPU_RADIUS` sectors away
/// along some axis.
pub fn keeps_gpu_sector(sector: SectorIndex, center: SectorIndex) -> (result: bool)
    requires
        diff_fits(sector.x, center.x),
        diff_fits(sector.y, center.y),
        diff_fits(sector.z, center.z),
    ensures
        result == (chebyshev(sector.x - center.x, sector.y - center.y, sector.z - center.z) <= GPU_RADIUS),
{
    chebyshev_exec(sector.x - center.x, sector.y - center.y, sector.z - center.z) <= GPU_RADIUS
}

/// A system in a sector drawn in full detail is never removed as too far
/// away: every cell of a sector within `DETAIL_RADIUS` of the camera's
/// sector is within `FULL_RADIUS` cells of the camera.
pub proof fn lemma_full_detail_systems_are_kept(camera: GridCell, sector: SectorIndex)
    requires
        chebyshev(
            sector.x - sector_of(camera).x,
            sector.y - sector_of(camera).y,
            sector.z - sector_of(camera).z,
        ) <= DETAIL_RADIUS,
        sector_in_range(sector),
    ensures
        forall|i: int|
            0 <= i < 1000 ==> #[trigger] chebyshev(
                sector_cell(sector, i).x - camera.x,
                sector_cell(sector, i).y - camera.y,
                sector_cell(sector, i).z - camera.z,
            ) <= FULL_RADIUS,
{
    vstd::arithmetic::div_mod::lemma_fundamental_div_mod(camera.x as int, 10);
    vstd::arithmetic::div_mod::lemma_fundamental_div_mod(camera.y as int, 10);
    vstd::arithmetic::div_mod::lemma_fundamental_div_mod(camera.z as int, 10);
    vstd::arithmetic::div_mod::lemma_mod_bound(camera.x as int, 10);
    vstd::arithmetic::div_mod::lemma_mod_bound(camera.y as int, 10);
    vstd::arithmetic::div_mod::lemma_mod_bound(camera.z as int, 10);
    assert forall|i: int|
        0 <= i < 1000 implies #[trigger] chebyshev(
            sector_cell(sector, i).x - camera.x,
            sector_cell(sector, i).y - camera.y,
            sector_cell(sector, i).z - camera.z,
        ) <= FULL_RADIUS by {
        assert(cube_len(10) == 1000);
        lemma_cube_offset_bounds(i, 10);
    }
}

/// Sectors in view never fall outside the range in which GPU sectors are
/// kept: `VIEW_RADIUS` is within `GPU_RADIUS`.
pub proof fn lemma_view_sectors_are_kept(center: SectorIndex, i: int)
    requires
        neighbourhood_in_range(center, VIEW_RADIUS as int),
        0 <= i < cube_len(2 * VIEW_RADIUS + 1),
    ensures
        ({
            let s = neighbour(center, VIEW_RADIUS as int, i);
            chebyshev(s.x - center.x, s.y - center.y, s.z - center.z) <= GPU_RADIUS
        }),
{
    lemma_neighbour_within(center, VIEW_RADIUS as int, i);
}

/// The sectors around the camera's sector whose star data must still be
/// generated: those within `GENERATION_RADIUS` that are neither known nor
/// being generated, in visiting order.
pub fn sectors_to_generate(center: SectorIndex, pending: &Vec<SectorIndex>) -> (result: Vec<SectorIndex>)
    requires
        neighbourhood_in_range(center, GENERATION_RADIUS as int),
    ensures
        result@ == Seq::new(cube_len(2 * GENERATION_RADIUS + 1) as nat, |i: int| neighbour(center, GENERATION_RADIUS as int, i))
            .filter(|s: SectorIndex| !pending@.contains(s)),
{
    let around = sector_neighbourhood(center, GENERATION_RADIUS);
    let ghost all = Seq::new(cube_len(2 * GENERATION_RADIUS + 1) as nat, |i: int| neighbour(center, GENERATION_RADIUS as int, i));
    let ghost pred = |s: SectorIndex| !pending@.contains(s);
    assert(around@ =~= all);
    let mut out: Vec<SectorIndex> = Vec::new();
    let mut i: usize = 0;
    assert(all.subrange(0, 0).filter(pred) =~= Seq::<SectorIndex>::empty()) by {
        reveal_with_fuel(Seq::filter, 1);
    }
    while i < around.len()
        invariant
            around@ == all,
            i <= around.len(),
            out@ == all.subrange(0, i as int).filter(pred),
            pred == (|s: SectorIndex| !pending@.contains(s)),
        decreases around.len() - i,
    {
        let s = around[i];
        let mut known = false;
        let mut j: usize = 0;
        while j < pending.len()
            invariant
                j <= pending.len(),
                known <==> exists|k: int| 0 <= k < j && pending@[k] == s,
            decreases pending.len() - j,
        {
            if pending[j] == s {
                known = true;
            }
            j = j + 1;
        }
        assert(known <==> pending@.contains(s));
        assert(all.subrange(0, i + 1).drop_last() =~= all.subrange(0, i as int));
        assert(all.subrange(0, i + 1).last() == s);
        proof {
            reveal_with_fuel(Seq::filter, 1);
        }
        if !known {
            out.push(s);
        }
        i = i + 1;
    }
    assert(all.subrange(0, around.len() as int) =~= all);
    out
}


/// Whether a sector's stars are read from and written to the store: not
/// for the origin sector while a star or planet kind is forced, so that
/// the forced system is never stored.
pub open spec fn sector_uses_store_spec(sector: SectorIndex, star_forced: bool, planet_forced: bool) -> bool {
    !(sector.x == 0 && sector.y == 0 && sector.z == 0 && (star_forced || planet_forced))
}

/// Whether a sector's stars are read from and written to the store.
pub fn sector_uses_store(sector: SectorIndex, star_forced: bool, planet_forced: bool) -> (result: bool)
    ensures
        result == sector_uses_store_spec(sector, star_forced, planet_forced),
        result <==> !(sector == SectorIndex { x: 0, y: 0, z: 0 } && (star_forced || planet_forced)),
{
    !(sector.x == 0 && sector.y == 0 && sector.z == 0 && (star_forced || planet_forced))
}

/// The store's answer when asked for a sector's stars.
#[derive(Clone, Copy, Debug, PartialEq, Eq, Structural)]
pub enum StoreRead {
    /// The sector's stars were read back.
    Found,
    /// The store holds nothing for the sector.
    Missing,
    /// The read failed (the stored data could not be decoded).
    Failed,
}

/// What becomes of a sector whose stars are wanted.
#[derive(Clone, Copy, Debug, PartialEq, Eq, Structural)]
pub enum SectorStep {
    /// Use the stars read from the store.
    UseStored,
    /// Generate the stars from the seed.
    Generate,
    /// Give up on the sector (no stars), so that data that could not be
    /// read is never overwritten.
    GiveUp,
}

/// The step for a sector, given whether a star or planet kind is forced and
/// the store's answer (which is not asked for, and so not looked at, when
/// the sector does not use the store).
pub open spec fn sector_step_spec(sector: SectorIndex, star_forced: bool, planet_forced: bool, read: StoreRead) -> SectorStep {
    if sector_uses_store_spec(sector, star_forced, planet_forced) {
        match read {
            StoreRead::Found => SectorStep::UseStored,
            StoreRead::Missing => SectorStep::Generate,
            StoreRead::Failed => SectorStep::GiveUp,
        }
    } else {
        SectorStep::Generate
    }
}

/// Decides how a sector's stars are obtained.
pub fn sector_step(sector: SectorIndex, star_forced: bool, planet_forced: bool, read: StoreRead) -> (result: SectorStep)
    ensures
        result == sector_step_spec(sector, star_forced, planet_forced, read),
        result == SectorStep::GiveUp ==> read == StoreRead::Failed,
        result == SectorStep::UseStored ==> read == StoreRead::Found && sector_uses_store_spec(
            sector,
            star_forced,
            planet_forced,
        ),
        sector != (SectorIndex { x: 0, y: 0, z: 0 }) ==> result == (match read {
            StoreRead::Found => SectorStep::UseStored,
            StoreRead::Missing => SectorStep::Generate,
            StoreRead::Failed => SectorStep::GiveUp,
        }),
        sector == (SectorIndex { x: 0, y: 0, z: 0 }) && (star_forced || planet_forced) ==> result
            == SectorStep::Generate,
{
    if sector_uses_store(sector, star_forced, planet_forced) {
        match read {
            StoreRead::Found => SectorStep::UseStored,
            StoreRead::Missing => SectorStep::Generate,
            StoreRead::Failed => SectorStep::GiveUp,
        }
    } else {
        SectorStep::Generate
    }
}

/// The kind of the star generated in `cell`: the forced kind at the
/// origin, the drawn kind everywhere else.
pub fn effective_star_type(cell: GridCell, drawn: StarType, forced: Option<StarType>) -> (result: StarType)
    ensures
        result == (if cell.is_origin_spec() && forced is Some {
            forced->0
        } else {
            drawn
        }),
{
    if cell.is_origin() {
        if let Some(t) = forced {
            return t;
        }
    }
    drawn
}

/// The names under which a spawned system is labelled.
#[derive(Debug)]
pub struct SystemNames {
    pub star_name: String,
    pub planet_base_name: String,
    pub is_custom: bool,
}

/// Whether the cell holds the Sun of the solar-system scenario.
pub open spec fn is_sun(cell: GridCell, scenario: Seq<char>) -> bool {
    cell.is_origin_spec() && scenario == "our_system"@
}

/// Whether the registry gives the system a name of its own.
pub open spec fn custom_name(stored: Option<Seq<char>>, cell: GridCell) -> bool {
    stored matches Some(n) && n != default_system_name(cell)
}

/// The names of a system: a registry name other than the default labels
/// both the star and its planets; the Sun of the solar-system scenario is
/// always "The Sun".
pub fn system_names(cell: GridCell, stored: Option<&str>, scenario: &str) -> (result: SystemNames)
    ensures
        result.is_custom == custom_name(
            match stored {
                Some(n) => Some(n@),
                None => None,
            },
            cell,
        ),
        result.planet_base_name@ == (match stored {
            Some(n) => if result.is_custom { n@ } else { default_system_name(cell) },
            None => default_system_name(cell),
        }),
        result.star_name@ == (if is_sun(cell, scenario@) {
            "The Sun"@
        } else {
            result.planet_base_name@
        }),
        !(cell == GridCell { x: 0, y: 0, z: 0 } && scenario@ == "our_system"@) ==> result.star_name@
            == result.planet_base_name@,
        cell == (GridCell { x: 0, y: 0, z: 0 }) && scenario@ == "our_system"@ ==> result.star_name@ == "The Sun"@,
{
    let default_name = system_default_name(cell);
    let mut star_name = system_default_name(cell);
    let mut planet_base_name = system_default_name(cell);
    let mut is_custom = false;
    if let Some(n) = stored {
        if !str_eq(n, default_name.as_str()) {
            star_name = n.to_string();
            planet_base_name = n.to_string();
            is_custom = true;
        }
    }
    if cell.is_origin() && str_eq(scenario, "our_system") {
        star_name = "The Sun".to_string();
    }
    SystemNames { star_name, planet_base_name, is_custom }
}

/// The label of a randomly generated planet: the system's own name with
/// ` (Planet)` for a named system, `P x,y,z` otherwise.
pub fn random_planet_label(names: &SystemNames, cell: GridCell) -> (result: String)
    ensures
        result@ == (if names.is_custom {
            names.planet_base_name@ + " (Planet)"@
        } else {
            default_planet_name(cell)
        }),
{
    if names.is_custom {
        concat_str(names.planet_base_name.as_str(), " (Planet)")
    } else {
        planet_default_name(cell)
    }
}

/// Whether random planets are generated for a system without listed
/// planets: always, except for the Sun of the solar-system scenario.
pub fn spawns_random_planets(has_listed_planets: bool, cell: GridCell, scenario: &str) -> (result: bool)
    ensures
        result == (!has_listed_planets && !is_sun(cell, scenario@)),
        result <==> (!has_listed_planets && !(cell == GridCell { x: 0, y: 0, z: 0 } && scenario@ == "our_system"@)),
{
    !has_listed_planets && !(cell.is_origin() && str_eq(scenario, "our_system"))
}

/// What hashing a cell's three coordinates, in order, with the standard
/// library's `DefaultHasher` gives.
pub uninterp spec fn cell_key_hash(x: i64, y: i64, z: i64) -> u64;

/// `BuildHasher::hash_one` of `(x, y, z)` with a default-built
/// `DefaultHasher`, which feeds the three values to the hasher in order and
/// finishes it. The hasher starts from fixed keys, so the result depends on
/// the arguments alone; which value it is, is left to the name.
#[verifier::external_body]
fn hash_cell_key(x: i64, y: i64, z: i64) -> (result: u64)
    ensures
        result == cell_key_hash(x, y, z),
{
    BuildHasherDefault::<DefaultHasher>::default().hash_one((x, y, z))
}

/// The seed of a system's random planets: the hash of its cell.
pub fn planet_seed(cell: GridCell) -> (result: u64)
    ensures
        result == cell_key_hash(cell.x, cell.y, cell.z),
{
    hash_cell_key(cell.x, cell.y, cell.z)
}

/// What the first draw of `StdRng::seed_from_u64(seed).gen_range(1..=4)`
/// gives: the number of random planets of a system with that seed.
pub uninterp spec fn planet_count_draw(seed: u64) -> u32;

/// `StdRng::seed_from_u64(seed)`, then `Rng::gen_range(1..=4)` on it (as a
/// 32-bit integer). The generator is seeded deterministically, so the value
/// depends on the seed alone; it lies in the range, and which value it is,
/// is left to the name.
#[verifier::external_body]
fn draw_planet_count(seed: u64) -> (result: u32)
    ensures
        result == planet_count_draw(seed),
        1 <= result <= 4,
{
    let n: i32 = rand::rngs::StdRng::seed_from_u64(seed).gen_range(1..=4);
    n as u32
}

/// How many random planets a system gets: for a system without listed
/// planets (and not the Sun of the solar-system scenario), the count drawn
/// from the generator seeded with its cell's hash, between one and four;
/// otherwise none.
pub fn random_planet_count(has_listed_planets: bool, cell: GridCell, scenario: &str) -> (result: u32)
    ensures
        result == (if !has_listed_planets && !is_sun(cell, scenario@) {
            planet_count_draw(cell_key_hash(cell.x, cell.y, cell.z))
        } else {
            0
        }),
        result <= 4,
        (!has_listed_planets && !is_sun(cell, scenario@)) ==> 1 <= result,
        (!has_listed_planets && !(cell == GridCell { x: 0, y: 0, z: 0 } && scenario@ == "our_system"@)) ==> 1
            <= result,
        (has_listed_planets || (cell == GridCell { x: 0, y: 0, z: 0 } && scenario@ == "our_system"@)) ==> result
            == 0,
{
    if spawns_random_planets(has_listed_planets, cell, scenario) {
        draw_planet_count(planet_seed(cell))
    } else {
        0
    }
}

/// The labels of a system's `count` random planets, in spawning order:
/// each is the system's planet label (see `random_planet_label`).
pub fn random_planet_labels(names: &SystemNames, cell: GridCell, count: u32) -> (result: Vec<String>)
    ensures
        result@.len() == count,
        forall|i: int|
            0 <= i < count ==> (#[trigger] result@[i])@ == (if names.is_custom {
                names.planet_base_name@ + " (Planet)"@
            } else {
                default_planet_name(cell)
            }),
{
    let mut out: Vec<String> = Vec::new();
    let mut k: u32 = 0;
    while k < count
        invariant
            k <= count,
            out@.len() == k,
            forall|i: int|
                0 <= i < k ==> (#[trigger] out@[i])@ == (if names.is_custom {
                    names.planet_base_name@ + " (Planet)"@
                } else {
                    default_planet_name(cell)
                }),
        decreases count - k,
    {
        out.push(random_planet_label(names, cell));
        k = k + 1;
    }
    out
}

/// The kind a listed planet is spawned as: the first planet of the origin
/// system takes the forced planet kind, if any.
pub fn effective_planet_type(cell: GridCell, index: usize, listed: PlanetType, forced: Option<PlanetType>) -> (result: PlanetType)
    ensures
        result == (if cell.is_origin_spec() && index == 0 && forced is Some {
            forced->0
        } else {
            listed
        }),
{
    if cell.is_origin() && index == 0 {
        if let Some(p) = forced {
            return p;
        }
    }
    listed
}

/// The shader class of a planet kind: gas giants 1, volcanic worlds 3,
/// everything else 0.
pub open spec fn planet_class_spec(t: PlanetType) -> u32 {
    match t {
        PlanetType::GasGiant => 1,
        PlanetType::Magma => 3,
        _ => 0,
    }
}

/// The shader class of a planet kind.
pub fn planet_class(t: PlanetType) -> (result: u32)
    ensures
        result == planet_class_spec(t),
{
    match t {
        PlanetType::GasGiant => 1,
        PlanetType::Magma => 3,
        _ => 0,
    }
}

/// Side of the planet texture atlas, in pixels.
pub const ATLAS_SIZE: u32 = 2048;

/// Side of one atlas slot, in pixels.
pub const SLOT_SIZE: u32 = 128;

/// The slot bookkeeping of the planet texture atlas: the free slots, used
/// from the end, and the slot held by each planet entity.
#[derive(Debug)]
pub struct AtlasSlots {
    pub available_slots: Vec<usize>,
    pub slot_map: HashMap<u64, usize>,
    pub grid_size: u32,
    pub slot_size: u32,
    pub atlas_size: u32,
}

impl AtlasSlots {
    /// Number of slots in the atlas.
    pub open spec fn num_slots(self) -> nat {
        (self.grid_size * self.grid_size) as nat
    }

    /// Every slot is either free or held by exactly one entity: free slots
    /// are distinct and in range, held slots are in range and distinct, and
    /// no slot is both.
    pub open spec fn wf(self) -> bool {
        &&& forall|i: int| 0 <= i < self.available_slots@.len() ==> #[trigger] self.available_slots@[i] < self.num_slots()
        &&& forall|i: int, j: int|
            0 <= i < j < self.available_slots@.len() ==> self.available_slots@[i] != self.available_slots@[j]
        &&& forall|e: u64| #[trigger] self.slot_map@.contains_key(e) ==> self.slot_map@[e] < self.num_slots()
        &&& forall|e: u64, f: u64|
            #[trigger] self.slot_map@.contains_key(e) && #[trigger] self.slot_map@.contains_key(f) && e != f
                ==> self.slot_map@[e] != self.slot_map@[f]
        &&& forall|e: u64, i: int|
            #[trigger] self.slot_map@.contains_key(e) && 0 <= i < self.available_slots@.len()
                ==> #[trigger] self.available_slots@[i] != self.slot_map@[e]
    }

    /// An atlas of `ATLAS_SIZE` pixels in slots of `SLOT_SIZE`: every slot
    /// free, listed from the last to the first so that slot 0 is used first.
    pub fn new() -> (result: AtlasSlots)
        ensures
            result.wf(),
            result.grid_size == 16,
            result.slot_size == SLOT_SIZE,
            result.atlas_size == ATLAS_SIZE,
            result.num_slots() == 256,
            result.slot_map@ == Map::<u64, usize>::empty(),
            result.available_slots@.len() == 256,
            forall|i: int| 0 <= i < 256 ==> #[trigger] result.available_slots@[i] == 255 - i,
    {
        let grid_size = ATLAS_SIZE / SLOT_SIZE;
        let num_slots = (grid_size * grid_size) as usize;
        let mut available_slots: Vec<usize> = Vec::new();
        let mut k: usize = num_slots;
        while k > 0
            invariant
                num_slots == 256,
                k <= num_slots,
                available_slots@.len() == num_slots - k,
                forall|i: int| 0 <= i < available_slots@.len() ==> #[trigger] available_slots@[i] == 255 - i,
            decreases k,
        {
            k = k - 1;
            available_slots.push(k);
        }
        AtlasSlots {
            available_slots,
            slot_map: HashMap::new(),
            grid_size,
            slot_size: SLOT_SIZE,
            atlas_size: ATLAS_SIZE,
        }
    }

    /// A planet entity went away: its slot, if it held one, becomes free.
    pub fn release(&mut self, entity: u64)
        requires
            old(self).wf(),
        ensures
            final(self).wf(),
            final(self).grid_size == old(self).grid_size,
            final(self).slot_size == old(self).slot_size,
            final(self).atlas_size == old(self).atlas_size,
            final(self).slot_map@ == old(self).slot_map@.remove(entity),
            old(self).slot_map@.contains_key(entity) ==> final(self).available_slots@
                == old(self).available_slots@.push(old(self).slot_map@[entity]),
            !old(self).slot_map@.contains_key(entity) ==> final(self).available_slots@
                == old(self).available_slots@,
    {
        broadcast use vstd::std_specs::hash::group_hash_axioms;
        if let Some(slot) = self.slot_map.remove(&entity) {
            self.available_slots.push(slot);
        }
    }
}

/// The view update spawns full stars only for a full-detail sector whose
/// star data is ready, spawns a GPU sector only for a distant sector that
/// lacks one, and removes a GPU sector only when full stars replace it.
pub proof fn lemma_view_action_by_detail(lod: SectorLod, gpu_sector_spawned: bool, stars_ready: bool)
    ensures
        view_action_spec(lod, gpu_sector_spawned, stars_ready).spawn_full_stars <==> (lod == SectorLod::Full
            && stars_ready),
        view_action_spec(lod, gpu_sector_spawned, stars_ready).spawn_gpu_sector <==> (lod == SectorLod::Distant
            && !gpu_sector_spawned),
        view_action_spec(lod, gpu_sector_spawned, stars_ready).despawn_gpu_sector <==> (lod == SectorLod::Full
            && stars_ready && gpu_sector_spawned),
{
}

/// Only the origin sector bypasses the store, and only while a star or
/// planet kind is forced: every other sector uses the stored stars when they
/// are found, generates them when they are missing, and gives up when the
/// read fails.
pub proof fn lemma_only_origin_bypasses_store(
    sector: SectorIndex,
    star_forced: bool,
    planet_forced: bool,
    read: StoreRead,
)
    ensures
        sector_uses_store_spec(sector, star_forced, planet_forced) <==> !(sector == SectorIndex { x: 0, y: 0, z: 0 }
            && (star_forced || planet_forced)),
        sector != (SectorIndex { x: 0, y: 0, z: 0 }) ==> sector_step_spec(sector, star_forced, planet_forced, read)
            == (match read {
            StoreRead::Found => SectorStep::UseStored,
            StoreRead::Missing => SectorStep::Generate,
            StoreRead::Failed => SectorStep::GiveUp,
        }),
        !(star_forced || planet_forced) ==> sector_uses_store_spec(sector, star_forced, planet_forced),
{
}

/// The Sun stands only at the origin of the solar-system scenario: in every
/// other scenario, and in every other cell, a system is named and given
/// random planets like any other.
pub proof fn lemma_sun_only_in_solar_system(cell: GridCell, scenario: Seq<char>)
    ensures
        is_sun(cell, scenario) <==> (cell == GridCell { x: 0, y: 0, z: 0 } && scenario == "our_system"@),
{
}

} // verus!
