//! The galactic star map: which registry entries are plotted around the
//! player, and where.
use crate::persistence::DiscoveredWorld;
use crate::universe::GridCell;
use vstd::prelude::*;

verus! {

/// Half the width of the map, in cells.
pub const MAP_RANGE: i64 = 50;

/// A plotted entry: its offset from the player in x and in z, and its name.
#[derive(Debug)]
pub struct MapMark {
    pub dx: i64,
    pub dz: i64,
    pub name: String,
}

/// Whether a registry entry's offsets can be computed in 64 bits.
pub open spec fn offsets_fit(d: DiscoveredWorld, me: GridCell) -> bool {
    &&& i64::MIN < d.cell_x - me.x <= i64::MAX
    &&& i64::MIN < d.cell_z - me.z <= i64::MAX
}

/// Whether a registry entry is within the map around the player (the map
/// is a top-down view: x across, z down).
pub open spec fn on_map(d: DiscoveredWorld, me: GridCell) -> bool {
    &&& -MAP_RANGE <= d.cell_x - me.x <= MAP_RANGE
    &&& -MAP_RANGE <= d.cell_z - me.z <= MAP_RANGE
}

/// The mark of an entry: its offsets and its name.
pub open spec fn mark_of(d: DiscoveredWorld, me: GridCell) -> (int, int, Seq<char>) {
    (d.cell_x - me.x, d.cell_z - me.z, d.name@)
}

/// The marks of the entries within the map, in registry order.
pub open spec fn marks_spec(ds: Seq<DiscoveredWorld>, me: GridCell) -> Seq<(int, int, Seq<char>)>
    decreases ds.len(),
{
    if ds.len() == 0 {
        Seq::empty()
    } else {
        let rest = marks_spec(ds.drop_last(), me);
        if on_map(ds.last(), me) {
            rest.push(mark_of(ds.last(), me))
        } else {
            rest
        }
    }
}

/// The plain values of a list of marks.
pub open spec fn marks_view(ms: Seq<MapMark>) -> Seq<(int, int, Seq<char>)> {
    ms.map_values(|m: MapMark| (m.dx as int, m.dz as int, m.name@))
}

/// The marks for every entry within the map, in registry order.
pub fn plot_discoveries(discoveries: &Vec<DiscoveredWorld>, me: GridCell) -> (result: Vec<MapMark>)
    requires
        forall|i: int| 0 <= i < discoveries@.len() ==> offsets_fit(#[trigger] discoveries@[i], me),
    ensures
        marks_view(result@) == marks_spec(discoveries@, me),
{
    let mut out: Vec<MapMark> = Vec::new();
    let mut i: usize = 0;
    assert(discoveries@.subrange(0, 0) =~= Seq::<DiscoveredWorld>::empty());
    assert(marks_view(out@) =~= Seq::<(int, int, Seq<char>)>::empty());
    while i < discoveries.len()
        invariant
            forall|j: int| 0 <= j < discoveries@.len() ==> offsets_fit(#[trigger] discoveries@[j], me),
            i <= discoveries.len(),
            marks_view(out@) == marks_spec(discoveries@.subrange(0, i as int), me),
        decreases discoveries.len() - i,
    {
        let d = &discoveries[i];
        assert(offsets_fit(discoveries@[i as int], me));
        let ghost prefix = discoveries@.subrange(0, i + 1);
        assert(prefix.drop_last() =~= discoveries@.subrange(0, i as int));
        assert(prefix.last() == discoveries@[i as int]);
        let dx = d.cell_x - me.x;
        let dz = d.cell_z - me.z;
        let far = (if dx < 0 { -dx } else { dx }) > MAP_RANGE || (if dz < 0 { -dz } else { dz }) > MAP_RANGE;
        if !far {
            let ghost before = out@;
            out.push(MapMark { dx, dz, name: d.name.clone() });
            assert(marks_view(out@) =~= marks_view(before).push(mark_of(discoveries@[i as int], me)));
        }
        i = i + 1;
    }
    assert(discoveries@.subrange(0, discoveries@.len() as int) =~= discoveries@);
    out
}

/// Every plotted mark lies on the map: both offsets are within
/// `MAP_RANGE` of the player.
pub proof fn lemma_marks_on_map(ds: Seq<DiscoveredWorld>, me: GridCell, k: int)
    requires
        0 <= k < marks_spec(ds, me).len(),
    ensures
        -MAP_RANGE <= marks_spec(ds, me)[k].0 <= MAP_RANGE,
        -MAP_RANGE <= marks_spec(ds, me)[k].1 <= MAP_RANGE,
    decreases ds.len(),
{
    if ds.len() > 0 {
        let rest = marks_spec(ds.drop_last(), me);
        if k < rest.len() {
            lemma_marks_on_map(ds.drop_last(), me, k);
        }
    }
}

} // verus!
