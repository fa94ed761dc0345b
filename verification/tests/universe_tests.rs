use thesilentreach::universe::spawner::{
    effective_planet_type, keeps_full_system, keeps_gpu_sector, planet_class, random_planet_label,
    sector_cells, sector_neighbourhood, sector_uses_store, sectors_to_generate, spawns_random_planets,
    system_names, view_plan, AtlasSlots, SectorLod, ATLAS_SIZE, SLOT_SIZE,
};
use thesilentreach::universe::spawner::{
    effective_star_type, planet_seed, sector_star_cells, unspawned_cells, view_action, ViewAction, random_planet_count, random_planet_labels, sector_step, SectorStep, StoreRead,
};
use rand::{Rng, SeedableRng};
use std::collections::hash_map::DefaultHasher;
use std::hash::{Hash, Hasher};
use thesilentreach::universe::star_common::{cell_seed, pcg_hash, star_draw, star_exists, PRESENCE_LIMIT};
use thesilentreach::universe::terrain::{face_roots, patch_indices, CubeFace, QuadTreeNode, PATCH_RESOLUTION};
use thesilentreach::universe::{GridCell, PlanetType, RenderMode, SectorIndex, StarType};

#[test]
fn pcg_hash_known_values() {
    assert_eq!(pcg_hash(0), 129708002);
    assert_eq!(pcg_hash(1), 2831084092);
    assert_eq!(pcg_hash(42), 1223963391);
    assert_eq!(pcg_hash(u32::MAX), 3861530882);
}

#[test]
fn cell_seed_known_values() {
    assert_eq!(cell_seed(0, 0, 0, 0), 470009416);
    assert_eq!(cell_seed(1, -2, 3, 12345), 4090507249);
    assert_eq!(cell_seed(-1, -1, -1, u64::MAX), 1905795659);
}

#[test]
fn star_draw_known_values() {
    let d = star_draw(0, 0, 0, 0);
    assert!(d.at_origin);
    assert_eq!(d.presence, 1894141879);
    assert_eq!((d.red, d.green, d.blue, d.size), (3452007205, 4061532470, 4303703, 1503408833));
    let e = star_draw(1, -2, 3, 12345);
    assert!(!e.at_origin);
    assert_eq!(e.presence, 1892664760);
    assert_eq!((e.red, e.green, e.blue, e.size), (2230730835, 2152503452, 3046405658, 1507660751));
}

#[test]
fn star_draw_is_deterministic() {
    assert_eq!(star_draw(5, 6, 7, 99), star_draw(5, 6, 7, 99));
    assert_ne!(star_draw(5, 6, 7, 99), star_draw(5, 6, 7, 100));
}

#[test]
fn sector_from_cell_rounds_down() {
    assert_eq!(SectorIndex::from_cell(GridCell::new(0, 9, 10)), SectorIndex { x: 0, y: 0, z: 1 });
    assert_eq!(SectorIndex::from_cell(GridCell::new(-1, -10, -11)), SectorIndex { x: -1, y: -1, z: -2 });
    assert_eq!(
        SectorIndex::from_cell(GridCell::new(i64::MIN, i64::MAX, 25)),
        SectorIndex { x: -922337203685477581, y: 922337203685477580, z: 2 }
    );
}

#[test]
fn grid_cell_origin() {
    assert!(GridCell::new(0, 0, 0).is_origin());
    assert!(!GridCell::new(0, 1, 0).is_origin());
}

#[test]
fn render_mode_default_is_baked() {
    assert_eq!(RenderMode::default(), RenderMode::Baked);
}

#[test]
fn star_type_names_and_parsing() {
    assert_eq!(StarType::BlueGiant.name(), "BlueGiant");
    assert_eq!(StarType::from_str("bluegiant"), Some(StarType::BlueGiant));
    assert_eq!(StarType::from_str("YELLOWDWARF"), Some(StarType::YellowDwarf));
    assert_eq!(StarType::from_str("RedDwarf"), Some(StarType::RedDwarf));
    assert_eq!(StarType::from_str("red dwarf"), None);
    assert_eq!(StarType::from_str(""), None);
}

#[test]
fn planet_type_names_descriptions_and_parsing() {
    assert_eq!(PlanetType::default(), PlanetType::Terran);
    assert_eq!(PlanetType::GasGiant.name(), "GasGiant");
    assert_eq!(PlanetType::from_str("gasgiant"), Some(PlanetType::GasGiant));
    assert_eq!(PlanetType::from_str("ICE"), Some(PlanetType::Ice));
    assert_eq!(PlanetType::from_str("lava"), None);
    assert_eq!(PlanetType::Terran.description(), "Class: Terran | Atmos: N2/O2 | Gravity: 1.0g");
    assert_eq!(PlanetType::Ice.description(), "Class: Frozen | Atmos: Thin CO2 | Gravity: 0.6g");
    assert_eq!(PlanetType::Magma.description(), "Class: Volcanic | Atmos: S02 | Gravity: 0.9g");
    assert_eq!(PlanetType::GasGiant.description(), "Class: Gas Giant | Atmos: H2/He | Gravity: 4.5g");
}

#[test]
fn sector_cells_cover_the_sector_in_order() {
    let cells = sector_cells(SectorIndex { x: -1, y: 0, z: 2 });
    assert_eq!(cells.len(), 1000);
    assert_eq!(cells[0], GridCell::new(-10, 0, 20));
    assert_eq!(cells[1], GridCell::new(-10, 0, 21));
    assert_eq!(cells[10], GridCell::new(-10, 1, 20));
    assert_eq!(cells[100], GridCell::new(-9, 0, 20));
    assert_eq!(cells[999], GridCell::new(-1, 9, 29));
    for c in &cells {
        assert_eq!(SectorIndex::from_cell(*c), SectorIndex { x: -1, y: 0, z: 2 });
    }
}

#[test]
fn neighbourhood_of_radius_one() {
    let n = sector_neighbourhood(SectorIndex { x: 5, y: 5, z: 5 }, 1);
    assert_eq!(n.len(), 27);
    assert_eq!(n[0], SectorIndex { x: 4, y: 4, z: 4 });
    assert_eq!(n[13], SectorIndex { x: 5, y: 5, z: 5 });
    assert_eq!(n[26], SectorIndex { x: 6, y: 6, z: 6 });
    let zero = sector_neighbourhood(SectorIndex { x: 1, y: 2, z: 3 }, 0);
    assert_eq!(zero, vec![SectorIndex { x: 1, y: 2, z: 3 }]);
}

#[test]
fn view_plan_levels_of_detail() {
    let center = SectorIndex { x: 0, y: 0, z: 0 };
    let plan = view_plan(center);
    assert_eq!(plan.len(), 1331);
    let full = plan.iter().filter(|(_, lod)| *lod == SectorLod::Full).count();
    assert_eq!(full, 27);
    assert_eq!(plan[0], (SectorIndex { x: -5, y: -5, z: -5 }, SectorLod::Distant));
    assert_eq!(plan[665], (SectorIndex { x: 0, y: 0, z: 0 }, SectorLod::Full));
    for (s, _) in &plan {
        assert!(keeps_gpu_sector(*s, center));
    }
}

#[test]
fn keeps_full_system_within_twenty_cells() {
    let camera = GridCell::new(0, 0, 0);
    assert!(keeps_full_system(GridCell::new(20, -20, 5), camera));
    assert!(!keeps_full_system(GridCell::new(21, 0, 0), camera));
    assert!(!keeps_full_system(GridCell::new(0, 0, -21), camera));
}

#[test]
fn keeps_gpu_sector_within_eight_sectors() {
    let c = SectorIndex { x: 10, y: 10, z: 10 };
    assert!(keeps_gpu_sector(SectorIndex { x: 18, y: 2, z: 10 }, c));
    assert!(!keeps_gpu_sector(SectorIndex { x: 19, y: 10, z: 10 }, c));
}

#[test]
fn full_detail_sectors_stay_within_full_radius() {
    // A camera at the edge of its sector still keeps every system of the
    // neighbouring sectors drawn in full.
    let camera = GridCell::new(0, 9, -1);
    let center = SectorIndex::from_cell(camera);
    for s in sector_neighbourhood(center, 1) {
        for cell in sector_cells(s) {
            assert!(keeps_full_system(cell, camera));
        }
    }
}

#[test]
fn sectors_to_generate_skips_pending() {
    let center = SectorIndex { x: 0, y: 0, z: 0 };
    let all = sectors_to_generate(center, &vec![]);
    assert_eq!(all.len(), 27);
    let pending = vec![SectorIndex { x: -1, y: -1, z: -1 }, SectorIndex { x: 0, y: 0, z: 0 }, SectorIndex { x: 9, y: 9, z: 9 }];
    let rest = sectors_to_generate(center, &pending);
    assert_eq!(rest.len(), 25);
    assert_eq!(rest[0], SectorIndex { x: -1, y: -1, z: 0 });
    assert!(!rest.contains(&SectorIndex { x: 0, y: 0, z: 0 }));
}

#[test]
fn store_is_skipped_for_forced_origin() {
    let origin = SectorIndex { x: 0, y: 0, z: 0 };
    assert!(sector_uses_store(origin, false, false));
    assert!(!sector_uses_store(origin, true, false));
    assert!(!sector_uses_store(origin, false, true));
    assert!(sector_uses_store(SectorIndex { x: 1, y: 0, z: 0 }, true, true));
}

#[test]
fn system_names_default_custom_and_sun() {
    let cell = GridCell::new(3, -4, 5);
    let d = system_names(cell, None, "default");
    assert_eq!(d.star_name, "S 3,-4,5");
    assert_eq!(d.planet_base_name, "S 3,-4,5");
    assert!(!d.is_custom);
    assert_eq!(random_planet_label(&d, cell), "P 3,-4,5");

    let same = system_names(cell, Some("S 3,-4,5"), "default");
    assert!(!same.is_custom);

    let c = system_names(cell, Some("Vega"), "default");
    assert_eq!(c.star_name, "Vega");
    assert!(c.is_custom);
    assert_eq!(random_planet_label(&c, cell), "Vega (Planet)");

    let sun = system_names(GridCell::new(0, 0, 0), Some("Home"), "our_system");
    assert_eq!(sun.star_name, "The Sun");
    assert_eq!(sun.planet_base_name, "Home");
}

#[test]
fn random_planets_except_for_the_sun() {
    let origin = GridCell::new(0, 0, 0);
    assert!(!spawns_random_planets(false, origin, "our_system"));
    assert!(spawns_random_planets(false, origin, "default"));
    assert!(spawns_random_planets(false, GridCell::new(1, 0, 0), "our_system"));
    assert!(!spawns_random_planets(true, GridCell::new(1, 0, 0), "default"));
}

#[test]
fn forced_planet_kind_applies_to_first_origin_planet() {
    let origin = GridCell::new(0, 0, 0);
    assert_eq!(effective_planet_type(origin, 0, PlanetType::Ice, Some(PlanetType::Magma)), PlanetType::Magma);
    assert_eq!(effective_planet_type(origin, 1, PlanetType::Ice, Some(PlanetType::Magma)), PlanetType::Ice);
    assert_eq!(effective_planet_type(origin, 0, PlanetType::Ice, None), PlanetType::Ice);
    assert_eq!(
        effective_planet_type(GridCell::new(0, 0, 1), 0, PlanetType::Ice, Some(PlanetType::Magma)),
        PlanetType::Ice
    );
}

#[test]
fn planet_shader_classes() {
    assert_eq!(planet_class(PlanetType::GasGiant), 1);
    assert_eq!(planet_class(PlanetType::Magma), 3);
    assert_eq!(planet_class(PlanetType::Terran), 0);
    assert_eq!(planet_class(PlanetType::Ice), 0);
}

#[test]
fn atlas_starts_with_every_slot_free() {
    let a = AtlasSlots::new();
    assert_eq!(a.grid_size, ATLAS_SIZE / SLOT_SIZE);
    assert_eq!(a.available_slots.len(), 256);
    assert_eq!(a.available_slots[0], 255);
    assert_eq!(*a.available_slots.last().unwrap(), 0);
    assert!(a.slot_map.is_empty());
}

#[test]
fn atlas_release_frees_held_slot() {
    let mut a = AtlasSlots::new();
    let slot = a.available_slots.pop().unwrap();
    a.slot_map.insert(77, slot);
    a.release(78);
    assert_eq!(a.available_slots.len(), 255);
    a.release(77);
    assert_eq!(a.available_slots.len(), 256);
    assert_eq!(*a.available_slots.last().unwrap(), slot);
    assert!(a.slot_map.is_empty());
}

#[test]
fn quadtree_split_makes_four_quarters() {
    let mut node = QuadTreeNode::new(CubeFace::Top, 2, 3, 5);
    node.split();
    let c = node.children.as_ref().unwrap();
    assert_eq!((c.top_left.tile_x, c.top_left.tile_y, c.top_left.depth), (6, 10, 3));
    assert_eq!((c.top_right.tile_x, c.top_right.tile_y), (7, 10));
    assert_eq!((c.bottom_left.tile_x, c.bottom_left.tile_y), (6, 11));
    assert_eq!((c.bottom_right.tile_x, c.bottom_right.tile_y), (7, 11));
    assert_eq!(c.bottom_right.face, CubeFace::Top);
    assert!(c.top_left.entity.is_none());
}

#[test]
fn quadtree_merge_despawns_descendants_only() {
    let mut node = QuadTreeNode::new(CubeFace::Front, 0, 0, 0);
    node.entity = Some(1);
    node.split();
    {
        let c = node.children.as_mut().unwrap();
        c.top_left.entity = Some(2);
        c.bottom_right.split();
        c.bottom_right.entity = Some(3);
        c.bottom_right.children.as_mut().unwrap().top_right.entity = Some(4);
    }
    let gone = node.merge();
    assert_eq!(gone, vec![2, 3, 4]);
    assert!(node.children.is_none());
    assert_eq!(node.entity, Some(1));
}

#[test]
fn quadtree_split_then_merge_despawns_nothing() {
    let mut node = QuadTreeNode::new(CubeFace::Left, 1, 1, 1);
    node.split();
    assert!(node.merge().is_empty());
    assert!(node.children.is_none());
}

#[test]
fn quadtree_recursive_despawn_takes_everything() {
    let mut node = QuadTreeNode::new(CubeFace::Back, 0, 0, 0);
    node.entity = Some(10);
    node.split();
    node.children.as_mut().unwrap().top_right.entity = Some(11);
    let gone = node.recursive_despawn();
    assert_eq!(gone, vec![10, 11]);
    assert!(node.entity.is_none());
    assert!(node.children.is_none());
}

#[test]
fn six_face_roots() {
    let roots = face_roots();
    let faces: Vec<CubeFace> = roots.iter().map(|r| r.face).collect();
    assert_eq!(
        faces,
        vec![CubeFace::Right, CubeFace::Left, CubeFace::Top, CubeFace::Bottom, CubeFace::Front, CubeFace::Back]
    );
}

#[test]
fn patch_index_buffer() {
    let one = patch_indices(1);
    assert_eq!(one, vec![0, 2, 1, 1, 2, 3]);
    let two = patch_indices(2);
    assert_eq!(two.len(), 24);
    assert_eq!(&two[6..12], &[1, 4, 2, 2, 4, 5]);
    assert_eq!(&two[18..24], &[4, 7, 5, 5, 7, 8]);
    assert_eq!(patch_indices(PATCH_RESOLUTION).len(), 6 * 16 * 16);
}

#[test]
fn sector_steps() {
    let origin = SectorIndex { x: 0, y: 0, z: 0 };
    let other = SectorIndex { x: 0, y: -1, z: 0 };
    assert_eq!(sector_step(other, false, false, StoreRead::Found), SectorStep::UseStored);
    assert_eq!(sector_step(other, true, true, StoreRead::Missing), SectorStep::Generate);
    assert_eq!(sector_step(other, false, false, StoreRead::Failed), SectorStep::GiveUp);
    assert_eq!(sector_step(origin, false, false, StoreRead::Failed), SectorStep::GiveUp);
    assert_eq!(sector_step(origin, true, false, StoreRead::Found), SectorStep::Generate);
    assert_eq!(sector_step(origin, false, true, StoreRead::Failed), SectorStep::Generate);
}

#[test]
fn forced_star_kind_applies_at_origin_only() {
    let origin = GridCell::new(0, 0, 0);
    assert_eq!(effective_star_type(origin, StarType::RedDwarf, Some(StarType::BlueGiant)), StarType::BlueGiant);
    assert_eq!(effective_star_type(origin, StarType::RedDwarf, None), StarType::RedDwarf);
    assert_eq!(
        effective_star_type(GridCell::new(1, 0, 0), StarType::RedDwarf, Some(StarType::BlueGiant)),
        StarType::RedDwarf
    );
}

fn sequential_hash(x: i64, y: i64, z: i64) -> u64 {
    let mut h = DefaultHasher::new();
    x.hash(&mut h);
    y.hash(&mut h);
    z.hash(&mut h);
    h.finish()
}

#[test]
fn planet_seed_hashes_the_coordinates_in_order() {
    for (x, y, z) in [(0, 0, 0), (1, -2, 3), (i64::MIN, 7, i64::MAX)] {
        assert_eq!(planet_seed(GridCell::new(x, y, z)), sequential_hash(x, y, z));
    }
    assert_ne!(planet_seed(GridCell::new(1, 2, 3)), planet_seed(GridCell::new(3, 2, 1)));
}

#[test]
fn random_planet_counts() {
    let mut seen = [false; 5];
    for x in 0..200 {
        let cell = GridCell::new(x, 1, -1);
        let n = random_planet_count(false, cell, "default");
        assert!((1..=4).contains(&n));
        let drawn: i32 = rand::rngs::StdRng::seed_from_u64(sequential_hash(x, 1, -1)).gen_range(1..=4);
        assert_eq!(n as i32, drawn);
        assert_eq!(random_planet_count(true, cell, "default"), 0);
        seen[n as usize] = true;
    }
    assert!(seen[1] && seen[2] && seen[3] && seen[4]);
    assert_eq!(random_planet_count(false, GridCell::new(0, 0, 0), "our_system"), 0);
    assert!(random_planet_count(false, GridCell::new(0, 0, 0), "default") >= 1);
}

#[test]
fn random_planet_labels_follow_the_system() {
    let cell = GridCell::new(3, -4, 5);
    let plain = system_names(cell, None, "default");
    assert_eq!(random_planet_labels(&plain, cell, 3), vec!["P 3,-4,5", "P 3,-4,5", "P 3,-4,5"]);
    let named = system_names(cell, Some("Vega"), "default");
    assert_eq!(random_planet_labels(&named, cell, 2), vec!["Vega (Planet)", "Vega (Planet)"]);
    assert!(random_planet_labels(&named, cell, 0).is_empty());
}

#[test]
fn presence_limit_matches_single_precision_fraction() {
    let frac = |p: u32| (p as f32) / (u32::MAX as f32);
    for p in 0u32..(1 << 25) {
        assert_eq!(!(frac(p) > 0.001), p <= PRESENCE_LIMIT, "draw {}", p);
    }
    for p in [u32::MAX, u32::MAX - 1, 1 << 31, 123456789] {
        assert!(frac(p) > 0.001);
    }
    assert!(!(frac(u32::MAX) > 1.0));
}

#[test]
fn star_exists_follows_the_draw() {
    for x in -50..50 {
        let d = star_draw(x, 2 * x, -x, 77);
        assert_eq!(star_exists(x, 2 * x, -x, 77), d.at_origin || d.presence <= PRESENCE_LIMIT);
    }
    assert!(star_exists(0, 0, 0, 5));
}

#[test]
fn sector_star_cells_lists_the_stars_in_order() {
    let seed = 4242u64;
    let mut total = 0;
    for sx in 0..20 {
        let sector = SectorIndex { x: sx, y: -3, z: 7 };
        let listed = sector_star_cells(sector, seed);
        let expected: Vec<GridCell> =
            sector_cells(sector).into_iter().filter(|c| star_exists(c.x, c.y, c.z, seed)).collect();
        assert_eq!(listed, expected);
        total += listed.len();
    }
    assert!(total > 0 && total < 100);
    assert!(sector_star_cells(SectorIndex { x: 0, y: 0, z: 0 }, seed).contains(&GridCell::new(0, 0, 0)));
}

#[test]
fn view_actions() {
    let none = ViewAction { spawn_gpu_sector: false, spawn_full_stars: false, despawn_gpu_sector: false };
    assert_eq!(view_action(SectorLod::Distant, false, true), ViewAction { spawn_gpu_sector: true, ..none });
    assert_eq!(view_action(SectorLod::Distant, true, false), none);
    assert_eq!(view_action(SectorLod::Full, true, false), none);
    assert_eq!(view_action(SectorLod::Full, false, true), ViewAction { spawn_full_stars: true, ..none });
    assert_eq!(
        view_action(SectorLod::Full, true, true),
        ViewAction { spawn_full_stars: true, despawn_gpu_sector: true, ..none }
    );
}

#[test]
fn unspawned_cells_skip_tracked_ones() {
    let stars = vec![GridCell::new(1, 0, 0), GridCell::new(2, 0, 0), GridCell::new(3, 0, 0)];
    assert_eq!(unspawned_cells(&stars, &vec![]), stars);
    assert_eq!(unspawned_cells(&stars, &vec![GridCell::new(2, 0, 0), GridCell::new(9, 9, 9)]), vec![
        GridCell::new(1, 0, 0),
        GridCell::new(3, 0, 0),
    ]);
    assert!(unspawned_cells(&stars, &stars).is_empty());
}
