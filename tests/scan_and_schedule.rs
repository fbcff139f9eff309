use orbital_core::collision::{merged_is_fixed, PairScan};
use orbital_core::gpu_layout::{uniform_block, workgroup_count};
use orbital_core::octree::{insert_step, octant, query_step, upper_halves, InsertStep, QueryStep};
use orbital_core::scenario::Scenario;
use orbital_core::schedule::{
    galaxy_particles, prediction_steps, records_trails, select_backend, tick_runs, Backend,
};

#[test]
fn scan_visits_all_pairs_in_order() {
    let mut scan = PairScan::new(4);
    let mut seen = Vec::new();
    while let Some(p) = scan.next_pair() {
        seen.push(p);
    }
    assert_eq!(seen, vec![(0, 1), (0, 2), (0, 3), (1, 2), (1, 3), (2, 3)]);
}

#[test]
fn scan_skips_absorbed_bodies() {
    let mut scan = PairScan::new(4);
    assert_eq!(scan.next_pair(), Some((0, 1)));
    // body 1 is heavier: body 0 is absorbed and drops out of the pass
    assert_eq!(scan.merge(0, 1, false), (1, 0));
    assert_eq!(scan.next_pair(), Some((1, 2)));
    assert_eq!(scan.merge(1, 2, true), (1, 2));
    assert_eq!(scan.next_pair(), Some((1, 3)));
    assert_eq!(scan.next_pair(), None);
    assert_eq!(scan.absorbed(), &vec![true, false, true, false]);
}

#[test]
fn tie_keeps_first_body() {
    let mut scan = PairScan::new(2);
    assert_eq!(scan.merge(0, 1, true), (0, 1));
}

#[test]
fn scan_of_one_body_is_empty() {
    let mut scan = PairScan::new(1);
    assert_eq!(scan.next_pair(), None);
}

#[test]
fn fixedness_propagates() {
    assert!(merged_is_fixed(false, true));
    assert!(merged_is_fixed(true, false));
    assert!(!merged_is_fixed(false, false));
}

#[test]
fn backend_follows_body_count() {
    assert_eq!(select_backend(501, true), Backend::Gpu);
    assert_eq!(select_backend(500, true), Backend::BarnesHut);
    assert_eq!(select_backend(501, false), Backend::BarnesHut);
    assert_eq!(select_backend(51, false), Backend::BarnesHut);
    assert_eq!(select_backend(50, true), Backend::Direct);
    assert_eq!(select_backend(2, false), Backend::Direct);
}

#[test]
fn ticks_and_trails() {
    assert!(tick_runs(false, 3));
    assert!(!tick_runs(true, 3));
    assert!(!tick_runs(false, 0));
    assert!(records_trails(0));
    assert!(!records_trails(7));
    assert!(records_trails(8));
}

#[test]
fn caps() {
    assert_eq!(prediction_steps(100), 100);
    assert_eq!(prediction_steps(5000), 2000);
    assert_eq!(galaxy_particles(None), 300);
    assert_eq!(galaxy_particles(Some(40)), 40);
    assert_eq!(galaxy_particles(Some(900)), 500);
}

#[test]
fn octants_round_trip() {
    assert_eq!(octant(false, false, false), 0);
    assert_eq!(octant(true, false, true), 5);
    assert_eq!(octant(true, true, true), 7);
    for k in 0..8 {
        let (x, y, z) = upper_halves(k);
        assert_eq!(octant(x, y, z), k);
    }
}

#[test]
fn insertion_steps() {
    assert_eq!(insert_step(20, true, true), InsertStep::Accumulate);
    assert_eq!(insert_step(3, false, false), InsertStep::StoreLeaf);
    assert_eq!(insert_step(3, true, true), InsertStep::SplitLeaf);
    assert_eq!(insert_step(3, true, false), InsertStep::Descend);
}

#[test]
fn query_steps() {
    assert_eq!(query_step(false, None, 0, true), QueryStep::Nothing);
    assert_eq!(query_step(true, Some(4), 4, false), QueryStep::Nothing);
    assert_eq!(query_step(true, Some(3), 4, false), QueryStep::Direct);
    assert_eq!(query_step(true, None, 4, true), QueryStep::Aggregate);
    assert_eq!(query_step(true, None, 4, false), QueryStep::Open);
}

#[test]
fn workgroups_cover_bodies() {
    assert_eq!(workgroup_count(0), 0);
    assert_eq!(workgroup_count(1), 1);
    assert_eq!(workgroup_count(64), 1);
    assert_eq!(workgroup_count(65), 2);
    assert_eq!(workgroup_count(u32::MAX), 67108864);
}

#[test]
fn uniform_block_is_little_endian() {
    let b = uniform_block(600, 100.0f32.to_bits(), 100.0f32.to_bits());
    let mut expected = Vec::new();
    expected.extend_from_slice(&600u32.to_le_bytes());
    expected.extend_from_slice(&100.0f32.to_le_bytes());
    expected.extend_from_slice(&100.0f32.to_le_bytes());
    expected.extend_from_slice(&0u32.to_le_bytes());
    assert_eq!(b, expected);
}

#[test]
fn scenarios_by_name() {
    assert_eq!(Scenario::from_name("sun_earth"), Some(Scenario::SunEarth));
    assert_eq!(Scenario::from_name("asteroid_belt"), Some(Scenario::AsteroidBelt));
    assert_eq!(Scenario::from_name("galaxy_collision"), Some(Scenario::GalaxyCollision));
    assert_eq!(Scenario::from_name("figure_eight"), Some(Scenario::FigureEight));
    assert_eq!(Scenario::from_name("Sun_Earth"), None);
    assert_eq!(Scenario::from_name(""), None);
}
