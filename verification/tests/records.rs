use seraph::records::region_shape;
use seraph::rows::split_rows;
use seraph::{RegionDirection, RoutingMode, Stats};

#[test]
fn region_direction_codes() {
    assert_eq!(RegionDirection::from_code(0), RegionDirection::Stable);
    assert_eq!(RegionDirection::from_code(1), RegionDirection::Consolidating);
    assert_eq!(RegionDirection::from_code(2), RegionDirection::Fragmenting);
    assert_eq!(RegionDirection::from_code(3), RegionDirection::Stable);
    assert_eq!(RegionDirection::from_code(255), RegionDirection::Stable);
}

#[test]
fn region_shape_reads_both_bytes() {
    assert_eq!(region_shape(2, 1), (RegionDirection::Fragmenting, true));
    assert_eq!(region_shape(1, 0), (RegionDirection::Consolidating, false));
    assert_eq!(region_shape(9, 200), (RegionDirection::Stable, true));
}

#[test]
fn routing_mode_arguments() {
    assert_eq!(RoutingMode::BestMatch.engine_args(), ("best", 0));
    assert_eq!(RoutingMode::Top(3).engine_args(), ("top", 3));
    assert_eq!(RoutingMode::All.engine_args(), ("all", 0));
}

#[test]
fn stats_fields() {
    let s = Stats { total_frames: 10, active_frames: 7, eigenframes: 2, superseded: 1, redirects: 0 };
    let t = s.clone();
    assert_eq!(t.total_frames, 10);
    assert_eq!(t.active_frames, 7);
    assert_eq!(t.eigenframes, 2);
    assert_eq!(t.superseded, 1);
    assert_eq!(t.redirects, 0);
}

#[test]
fn split_rows_in_order() {
    let flat = [1u32, 2, 3, 4, 5, 6];
    assert_eq!(split_rows(&flat, 2, 3), vec![vec![1, 2, 3], vec![4, 5, 6]]);
}

#[test]
fn split_rows_of_floats() {
    let flat = [0.5f32, -1.0, 2.25, 3.0];
    let rows = split_rows(&flat, 2, 2);
    assert_eq!(rows, vec![vec![0.5f32, -1.0], vec![2.25, 3.0]]);
    let rejoined: Vec<f32> = rows.concat();
    assert_eq!(rejoined, flat.to_vec());
}

#[test]
fn split_rows_ignores_trailing_values() {
    let flat = [1u8, 2, 3, 4, 5];
    assert_eq!(split_rows(&flat, 2, 2), vec![vec![1, 2], vec![3, 4]]);
}

#[test]
fn split_rows_with_zero_width_is_empty() {
    let flat: [u8; 0] = [];
    assert!(split_rows(&flat, 4, 0).is_empty());
}

#[test]
fn split_rows_with_no_rows_is_empty() {
    let flat = [1u8, 2];
    assert!(split_rows(&flat, 0, 2).is_empty());
}
