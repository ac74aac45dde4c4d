use float_crush::{CullResult, OutOfRangeError, Placement, Probe, SearchRange};

fn probe(value: f32, target: f32) -> Probe {
    if value == target {
        Probe::Equal
    } else if value > target {
        Probe::Above
    } else {
        Probe::Below
    }
}

fn linear(steps: u32, i: u32) -> f32 {
    1. - (1. / steps as f32) * i as f32
}

#[test]
fn new_opens_full_window() {
    assert_eq!(SearchRange::new(8, Placement::Within), Ok(SearchRange { start: 0, length: 8 }));
}

#[test]
fn new_rejects_target_out_of_range() {
    assert_eq!(SearchRange::new(8, Placement::Below), Err(OutOfRangeError));
    assert_eq!(SearchRange::new(8, Placement::Above), Err(OutOfRangeError));
}

#[test]
fn center_rounds_down() {
    assert_eq!(SearchRange { start: 0, length: 8 }.center(), 4);
    assert_eq!(SearchRange { start: 3, length: 5 }.center(), 5);
    assert_eq!(SearchRange { start: 6, length: 1 }.center(), 6);
}

#[test]
fn cull_above_moves_start_to_center() {
    let mut w = SearchRange { start: 0, length: 5 };
    assert_eq!(w.cull(Probe::Above), CullResult::CutHalf);
    assert_eq!(w, SearchRange { start: 2, length: 3 });
}

#[test]
fn cull_below_keeps_start() {
    let mut w = SearchRange { start: 2, length: 5 };
    assert_eq!(w.cull(Probe::Below), CullResult::CutHalf);
    assert_eq!(w, SearchRange { start: 2, length: 3 });
}

#[test]
fn cull_equal_is_exact_match_at_center() {
    let mut w = SearchRange { start: 2, length: 4 };
    assert_eq!(w.cull(Probe::Equal), CullResult::ExactMatch(4));
    assert_eq!(w, SearchRange { start: 2, length: 4 });
}

#[test]
fn cull_single_step_reports_pair() {
    let mut w = SearchRange { start: 6, length: 1 };
    assert_eq!(w.cull(Probe::Equal), CullResult::TwoLeft(6, 7));
    assert_eq!(w, SearchRange { start: 6, length: 1 });
}

#[test]
fn search_finds_interior_grid_point() {
    let w = SearchRange::new(8, Placement::Within).unwrap();
    // 0.625 is index 3 of the eight-step grid over [0, 1]
    assert_eq!(w.search(|i| probe(linear(8, i), 0.625)), CullResult::ExactMatch(3));
}

#[test]
fn search_brackets_off_grid_target() {
    let w = SearchRange::new(8, Placement::Within).unwrap();
    assert_eq!(w.search(|i| probe(linear(8, i), 0.6)), CullResult::TwoLeft(3, 4));
    assert_eq!(w.search(|i| probe(linear(8, i), 0.95)), CullResult::TwoLeft(0, 1));
    assert_eq!(w.search(|i| probe(linear(8, i), 0.01)), CullResult::TwoLeft(7, 8));
}

#[test]
fn search_at_grid_ends_reports_pair() {
    let w = SearchRange::new(8, Placement::Within).unwrap();
    assert_eq!(w.search(|i| probe(linear(8, i), 1.0)), CullResult::TwoLeft(0, 1));
    assert_eq!(w.search(|i| probe(linear(8, i), 0.0)), CullResult::TwoLeft(7, 8));
}

#[test]
fn search_exponent_grid() {
    // powers of two: 1, 0.5, 0.25, ...
    let pow = |i: u32| 2_f32.powi(-(i as i32));
    let w = SearchRange::new(8, Placement::Within).unwrap();
    assert_eq!(w.search(|i| probe(pow(i), 0.3)), CullResult::TwoLeft(1, 2));
    assert_eq!(w.search(|i| probe(pow(i), 0.125)), CullResult::ExactMatch(3));
}

#[test]
fn search_single_step_window() {
    let w = SearchRange::new(1, Placement::Within).unwrap();
    assert_eq!(w.search(|i| probe(linear(1, i), 0.3)), CullResult::TwoLeft(0, 1));
}
