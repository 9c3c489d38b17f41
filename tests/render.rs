use raytrace::render::{hit_step, scatter_step, HitStep, ScatterStep, MAX_DEPTH};

#[test]
fn miss_sees_background() {
    assert_eq!(hit_step(0, false), HitStep::Background);
    assert_eq!(hit_step(MAX_DEPTH, false), HitStep::Background);
}

#[test]
fn hit_below_bound_scatters() {
    assert_eq!(hit_step(0, true), HitStep::Scatter);
    assert_eq!(hit_step(49, true), HitStep::Scatter);
}

#[test]
fn hit_at_depth_bound_is_black() {
    assert_eq!(MAX_DEPTH, 50);
    assert_eq!(hit_step(50, true), HitStep::Black);
    assert_eq!(hit_step(51, true), HitStep::Black);
}

#[test]
fn scatter_goes_one_deeper() {
    assert_eq!(scatter_step(0, true), ScatterStep::Trace(1));
    assert_eq!(scatter_step(49, true), ScatterStep::Trace(50));
}

#[test]
fn absorption_is_black() {
    assert_eq!(scatter_step(3, false), ScatterStep::Black);
}

#[test]
fn every_path_ends_within_depth_bound() {
    // A scene in which every ray hits and scatters: the path stops at the bound.
    let mut depth: i32 = 0;
    let mut bounces: i32 = 0;
    loop {
        match hit_step(depth, true) {
            HitStep::Scatter => match scatter_step(depth, true) {
                ScatterStep::Trace(next) => {
                    depth = next;
                    bounces += 1;
                }
                ScatterStep::Black => break,
            },
            HitStep::Black => break,
            HitStep::Background => unreachable!(),
        }
    }
    assert_eq!(bounces, 50);
    assert_eq!(depth, 50);
}
