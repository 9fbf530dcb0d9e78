use pathtracer::image::{output_index, pixel_at};
use pathtracer::integrator::{next_action, PathAction, PathEvent, ScatterKind, MAX_DEPTH};

#[test]
fn miss_is_black() {
    assert_eq!(next_action(0, MAX_DEPTH, PathEvent::Missed), PathAction::ReturnBlack);
    assert_eq!(next_action(60, MAX_DEPTH, PathEvent::Missed), PathAction::ReturnBlack);
}

#[test]
fn hit_below_cap_asks_material() {
    assert_eq!(next_action(0, MAX_DEPTH, PathEvent::Hit), PathAction::AskScatter);
    assert_eq!(next_action(49, MAX_DEPTH, PathEvent::Hit), PathAction::AskScatter);
}

#[test]
fn hit_at_cap_returns_emitted() {
    assert_eq!(next_action(50, MAX_DEPTH, PathEvent::Hit), PathAction::ReturnEmitted);
    assert_eq!(next_action(51, MAX_DEPTH, PathEvent::Hit), PathAction::ReturnEmitted);
}

#[test]
fn zero_cap_never_recurses() {
    for depth in [0u32, 1, 50, u32::MAX] {
        assert_eq!(next_action(depth, 0, PathEvent::Hit), PathAction::ReturnEmitted);
        for kind in [ScatterKind::Absorbed, ScatterKind::Specular, ScatterKind::Diffuse] {
            assert_eq!(next_action(depth, 0, PathEvent::Scattered(kind)), PathAction::ReturnEmitted);
        }
    }
}

#[test]
fn scatter_kinds_continue() {
    let s = |k| next_action(3, MAX_DEPTH, PathEvent::Scattered(k));
    assert_eq!(s(ScatterKind::Absorbed), PathAction::ReturnEmitted);
    assert_eq!(s(ScatterKind::Specular), PathAction::TraceSpecular { next_depth: 4 });
    assert_eq!(s(ScatterKind::Diffuse), PathAction::TraceSampled { next_depth: 4 });
    assert_eq!(
        next_action(49, MAX_DEPTH, PathEvent::Scattered(ScatterKind::Diffuse)),
        PathAction::TraceSampled { next_depth: 50 }
    );
}

#[test]
fn path_bounces_at_most_cap_times() {
    let mut depth = 0u32;
    let mut bounces = 0;
    loop {
        match next_action(depth, MAX_DEPTH, PathEvent::Hit) {
            PathAction::AskScatter => {}
            PathAction::ReturnEmitted => break,
            other => panic!("unexpected {:?}", other),
        }
        match next_action(depth, MAX_DEPTH, PathEvent::Scattered(ScatterKind::Diffuse)) {
            PathAction::TraceSampled { next_depth } => {
                depth = next_depth;
                bounces += 1;
            }
            other => panic!("unexpected {:?}", other),
        }
    }
    assert_eq!(bounces, 50);
}

#[test]
fn first_pixel_is_top_left() {
    assert_eq!(pixel_at(0, 500, 500), (0, 499));
    assert_eq!(pixel_at(499, 500, 500), (499, 499));
    assert_eq!(pixel_at(500, 500, 500), (0, 498));
    assert_eq!(pixel_at(249_999, 500, 500), (499, 0));
}

#[test]
fn layout_round_trip() {
    let (nx, ny) = (7usize, 4usize);
    let mut seen = vec![false; nx * ny];
    for i in 0..nx * ny {
        let (x, y) = pixel_at(i, nx, ny);
        assert_eq!(output_index(x, y, nx, ny), i);
        assert!(!seen[y * nx + x]);
        seen[y * nx + x] = true;
    }
    assert_eq!(output_index(3, 3, nx, ny), 3);
    assert_eq!(output_index(0, 0, nx, ny), 21);
}
