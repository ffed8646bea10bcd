use rt::color::Color;
use rt::integrator::{Bounce, LightPath, PathEnd, Step};

fn c(r: u8, g: u8, b: u8) -> Color {
    Color { r, g, b }
}

fn next(s: Step) -> LightPath {
    match s {
        Step::Next(p) => p,
        Step::End(_) => panic!("the path ended"),
    }
}

#[test]
fn depth_zero_is_spent_at_once() {
    assert!(LightPath::new(0).is_spent());
}

#[test]
fn depth_one_may_trace_one_bounce() {
    let p = LightPath::new(1);
    assert!(!p.is_spent());
    let p = next(p.record(Bounce::Scattered(c(1, 2, 3))));
    assert!(p.is_spent());
}

#[test]
fn miss_at_first_bounce_shows_background_unattenuated() {
    match LightPath::new(3).record(Bounce::Miss) {
        Step::End(PathEnd::Background(a)) => assert!(a.is_empty()),
        _ => panic!("expected the background"),
    }
}

#[test]
fn absorbed_path_is_dark() {
    let p = next(LightPath::new(5).record(Bounce::Scattered(c(9, 9, 9))));
    assert!(matches!(p.record(Bounce::Absorbed), Step::End(PathEnd::Dark)));
}

#[test]
fn background_is_seen_through_surfaces_nearest_first() {
    let p = LightPath::new(4);
    let p = next(p.record(Bounce::Scattered(c(255, 0, 0))));
    let p = next(p.record(Bounce::Scattered(c(0, 128, 0))));
    assert!(!p.is_spent());
    match p.record(Bounce::Miss) {
        Step::End(PathEnd::Background(a)) => assert_eq!(a, vec![c(255, 0, 0), c(0, 128, 0)]),
        _ => panic!("expected the background"),
    }
}

#[test]
fn budget_runs_out_after_depth_scatters() {
    let mut p = LightPath::new(3);
    for _ in 0..3 {
        assert!(!p.is_spent());
        p = next(p.record(Bounce::Scattered(c(100, 100, 100))));
    }
    assert!(p.is_spent());
}
