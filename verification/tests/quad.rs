use bullseye::quad::{FullscreenQuad, QuadRegistry, ResizeOutcome, StartupError};
use bullseye::scalar::Scalar;
use bullseye::viewport::{Scale, ViewportSize};

fn size(width: f32, height: f32) -> ViewportSize {
    ViewportSize::new(Scalar::from_bits(width.to_bits()), Scalar::from_bits(height.to_bits()))
}

fn floats(scale: Scale) -> (f32, f32, f32) {
    (
        f32::from_bits(scale.x.to_bits()),
        f32::from_bits(scale.y.to_bits()),
        f32::from_bits(scale.z.to_bits()),
    )
}

fn first_scale(registry: &QuadRegistry) -> (f32, f32, f32) {
    floats(registry.scale_at(0).expect("a quad is registered"))
}

#[test]
fn viewport_size_keeps_its_sides() {
    let s = size(800.0, 600.0);
    assert_eq!(f32::from_bits(s.width.to_bits()), 800.0);
    assert_eq!(f32::from_bits(s.height.to_bits()), 600.0);
    assert_eq!(ViewportSize::from_bits(800.0f32.to_bits(), 600.0f32.to_bits()), s);
}

#[test]
fn covering_scale_is_width_height_one() {
    assert_eq!(floats(Scale::covering(size(800.0, 600.0))), (800.0, 600.0, 1.0));
    assert_eq!(floats(Scale::covering(size(0.5, 4096.0))), (0.5, 4096.0, 1.0));
}

#[test]
fn new_quad_covers_the_window() {
    let quad = FullscreenQuad::new(size(1200.0, 1200.0));
    assert_eq!(floats(quad.scale()), (1200.0, 1200.0, 1.0));
}

#[test]
fn quad_resize_overwrites_the_scale() {
    let mut quad = FullscreenQuad::new(size(1200.0, 1200.0));
    quad.resize(size(800.0, 600.0));
    assert_eq!(floats(quad.scale()), (800.0, 600.0, 1.0));
}

#[test]
fn new_registry_is_empty() {
    let registry = QuadRegistry::new();
    assert_eq!(registry.len(), 0);
    assert_eq!(registry.scale_at(0), None);
}

#[test]
fn initialize_creates_one_quad_scaled_to_the_window() {
    let mut registry = QuadRegistry::new();
    assert_eq!(registry.initialize(Some(size(1200.0, 1200.0))), Ok(()));
    assert_eq!(registry.len(), 1);
    assert_eq!(first_scale(&registry), (1200.0, 1200.0, 1.0));
    assert_eq!(registry.scale_at(1), None);
}

#[test]
fn initialize_without_a_window_fails_and_creates_nothing() {
    let mut registry = QuadRegistry::new();
    assert_eq!(registry.initialize(None), Err(StartupError::NoPrimaryWindow));
    assert_eq!(registry.len(), 0);
}

#[test]
fn resize_sets_the_scale() {
    let mut registry = QuadRegistry::new();
    registry.initialize(Some(size(1200.0, 1200.0))).unwrap();
    assert_eq!(registry.resize(size(800.0, 600.0)), ResizeOutcome::Applied);
    assert_eq!(first_scale(&registry), (800.0, 600.0, 1.0));
    assert_eq!(registry.len(), 1);
}

#[test]
fn resize_without_a_quad_does_nothing_and_creates_none() {
    let mut registry = QuadRegistry::new();
    assert_eq!(registry.resize(size(800.0, 600.0)), ResizeOutcome::NoQuad);
    assert_eq!(registry.len(), 0);
    assert_eq!(registry.scale_at(0), None);
    assert!(!ResizeOutcome::NoQuad.is_anomaly());
}

#[test]
fn resize_to_the_same_size_again_changes_nothing() {
    let mut registry = QuadRegistry::new();
    registry.initialize(Some(size(1200.0, 1200.0))).unwrap();
    let first = registry.resize(size(800.0, 600.0));
    let after_first = registry.scale_at(0);
    for _ in 0..5 {
        let again = registry.resize(size(800.0, 600.0));
        assert_eq!(again, first);
        assert!(!again.is_anomaly());
        assert_eq!(registry.scale_at(0), after_first);
        assert_eq!(registry.len(), 1);
    }
    assert_eq!(first, ResizeOutcome::Applied);
    assert_eq!(first_scale(&registry), (800.0, 600.0, 1.0));
}

#[test]
fn resize_with_surplus_quads_rescales_the_first_only() {
    let mut registry = QuadRegistry::new();
    registry.register(FullscreenQuad::new(size(1200.0, 1200.0)));
    registry.register(FullscreenQuad::new(size(100.0, 50.0)));
    registry.register(FullscreenQuad::new(size(7.0, 9.0)));
    let outcome = registry.resize(size(800.0, 600.0));
    assert_eq!(outcome, ResizeOutcome::Surplus { ignored: 2 });
    assert!(outcome.is_anomaly());
    assert!(!ResizeOutcome::Applied.is_anomaly());
    assert_eq!(registry.len(), 3);
    assert_eq!(first_scale(&registry), (800.0, 600.0, 1.0));
    assert_eq!(floats(registry.scale_at(1).unwrap()), (100.0, 50.0, 1.0));
    assert_eq!(floats(registry.scale_at(2).unwrap()), (7.0, 9.0, 1.0));
}

#[test]
fn register_appends_in_order() {
    let mut registry = QuadRegistry::new();
    registry.register(FullscreenQuad::new(size(1.0, 2.0)));
    registry.register(FullscreenQuad::new(size(3.0, 4.0)));
    assert_eq!(registry.len(), 2);
    assert_eq!(first_scale(&registry), (1.0, 2.0, 1.0));
    assert_eq!(floats(registry.scale_at(1).unwrap()), (3.0, 4.0, 1.0));
    assert_eq!(registry.scale_at(2), None);
}

#[test]
fn draining_keeps_the_last_notification() {
    let mut registry = QuadRegistry::new();
    registry.initialize(Some(size(1200.0, 1200.0))).unwrap();
    let events = [size(800.0, 600.0), size(400.0, 300.0)];
    assert_eq!(registry.update_quad_size(&events), Some(ResizeOutcome::Applied));
    assert_eq!(first_scale(&registry), (400.0, 300.0, 1.0));
    assert_ne!(first_scale(&registry), (800.0, 600.0, 1.0));
}

#[test]
fn draining_many_notifications_equals_the_last_resize_alone() {
    let events: Vec<ViewportSize> =
        (1..=40).map(|i| size(10.0 * i as f32, 1000.0 - 7.5 * i as f32)).collect();
    let mut drained = QuadRegistry::new();
    drained.initialize(Some(size(1200.0, 1200.0))).unwrap();
    drained.update_quad_size(&events);
    let mut direct = QuadRegistry::new();
    direct.initialize(Some(size(1200.0, 1200.0))).unwrap();
    direct.resize(*events.last().unwrap());
    assert_eq!(drained.len(), 1);
    assert_eq!(drained.scale_at(0), direct.scale_at(0));
    assert_eq!(first_scale(&drained), (400.0, 700.0, 1.0));
}

#[test]
fn draining_nothing_changes_nothing() {
    let mut registry = QuadRegistry::new();
    registry.initialize(Some(size(1200.0, 1200.0))).unwrap();
    assert_eq!(registry.update_quad_size(&[]), None);
    assert_eq!(first_scale(&registry), (1200.0, 1200.0, 1.0));
}

#[test]
fn draining_without_a_quad_creates_none() {
    let mut registry = QuadRegistry::new();
    let events = [size(800.0, 600.0), size(400.0, 300.0)];
    assert_eq!(registry.update_quad_size(&events), Some(ResizeOutcome::NoQuad));
    assert_eq!(registry.len(), 0);
}

#[test]
fn draining_with_surplus_quads_reports_them() {
    let mut registry = QuadRegistry::new();
    registry.register(FullscreenQuad::new(size(1200.0, 1200.0)));
    registry.register(FullscreenQuad::new(size(100.0, 50.0)));
    let events = [size(800.0, 600.0), size(400.0, 300.0)];
    assert_eq!(registry.update_quad_size(&events), Some(ResizeOutcome::Surplus { ignored: 1 }));
    assert_eq!(first_scale(&registry), (400.0, 300.0, 1.0));
    assert_eq!(floats(registry.scale_at(1).unwrap()), (100.0, 50.0, 1.0));
}

#[test]
fn sizes_pass_through_bit_for_bit() {
    let mut registry = QuadRegistry::new();
    registry.initialize(Some(size(1200.0, 1200.0))).unwrap();
    let odd = ViewportSize::from_bits(0x7fc0_1234, 0x8000_0000);
    registry.resize(odd);
    let scale = registry.scale_at(0).unwrap();
    assert_eq!(scale.x.to_bits(), 0x7fc0_1234);
    assert_eq!(scale.y.to_bits(), 0x8000_0000);
    assert_eq!(scale.z.to_bits(), 1.0f32.to_bits());
}
