use goodies::camera::Camera;
use nalgebra::Vector2;

fn camera() -> Camera<Vector2<f64>> {
    Camera::new(Vector2::new(640.0, 480.0), Vector2::new(40.0, 30.0), Vector2::new(0.0, 0.0))
}

#[test]
fn new_camera_keeps_what_it_was_given() {
    let c = camera();
    assert_eq!(c.screen_size(), Vector2::new(640.0, 480.0));
    assert_eq!(c.view_size(), Vector2::new(40.0, 30.0));
    assert_eq!(c.location(), Vector2::new(0.0, 0.0));
}

#[test]
fn move_to_sets_the_center() {
    let mut c = camera();
    c.move_to(Vector2::new(5.0, 5.0));
    assert_eq!(c.location(), Vector2::new(5.0, 5.0));
    c.move_to(Vector2::new(-2.5, 1.25));
    assert_eq!(c.location(), Vector2::new(-2.5, 1.25));
    assert_eq!(c.screen_size(), Vector2::new(640.0, 480.0));
    assert_eq!(c.view_size(), Vector2::new(40.0, 30.0));
}

#[test]
fn move_by_adds_to_the_center() {
    let mut c = camera();
    c.move_by(Vector2::new(1.5, -2.0));
    assert_eq!(c.location(), Vector2::new(1.5, -2.0));
    c.move_by(Vector2::new(1.5, -2.0));
    assert_eq!(c.location(), Vector2::new(3.0, -4.0));
    assert_eq!(c.screen_size(), Vector2::new(640.0, 480.0));
    assert_eq!(c.view_size(), Vector2::new(40.0, 30.0));
}

#[test]
fn move_by_after_move_to_starts_from_the_new_center() {
    let mut c = camera();
    c.move_by(Vector2::new(100.0, 100.0));
    c.move_to(Vector2::new(5.0, 5.0));
    c.move_by(Vector2::new(-7.5, -3.75));
    assert_eq!(c.location(), Vector2::new(-2.5, 1.25));
}

#[test]
fn move_by_nothing_leaves_the_center() {
    let mut c = camera();
    c.move_to(Vector2::new(20.0, 10.0));
    c.move_by(Vector2::new(0.0, 0.0));
    assert_eq!(c.location(), Vector2::new(20.0, 10.0));
}

#[test]
fn camera_over_integers() {
    let mut c: Camera<i64> = Camera::new(640, 40, 0);
    c.move_by(7);
    c.move_by(-10);
    assert_eq!(c.location(), -3);
    c.move_to(12);
    assert_eq!(c.location(), 12);
    assert_eq!(c.screen_size(), 640);
    assert_eq!(c.view_size(), 40);
}
