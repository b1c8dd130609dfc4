use solid_knight::utils::{
    check_rect_collision, clamp, direction_vector, distance_between_points, half, is_within_range,
    is_within_range_strict, lerp, point_in_rect, scale_permille, Vec2i, SUBPIXELS_PER_PIXEL,
};

const PX: i64 = SUBPIXELS_PER_PIXEL;

#[test]
fn rects_overlapping() {
    // Two 10x10 squares 8 pixels apart overlap.
    let a = Vec2i::new(0, 0);
    let b = Vec2i::new(8 * PX, 0);
    let size = Vec2i::new(10 * PX, 10 * PX);
    assert!(check_rect_collision(a, size, b, size));
}

#[test]
fn rects_touching_edges_do_not_overlap() {
    // Two 10x10 squares exactly 10 pixels apart only touch.
    let a = Vec2i::new(0, 0);
    let b = Vec2i::new(10 * PX, 0);
    let size = Vec2i::new(10 * PX, 10 * PX);
    assert!(!check_rect_collision(a, size, b, size));
    // One subpixel closer and they overlap.
    let c = Vec2i::new(10 * PX - 1, 0);
    assert!(check_rect_collision(a, size, c, size));
}

#[test]
fn rects_apart_vertically() {
    let a = Vec2i::new(0, 0);
    let b = Vec2i::new(0, 20 * PX);
    let size = Vec2i::new(10 * PX, 10 * PX);
    assert!(!check_rect_collision(a, size, b, size));
}

#[test]
fn point_inside_and_outside_rect() {
    let rect_pos = Vec2i::new(0, 0);
    let rect_size = Vec2i::new(10 * PX, 10 * PX);
    assert!(point_in_rect(Vec2i::new(3 * PX, -4 * PX), rect_pos, rect_size));
    // The closed boundary counts as inside.
    assert!(point_in_rect(Vec2i::new(5 * PX, 5 * PX), rect_pos, rect_size));
    assert!(!point_in_rect(Vec2i::new(5 * PX + 1, 0), rect_pos, rect_size));
}

#[test]
fn range_checks_are_exact_at_the_boundary() {
    let a = Vec2i::new(0, 0);
    let b = Vec2i::new(3, 4);
    // Distance is exactly 5 subpixels.
    assert!(is_within_range(a, b, 5));
    assert!(!is_within_range_strict(a, b, 5));
    assert!(is_within_range_strict(a, b, 6));
    assert!(!is_within_range(a, b, 4));
    assert!(!is_within_range(a, b, -1));
}

#[test]
fn distance_three_four_five() {
    let a = Vec2i::new(0, 0);
    let b = Vec2i::new(3 * PX, 4 * PX);
    assert_eq!(distance_between_points(a, b), 5 * PX as u64);
}

#[test]
fn distance_rounds_down() {
    let a = Vec2i::new(0, 0);
    let b = Vec2i::new(1, 1);
    // sqrt(2) rounds down to 1.
    assert_eq!(distance_between_points(a, b), 1);
    assert_eq!(distance_between_points(a, a), 0);
}

#[test]
fn direction_vector_gives_signs() {
    let from = Vec2i::new(10, 10);
    assert_eq!(direction_vector(from, Vec2i::new(500, 10)), Vec2i::new(1, 0));
    assert_eq!(direction_vector(from, Vec2i::new(-500, 40)), Vec2i::new(-1, 1));
    assert_eq!(direction_vector(from, from), Vec2i::new(0, 0));
}

#[test]
fn clamp_works() {
    assert_eq!(clamp(5, 0, 10), 5);
    assert_eq!(clamp(-5, 0, 10), 0);
    assert_eq!(clamp(15, 0, 10), 10);
}

#[test]
fn lerp_in_thousandths() {
    assert_eq!(lerp(0, 1000, 500), 500);
    assert_eq!(lerp(100, 200, 0), 100);
    assert_eq!(lerp(100, 200, 1000), 200);
    assert_eq!(lerp(200, 100, 500), 150);
}

#[test]
fn scaling_helpers() {
    assert_eq!(scale_permille(1000, 250), 250);
    assert_eq!(scale_permille(-1000, 250), -250);
    assert_eq!(scale_permille(19 * PX, 3600), 68_400_000);
    assert_eq!(half(10), 5);
    assert_eq!(half(11), 5);
}
