use solid_knight::gamestate::{
    handle_pause_input, handle_resume_button, handle_start_button, ButtonBorder, ButtonFill,
    ButtonInteraction, GameState,
};
use solid_knight::ground::{
    check_characters_out_of_screen, ground_collision, setup_ground, update_ground_position,
    Ground, GroundView,
};
use solid_knight::parallax::{
    camera_follow_player, extend_world, scale_factor, setup_parallax_background,
    update_parallax_background_recycled, LayerConfig, ParallaxLayer, ParallaxSettings,
    CAMERA_SPEED,
};
use solid_knight::physics::{
    apply_gravity, apply_physics, GravitySettings, Physics, GRAVITY_STRENGTH, MAX_FALL_SPEED,
};
use solid_knight::resolution::{setup_resolution, PIXEL_RATIO_PERMILLE, SCREEN_HEIGHT, SCREEN_WIDTH};
use solid_knight::utils::{Vec2i, SUBPIXELS_PER_PIXEL};

const PX: i64 = SUBPIXELS_PER_PIXEL;

fn airborne_physics() -> Physics {
    Physics::default()
}

#[test]
fn gravity_pulls_airborne_bodies_only() {
    let mut p = airborne_physics();
    apply_gravity(&mut p, GRAVITY_STRENGTH);
    assert_eq!(p.acceleration.y, -980);
    apply_gravity(&mut p, GRAVITY_STRENGTH);
    assert_eq!(p.acceleration.y, -1960);

    let mut grounded = airborne_physics();
    grounded.on_ground = true;
    apply_gravity(&mut grounded, GRAVITY_STRENGTH);
    assert_eq!(grounded.acceleration.y, 0);
}

#[test]
fn one_frame_of_free_fall() {
    let mut p = airborne_physics();
    let mut pos = Vec2i::new(0, 0);
    apply_gravity(&mut p, GRAVITY_STRENGTH);
    apply_physics(&mut pos, &mut p, 16);
    // One sixteen-millisecond frame: velocity -980 * 16, position follows.
    assert_eq!(p.velocity.y, -15_680);
    assert_eq!(pos.y, -15_680 * 16);
    // The acceleration was spent.
    assert_eq!(p.acceleration, Vec2i::new(0, 0));
}

#[test]
fn fall_speed_is_capped() {
    let mut p = airborne_physics();
    p.velocity.y = MAX_FALL_SPEED + 1000;
    p.acceleration.y = -1_000_000;
    let mut pos = Vec2i::new(0, 0);
    apply_physics(&mut pos, &mut p, 16);
    assert_eq!(p.velocity.y, MAX_FALL_SPEED);
    assert_eq!(pos.y, MAX_FALL_SPEED * 16);
}

#[test]
fn horizontal_motion_is_integrated_exactly() {
    let mut p = airborne_physics();
    p.velocity.x = 250_000;
    let mut pos = Vec2i::new(10 * PX, 0);
    apply_physics(&mut pos, &mut p, 16);
    assert_eq!(pos.x, 10 * PX + 250_000 * 16);
}

#[test]
fn default_gravity_settings() {
    assert_eq!(GravitySettings::default().strength, 980);
}

#[test]
fn ground_strip_layout() {
    let (pieces, scale) = setup_ground(768 * PX, 2000);
    assert_eq!(scale, 3600);
    assert_eq!(pieces.len(), 29);
    let width = 68_400_000;
    let height = -345_600_000;
    assert_eq!(
        pieces[0],
        Ground {
            sprite_width: width,
            original_position: Vec2i::new(0, height),
            position_index: -14,
        }
    );
    assert_eq!(pieces[14].position_index, 0);
    assert_eq!(pieces[14].original_position.x, 14 * width);
    assert_eq!(pieces[28].position_index, 14);
}

#[test]
fn offscreen_ground_tiles_are_recycled() {
    let width = 68_400_000;
    let mut tile = Ground {
        sprite_width: width,
        original_position: Vec2i::new(-2000 * PX, -345_600_000),
        position_index: -14,
    };
    let mut x = -2000 * PX;
    // Far left of a camera at the origin: jump a full strip right.
    update_ground_position(&mut x, &mut tile, 0, 1024 * PX);
    assert_eq!(x, -2000 * PX + width * 28);
    assert_eq!(tile.position_index, 14);
    assert_eq!(tile.original_position.x, x);
    // Now on-screen: nothing moves.
    let before = x;
    update_ground_position(&mut x, &mut tile, 0, 1024 * PX);
    assert_eq!(x, before);
    assert_eq!(tile.position_index, 14);
}

#[test]
fn landing_on_the_ground() {
    let mut physics = airborne_physics();
    physics.velocity.y = -5_000;
    let grounds = vec![GroundView {
        position: Vec2i::new(0, 0),
        scale_y: 1000,
        sprite_width: 68_400_000,
    }];
    // Player scale 2: feet hang 50 pixels low; tile top is 9.5 pixels up.
    let mut y = 60 * PX;
    ground_collision(0, &mut y, 2000, true, &mut physics, &grounds);
    assert!(physics.on_ground);
    assert_eq!(physics.velocity.y, 0);
    assert_eq!(y, 9_500_000 + 50 * PX);
}

#[test]
fn missing_the_ground_leaves_the_body_airborne() {
    let mut physics = airborne_physics();
    physics.velocity.y = -5_000;
    physics.on_ground = true;
    let grounds = vec![GroundView {
        position: Vec2i::new(0, 0),
        scale_y: 1000,
        sprite_width: 68_400_000,
    }];
    // Too high over the tile to land.
    let mut y = 200 * PX;
    ground_collision(0, &mut y, 2000, true, &mut physics, &grounds);
    assert!(!physics.on_ground);
    assert_eq!(y, 200 * PX);
    assert_eq!(physics.velocity.y, -5_000);

    // Sideways misses too.
    let mut physics = airborne_physics();
    let mut y = 60 * PX;
    ground_collision(100 * PX, &mut y, 2000, true, &mut physics, &grounds);
    assert!(!physics.on_ground);

    // A rising body never lands.
    let mut physics = airborne_physics();
    physics.velocity.y = 1;
    let mut y = 60 * PX;
    ground_collision(0, &mut y, 2000, true, &mut physics, &grounds);
    assert!(!physics.on_ground);
}

#[test]
fn enemies_carry_their_own_feet_offset() {
    let mut physics = airborne_physics();
    let grounds = vec![GroundView {
        position: Vec2i::new(0, 0),
        scale_y: 1000,
        sprite_width: 68_400_000,
    }];
    // Enemy feet hang 64 pixels low at scale 2.
    let mut y = 70 * PX;
    ground_collision(0, &mut y, 2000, false, &mut physics, &grounds);
    assert!(physics.on_ground);
    assert_eq!(y, 9_500_000 + 64 * PX);
}

#[test]
fn fallen_characters_wrap_to_the_top() {
    let mut y = -385 * PX;
    check_characters_out_of_screen(&mut y, 768 * PX);
    assert_eq!(y, 384 * PX);
    let mut y2 = -384 * PX;
    check_characters_out_of_screen(&mut y2, 768 * PX);
    assert_eq!(y2, -384 * PX);
}

#[test]
fn backdrop_scale_spans_the_window() {
    assert_eq!(scale_factor(1024 * PX, Vec2i::new(320 * PX, 240 * PX)), 3200);
    assert_eq!(scale_factor(1024 * PX, Vec2i::new(1024 * PX, 240 * PX)), 1000);
}

#[test]
fn default_backdrop_layers() {
    let s = ParallaxSettings::default();
    assert_eq!(s.camera_move_threshold_permille, 250);
    assert_eq!(s.player_move_boundary, 0);
    assert_eq!(s.layer_configurations.len(), 5);
    assert_eq!(s.layer_configurations[0].path, "world/levels/1/1.png");
    assert_eq!(s.layer_configurations[0].speed_permille, 10);
    assert_eq!(s.layer_configurations[4].path, "world/levels/1/5.png");
    assert_eq!(s.layer_configurations[4].speed_permille, 200);
    assert_eq!(s.layer_configurations[3].dimensions, Vec2i::new(320 * PX, 240 * PX));
}

#[test]
fn far_layers_get_eleven_instances_near_layers_three() {
    let config = LayerConfig {
        path: "world/levels/1/1.png".to_string(),
        speed_permille: 10,
        z_value: -40,
        dimensions: Vec2i::new(128 * PX, 240 * PX),
    };
    let far = setup_parallax_background(&config, 0, 3200);
    assert_eq!(far.len(), 11);
    let width = 128 * PX * 3200 / 1000;
    assert_eq!(far[0].position_index, -5);
    assert_eq!(far[0].original_position, Vec2i::new(-5 * width, 0));
    assert_eq!(far[5].position_index, 0);
    assert_eq!(far[10].position_index, 5);
    assert_eq!(far[10].sprite_width, width);
    assert_eq!(far[10].speed_permille, 10);
    assert_eq!(far[10].z_value, -40);

    let near = setup_parallax_background(&config, 3, 3200);
    assert_eq!(near.len(), 3);
    assert_eq!(near[0].position_index, -1);
    assert_eq!(near[2].position_index, 1);
}

#[test]
fn layer_instances_move_by_their_fraction_and_recycle() {
    let width = 100 * PX;
    let mut layer = ParallaxLayer {
        speed_permille: 0,
        sprite_width: width,
        original_position: Vec2i::new(-700 * PX, 0),
        z_value: -40,
        position_index: -1,
    };
    let mut x = 0;
    // With speed zero the instance keeps the full camera travel, drifts
    // off the left edge and jumps one layer span (three widths) right.
    update_parallax_background_recycled(&mut x, &mut layer, 1000 * PX, 1024 * PX);
    assert_eq!(x, -700 * PX + 1000 * PX + 3 * width);
    assert_eq!(layer.position_index, 1);
    assert_eq!(layer.original_position.x, -700 * PX + 3 * width);

    // On screen nothing is recycled.
    let mut stable = ParallaxLayer {
        speed_permille: 200,
        sprite_width: width,
        original_position: Vec2i::new(0, 0),
        z_value: -5,
        position_index: 0,
    };
    let mut x = 0;
    update_parallax_background_recycled(&mut x, &mut stable, 1000 * PX, 1024 * PX);
    // The instance keeps eight tenths of the camera travel.
    assert_eq!(x, 800 * PX);
    assert_eq!(stable.position_index, 0);
    assert_eq!(stable.original_position.x, 0);
}

#[test]
fn wide_layers_use_the_five_wide_wrap() {
    let width = 100 * PX;
    let mut layer = ParallaxLayer {
        speed_permille: 0,
        sprite_width: width,
        original_position: Vec2i::new(-700 * PX, 0),
        z_value: -40,
        position_index: -2,
    };
    let mut x = 0;
    update_parallax_background_recycled(&mut x, &mut layer, 1000 * PX, 1024 * PX);
    // An index of minus two marks an eleven-instance layer: five-wide wrap.
    assert_eq!(x, -700 * PX + 1000 * PX + 5 * width);
    assert_eq!(layer.position_index, 2);
}

#[test]
fn camera_chases_the_player_past_the_boundary() {
    let boundary = 256 * PX;
    let mut camera = 0;
    camera_follow_player(&mut camera, -300 * PX, 1024 * PX, boundary, true, false, 16);
    assert_eq!(camera, -CAMERA_SPEED * 16);

    // Past the boundary but not holding the key: the camera stays.
    let mut camera = 0;
    camera_follow_player(&mut camera, -300 * PX, 1024 * PX, boundary, false, false, 16);
    assert_eq!(camera, 0);

    let mut camera = 0;
    camera_follow_player(&mut camera, 300 * PX, 1024 * PX, boundary, false, true, 16);
    assert_eq!(camera, CAMERA_SPEED * 16);

    // Inside the boundary the camera stays.
    let mut camera = 0;
    camera_follow_player(&mut camera, 100 * PX, 1024 * PX, boundary, true, true, 16);
    assert_eq!(camera, 0);
}

#[test]
fn the_world_extends_near_its_edges() {
    let bounds = (-1000 * PX, 1000 * PX);
    let chunk = 200 * PX;
    assert_eq!(
        extend_world(Vec2i::new(900 * PX, 0), bounds, chunk),
        Some(Vec2i::new(1100 * PX, 0))
    );
    assert_eq!(
        extend_world(Vec2i::new(-900 * PX, 0), bounds, chunk),
        Some(Vec2i::new(-1100 * PX, 0))
    );
    assert_eq!(extend_world(Vec2i::new(0, 0), bounds, chunk), None);
}

#[test]
fn resolution_defaults() {
    let r = setup_resolution();
    assert_eq!(r.screen_dimensions, Vec2i::new(SCREEN_WIDTH, SCREEN_HEIGHT));
    assert_eq!(r.screen_dimensions, Vec2i::new(1024 * PX, 768 * PX));
    assert_eq!(r.pixel_ratio_permille, PIXEL_RATIO_PERMILLE);
}

#[test]
fn start_button_reactions() {
    let pressed = handle_start_button(ButtonInteraction::Pressed, false, false);
    assert!(pressed.label_starting);
    assert_eq!(pressed.fill, ButtonFill::Pressed);
    assert_eq!(pressed.border, ButtonBorder::Red);
    assert_eq!(pressed.next, Some(GameState::Playing));

    let hovered = handle_start_button(ButtonInteraction::Hovered, false, false);
    assert!(!hovered.label_starting);
    assert_eq!(hovered.fill, ButtonFill::Hovered);
    assert_eq!(hovered.border, ButtonBorder::White);
    assert_eq!(hovered.next, None);

    let idle = handle_start_button(ButtonInteraction::Inactive, false, false);
    assert_eq!(idle.fill, ButtonFill::Normal);
    assert_eq!(idle.border, ButtonBorder::Black);
    assert_eq!(idle.next, None);

    // The start keys work without touching the button.
    let keyed = handle_start_button(ButtonInteraction::Inactive, false, true);
    assert_eq!(keyed.next, Some(GameState::Playing));
    let keyed = handle_start_button(ButtonInteraction::Inactive, true, false);
    assert_eq!(keyed.next, Some(GameState::Playing));
}

#[test]
fn pausing_and_resuming() {
    assert_eq!(handle_pause_input(true, false), Some(GameState::Paused));
    assert_eq!(handle_pause_input(false, true), Some(GameState::Paused));
    assert_eq!(handle_pause_input(false, false), None);

    assert_eq!(handle_resume_button(true, false, false), Some(GameState::Playing));
    assert_eq!(handle_resume_button(false, true, false), Some(GameState::Playing));
    assert_eq!(handle_resume_button(false, false, true), Some(GameState::Playing));
    assert_eq!(handle_resume_button(false, false, false), None);

    assert_eq!(GameState::default(), GameState::Menu);
}
