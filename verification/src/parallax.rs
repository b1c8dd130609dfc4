//! The layered scrolling backdrop: layer configuration, laying out the
//! instances of each layer, moving layers by a fraction of the camera's
//! travel, recycling instances that scroll off screen, the camera chasing
//! the player, and extending the world as the player nears its edge.

use vstd::prelude::*;

use crate::utils::{
    half, in_world, lemma_div_1000_bound, lemma_mul_le, scale_permille, Vec2i,
    SPEED_UNITS_PER_PIXEL_PER_SECOND, SUBPIXELS_PER_PIXEL, WORLD_LIMIT,
};

verus! {

/// How fast the camera chases the player, in velocity units.
pub const CAMERA_SPEED: i64 = 250 * SPEED_UNITS_PER_PIXEL_PER_SECOND;

/// The camera starts chasing when the player passes this fraction of a
/// window from its edge, in thousandths.
pub const CAMERA_MOVE_THRESHOLD_PERMILLE: i64 = 250;

/// One backdrop layer: its image, how much of the camera's travel it
/// keeps (in thousandths), its depth and its image size.
#[derive(Clone, PartialEq, Eq, Debug)]
pub struct LayerConfig {
    pub path: String,
    pub speed_permille: i64,
    pub z_value: i64,
    pub dimensions: Vec2i,
}

/// The backdrop as a whole: when the camera starts to move and the layers
/// from farthest to nearest.
#[derive(Clone, PartialEq, Eq, Debug)]
pub struct ParallaxSettings {
    pub camera_move_threshold_permille: i64,
    pub player_move_boundary: i64,
    pub layer_configurations: Vec<LayerConfig>,
}

impl Default for ParallaxSettings {
    /// The five standard layers, farthest clouds to nearest trees: they
    /// keep one, two, four, ten and twenty percent of the camera's travel.
    fn default() -> (r: Self)
        ensures
            r.camera_move_threshold_permille == CAMERA_MOVE_THRESHOLD_PERMILLE,
            r.player_move_boundary == 0,
            r.layer_configurations@.len() == 5,
            r.layer_configurations@[0].speed_permille == 10,
            r.layer_configurations@[1].speed_permille == 20,
            r.layer_configurations@[2].speed_permille == 40,
            r.layer_configurations@[3].speed_permille == 100,
            r.layer_configurations@[4].speed_permille == 200,
            r.layer_configurations@[0].z_value == -40,
            r.layer_configurations@[1].z_value == -30,
            r.layer_configurations@[2].z_value == -20,
            r.layer_configurations@[3].z_value == -10,
            r.layer_configurations@[4].z_value == -5,
            r.layer_configurations@[0].dimensions == (Vec2i {
                x: (128 * SUBPIXELS_PER_PIXEL) as i64,
                y: (240 * SUBPIXELS_PER_PIXEL) as i64,
            }),
            r.layer_configurations@[1].dimensions == (Vec2i {
                x: (144 * SUBPIXELS_PER_PIXEL) as i64,
                y: (240 * SUBPIXELS_PER_PIXEL) as i64,
            }),
            r.layer_configurations@[2].dimensions == (Vec2i {
                x: (160 * SUBPIXELS_PER_PIXEL) as i64,
                y: (240 * SUBPIXELS_PER_PIXEL) as i64,
            }),
            r.layer_configurations@[3].dimensions == (Vec2i {
                x: (320 * SUBPIXELS_PER_PIXEL) as i64,
                y: (240 * SUBPIXELS_PER_PIXEL) as i64,
            }),
            r.layer_configurations@[4].dimensions == (Vec2i {
                x: (240 * SUBPIXELS_PER_PIXEL) as i64,
                y: (240 * SUBPIXELS_PER_PIXEL) as i64,
            }),
            r.layer_configurations@[0].path@ == "world/levels/1/1.png"@,
            r.layer_configurations@[1].path@ == "world/levels/1/2.png"@,
            r.layer_configurations@[2].path@ == "world/levels/1/3.png"@,
            r.layer_configurations@[3].path@ == "world/levels/1/4.png"@,
            r.layer_configurations@[4].path@ == "world/levels/1/5.png"@,
    {
        Self {
            camera_move_threshold_permille: CAMERA_MOVE_THRESHOLD_PERMILLE,
            player_move_boundary: 0,
            layer_configurations: vec![
                LayerConfig {
                    path: "world/levels/1/1.png".to_string(),
                    speed_permille: 10,
                    z_value: -40,
                    dimensions: Vec2i { x: 128 * SUBPIXELS_PER_PIXEL, y: 240 * SUBPIXELS_PER_PIXEL },
                },
                LayerConfig {
                    path: "world/levels/1/2.png".to_string(),
                    speed_permille: 20,
                    z_value: -30,
                    dimensions: Vec2i { x: 144 * SUBPIXELS_PER_PIXEL, y: 240 * SUBPIXELS_PER_PIXEL },
                },
                LayerConfig {
                    path: "world/levels/1/3.png".to_string(),
                    speed_permille: 40,
                    z_value: -20,
                    dimensions: Vec2i { x: 160 * SUBPIXELS_PER_PIXEL, y: 240 * SUBPIXELS_PER_PIXEL },
                },
                LayerConfig {
                    path: "world/levels/1/4.png".to_string(),
                    speed_permille: 100,
                    z_value: -10,
                    dimensions: Vec2i { x: 320 * SUBPIXELS_PER_PIXEL, y: 240 * SUBPIXELS_PER_PIXEL },
                },
                LayerConfig {
                    path: "world/levels/1/5.png".to_string(),
                    speed_permille: 200,
                    z_value: -5,
                    dimensions: Vec2i { x: 240 * SUBPIXELS_PER_PIXEL, y: 240 * SUBPIXELS_PER_PIXEL },
                },
            ],
        }
    }
}

/// One on-screen instance of a backdrop layer.
#[derive(Clone, Copy, PartialEq, Eq, Structural, Debug)]
pub struct ParallaxLayer {
    pub speed_permille: i64,
    pub sprite_width: i64,
    pub original_position: Vec2i,
    pub z_value: i64,
    pub position_index: i64,
}

/// How much a backdrop image must be blown up to span the window, in
/// thousandths.
pub fn scale_factor(window_width: i64, sprite_dimensions: Vec2i) -> (r: i64)
    requires
        0 <= window_width <= WORLD_LIMIT,
        1 <= sprite_dimensions.x,
    ensures
        r == window_width * 1000 / (sprite_dimensions.x as int),
{
    let scaled: i128 = window_width as i128 * 1000;
    let q: i128 = match scaled.checked_div_euclid(sprite_dimensions.x as i128) {
        Some(q) => q,
        // The divisor is positive and the quotient fits, so the division
        // cannot fail.
        None => {
            proof {
                assert(false);
            }
            0
        },
    };
    proof {
        assert(0 <= (scaled as int) / (sprite_dimensions.x as int) <= scaled as int)
            by (nonlinear_arith)
            requires
                0 <= scaled as int,
                1 <= sprite_dimensions.x as int,
        ;
    }
    q as i64
}

/// The instances of one backdrop layer at game start: the two farthest
/// layers get eleven copies side by side, nearer layers three, centred on
/// the world origin and each a scaled image width apart.
pub fn setup_parallax_background(
    config: &LayerConfig,
    layer_index: usize,
    static_scale_permille: i64,
) -> (r: Vec<ParallaxLayer>)
    requires
        0 <= config.dimensions.x <= WORLD_LIMIT,
        0 <= static_scale_permille <= 100_000,
        in_world(config.speed_permille as int),
        in_world(config.z_value as int),
    ensures
        ({
            let scaled_width = config.dimensions.x * static_scale_permille / 1000;
            let extent: int = if layer_index <= 1 {
                5
            } else {
                1
            };
            &&& r@.len() == 2 * extent + 1
            &&& forall|k: int| 0 <= k < r@.len() ==> r@[k] == (ParallaxLayer {
                speed_permille: config.speed_permille,
                sprite_width: scaled_width as i64,
                original_position: Vec2i { x: ((k - extent) * scaled_width) as i64, y: 0 },
                z_value: config.z_value,
                position_index: (k - extent) as i64,
            })
        }),
{
    let scaled_width = scale_permille(config.dimensions.x, static_scale_permille);
    proof {
        lemma_mul_le(
            config.dimensions.x as int,
            static_scale_permille as int,
            WORLD_LIMIT as int,
            100_000,
        );
        lemma_div_1000_bound(
            config.dimensions.x as int * static_scale_permille as int,
            100_000 * WORLD_LIMIT as int,
        );
    }
    let extent: i64 = if layer_index <= 1 {
        5
    } else {
        1
    };
    let mut instances: Vec<ParallaxLayer> = Vec::new();
    let mut i: i64 = -extent;
    while i <= extent
        invariant
            1 <= extent <= 5,
            -extent <= i <= extent + 1,
            -100_000 * WORLD_LIMIT <= scaled_width <= 100_000 * WORLD_LIMIT,
            scaled_width == config.dimensions.x * static_scale_permille / 1000,
            instances@.len() == i + extent,
            forall|k: int| 0 <= k < instances@.len() ==> instances@[k] == (ParallaxLayer {
                speed_permille: config.speed_permille,
                sprite_width: scaled_width as i64,
                original_position: Vec2i { x: ((k - extent) * scaled_width) as i64, y: 0 },
                z_value: config.z_value,
                position_index: (k - extent) as i64,
            }),
        decreases extent + 1 - i,
    {
        proof {
            lemma_mul_le(i as int, scaled_width as int, 5, 100_000 * WORLD_LIMIT as int);
        }
        let x_pos = i * scaled_width;
        instances.push(
            ParallaxLayer {
                speed_permille: config.speed_permille,
                sprite_width: scaled_width,
                original_position: Vec2i { x: x_pos, y: 0 },
                z_value: config.z_value,
                position_index: i,
            },
        );
        i += 1;
    }
    instances
}

/// Where a recycled instance's index moves when the instance leaves the
/// screen on the left and jumps to the right end of its layer: the lowest
/// index wraps to the highest, every other index steps down. Indices the
/// original layout never produces stay put.
pub open spec fn recycled_index_rightward(i: int, max_index: int) -> int {
    if max_index == 2 {
        if -2 <= i <= 2 {
            if i == -2 {
                2
            } else {
                i - 1
            }
        } else {
            i
        }
    } else {
        if i == -1 {
            1
        } else if i == 0 {
            -1
        } else if i == 1 {
            0
        } else {
            i
        }
    }
}

/// Where a recycled instance's index moves when the instance leaves the
/// screen on the right and jumps to the left end of its layer: the highest
/// index wraps to the lowest, every other index steps up.
pub open spec fn recycled_index_leftward(i: int, max_index: int) -> int {
    if max_index == 2 {
        if -2 <= i <= 2 {
            if i == 2 {
                -2
            } else {
                i + 1
            }
        } else {
            i
        }
    } else {
        if i == 1 {
            -1
        } else if i == 0 {
            1
        } else if i == -1 {
            0
        } else {
            i
        }
    }
}

/// Move one backdrop instance for this frame's camera position and recycle
/// it if it left the screen. The instance keeps only the configured
/// fraction of the camera's travel; an instance wholly off screen jumps a
/// full layer span to the other side and its home position follows.
pub fn update_parallax_background_recycled(
    position_x: &mut i64,
    layer: &mut ParallaxLayer,
    camera_x: i64,
    window_width: i64,
)
    requires
        in_world(camera_x as int),
        in_world(old(layer).original_position.x as int),
        0 <= old(layer).sprite_width <= WORLD_LIMIT,
        0 <= old(layer).speed_permille <= 1000,
        in_world(old(layer).position_index as int),
        0 <= window_width <= WORLD_LIMIT,
    ensures
        ({
            let offset = camera_x * (1000 - old(layer).speed_permille) / 1000;
            let moved = old(layer).original_position.x + offset;
            let max_index: int = if -1 <= old(layer).position_index <= 1 {
                1
            } else {
                2
            };
            let span = (2 * max_index + 1) * old(layer).sprite_width;
            if moved < camera_x - window_width / 2 - old(layer).sprite_width / 2 {
                &&& *final(position_x) == moved + span
                &&& *final(layer) == (ParallaxLayer {
                    original_position: Vec2i { x: (moved + span - offset) as i64, y: old(layer).original_position.y },
                    position_index: recycled_index_rightward(
                        old(layer).position_index as int,
                        max_index,
                    ) as i64,
                    ..*old(layer)
                })
            } else if moved > camera_x + window_width / 2 + old(layer).sprite_width / 2 {
                &&& *final(position_x) == moved - span
                &&& *final(layer) == (ParallaxLayer {
                    original_position: Vec2i { x: (moved - span - offset) as i64, y: old(layer).original_position.y },
                    position_index: recycled_index_leftward(
                        old(layer).position_index as int,
                        max_index,
                    ) as i64,
                    ..*old(layer)
                })
            } else {
                *final(position_x) == moved && *final(layer) == *old(layer)
            }
        }),
{
    let parallax_offset = scale_permille(camera_x, 1000 - layer.speed_permille);
    proof {
        lemma_mul_le(camera_x as int, 1000 - layer.speed_permille, WORLD_LIMIT as int, 1000);
        lemma_div_1000_bound(
            camera_x as int * (1000 - layer.speed_permille),
            1000 * WORLD_LIMIT as int,
        );
    }
    *position_x = layer.original_position.x + parallax_offset;

    let half_window = half(window_width);
    let half_sprite = half(layer.sprite_width);

    if *position_x < camera_x - half_window - half_sprite {
        let max_index: i64 = if layer.position_index >= -1 && layer.position_index <= 1 {
            1
        } else {
            2
        };
        proof {
            lemma_mul_le(2 * max_index + 1, layer.sprite_width as int, 5, WORLD_LIMIT as int);
        }
        let movement = (2 * max_index + 1) * layer.sprite_width;
        *position_x = *position_x + movement;

        if max_index == 2 {
            if layer.position_index == -2 {
                layer.position_index = 2;
            } else if layer.position_index == -1 {
                layer.position_index = -2;
            } else if layer.position_index == 0 {
                layer.position_index = -1;
            } else if layer.position_index == 1 {
                layer.position_index = 0;
            } else if layer.position_index == 2 {
                layer.position_index = 1;
            }
        } else {
            if layer.position_index == -1 {
                layer.position_index = 1;
            } else if layer.position_index == 0 {
                layer.position_index = -1;
            } else if layer.position_index == 1 {
                layer.position_index = 0;
            }
        }
        layer.original_position.x = *position_x - parallax_offset;
    } else if *position_x > camera_x + half_window + half_sprite {
        let max_index: i64 = if layer.position_index >= -1 && layer.position_index <= 1 {
            1
        } else {
            2
        };
        proof {
            lemma_mul_le(2 * max_index + 1, layer.sprite_width as int, 5, WORLD_LIMIT as int);
        }
        let movement = (2 * max_index + 1) * layer.sprite_width;
        *position_x = *position_x - movement;

        if max_index == 2 {
            if layer.position_index == 2 {
                layer.position_index = -2;
            } else if layer.position_index == 1 {
                layer.position_index = 2;
            } else if layer.position_index == 0 {
                layer.position_index = 1;
            } else if layer.position_index == -1 {
                layer.position_index = 0;
            } else if layer.position_index == -2 {
                layer.position_index = -1;
            }
        } else {
            if layer.position_index == 1 {
                layer.position_index = -1;
            } else if layer.position_index == 0 {
                layer.position_index = 1;
            } else if layer.position_index == -1 {
                layer.position_index = 0;
            }
        }
        layer.original_position.x = *position_x - parallax_offset;
    }
}

/// Pin the unmoving backdrop to the camera.
pub fn update_static_background(background: &mut Vec2i, camera: Vec2i)
    ensures
        *final(background) == camera,
{
    background.x = camera.x;
    background.y = camera.y;
}

/// Walk the camera after the player: when the player crosses the chase
/// boundary near either screen edge while still pressing that way, the
/// camera moves one frame of chase speed toward it.
pub fn camera_follow_player(
    camera_x: &mut i64,
    player_x: i64,
    window_width: i64,
    player_move_boundary: i64,
    left_held: bool,
    right_held: bool,
    delta_ms: i64,
)
    requires
        in_world(*old(camera_x) as int),
        in_world(player_x as int),
        0 <= window_width <= WORLD_LIMIT,
        in_world(player_move_boundary as int),
        0 <= delta_ms <= 1000,
    ensures
        ({
            let movement = CAMERA_SPEED * delta_ms;
            let left_threshold = *old(camera_x) - window_width / 2 + player_move_boundary;
            let right_threshold = *old(camera_x) + window_width / 2 - player_move_boundary;
            if player_x < left_threshold && left_held {
                *final(camera_x) == *old(camera_x) - movement
            } else if player_x > right_threshold && right_held {
                *final(camera_x) == *old(camera_x) + movement
            } else {
                *final(camera_x) == *old(camera_x)
            }
        }),
{
    let half_window = half(window_width);
    let left_threshold = *camera_x - half_window + player_move_boundary;
    let right_threshold = *camera_x + half_window - player_move_boundary;
    let camera_movement = CAMERA_SPEED * delta_ms;

    if player_x < left_threshold && left_held {
        *camera_x = *camera_x - camera_movement;
    } else if player_x > right_threshold && right_held {
        *camera_x = *camera_x + camera_movement;
    }
}

/// Where to add the next world chunk, if the player is close to a world
/// edge: half a chunk beyond the near edge; otherwise nothing.
pub fn extend_world(
    player_position: Vec2i,
    current_world_bounds: (i64, i64),
    chunk_width: i64,
) -> (r: Option<Vec2i>)
    requires
        player_position.wf(),
        in_world(current_world_bounds.0 as int),
        in_world(current_world_bounds.1 as int),
        0 <= chunk_width <= WORLD_LIMIT,
    ensures
        ({
            let (min_x, max_x) = current_world_bounds;
            if player_position.x > max_x - chunk_width {
                r == Some(Vec2i { x: (max_x + chunk_width / 2) as i64, y: 0 })
            } else if player_position.x < min_x + chunk_width {
                r == Some(Vec2i { x: (min_x - chunk_width / 2) as i64, y: 0 })
            } else {
                r is None
            }
        }),
{
    let (min_x, max_x) = current_world_bounds;
    let half_chunk = half(chunk_width);

    if player_position.x > max_x - chunk_width {
        return Some(Vec2i { x: max_x + half_chunk, y: 0 });
    }
    if player_position.x < min_x + chunk_width {
        return Some(Vec2i { x: min_x - half_chunk, y: 0 });
    }
    None
}

} // verus!
