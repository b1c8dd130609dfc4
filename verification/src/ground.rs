//! The scrolling floor: laying out the tile strip, recycling tiles that
//! leave the screen, landing characters on the ground and wrapping
//! characters that fall off the bottom of the screen.

use vstd::prelude::*;

use crate::physics::Physics;
use crate::utils::{
    half, in_world, lemma_div_1000_bound, lemma_mul_le, scale_permille, Vec2i, SUBPIXELS_PER_PIXEL,
    WORLD_LIMIT,
};

verus! {

/// Height of one ground tile, in subpixels.
pub const GROUND_HEIGHT: i64 = 19 * SUBPIXELS_PER_PIXEL;

/// Half a tile height, in subpixels.
pub const GROUND_HALF_HEIGHT: i64 = 9_500_000;

/// Distance from a character's centre down to its feet, in subpixels.
pub const GROUND_PLAYER_FEET_OFFSET: i64 = 25 * SUBPIXELS_PER_PIXEL;

pub const GROUND_ENEMY_FEET_OFFSET: i64 = 32 * SUBPIXELS_PER_PIXEL;

/// How many tile widths the strip spans before tiles are recycled.
pub const GROUND_REPEAT: i64 = 28;

/// Extra scaling of ground tiles over the pixel ratio, in thousandths.
pub const GROUND_SCALE_FACTOR_PERMILLE: i64 = 1800;

/// Width of one ground tile before scaling, in subpixels.
pub const GROUND_TILE_WIDTH: i64 = 19 * SUBPIXELS_PER_PIXEL;

/// Index of the tile drawn for the ground in its sheet.
pub const GROUND_DEFAULT_TILE_INDEX: usize = 3;

/// How far under the tile top a landing still snaps up, in subpixels.
pub const GROUND_COLLISION_TOLERANCE: i64 = 10 * SUBPIXELS_PER_PIXEL;

/// How far over the tile top a landing reaches down, in subpixels.
pub const GROUND_COLLISION_RANGE: i64 = 15 * SUBPIXELS_PER_PIXEL;

/// The ground line sits this fraction of a window under the centre, in
/// thousandths.
pub const GROUND_HEIGHT_RATIO_PERMILLE: i64 = 450;

/// One tile of the ground strip.
#[derive(Clone, Copy, PartialEq, Eq, Structural, Debug)]
pub struct Ground {
    pub sprite_width: i64,
    pub original_position: Vec2i,
    pub position_index: i64,
}

/// A ground tile as a landing character sees it: where it stands, how it
/// is scaled (in thousandths) and how wide it is.
#[derive(Clone, Copy, PartialEq, Eq, Structural, Debug)]
pub struct GroundView {
    pub position: Vec2i,
    pub scale_y: i64,
    pub sprite_width: i64,
}

impl GroundView {
    pub open spec fn wf(self) -> bool {
        &&& self.position.wf()
        &&& -100_000 <= self.scale_y <= 100_000
        &&& 0 <= self.sprite_width <= WORLD_LIMIT
    }
}

/// The magnitude of a value.
pub open spec fn abs_of(v: int) -> int {
    if v < 0 {
        -v
    } else {
        v
    }
}

/// The top edge of a scaled ground tile.
pub open spec fn ground_top(g: GroundView) -> int {
    g.position.y + GROUND_HALF_HEIGHT * abs_of(g.scale_y as int) / 1000
}

/// Whether a character whose feet are at `feet` and centre at `char_x`,
/// moving down or level, lands on this tile: the feet lie in the snap band
/// around the tile top and the centre lies within half a tile width.
pub open spec fn lands_on(g: GroundView, feet: int, char_x: int, vel_y: int) -> bool {
    &&& vel_y <= 0
    &&& feet <= ground_top(g) + GROUND_COLLISION_TOLERANCE
    &&& feet >= ground_top(g) - GROUND_COLLISION_RANGE
    &&& abs_of(char_x - g.position.x) < g.sprite_width / 2
}

/// The first tile the character lands on, in tile order, if any.
pub open spec fn first_landing(
    grounds: Seq<GroundView>,
    feet: int,
    char_x: int,
    vel_y: int,
) -> Option<GroundView>
    decreases grounds.len(),
{
    if grounds.len() == 0 {
        None
    } else if lands_on(grounds[0], feet, char_x, vel_y) {
        Some(grounds[0])
    } else {
        first_landing(grounds.skip(1), feet, char_x, vel_y)
    }
}

/// Skipping tiles the character misses leaves the first landing unchanged.
proof fn lemma_first_landing_skip(
    grounds: Seq<GroundView>,
    feet: int,
    char_x: int,
    vel_y: int,
    i: int,
)
    requires
        0 <= i <= grounds.len(),
        forall|j: int| 0 <= j < i ==> !lands_on(#[trigger] grounds[j], feet, char_x, vel_y),
    ensures
        first_landing(grounds, feet, char_x, vel_y) == first_landing(
            grounds.skip(i),
            feet,
            char_x,
            vel_y,
        ),
    decreases i,
{
    if i > 0 {
        assert(grounds.skip(1).skip(i - 1) =~= grounds.skip(i));
        lemma_first_landing_skip(grounds.skip(1), feet, char_x, vel_y, i - 1);
    } else {
        assert(grounds.skip(0) =~= grounds);
    }
}

/// The tile strip at game start: tiles side by side from the world origin
/// rightward, each a scaled tile width apart on the ground line, indexed
/// from fourteen tiles left of centre.
pub open spec fn spec_ground_piece(i: int, scaled_width: int, ground_height: int) -> Ground {
    Ground {
        sprite_width: scaled_width as i64,
        original_position: Vec2i { x: (i * scaled_width) as i64, y: ground_height as i64 },
        position_index: (i - 14) as i64,
    }
}

/// Lay out the ground strip: twenty-nine tiles, each a tile width scaled
/// by the pixel ratio and the ground scale factor, on the ground line
/// (just under half a window below the centre). Returns the tiles and the
/// tile scale in thousandths.
pub fn setup_ground(window_height: i64, pixel_ratio_permille: i64) -> (r: (Vec<Ground>, i64))
    requires
        0 <= window_height <= WORLD_LIMIT,
        0 <= pixel_ratio_permille <= 10_000,
    ensures
        ({
            let scale = pixel_ratio_permille * GROUND_SCALE_FACTOR_PERMILLE / 1000;
            let scaled_width = GROUND_TILE_WIDTH * scale / 1000;
            let ground_height = -(window_height * GROUND_HEIGHT_RATIO_PERMILLE / 1000);
            &&& r.1 == scale
            &&& r.0@.len() == GROUND_REPEAT + 1
            &&& forall|i: int| 0 <= i <= GROUND_REPEAT ==> r.0@[i] == spec_ground_piece(
                i,
                scaled_width,
                ground_height,
            )
        }),
{
    let scale = scale_permille(pixel_ratio_permille, GROUND_SCALE_FACTOR_PERMILLE);
    let scaled_width = scale_permille(GROUND_TILE_WIDTH, scale);
    let ground_height = -scale_permille(window_height, GROUND_HEIGHT_RATIO_PERMILLE);
    proof {
        lemma_mul_le(GROUND_TILE_WIDTH as int, scale as int, GROUND_TILE_WIDTH as int, 18_000);
        lemma_div_1000_bound(
            GROUND_TILE_WIDTH * scale as int,
            GROUND_TILE_WIDTH as int * 18_000,
        );
    }
    let mut pieces: Vec<Ground> = Vec::new();
    let mut i: i64 = 0;
    while i <= GROUND_REPEAT
        invariant
            0 <= i <= GROUND_REPEAT + 1,
            0 <= scale <= 18_000,
            scaled_width == GROUND_TILE_WIDTH * scale / 1000,
            0 <= scaled_width <= GROUND_TILE_WIDTH as int * 18,
            in_world(ground_height as int),
            pieces@.len() == i,
            forall|j: int| 0 <= j < i ==> pieces@[j] == spec_ground_piece(
                j,
                scaled_width as int,
                ground_height as int,
            ),
        decreases GROUND_REPEAT + 1 - i,
    {
        proof {
            lemma_mul_le(i as int, scaled_width as int, 28, GROUND_TILE_WIDTH as int * 18);
        }
        let x_pos = i * scaled_width;
        pieces.push(
            Ground {
                sprite_width: scaled_width,
                original_position: Vec2i { x: x_pos, y: ground_height },
                position_index: i - 14,
            },
        );
        i += 1;
    }
    (pieces, scale)
}

/// Recycle a ground tile that has scrolled off the screen: a tile out the
/// left side jumps a full strip to the right, one out the right side jumps
/// a full strip to the left; its index follows.
pub fn update_ground_position(
    position_x: &mut i64,
    ground: &mut Ground,
    camera_x: i64,
    window_width: i64,
)
    requires
        in_world(*old(position_x) as int),
        in_world(camera_x as int),
        0 <= window_width <= WORLD_LIMIT,
        0 <= old(ground).sprite_width <= WORLD_LIMIT,
        in_world(old(ground).original_position.x as int),
        in_world(old(ground).position_index as int),
    ensures
        ({
            let w = old(ground).sprite_width;
            let leap = w * GROUND_REPEAT;
            if *old(position_x) < camera_x - window_width / 2 - w / 2 {
                &&& *final(position_x) == *old(position_x) + leap
                &&& *final(ground) == (Ground {
                    original_position: Vec2i {
                        x: (*old(position_x) + leap) as i64,
                        ..old(ground).original_position
                    },
                    position_index: (old(ground).position_index + GROUND_REPEAT) as i64,
                    ..*old(ground)
                })
            } else if *old(position_x) > camera_x + window_width / 2 + w / 2 {
                &&& *final(position_x) == *old(position_x) - leap
                &&& *final(ground) == (Ground {
                    original_position: Vec2i {
                        x: (*old(position_x) - leap) as i64,
                        ..old(ground).original_position
                    },
                    position_index: (old(ground).position_index - GROUND_REPEAT) as i64,
                    ..*old(ground)
                })
            } else {
                *final(position_x) == *old(position_x) && *final(ground) == *old(ground)
            }
        }),
{
    let half_window = half(window_width);
    let half_width = half(ground.sprite_width);
    proof {
        lemma_mul_le(
            old(ground).sprite_width as int,
            GROUND_REPEAT as int,
            WORLD_LIMIT as int,
            28,
        );
    }
    let leap = ground.sprite_width * GROUND_REPEAT;
    if *position_x < camera_x - half_window - half_width {
        *position_x = *position_x + leap;
        ground.position_index = ground.position_index + GROUND_REPEAT;
        ground.original_position.x = *position_x;
    } else if *position_x > camera_x + half_window + half_width {
        *position_x = *position_x - leap;
        ground.position_index = ground.position_index - GROUND_REPEAT;
        ground.original_position.x = *position_x;
    }
}

/// Land one character on the ground strip. Its feet hang a scaled offset
/// (bigger for enemies than for the player) below its centre; the first
/// tile whose snap band the feet cross while the character is not rising
/// catches it: the character is set on the tile top, stops falling and
/// stands on ground. A character that lands on nothing is airborne.
pub fn ground_collision(
    character_x: i64,
    character_y: &mut i64,
    character_scale_y: i64,
    is_player: bool,
    physics: &mut Physics,
    grounds: &Vec<GroundView>,
)
    requires
        in_world(character_x as int),
        in_world(*old(character_y) as int),
        -100_000 <= character_scale_y <= 100_000,
        old(physics).wf(),
        forall|i: int| 0 <= i < grounds@.len() ==> (#[trigger] grounds@[i]).wf(),
    ensures
        final(physics).wf(),
        ({
            let feet_offset = if is_player {
                GROUND_PLAYER_FEET_OFFSET
            } else {
                GROUND_ENEMY_FEET_OFFSET
            };
            let feet_drop = feet_offset * abs_of(character_scale_y as int) / 1000;
            let feet = *old(character_y) - feet_drop;
            match first_landing(grounds@, feet, character_x as int, old(physics).velocity.y as int) {
                Some(g) => {
                    &&& *final(character_y) == ground_top(g) + feet_drop
                    &&& *final(physics) == (Physics {
                        velocity: Vec2i { x: old(physics).velocity.x, y: 0 },
                        on_ground: true,
                        ..*old(physics)
                    })
                },
                None => {
                    &&& *final(character_y) == *old(character_y)
                    &&& *final(physics) == (Physics { on_ground: false, ..*old(physics) })
                },
            }
        }),
{
    physics.on_ground = false;
    let character_scale: i64 = if character_scale_y >= 0 {
        character_scale_y
    } else {
        -character_scale_y
    };
    let feet_offset = if is_player {
        GROUND_PLAYER_FEET_OFFSET
    } else {
        GROUND_ENEMY_FEET_OFFSET
    };
    let feet_drop = scale_permille(feet_offset, character_scale);
    proof {
        lemma_mul_le(feet_offset as int, character_scale as int, feet_offset as int, 100_000);
        lemma_div_1000_bound(
            feet_offset as int * character_scale as int,
            feet_offset as int * 100_000,
        );
    }
    let character_feet = *character_y - feet_drop;
    let n = grounds.len();
    let mut i: usize = 0;
    while i < n
        invariant
            i <= n,
            n == grounds@.len(),
            forall|j: int| 0 <= j < i ==> !lands_on(
                #[trigger] grounds@[j],
                character_feet as int,
                character_x as int,
                old(physics).velocity.y as int,
            ),
            forall|k: int| 0 <= k < grounds@.len() ==> (#[trigger] grounds@[k]).wf(),
            in_world(character_x as int),
            in_world(*old(character_y) as int),
            old(physics).wf(),
            -100_000 <= character_scale_y <= 100_000,
            feet_offset == if is_player {
                GROUND_PLAYER_FEET_OFFSET as int
            } else {
                GROUND_ENEMY_FEET_OFFSET as int
            },
            character_feet == *old(character_y) - feet_drop,
            0 <= feet_drop <= feet_offset as int * 100_000,
            feet_drop == feet_offset * abs_of(character_scale_y as int) / 1000,
            *character_y == *old(character_y),
            *physics == (Physics { on_ground: false, ..*old(physics) }),
        decreases n - i,
    {
        let g = grounds[i];
        proof {
            assert(grounds@[i as int].wf());
        }
        let ground_scale: i64 = if g.scale_y >= 0 {
            g.scale_y
        } else {
            -g.scale_y
        };
        let lift = scale_permille(GROUND_HALF_HEIGHT, ground_scale);
        proof {
            lemma_mul_le(GROUND_HALF_HEIGHT as int, ground_scale as int, GROUND_HALF_HEIGHT as int, 100_000);
            lemma_div_1000_bound(
                GROUND_HALF_HEIGHT as int * ground_scale as int,
                GROUND_HALF_HEIGHT as int * 100_000,
            );
        }
        let top = g.position.y + lift;
        let dx: i64 = if character_x >= g.position.x {
            character_x - g.position.x
        } else {
            g.position.x - character_x
        };
        if physics.velocity.y <= 0 && character_feet <= top + GROUND_COLLISION_TOLERANCE
            && character_feet >= top - GROUND_COLLISION_RANGE && dx < half(g.sprite_width) {
            proof {
                lemma_first_landing_skip(
                    grounds@,
                    character_feet as int,
                    character_x as int,
                    old(physics).velocity.y as int,
                    i as int,
                );
                assert(grounds@.skip(i as int)[0] == grounds@[i as int]);
            }
            *character_y = top + feet_drop;
            physics.velocity.y = 0;
            physics.on_ground = true;
            return ;
        }
        i += 1;
    }
    proof {
        lemma_first_landing_skip(
            grounds@,
            character_feet as int,
            character_x as int,
            old(physics).velocity.y as int,
            n as int,
        );
        assert(grounds@.skip(n as int) =~= Seq::<GroundView>::empty());
    }
}

/// Wrap a character that fell out of the bottom of the screen back to the
/// top.
pub fn check_characters_out_of_screen(character_y: &mut i64, window_height: i64)
    requires
        in_world(*old(character_y) as int),
        0 <= window_height <= WORLD_LIMIT,
    ensures
        *final(character_y) == if *old(character_y) < -(window_height / 2) {
            window_height / 2
        } else {
            *old(character_y) as int
        },
{
    let half_height = half(window_height);
    if *character_y < -half_height {
        *character_y = half_height;
    }
}

} // verus!
