//! The fixed window geometry the game runs at.

use vstd::prelude::*;

use crate::utils::{Vec2i, SUBPIXELS_PER_PIXEL};

verus! {

/// Window width, in subpixels.
pub const SCREEN_WIDTH: i64 = 1024 * SUBPIXELS_PER_PIXEL;

/// Window height, in subpixels.
pub const SCREEN_HEIGHT: i64 = 768 * SUBPIXELS_PER_PIXEL;

/// How much game art is blown up, in thousandths.
pub const PIXEL_RATIO_PERMILLE: i64 = 2000;

/// The window geometry the rest of the game reads.
#[derive(Clone, Copy, PartialEq, Eq, Structural, Debug)]
pub struct Resolution {
    pub screen_dimensions: Vec2i,
    pub pixel_ratio_permille: i64,
}

/// The standard screen: 1024 by 768 pixels at double scale.
pub fn setup_resolution() -> (r: Resolution)
    ensures
        r == (Resolution {
            screen_dimensions: Vec2i { x: SCREEN_WIDTH, y: SCREEN_HEIGHT },
            pixel_ratio_permille: PIXEL_RATIO_PERMILLE,
        }),
{
    Resolution {
        screen_dimensions: Vec2i { x: SCREEN_WIDTH, y: SCREEN_HEIGHT },
        pixel_ratio_permille: PIXEL_RATIO_PERMILLE,
    }
}

} // verus!
