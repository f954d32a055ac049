//! Tuning of the game: speeds, thresholds and ranges.
//!
//! Lengths are in thousandths of a world unit, durations in milliseconds and
//! angles in thousandths of a radian.

use vstd::prelude::*;

verus! {

/// Vertical speed of the player: 250 units per second, i.e. milli-units per millisecond.
pub const PLAYER_SPEED: i64 = 250;

/// Leftward speed of every scrolling entity: 400 units per second.
pub const ROAD_SPEED: i64 = 400;

/// Bank angle of the player per unit of direction, in milliradians.
pub const TILT: i64 = 150;

/// A scrolling entity whose horizontal coordinate falls below this is recycled.
pub const RECYCLE_BELOW: i64 = -1_200_000;

/// Span of the repeating background tiles, added when a background entity wraps.
pub const WRAP_DISTANCE: i64 = 2_400_000;

/// Lowest and highest vertical coordinate the player may reach (inclusive).
pub const BAND_LOW: i64 = -360_000;
pub const BAND_HIGH: i64 = 360_000;

/// Vertical range (half-open) from which respawned obstacles are drawn.
pub const SPAWN_Y_LOW: i64 = -300_000;
pub const SPAWN_Y_HIGH: i64 = 300_000;

/// Forward ranges (half-open) from which respawned obstacles are drawn.
pub const ANIMAL_X_LOW: i64 = 1_800_000;
pub const ANIMAL_X_HIGH: i64 = 2_400_000;
pub const HOUSE_X_LOW: i64 = 800_000;
pub const HOUSE_X_HIGH: i64 = 1_600_000;
pub const FAR_X_LOW: i64 = 2_800_000;
pub const FAR_X_HIGH: i64 = 3_600_000;

/// Radius of the on-screen steering buttons.
pub const BUTTON_RADIUS: i64 = 50_000;

/// Health at the start of a run.
pub const MAX_HEALTH: u8 = 5;

/// How long a celebration message stays on screen.
pub const CELEBRATION_MS: u32 = 1000;

/// Number of celebration cues (sound and message pairs) to pick from.
pub const CHEER_COUNT: u8 = 3;

} // verus!
