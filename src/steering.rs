//! Input-to-direction mapping and the player's vertical movement.

use vstd::prelude::*;
use crate::recycler::Point;
use crate::tuning::{BAND_HIGH, BAND_LOW, BUTTON_RADIUS, PLAYER_SPEED, TILT};

verus! {

/// The steering inputs of one frame.
#[derive(Clone, Copy, Debug, PartialEq, Eq, Structural)]
pub struct Controls {
    pub up_held: bool,
    pub down_held: bool,
    pub pointer_held: bool,
    /// Where the pointer is, when it is over the window.
    pub pointer: Option<Point>,
    /// Centres of the on-screen up and down buttons.
    pub up_button: Point,
    pub down_button: Point,
}

/// Whether `p` lies strictly within `BUTTON_RADIUS` of `centre`.
pub open spec fn near(p: Point, centre: Point) -> bool {
    let dx = p.x - centre.x;
    let dy = p.y - centre.y;
    dx * dx + dy * dy < BUTTON_RADIUS * BUTTON_RADIUS
}

/// Where the pointer counts as being: the origin when it is off the window.
pub open spec fn pointer_spot(c: Controls) -> Point {
    match c.pointer {
        Some(p) => p,
        None => Point { x: 0, y: 0 },
    }
}

pub open spec fn wants_up(c: Controls) -> bool {
    c.up_held || (c.pointer_held && near(pointer_spot(c), c.up_button))
}

pub open spec fn wants_down(c: Controls) -> bool {
    c.down_held || (c.pointer_held && near(pointer_spot(c), c.down_button))
}

/// The steering direction: +1 up, -1 down, 0 when both or neither are asked for.
pub open spec fn direction_of(c: Controls) -> int {
    (if wants_up(c) { 1int } else { 0int }) - (if wants_down(c) { 1int } else { 0int })
}

/// Whether the player's height is inside the play band.
pub open spec fn in_band(y: int) -> bool {
    BAND_LOW <= y <= BAND_HIGH
}

/// Whether moving from height `y` for `dt_ms` stays within the range of `i64`.
pub open spec fn can_steer(y: i64, dt_ms: u32) -> bool {
    i64::MIN + PLAYER_SPEED * dt_ms <= y <= i64::MAX - PLAYER_SPEED * dt_ms
}

/// Whether `p` lies strictly within `BUTTON_RADIUS` of `centre`.
pub fn is_near(p: Point, centre: Point) -> (r: bool)
    ensures
        r == near(p, centre),
{
    let dx: i128 = p.x as i128 - centre.x as i128;
    let dy: i128 = p.y as i128 - centre.y as i128;
    let r: i128 = BUTTON_RADIUS as i128;
    if dx >= r || dx <= -r || dy >= r || dy <= -r {
        assert(dx * dx >= r * r || dy * dy >= r * r) by (nonlinear_arith)
            requires
                dx >= r || dx <= -r || dy >= r || dy <= -r,
                r > 0,
        ;
        assert(dx * dx >= 0 && dy * dy >= 0) by (nonlinear_arith);
        return false;
    }
    assert(dx * dx < r * r && dy * dy < r * r) by (nonlinear_arith)
        requires
            -r < dx < r,
            -r < dy < r,
            r > 0,
    ;
    assert(dx * dx >= 0 && dy * dy >= 0) by (nonlinear_arith);
    dx * dx + dy * dy < r * r
}

/// The steering direction asked for by the controls.
pub fn direction(c: &Controls) -> (d: i64)
    ensures
        d == direction_of(*c),
{
    let spot = match c.pointer {
        Some(p) => p,
        None => Point { x: 0, y: 0 },
    };
    let up = c.up_held || (c.pointer_held && is_near(spot, c.up_button));
    let down = c.down_held || (c.pointer_held && is_near(spot, c.down_button));
    (if up { 1 } else { 0 }) - (if down { 1 } else { 0 })
}

/// The player's height after moving in direction `d` for `dt_ms`.
pub open spec fn height_after(y: i64, d: int, dt_ms: u32) -> int {
    y + d * PLAYER_SPEED * dt_ms
}

/// Moves the player: returns its new height and its bank angle (milliradians).
pub fn steer(y: i64, d: i64, dt_ms: u32) -> (r: (i64, i64))
    requires
        -1 <= d <= 1,
        can_steer(y, dt_ms),
    ensures
        r.0 == height_after(y, d as int, dt_ms),
        r.1 == d * TILT,
{
    let step: i64 = PLAYER_SPEED * (dt_ms as i64);
    assert(step == PLAYER_SPEED * dt_ms);
    let new_y = if d > 0 {
        y + step
    } else if d < 0 {
        y - step
    } else {
        y
    };
    assert(new_y == y + d * PLAYER_SPEED * dt_ms) by (nonlinear_arith)
        requires
            step == PLAYER_SPEED * dt_ms,
            -1 <= d <= 1,
            d > 0 ==> new_y == y + step,
            d < 0 ==> new_y == y - step,
            d == 0 ==> new_y == y,
    ;
    (new_y, d * TILT)
}

} // verus!
