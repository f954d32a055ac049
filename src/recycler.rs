//! Scrolling of entities and their recycling once they leave the screen.

use vstd::prelude::*;
use crate::category::Category;
use crate::chance::draw_between;
use crate::tuning::{
    ANIMAL_X_HIGH, ANIMAL_X_LOW, FAR_X_HIGH, FAR_X_LOW, HOUSE_X_HIGH, HOUSE_X_LOW, RECYCLE_BELOW,
    ROAD_SPEED, SPAWN_Y_HIGH, SPAWN_Y_LOW, WRAP_DISTANCE,
};

verus! {

/// A position in milli-units.
#[derive(Clone, Copy, Debug, PartialEq, Eq, Structural)]
pub struct Point {
    pub x: i64,
    pub y: i64,
}

/// An entity as the simulation sees it: its category and its position.
#[derive(Clone, Copy, Debug, PartialEq, Eq, Structural)]
pub struct Entity {
    pub category: Category,
    pub x: i64,
    pub y: i64,
}

impl Entity {
    pub open spec fn spot(self) -> Point {
        Point { x: self.x, y: self.y }
    }
}

/// How far a scrolling entity moves left in `dt_ms` milliseconds.
pub open spec fn scroll_distance(dt_ms: u32) -> int {
    ROAD_SPEED * dt_ms
}

/// Whether an entity can scroll for `dt_ms` without leaving the range of `i64`.
pub open spec fn can_scroll(e: Entity, dt_ms: u32) -> bool {
    e.category.spec_scrolls() ==> e.x - scroll_distance(dt_ms) >= i64::MIN
}

/// Whether the entity crosses the recycle threshold during this step.
pub open spec fn crosses(e: Entity, dt_ms: u32) -> bool {
    e.category.spec_scrolls() && e.x - scroll_distance(dt_ms) < RECYCLE_BELOW
}

/// Whether the entity is teleported to a fresh random spot during this step.
pub open spec fn respawns(e: Entity, dt_ms: u32) -> bool {
    crosses(e, dt_ms) && !e.category.spec_wraps()
}

/// Lowest horizontal coordinate of the forward range a category respawns in.
pub open spec fn spawn_x_low(c: Category) -> int {
    match c {
        Category::AnimalObstacle => ANIMAL_X_LOW as int,
        Category::HouseObstacle => HOUSE_X_LOW as int,
        _ => FAR_X_LOW as int,
    }
}

/// End (exclusive) of the forward range a category respawns in.
pub open spec fn spawn_x_high(c: Category) -> int {
    match c {
        Category::AnimalObstacle => ANIMAL_X_HIGH as int,
        Category::HouseObstacle => HOUSE_X_HIGH as int,
        _ => FAR_X_HIGH as int,
    }
}

/// Whether `p` lies in the respawn area of category `c`: its forward range
/// horizontally and the spawn band vertically.
pub open spec fn spawn_spot_ok(c: Category, p: Point) -> bool {
    &&& spawn_x_low(c) <= p.x < spawn_x_high(c)
    &&& SPAWN_Y_LOW <= p.y < SPAWN_Y_HIGH
}

/// The entity after one frame of `dt_ms`, when a respawning entity lands on `spot`.
///
/// Scrolling entities move left by `scroll_distance(dt_ms)`. Below the
/// threshold, background wraps forward by `WRAP_DISTANCE` and obstacles land
/// on `spot`. While rewind is held, road markings are put at half a frame's
/// scroll distance to the right of the origin instead.
pub open spec fn stepped(e: Entity, dt_ms: u32, rewind: bool, spot: Point) -> Entity {
    if !e.category.spec_scrolls() {
        e
    } else if rewind && e.category == Category::Roadline {
        Entity { category: e.category, x: (ROAD_SPEED / 2 * dt_ms) as i64, y: e.y }
    } else {
        let x = e.x - scroll_distance(dt_ms);
        if x >= RECYCLE_BELOW {
            Entity { category: e.category, x: x as i64, y: e.y }
        } else if e.category.spec_wraps() {
            Entity { category: e.category, x: (x + WRAP_DISTANCE) as i64, y: e.y }
        } else {
            Entity { category: e.category, x: spot.x, y: spot.y }
        }
    }
}

/// Whether `new` is a possible result of stepping `old`: exactly `stepped`,
/// and a respawned entity lands inside its category's respawn area.
pub open spec fn step_ok(old: Entity, new: Entity, dt_ms: u32, rewind: bool) -> bool {
    &&& new == stepped(old, dt_ms, rewind, new.spot())
    &&& respawns(old, dt_ms) ==> spawn_spot_ok(old.category, new.spot())
}

/// One frame of scrolling for one entity; `spot` is where it lands if it respawns.
pub fn step_entity(e: Entity, dt_ms: u32, rewind: bool, spot: Point) -> (r: Entity)
    requires
        can_scroll(e, dt_ms),
    ensures
        r == stepped(e, dt_ms, rewind, spot),
{
    match e.category {
        Category::Roadline | Category::Savannah | Category::AnimalObstacle
        | Category::HouseObstacle | Category::PlantObstacle | Category::Children => {},
        _ => {
            return e;
        },
    }
    assert(0 <= ROAD_SPEED * (dt_ms as i64) <= 400 * 0xffff_ffff) by (nonlinear_arith)
        requires
            dt_ms <= 0xffff_ffff,
    ;
    assert(0 <= ROAD_SPEED / 2 * (dt_ms as i64) <= 200 * 0xffff_ffff) by (nonlinear_arith)
        requires
            dt_ms <= 0xffff_ffff,
    ;
    if rewind && e.category == Category::Roadline {
        return Entity { category: e.category, x: ROAD_SPEED / 2 * (dt_ms as i64), y: e.y };
    }
    let x = e.x - ROAD_SPEED * (dt_ms as i64);
    if x >= RECYCLE_BELOW {
        Entity { category: e.category, x, y: e.y }
    } else if e.category == Category::Roadline || e.category == Category::Savannah {
        Entity { category: e.category, x: x + WRAP_DISTANCE, y: e.y }
    } else {
        Entity { category: e.category, x: spot.x, y: spot.y }
    }
}

/// Draws a spot in the respawn area of category `c`.
pub fn draw_spawn_spot(c: Category) -> (p: Point)
    ensures
        spawn_spot_ok(c, p),
{
    let x = match c {
        Category::AnimalObstacle => draw_between(ANIMAL_X_LOW, ANIMAL_X_HIGH),
        Category::HouseObstacle => draw_between(HOUSE_X_LOW, HOUSE_X_HIGH),
        _ => draw_between(FAR_X_LOW, FAR_X_HIGH),
    };
    let y = draw_between(SPAWN_Y_LOW, SPAWN_Y_HIGH);
    Point { x, y }
}

/// One frame of scrolling for one entity, drawing a random respawn spot when needed.
pub fn step_entity_randomly(e: Entity, dt_ms: u32, rewind: bool) -> (r: Entity)
    requires
        can_scroll(e, dt_ms),
    ensures
        step_ok(e, r, dt_ms, rewind),
{
    let crossing = match e.category {
        Category::AnimalObstacle | Category::HouseObstacle | Category::PlantObstacle
        | Category::Children => e.x - ROAD_SPEED * (dt_ms as i64) < RECYCLE_BELOW,
        _ => false,
    };
    if crossing {
        let spot = draw_spawn_spot(e.category);
        step_entity(e, dt_ms, rewind, spot)
    } else {
        step_entity(e, dt_ms, rewind, Point { x: e.x, y: e.y })
    }
}

/// One frame of scrolling for every entity, in place.
pub fn step_entities(es: &mut Vec<Entity>, dt_ms: u32, rewind: bool)
    requires
        forall|i: int| 0 <= i < old(es)@.len() ==> can_scroll(#[trigger] old(es)@[i], dt_ms),
    ensures
        final(es)@.len() == old(es)@.len(),
        forall|i: int|
            0 <= i < old(es)@.len() ==> step_ok(#[trigger] old(es)@[i], final(es)@[i], dt_ms, rewind),
{
    let ghost before = es@;
    let mut i: usize = 0;
    while i < es.len()
        invariant
            es@.len() == before.len(),
            i <= es@.len(),
            forall|k: int| 0 <= k < i ==> step_ok(#[trigger] before[k], es@[k], dt_ms, rewind),
            forall|k: int| i <= k < es@.len() ==> es@[k] == before[k],
            forall|k: int| 0 <= k < before.len() ==> can_scroll(#[trigger] before[k], dt_ms),
        decreases es@.len() - i,
    {
        let e = es[i];
        assert(e == before[i as int]);
        let moved = step_entity_randomly(e, dt_ms, rewind);
        es.set(i, moved);
        i = i + 1;
    }
}

} // verus!
