use lane_dodger::celebration::tick_timer;
use lane_dodger::category::Category;
use lane_dodger::game::{draw_catch, CatchDraw, ChildLook, CollisionEvent, Effect, GameState};
use lane_dodger::intro::{advance_requested, Intro, IntroStep};
use lane_dodger::recycler::{
    draw_spawn_spot, step_entities, step_entity, step_entity_randomly, Entity, Point,
};
use lane_dodger::steering::{direction, is_near, steer, Controls};

#[test]
fn labels_name_categories() {
    assert_eq!(Category::of_label("player1"), Category::Player);
    assert_eq!(Category::of_label("player12"), Category::Scenery);
    assert_eq!(Category::of_label("roadline17"), Category::Roadline);
    assert_eq!(Category::of_label("savannah3"), Category::Savannah);
    assert_eq!(Category::of_label("obstacle0"), Category::Obstacle);
    assert_eq!(Category::of_label("animal_obstacle2"), Category::AnimalObstacle);
    assert_eq!(Category::of_label("house_obstacle1"), Category::HouseObstacle);
    assert_eq!(Category::of_label("plant_obstacle0"), Category::PlantObstacle);
    assert_eq!(Category::of_label("children1"), Category::Children);
    assert_eq!(Category::of_label("button_up"), Category::Scenery);
    assert_eq!(Category::of_label("intro_slide_0"), Category::Scenery);
    assert_eq!(Category::of_label(""), Category::Scenery);
    assert_eq!(Category::of_label("road"), Category::Scenery);
}

#[test]
fn background_scrolls_and_wraps_exactly() {
    let e = Entity { category: Category::Roadline, x: 100_000, y: 7 };
    let r = step_entity(e, 16, false, Point { x: 0, y: 0 });
    assert_eq!(r, Entity { category: Category::Roadline, x: 93_600, y: 7 });
    let e = Entity { category: Category::Savannah, x: -1_195_000, y: 0 };
    let r = step_entity(e, 20, false, Point { x: 0, y: 0 });
    assert_eq!(r.x, -1_203_000 + 2_400_000);
    let e = Entity { category: Category::Savannah, x: -1_192_000, y: 0 };
    let r = step_entity(e, 20, false, Point { x: 0, y: 0 });
    assert_eq!(r.x, -1_200_000);
}

#[test]
fn obstacles_respawn_on_the_given_spot() {
    let e = Entity { category: Category::AnimalObstacle, x: -1_199_000, y: 5 };
    let r = step_entity(e, 10, false, Point { x: 2_000_000, y: -12 });
    assert_eq!(r, Entity { category: Category::AnimalObstacle, x: 2_000_000, y: -12 });
    let e = Entity { category: Category::AnimalObstacle, x: -1_000_000, y: 5 };
    let r = step_entity(e, 10, false, Point { x: 2_000_000, y: -12 });
    assert_eq!(r, Entity { category: Category::AnimalObstacle, x: -1_004_000, y: 5 });
}

#[test]
fn static_and_scenery_do_not_move() {
    for c in [Category::Obstacle, Category::Player, Category::Scenery] {
        let e = Entity { category: c, x: -5_000_000, y: 3 };
        assert_eq!(step_entity(e, 100, true, Point { x: 1, y: 1 }), e);
    }
}

#[test]
fn rewind_only_moves_road_markings() {
    let e = Entity { category: Category::Roadline, x: -500_000, y: 0 };
    assert_eq!(step_entity(e, 10, true, Point { x: 0, y: 0 }).x, 2_000);
    let e = Entity { category: Category::Savannah, x: -500_000, y: 0 };
    assert_eq!(step_entity(e, 10, true, Point { x: 0, y: 0 }).x, -504_000);
    let e = Entity { category: Category::Children, x: -500_000, y: 0 };
    assert_eq!(step_entity(e, 10, true, Point { x: 0, y: 0 }).x, -504_000);
}

#[test]
fn random_respawns_land_in_their_ranges() {
    let ranges = [
        (Category::AnimalObstacle, 1_800_000, 2_400_000),
        (Category::HouseObstacle, 800_000, 1_600_000),
        (Category::PlantObstacle, 2_800_000, 3_600_000),
        (Category::Children, 2_800_000, 3_600_000),
    ];
    for (c, lo, hi) in ranges {
        let mut xs = Vec::new();
        for _ in 0..100 {
            let e = Entity { category: c, x: -1_199_999, y: 0 };
            let r = step_entity_randomly(e, 16, false);
            assert!(lo <= r.x && r.x < hi);
            assert!(-300_000 <= r.y && r.y < 300_000);
            xs.push(r.x);
        }
        assert!(xs.iter().any(|&x| x != xs[0]));
    }
}

#[test]
fn spawn_spots_vary() {
    let mut ys = Vec::new();
    for _ in 0..100 {
        let p = draw_spawn_spot(Category::HouseObstacle);
        assert!(800_000 <= p.x && p.x < 1_600_000);
        ys.push(p.y);
    }
    assert!(ys.iter().any(|&y| y != ys[0]));
}

#[test]
fn catch_draws_cover_both_looks_and_all_cheers() {
    let mut boys = 0;
    let mut cheers = [false; 3];
    for _ in 0..400 {
        let d = draw_catch();
        if d.look == ChildLook::Boy {
            boys += 1;
        }
        cheers[d.cheer as usize] = true;
    }
    assert!(boys > 0 && boys < 400);
    assert!(cheers.iter().all(|&c| c));
}

#[test]
fn step_entities_moves_every_entity() {
    let mut es = vec![
        Entity { category: Category::Roadline, x: -1_199_000, y: 0 },
        Entity { category: Category::Obstacle, x: 900_000, y: 10 },
        Entity { category: Category::HouseObstacle, x: 0, y: 10 },
    ];
    step_entities(&mut es, 5, false);
    assert_eq!(es[0].x, -1_201_000 + 2_400_000);
    assert_eq!(es[1], Entity { category: Category::Obstacle, x: 900_000, y: 10 });
    assert_eq!(es[2].x, -2_000);
}

#[test]
fn pointer_near_buttons() {
    let c = Point { x: -600_000, y: 100_000 };
    assert!(is_near(Point { x: -600_000, y: 100_000 }, c));
    assert!(is_near(Point { x: -570_000, y: 139_999 }, c));
    assert!(!is_near(Point { x: -570_000, y: 140_000 }, c));
    assert!(!is_near(Point { x: -550_000, y: 100_000 }, c));
    assert!(!is_near(Point { x: i64::MAX, y: i64::MIN }, c));
}

#[test]
fn direction_from_keys_and_pointer() {
    let mut c = Controls {
        up_held: true,
        down_held: false,
        pointer_held: false,
        pointer: None,
        up_button: Point { x: -600_000, y: 100_000 },
        down_button: Point { x: -600_000, y: -100_000 },
    };
    assert_eq!(direction(&c), 1);
    c.down_held = true;
    assert_eq!(direction(&c), 0);
    c.up_held = false;
    assert_eq!(direction(&c), -1);
    c.down_held = false;
    c.pointer_held = true;
    c.pointer = Some(Point { x: -610_000, y: 90_000 });
    assert_eq!(direction(&c), 1);
    c.pointer = Some(Point { x: -600_000, y: -120_000 });
    assert_eq!(direction(&c), -1);
    c.pointer = None;
    assert_eq!(direction(&c), 0);
    c.down_button = Point { x: 10_000, y: 0 };
    assert_eq!(direction(&c), -1);
}

#[test]
fn steering_moves_and_banks() {
    assert_eq!(steer(0, 1, 100), (25_000, 150));
    assert_eq!(steer(0, -1, 100), (-25_000, -150));
    assert_eq!(steer(42, 0, 100), (42, 0));
}

#[test]
fn timer_ticks_down_and_expires() {
    let mut t = Some(1000u32);
    assert!(!tick_timer(&mut t, 999));
    assert_eq!(t, Some(1));
    assert!(tick_timer(&mut t, 1));
    assert_eq!(t, None);
    assert!(!tick_timer(&mut t, 5));
    assert_eq!(t, None);
}

#[test]
fn intro_sequencer_steps() {
    let mut i = Intro::new(2);
    assert_eq!(i.advance(false), IntroStep::Waiting);
    assert_eq!(i.advance(true), IntroStep::Advanced { removed: 0, shown: Some(1) });
    assert_eq!(i.advance(true), IntroStep::Advanced { removed: 1, shown: None });
    assert!(i.is_finished());
    assert_eq!(i.advance(true), IntroStep::Over);
    assert_eq!(i.current, 2);
    let mut empty = Intro::new(0);
    assert_eq!(empty.advance(true), IntroStep::Over);
}

#[test]
fn many_advance_inputs_count_once() {
    assert!(advance_requested(true, true, true, true));
    assert!(advance_requested(false, false, false, true));
    assert!(!advance_requested(false, false, false, false));
    let mut i = Intro::new(5);
    i.advance(advance_requested(true, true, true, true));
    assert_eq!(i.current, 1);
}

#[test]
fn resolve_event_uses_the_draw() {
    let mut s = GameState::new(0);
    let draw = CatchDraw { look: ChildLook::Girl, spot: Point { x: 3_000_000, y: 5 }, cheer: 2 };
    let e = CollisionEvent {
        first: "children0".to_string(),
        second: "player1".to_string(),
        begin: true,
    };
    match s.resolve_event(&e, draw) {
        Some(Effect::Catch { child, look, spot, cheer }) => {
            assert_eq!(child, "children0");
            assert_eq!(look, ChildLook::Girl);
            assert_eq!(spot, Point { x: 3_000_000, y: 5 });
            assert_eq!(cheer, 2);
        }
        _ => panic!("expected a catch"),
    }
    assert_eq!(s.score, 1);
    assert_eq!(s.celebration_ms, Some(1000));
}

#[test]
fn resolve_events_in_order() {
    let mut s = GameState::new(0);
    let es = vec![
        CollisionEvent { first: "player1".to_string(), second: "obstacle0".to_string(), begin: true },
        CollisionEvent { first: "player1".to_string(), second: "children1".to_string(), begin: true },
        CollisionEvent { first: "player1".to_string(), second: "obstacle0".to_string(), begin: false },
    ];
    let r = s.resolve_events(&es);
    assert_eq!(r.len(), 3);
    assert!(matches!(r[0], Some(Effect::Hit)));
    assert!(matches!(r[1], Some(Effect::Catch { .. })));
    assert!(r[2].is_none());
    assert_eq!(s.health, 4);
    assert_eq!(s.score, 1);
    assert!(!s.lost);
}
