//! One frame of the simulation: timer, intro, steering, scrolling, collisions
//! and the terminal transition, in that order.

use vstd::prelude::*;
use crate::celebration::{tick_timer, timer_after};
use crate::game::{
    after_events, count_kind, effect_ok, event_kind, lemma_count_bound, lemma_event_tallies,
    CollisionEvent, Effect,
    EventKind, GameState,
};
use crate::intro::IntroStep;
use crate::recycler::{can_scroll, step_entities, step_ok, Entity};
use crate::steering::{can_steer, direction, direction_of, height_after, in_band, steer, Controls};
use crate::tuning::{BAND_HIGH, BAND_LOW, TILT};

verus! {

/// What the host reports for one frame.
#[derive(Clone, Copy, Debug, PartialEq, Eq, Structural)]
pub struct FrameInput {
    /// Time since the previous frame.
    pub dt_ms: u32,
    /// Whether any advance input (space, enter, right arrow, click) was just pressed.
    pub advance: bool,
    pub controls: Controls,
    /// Whether the rewind key is held.
    pub rewind_held: bool,
    /// The player's height at the start of the frame.
    pub player_y: i64,
}

/// The player's new height and bank angle (milliradians).
#[derive(Clone, Copy, Debug, PartialEq, Eq, Structural)]
pub struct Pose {
    pub y: i64,
    pub tilt: i64,
}

/// The values the health and score counters show.
#[derive(Clone, Copy, Debug, PartialEq, Eq, Structural)]
pub struct Hud {
    pub health: u8,
    pub score: u64,
}

/// What the host is to do after a frame.
#[derive(Clone, Debug)]
pub struct FrameReport {
    /// Take the celebration message down (done before anything else).
    pub celebration_expired: bool,
    /// What the intro did; gameplay ran only if this is `Over`.
    pub intro: IntroStep,
    /// The player's new pose, when gameplay ran.
    pub pose: Option<Pose>,
    /// New counter values, when gameplay ran.
    pub hud: Option<Hud>,
    /// One entry per collision event, in order.
    pub effects: Vec<Option<Effect>>,
    /// The game was lost in this frame: stop the music, play the terminal cue
    /// and show the final score.
    pub game_over: bool,
}

/// Whether gameplay runs in a frame that starts in state `s`.
pub open spec fn playing(s: GameState) -> bool {
    s.intro.finished() && !s.lost
}

/// The player's height after this frame's steering.
pub open spec fn moved_height(i: FrameInput) -> int {
    height_after(i.player_y, direction_of(i.controls), i.dt_ms)
}

/// The state once steering is applied, just before the collision events:
/// leaving the play band takes all health at once.
pub open spec fn before_events(s: GameState, i: FrameInput) -> GameState {
    GameState {
        health: if in_band(moved_height(i)) {
            s.health
        } else {
            0
        },
        celebration_ms: timer_after(s.celebration_ms, i.dt_ms),
        ..s
    }
}

/// The state after one frame.
pub open spec fn frame_state(s: GameState, i: FrameInput, es: Seq<CollisionEvent>) -> GameState {
    if !s.intro.finished() {
        GameState {
            celebration_ms: timer_after(s.celebration_ms, i.dt_ms),
            intro: s.intro.next(i.advance),
            ..s
        }
    } else if s.lost {
        GameState { celebration_ms: timer_after(s.celebration_ms, i.dt_ms), ..s }
    } else {
        let after = after_events(before_events(s, i), es);
        GameState { lost: after.health == 0, ..after }
    }
}

/// Whether some effect is a catch, which (re)shows the celebration message.
pub open spec fn has_catch(effs: Seq<Option<Effect>>) -> bool {
    exists|k: int| 0 <= k < effs.len() && (#[trigger] effs[k] matches Some(Effect::Catch { .. }))
}

/// Whether the host may run a frame from `s` with these inputs: the state is
/// well formed and no value leaves the range of its machine integer.
pub open spec fn frame_fits(
    s: GameState,
    i: FrameInput,
    entities: Seq<Entity>,
    es: Seq<CollisionEvent>,
) -> bool {
    &&& s.wf()
    &&& can_steer(i.player_y, i.dt_ms)
    &&& forall|k: int| 0 <= k < entities.len() ==> can_scroll(#[trigger] entities[k], i.dt_ms)
    &&& s.score + es.len() <= u64::MAX
}

proof fn lemma_count_positive(es: Seq<CollisionEvent>, k: EventKind)
    ensures
        count_kind(es, k) > 0 <==> exists|j: int| 0 <= j < es.len() && event_kind(#[trigger] es[j]) == k,
    decreases es.len(),
{
    if es.len() > 0 {
        lemma_count_positive(es.drop_last(), k);
        if exists|j: int| 0 <= j < es.len() && event_kind(#[trigger] es[j]) == k {
            let j = choose|j: int| 0 <= j < es.len() && event_kind(#[trigger] es[j]) == k;
            if j < es.len() - 1 {
                assert(es.drop_last()[j] == es[j]);
            }
        }
        if exists|j: int| 0 <= j < es.len() - 1 && event_kind(#[trigger] es.drop_last()[j]) == k {
            let j = choose|j: int| 0 <= j < es.len() - 1 && event_kind(#[trigger] es.drop_last()[j]) == k;
            assert(es[j] == es.drop_last()[j]);
        }
    }
}

impl GameState {
    /// Runs one frame: ages the celebration timer, then either steps the intro
    /// (which consumes the frame), does nothing (the game is lost), or steers
    /// the player, scrolls `entities`, resolves `events` and enters the lost
    /// state when health has run out.
    pub fn step_frame(
        &mut self,
        input: &FrameInput,
        entities: &mut Vec<Entity>,
        events: &Vec<CollisionEvent>,
    ) -> (r: FrameReport)
        requires
            frame_fits(*old(self), *input, old(entities)@, events@),
        ensures
            *final(self) == frame_state(*old(self), *input, events@),
            final(self).wf(),
            final(self).health <= old(self).health,
            old(self).lost ==> *final(self) == (GameState {
                celebration_ms: final(self).celebration_ms,
                ..*old(self)
            }),
            r.celebration_expired == (old(self).celebration_ms.is_some() && timer_after(
                old(self).celebration_ms,
                input.dt_ms,
            ).is_none()),
            r.intro == old(self).intro.step_of(input.advance),
            r.game_over == (final(self).lost && !old(self).lost),
            final(self).celebration_ms.is_some() == (has_catch(r.effects@) || (old(
                self,
            ).celebration_ms.is_some() && !r.celebration_expired)),
            playing(*old(self)) ==> {
                &&& r.pose == Some(
                    Pose {
                        y: moved_height(*input) as i64,
                        tilt: (direction_of(input.controls) * TILT) as i64,
                    },
                )
                &&& r.hud == Some(
                    Hud {
                        health: before_events(*old(self), *input).health,
                        score: old(self).score,
                    },
                )
                &&& r.effects@.len() == events@.len()
                &&& forall|k: int|
                    0 <= k < events@.len() ==> effect_ok(
                        after_events(before_events(*old(self), *input), events@.subrange(0, k)),
                        #[trigger] events@[k],
                        r.effects@[k],
                    )
                &&& final(entities)@.len() == old(entities)@.len()
                &&& forall|k: int|
                    0 <= k < old(entities)@.len() ==> step_ok(
                        #[trigger] old(entities)@[k],
                        final(entities)@[k],
                        input.dt_ms,
                        input.rewind_held,
                    )
            },
            !playing(*old(self)) ==> {
                &&& r.pose.is_none()
                &&& r.hud.is_none()
                &&& r.effects@.len() == 0
                &&& final(entities)@ == old(entities)@
            },
    {
        let ghost s0 = *self;
        let expired = tick_timer(&mut self.celebration_ms, input.dt_ms);
        let intro = self.intro.advance(input.advance);
        let quiet = FrameReport {
            celebration_expired: expired,
            intro,
            pose: None,
            hud: None,
            effects: Vec::new(),
            game_over: false,
        };
        match intro {
            IntroStep::Over => {},
            _ => {
                assert(!has_catch(quiet.effects@));
                return quiet;
            },
        }
        if self.lost {
            assert(!has_catch(quiet.effects@));
            return quiet;
        }
        let d = direction(&input.controls);
        let (y, tilt) = steer(input.player_y, d, input.dt_ms);
        if y < BAND_LOW || y > BAND_HIGH {
            self.health = 0;
        }
        let ghost s1 = *self;
        assert(s1 == before_events(s0, *input));
        step_entities(entities, input.dt_ms, input.rewind_held);
        let hud = Hud { health: self.health, score: self.score };
        let effects = self.resolve_events(events);
        let mut game_over = false;
        if self.health == 0 {
            self.lost = true;
            game_over = true;
        }
        proof {
            lemma_event_tallies(s1, events@);
            lemma_count_positive(events@, EventKind::Catch);
            if has_catch(effects@) {
                let k = choose|k: int|
                    0 <= k < effects@.len() && (#[trigger] effects@[k] matches Some(
                        Effect::Catch { .. },
                    ));
                assert(effect_ok(
                    after_events(s1, events@.subrange(0, k)),
                    events@[k],
                    effects@[k],
                ));
                assert(event_kind(events@[k]) == EventKind::Catch);
            }
            if count_kind(events@, EventKind::Catch) > 0 {
                let k = choose|k: int|
                    0 <= k < events@.len() && event_kind(#[trigger] events@[k]) == EventKind::Catch;
                assert(effect_ok(
                    after_events(s1, events@.subrange(0, k)),
                    events@[k],
                    effects@[k],
                ));
                assert(effects@[k] matches Some(Effect::Catch { .. }));
            }
        }
        FrameReport {
            celebration_expired: expired,
            intro,
            pose: Some(Pose { y, tilt }),
            hud: Some(hud),
            effects,
            game_over,
        }
    }
}

/// The state after a run of frames, frame `k` having input `inputs[k]` and
/// collision events `events[k]`.
pub open spec fn run_frames(
    s: GameState,
    inputs: Seq<FrameInput>,
    events: Seq<Seq<CollisionEvent>>,
) -> GameState
    recommends
        inputs.len() == events.len(),
    decreases inputs.len(),
{
    if inputs.len() == 0 || events.len() == 0 {
        s
    } else {
        frame_state(
            run_frames(s, inputs.drop_last(), events.drop_last()),
            inputs.last(),
            events.last(),
        )
    }
}

/// In every frame health never rises, the game is lost exactly when health
/// is zero, and once lost it stays lost with health and score frozen.
pub proof fn lemma_frame_health(s: GameState, i: FrameInput, es: Seq<CollisionEvent>)
    requires
        s.wf(),
        s.score + es.len() <= u64::MAX,
    ensures
        frame_state(s, i, es).wf(),
        frame_state(s, i, es).health <= s.health,
        frame_state(s, i, es).lost <==> frame_state(s, i, es).health == 0,
        s.lost ==> frame_state(s, i, es).lost && frame_state(s, i, es).score == s.score,
        frame_state(s, i, es).score <= s.score + es.len(),
{
    lemma_event_tallies(before_events(s, i), es);
    lemma_count_bound(es, EventKind::Catch);
}

/// How many collision events a run of frames delivers in all.
pub open spec fn total_events(events: Seq<Seq<CollisionEvent>>) -> int
    decreases events.len(),
{
    if events.len() == 0 {
        0
    } else {
        total_events(events.drop_last()) + events.last().len()
    }
}

proof fn lemma_total_nonnegative(events: Seq<Seq<CollisionEvent>>)
    ensures
        total_events(events) >= 0,
    decreases events.len(),
{
    if events.len() > 0 {
        lemma_total_nonnegative(events.drop_last());
    }
}

/// Over any run of frames health never rises and a lost game stays lost.
pub proof fn lemma_run_health(
    s: GameState,
    inputs: Seq<FrameInput>,
    events: Seq<Seq<CollisionEvent>>,
)
    requires
        s.wf(),
        inputs.len() == events.len(),
        s.score + total_events(events) <= u64::MAX,
    ensures
        run_frames(s, inputs, events).score <= s.score + total_events(events),
        run_frames(s, inputs, events).wf(),
        run_frames(s, inputs, events).health <= s.health,
        s.lost ==> run_frames(s, inputs, events).lost,
    decreases inputs.len(),
{
    if inputs.len() > 0 {
        lemma_run_health(s, inputs.drop_last(), events.drop_last());
        let mid = run_frames(s, inputs.drop_last(), events.drop_last());
        lemma_total_nonnegative(events.drop_last());
        lemma_frame_health(mid, inputs.last(), events.last());
    }
}

} // verus!
