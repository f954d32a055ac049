//! The game state and the resolution of collision events.

use vstd::prelude::*;
use crate::category::{category_of, Category};
use crate::chance::draw_between;
use crate::intro::Intro;
use crate::recycler::{draw_spawn_spot, spawn_spot_ok, Point};
use crate::tuning::{CELEBRATION_MS, CHEER_COUNT, MAX_HEALTH};

verus! {

/// Everything the simulation remembers from one frame to the next.
#[derive(Clone, Copy, Debug, PartialEq, Eq, Structural)]
pub struct GameState {
    pub health: u8,
    pub lost: bool,
    pub score: u64,
    /// Milliseconds left on the celebration message, while one is shown.
    pub celebration_ms: Option<u32>,
    pub intro: Intro,
}

/// A begin or end of an overlap between two labelled entities.
#[derive(Clone, Debug)]
pub struct CollisionEvent {
    pub first: String,
    pub second: String,
    pub begin: bool,
}

/// What a collision event means for the game.
#[derive(Clone, Copy, Debug, PartialEq, Eq, Structural)]
pub enum EventKind {
    /// An end of overlap, or a pair without the player.
    Ignored,
    /// The player reached a child.
    Catch,
    /// The player ran into anything else.
    Hit,
}

/// The two looks a respawned child can have.
#[derive(Clone, Copy, Debug, PartialEq, Eq, Structural)]
pub enum ChildLook {
    Boy,
    Girl,
}

/// The random choices made when a child is caught.
#[derive(Clone, Copy, Debug, PartialEq, Eq, Structural)]
pub struct CatchDraw {
    pub look: ChildLook,
    /// Where the child is recreated.
    pub spot: Point,
    /// Which celebration cue (sound and message) to play.
    pub cheer: u8,
}

/// What the host is to do for one collision event.
#[derive(Clone, Debug)]
pub enum Effect {
    /// Play the damage cue.
    Hit,
    /// Destroy the child `child`, recreate it under the same label with
    /// `look` at `spot`, and play celebration cue `cheer`.
    Catch { child: String, look: ChildLook, spot: Point, cheer: u8 },
}

impl GameState {
    pub open spec fn wf(self) -> bool {
        &&& self.health <= MAX_HEALTH
        &&& self.lost <==> self.health == 0
        &&& self.intro.wf()
        &&& self.lost ==> self.intro.finished()
    }

    /// The state at the start of a run, with an intro of `slides` slides.
    pub fn new(slides: usize) -> (r: GameState)
        ensures
            r.wf(),
            r.health == MAX_HEALTH,
            !r.lost,
            r.score == 0,
            r.celebration_ms.is_none(),
            r.intro == (Intro { current: 0, count: slides }),
    {
        GameState {
            health: MAX_HEALTH,
            lost: false,
            score: 0,
            celebration_ms: None,
            intro: Intro::new(slides),
        }
    }
}

/// The label of the member of the pair that is not the player.
pub open spec fn other_label(e: CollisionEvent) -> Seq<char> {
    if category_of(e.first@) == Category::Player {
        e.second@
    } else {
        e.first@
    }
}

/// What collision event `e` means: ignored unless it begins an overlap of the
/// player with something; a catch when that is a child, else a hit.
#[verifier::opaque]
pub open spec fn event_kind(e: CollisionEvent) -> EventKind {
    if !e.begin {
        EventKind::Ignored
    } else if category_of(e.first@) != Category::Player && category_of(e.second@)
        != Category::Player {
        EventKind::Ignored
    } else if category_of(other_label(e)) == Category::Children {
        EventKind::Catch
    } else {
        EventKind::Hit
    }
}

/// The state after one collision event.
pub open spec fn after_event(s: GameState, k: EventKind) -> GameState {
    match k {
        EventKind::Ignored => s,
        EventKind::Catch => GameState {
            score: (s.score + 1) as u64,
            celebration_ms: Some(CELEBRATION_MS),
            ..s
        },
        EventKind::Hit => if s.health > 0 {
            GameState { health: (s.health - 1) as u8, ..s }
        } else {
            s
        },
    }
}

/// The state after a run of collision events, taken in order.
#[verifier::opaque]
pub open spec fn after_events(s: GameState, es: Seq<CollisionEvent>) -> GameState
    decreases es.len(),
{
    if es.len() == 0 {
        s
    } else {
        after_event(after_events(s, es.drop_last()), event_kind(es.last()))
    }
}

/// Whether `eff` is what the host is told for event `e` met in state `s`:
/// nothing for an ignored event or a hit at zero health, the damage cue for
/// another hit, and for a catch the child's own label, a respawn spot inside
/// the children's respawn area and a valid cue.
pub open spec fn effect_ok(s: GameState, e: CollisionEvent, eff: Option<Effect>) -> bool {
    match event_kind(e) {
        EventKind::Ignored => eff.is_none(),
        EventKind::Hit => if s.health > 0 {
            eff matches Some(Effect::Hit)
        } else {
            eff.is_none()
        },
        EventKind::Catch => match eff {
            Some(Effect::Catch { child, look, spot, cheer }) => {
                &&& child@ == other_label(e)
                &&& spawn_spot_ok(Category::Children, spot)
                &&& cheer < CHEER_COUNT
            },
            _ => false,
        },
    }
}

fn kind_of(e: &CollisionEvent) -> (k: EventKind)
    ensures
        k == event_kind(*e),
{
    proof {
        reveal(event_kind);
    }
    if !e.begin {
        return EventKind::Ignored;
    }
    let a = Category::of_label(e.first.as_str());
    let b = Category::of_label(e.second.as_str());
    let other = if a == Category::Player {
        b
    } else if b == Category::Player {
        a
    } else {
        return EventKind::Ignored;
    };
    if other == Category::Children {
        EventKind::Catch
    } else {
        EventKind::Hit
    }
}

/// Draws the random choices for a catch.
pub fn draw_catch() -> (d: CatchDraw)
    ensures
        spawn_spot_ok(Category::Children, d.spot),
        d.cheer < CHEER_COUNT,
{
    let look = if draw_between(0, 2) == 0 {
        ChildLook::Boy
    } else {
        ChildLook::Girl
    };
    let spot = draw_spawn_spot(Category::Children);
    let cheer = draw_between(0, CHEER_COUNT as i64) as u8;
    CatchDraw { look, spot, cheer }
}

impl GameState {
    /// Applies one collision event, using `draw` for the choices of a catch.
    pub fn resolve_event(&mut self, e: &CollisionEvent, draw: CatchDraw) -> (r: Option<Effect>)
        requires
            old(self).score < u64::MAX,
        ensures
            *final(self) == after_event(*old(self), event_kind(*e)),
            event_kind(*e) == EventKind::Catch ==> (r matches Some(
                Effect::Catch { child, look, spot, cheer },
            ) && child@ == other_label(*e) && look == draw.look && spot == draw.spot && cheer
                == draw.cheer),
            event_kind(*e) != EventKind::Catch ==> effect_ok(*old(self), *e, r),
            !e.begin ==> *final(self) == *old(self) && r.is_none(),
    {
        proof {
            reveal(event_kind);
        }
        match kind_of(e) {
            EventKind::Ignored => None,
            EventKind::Catch => {
                self.score = self.score + 1;
                self.celebration_ms = Some(CELEBRATION_MS);
                let child = if Category::of_label(e.first.as_str()) == Category::Player {
                    e.second.clone()
                } else {
                    e.first.clone()
                };
                Some(Effect::Catch { child, look: draw.look, spot: draw.spot, cheer: draw.cheer })
            },
            EventKind::Hit => {
                if self.health > 0 {
                    self.health = self.health - 1;
                    Some(Effect::Hit)
                } else {
                    None
                }
            },
        }
    }

    /// Applies a frame's collision events in order, drawing the choices of
    /// each catch at random. The result has one entry per event.
    pub fn resolve_events(&mut self, es: &Vec<CollisionEvent>) -> (r: Vec<Option<Effect>>)
        requires
            old(self).score + es@.len() <= u64::MAX,
        ensures
            *final(self) == after_events(*old(self), es@),
            r@.len() == es@.len(),
            forall|i: int|
                0 <= i < es@.len() ==> effect_ok(
                    after_events(*old(self), es@.subrange(0, i)),
                    #[trigger] es@[i],
                    r@[i],
                ),
    {
        let ghost s0 = *self;
        let mut r: Vec<Option<Effect>> = Vec::new();
        let mut i: usize = 0;
        proof {
            lemma_after_no_events(s0, es@);
        }
        while i < es.len()
            invariant
                i <= es@.len(),
                r@.len() == i,
                *self == after_events(s0, es@.subrange(0, i as int)),
                s0.score + es@.len() <= u64::MAX,
                self.score <= s0.score + i,
                forall|k: int|
                    0 <= k < i ==> effect_ok(
                        after_events(s0, es@.subrange(0, k)),
                        #[trigger] es@[k],
                        r@[k],
                    ),
            decreases es@.len() - i,
        {
            let ghost prev = r@;
            proof {
                lemma_after_one_more(s0, es@, i as int);
            }
            let draw = draw_catch();
            let eff = self.resolve_event(&es[i], draw);
            r.push(eff);
            assert forall|k: int| 0 <= k < i + 1 implies effect_ok(
                after_events(s0, es@.subrange(0, k)),
                #[trigger] es@[k],
                r@[k],
            ) by {
                if k < i {
                    assert(r@[k] == prev[k]);
                }
            }
            i = i + 1;
        }
        assert(es@.subrange(0, es@.len() as int) =~= es@);
        r
    }
}

proof fn lemma_after_no_events(s: GameState, es: Seq<CollisionEvent>)
    ensures
        after_events(s, es.subrange(0, 0)) == s,
{
    reveal_with_fuel(after_events, 1);
}

proof fn lemma_after_one_more(s: GameState, es: Seq<CollisionEvent>, i: int)
    requires
        0 <= i < es.len(),
    ensures
        after_events(s, es.subrange(0, i + 1)) == after_event(
            after_events(s, es.subrange(0, i)),
            event_kind(es[i]),
        ),
{
    reveal_with_fuel(after_events, 1);
    assert(es.subrange(0, i + 1).drop_last() =~= es.subrange(0, i));
}

/// How many events of `es` are of kind `k`.
pub open spec fn count_kind(es: Seq<CollisionEvent>, k: EventKind) -> nat
    decreases es.len(),
{
    if es.len() == 0 {
        0
    } else {
        count_kind(es.drop_last(), k) + if event_kind(es.last()) == k {
            1nat
        } else {
            0nat
        }
    }
}

/// Over any run of collision events, each catch adds exactly one to the score
/// and takes no health, and each hit takes exactly one health (never below
/// zero) and leaves the score alone; nothing else changes but the timer.
pub proof fn lemma_event_tallies(s: GameState, es: Seq<CollisionEvent>)
    requires
        s.score + es.len() <= u64::MAX,
    ensures
        after_events(s, es).score == s.score + count_kind(es, EventKind::Catch),
        after_events(s, es).health == if s.health >= count_kind(es, EventKind::Hit) {
            s.health - count_kind(es, EventKind::Hit)
        } else {
            0
        },
        after_events(s, es).lost == s.lost,
        after_events(s, es).intro == s.intro,
        count_kind(es, EventKind::Catch) == 0 ==> after_events(s, es).celebration_ms
            == s.celebration_ms,
        count_kind(es, EventKind::Catch) > 0 ==> after_events(s, es).celebration_ms == Some(
            CELEBRATION_MS,
        ),
    decreases es.len(),
{
    reveal_with_fuel(after_events, 1);
    if es.len() > 0 {
        lemma_event_tallies(s, es.drop_last());
        lemma_count_bound(es.drop_last(), EventKind::Catch);
    }
}

/// No kind occurs more often than there are events.
pub proof fn lemma_count_bound(es: Seq<CollisionEvent>, k: EventKind)
    ensures
        count_kind(es, k) <= es.len(),
    decreases es.len(),
{
    if es.len() > 0 {
        lemma_count_bound(es.drop_last(), k);
    }
}

/// Events that end an overlap never change the game state.
pub proof fn lemma_end_events_inert(s: GameState, es: Seq<CollisionEvent>)
    requires
        forall|i: int| 0 <= i < es.len() ==> !(#[trigger] es[i]).begin,
    ensures
        after_events(s, es) == s,
    decreases es.len(),
{
    reveal(event_kind);
    reveal_with_fuel(after_events, 1);
    if es.len() > 0 {
        assert(!es[es.len() - 1].begin);
        lemma_end_events_inert(s, es.drop_last());
    }
}

} // verus!
