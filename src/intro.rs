//! The intro slideshow that gates gameplay.

use vstd::prelude::*;

verus! {

/// A linear sequencer over `count` slides; slide `current` is on screen until
/// `current == count`, when the intro is over for good.
#[derive(Clone, Copy, Debug, PartialEq, Eq, Structural)]
pub struct Intro {
    pub current: usize,
    pub count: usize,
}

/// What the sequencer did in one frame.
#[derive(Clone, Copy, Debug, PartialEq, Eq, Structural)]
pub enum IntroStep {
    /// The intro is over: gameplay runs this frame.
    Over,
    /// No advance input: the slide stays and the frame is consumed.
    Waiting,
    /// Slide `removed` is taken down and slide `shown`, if any, is put up;
    /// the frame is consumed.
    Advanced { removed: usize, shown: Option<usize> },
}

impl Intro {
    pub open spec fn wf(self) -> bool {
        self.current <= self.count
    }

    pub open spec fn finished(self) -> bool {
        self.current >= self.count
    }

    /// The sequencer after one frame whose advance input is `pressed`.
    pub open spec fn next(self, pressed: bool) -> Intro {
        if self.finished() || !pressed {
            self
        } else {
            Intro { current: (self.current + 1) as usize, count: self.count }
        }
    }

    /// What one frame whose advance input is `pressed` does to the slides.
    pub open spec fn step_of(self, pressed: bool) -> IntroStep {
        if self.finished() {
            IntroStep::Over
        } else if !pressed {
            IntroStep::Waiting
        } else {
            IntroStep::Advanced {
                removed: self.current,
                shown: if self.current + 1 < self.count {
                    Some((self.current + 1) as usize)
                } else {
                    None
                },
            }
        }
    }

    /// A sequencer over `count` slides, showing the first one.
    pub fn new(count: usize) -> (r: Intro)
        ensures
            r.wf(),
            r.current == 0,
            r.count == count,
    {
        Intro { current: 0, count }
    }

    /// Whether the intro is over.
    pub fn is_finished(&self) -> (r: bool)
        ensures
            r == self.finished(),
    {
        self.current >= self.count
    }

    /// One frame of the sequencer. Any number of advance inputs in a frame
    /// count as one press.
    pub fn advance(&mut self, pressed: bool) -> (r: IntroStep)
        requires
            old(self).wf(),
        ensures
            final(self).wf(),
            *final(self) == old(self).next(pressed),
            r == old(self).step_of(pressed),
            !old(self).finished() && pressed ==> final(self).current == old(self).current + 1,
    {
        if self.current >= self.count {
            return IntroStep::Over;
        }
        if !pressed {
            return IntroStep::Waiting;
        }
        let removed = self.current;
        if self.current + 1 < self.count {
            self.current = self.current + 1;
            IntroStep::Advanced { removed, shown: Some(self.current) }
        } else {
            self.current = self.count;
            IntroStep::Advanced { removed, shown: None }
        }
    }
}

/// Whether any advance input fired this frame.
pub fn advance_requested(space: bool, enter: bool, right: bool, click: bool) -> (r: bool)
    ensures
        r == (space || enter || right || click),
{
    space || enter || right || click
}

/// The sequencer after a run of frames, `presses[k]` being frame `k`'s advance input.
pub open spec fn run_intro(i: Intro, presses: Seq<bool>) -> Intro
    decreases presses.len(),
{
    if presses.len() == 0 {
        i
    } else {
        run_intro(i, presses.drop_last()).next(presses.last())
    }
}

/// The number of frames in `presses` with an advance input.
pub open spec fn count_presses(presses: Seq<bool>) -> nat
    decreases presses.len(),
{
    if presses.len() == 0 {
        0
    } else {
        count_presses(presses.drop_last()) + if presses.last() { 1nat } else { 0nat }
    }
}

/// Over any run of frames the sequencer moves on by exactly one slide for each
/// frame with an advance input, however many inputs fired in it, until it is
/// finished; once finished it stays finished and never shows a slide again.
pub proof fn lemma_intro_run(i: Intro, presses: Seq<bool>)
    requires
        i.wf(),
    ensures
        run_intro(i, presses).wf(),
        run_intro(i, presses).count == i.count,
        run_intro(i, presses).current == if i.current + count_presses(presses) <= i.count {
            i.current + count_presses(presses)
        } else {
            i.count as int
        },
        i.finished() ==> run_intro(i, presses) == i,
    decreases presses.len(),
{
    if presses.len() > 0 {
        lemma_intro_run(i, presses.drop_last());
    }
}

} // verus!
