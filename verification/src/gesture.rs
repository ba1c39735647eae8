//! The press-drag-release gesture that spawns a body.

use vstd::prelude::*;

verus! {

/// A completed drag: where the pointer went down and where it came up, both
/// in world space.
#[derive(Debug, PartialEq)]
pub struct Drag<P> {
    pub anchor: P,
    pub release: P,
}

/// What the pointer did during one frame: whether a button went down, whether
/// one came up, and where in world space the pointer is.
#[derive(Debug, PartialEq)]
pub struct Pointer<P> {
    pub pressed: bool,
    pub released: bool,
    pub at: P,
}

/// The state of the spawn gesture. There is at most one pending spawn: the
/// gesture is either idle or armed with the single anchor of the drag that is
/// under way.
#[derive(Debug, PartialEq)]
pub enum Gesture<P> {
    Idle,
    Armed { anchor: P },
}

impl<P: Copy> Gesture<P> {
    /// The state after a press at `at`: an idle gesture is armed there, an
    /// armed one ignores the press.
    pub open spec fn after_press(self, at: P) -> Self {
        match self {
            Gesture::Idle => Gesture::Armed { anchor: at },
            Gesture::Armed { anchor } => Gesture::Armed { anchor },
        }
    }

    /// The drag that a release at `at` completes, if one is under way.
    pub open spec fn drag_to(self, at: P) -> Option<Drag<P>> {
        match self {
            Gesture::Idle => None,
            Gesture::Armed { anchor } => Some(Drag { anchor, release: at }),
        }
    }

    /// The anchor of the pending spawn, if there is one.
    pub open spec fn pending(self) -> Option<P> {
        match self {
            Gesture::Idle => None,
            Gesture::Armed { anchor } => Some(anchor),
        }
    }

    /// The gesture with no spawn pending.
    pub fn idle() -> (g: Self)
        ensures
            g == Gesture::<P>::Idle,
    {
        Gesture::Idle
    }

    /// Whether a spawn is pending.
    pub fn is_armed(&self) -> (armed: bool)
        ensures
            armed == (*self is Armed),
    {
        match self {
            Gesture::Idle => false,
            Gesture::Armed { .. } => true,
        }
    }

    /// The anchor of the pending spawn, if there is one.
    pub fn anchor(&self) -> (a: Option<P>)
        ensures
            a == self.pending(),
    {
        match self {
            Gesture::Idle => None,
            Gesture::Armed { anchor } => Some(*anchor),
        }
    }

    /// Handles a pointer press at the world position `at`.
    pub fn press(&mut self, at: P)
        ensures
            *final(self) == old(self).after_press(at),
    {
        if !self.is_armed() {
            *self = Gesture::Armed { anchor: at };
        }
    }

    /// Handles a pointer release at the world position `at`: the gesture
    /// returns to idle and hands out the drag that the release completed.
    pub fn release(&mut self, at: P) -> (done: Option<Drag<P>>)
        ensures
            *final(self) == Gesture::<P>::Idle,
            done == old(self).drag_to(at),
    {
        let done = match self {
            Gesture::Idle => None,
            Gesture::Armed { anchor } => Some(Drag { anchor: *anchor, release: at }),
        };
        *self = Gesture::Idle;
        done
    }
}

impl<P: Copy> Pointer<P> {
    /// The state in which a release of this frame finds the gesture `g`: the
    /// press, if there is one, is handled first.
    pub open spec fn arms(self, g: Gesture<P>) -> Gesture<P> {
        if self.pressed {
            g.after_press(self.at)
        } else {
            g
        }
    }

    /// The drag that this frame's pointer completes, if it completes one.
    pub open spec fn completes(self, g: Gesture<P>) -> Option<Drag<P>> {
        if self.released {
            self.arms(g).drag_to(self.at)
        } else {
            None
        }
    }

    /// The state in which this frame's pointer leaves the gesture `g`.
    pub open spec fn leaves(self, g: Gesture<P>) -> Gesture<P> {
        if self.released {
            Gesture::Idle
        } else {
            self.arms(g)
        }
    }
}

impl<P: Copy> Gesture<P> {
    /// Handles one frame of pointer input: first the press, then the
    /// release. Hands out the drag that the frame completed.
    pub fn handle(&mut self, pointer: &Pointer<P>) -> (done: Option<Drag<P>>)
        ensures
            *final(self) == pointer.leaves(*old(self)),
            done == pointer.completes(*old(self)),
    {
        if pointer.pressed {
            self.press(pointer.at);
        }
        if pointer.released {
            self.release(pointer.at)
        } else {
            None
        }
    }
}

/// The position that the pointer input of a frame is taken at: where the
/// pointer hovers, or, while it hovers nowhere, the centre of the screen.
pub fn hover_or_center<P>(hover: Option<P>, center: P) -> (at: P)
    ensures
        at == match hover {
            Some(p) => p,
            None => center,
        },
{
    match hover {
        Some(p) => p,
        None => center,
    }
}

/// A press while a spawn is pending is ignored: the anchor stays what it
/// was and no second spawn becomes pending, wherever the press is. As long as
/// the pointer is not released, a frame with such a press leaves the gesture
/// as it was and completes no drag.
pub proof fn lemma_repress_is_ignored<P: Copy>(anchor: P, at: P)
    ensures
        (Gesture::Armed { anchor }).after_press(at) == (Gesture::Armed { anchor }),
        (Pointer { pressed: true, released: false, at }).leaves((Gesture::Armed { anchor })) == (
        Gesture::Armed { anchor }),
        (Pointer { pressed: true, released: false, at }).completes((Gesture::Armed { anchor }))
            is None,
{
}

/// A drag that a frame completes starts at the anchor that was pending, or,
/// if none was, at the pointer's position in that very frame; it ends at the
/// pointer's position, and it leaves no spawn pending.
pub proof fn lemma_release_completes_the_pending_drag<P: Copy>(g: Gesture<P>, pointer: Pointer<P>)
    requires
        pointer.released,
    ensures
        pointer.leaves(g) == Gesture::<P>::Idle,
        g is Armed ==> pointer.completes(g) == Some(
            (Drag { anchor: g->anchor, release: pointer.at }),
        ),
        g is Idle && pointer.pressed ==> pointer.completes(g) == Some(
            (Drag { anchor: pointer.at, release: pointer.at }),
        ),
        g is Idle && !pointer.pressed ==> pointer.completes(g) is None,
{
}

} // verus!
