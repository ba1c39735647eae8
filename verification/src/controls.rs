//! What the keyboard means to the sandbox.

use vstd::prelude::*;

verus! {

/// The keys the sandbox listens to, as polled once at the start of a frame.
/// `r`, `h` and `e` say that the key went down during this frame; `w`, `a`,
/// `s` and `d` say that the key is held.
#[derive(Clone, Copy, Debug)]
pub struct Keys {
    pub r: bool,
    pub h: bool,
    pub e: bool,
    pub w: bool,
    pub a: bool,
    pub s: bool,
    pub d: bool,
}

/// One pan of the camera by the frame's pan distance. `Up` moves the camera
/// offset toward smaller `y`, `Down` toward larger `y`, `Left` toward smaller
/// `x` and `Right` toward larger `x`.
#[derive(Clone, Copy, Debug, PartialEq, Eq, Structural)]
pub enum Pan {
    Up,
    Down,
    Left,
    Right,
}

/// The pan that a key stands for, as a sequence of no or one element.
pub open spec fn pan_if(held: bool, pan: Pan) -> Seq<Pan> {
    if held {
        seq![pan]
    } else {
        Seq::empty()
    }
}

impl Keys {
    /// The pans that the held keys ask for: `W` up, `S` down, `A` left and
    /// `D` right, in this order. Opposite keys held together give both pans.
    pub open spec fn pan_steps(self) -> Seq<Pan> {
        pan_if(self.w, Pan::Up) + pan_if(self.s, Pan::Down) + pan_if(self.a, Pan::Left) + pan_if(
            self.d,
            Pan::Right,
        )
    }

    /// A frame in which no key is down.
    pub fn none() -> (keys: Keys)
        ensures
            keys == (Keys { r: false, h: false, e: false, w: false, a: false, s: false, d: false }),
    {
        Keys { r: false, h: false, e: false, w: false, a: false, s: false, d: false }
    }

    /// The pans that the held keys ask for.
    pub fn pans(&self) -> (steps: Vec<Pan>)
        ensures
            steps@ == self.pan_steps(),
    {
        let mut steps: Vec<Pan> = Vec::new();
        if self.w {
            steps.push(Pan::Up);
        }
        if self.s {
            steps.push(Pan::Down);
        }
        if self.a {
            steps.push(Pan::Left);
        }
        if self.d {
            steps.push(Pan::Right);
        }
        steps
    }
}

} // verus!
