//! Bodies: point-mass discs in world space.
//!
//! A body is generic in the vector type `V` of its position and velocity and
//! in the scalar type `S` of its mass and radius. The arithmetic on these is
//! done by kernels that the caller hands in; this module fixes which field a
//! kernel's result goes to and proves that the other fields stay as they are.

use vstd::prelude::*;

verus! {

/// A display colour.
#[derive(Clone, Copy, Debug, PartialEq, Eq, Structural)]
pub struct Color {
    pub r: u8,
    pub g: u8,
    pub b: u8,
}

impl Color {
    /// The colour that every body is given when it is made.
    pub open spec fn of_body() -> Color {
        Color { r: 200, g: 200, b: 255 }
    }

    /// The colour that every body is given when it is made.
    pub fn body() -> (color: Color)
        ensures
            color == Color::of_body(),
    {
        Color { r: 200, g: 200, b: 255 }
    }
}

/// A point-mass disc.
#[derive(Debug, PartialEq)]
pub struct Body<V, S> {
    /// Position, in world coordinates.
    pub pos: V,
    /// Velocity, in world units per unit of simulated time.
    pub vel: V,
    /// Mass, derived from density and radius when the body is made.
    pub mass: S,
    /// Radius, fixed when the body is made.
    pub radius: S,
    /// Display colour, fixed when the body is made.
    pub color: Color,
}

impl<V: Copy, S: Copy> Clone for Body<V, S> {
    fn clone(&self) -> (copy: Self)
        ensures
            copy == *self,
    {
        *self
    }
}

impl<V: Copy, S: Copy> Copy for Body<V, S> {

}

/// Whether `body` can be the body made at `pos` with velocity `vel`, density
/// `density` and radius `size`, where `mass_of` gives the mass for a density
/// and a radius.
pub open spec fn made<V, S, M: FnOnce(S, S) -> S>(
    mass_of: M,
    pos: V,
    vel: V,
    density: S,
    size: S,
    body: Body<V, S>,
) -> bool {
    &&& body == (Body { pos, vel, mass: body.mass, radius: size, color: Color::of_body() })
    &&& mass_of.ensures((density, size), body.mass)
}

/// Whether `after` can be what `before` has become after being pulled once by
/// `other`. The kernel `pull` either skips the pair, and the body stays as it
/// is, or gives the body's new velocity, and the body changes in nothing
/// else. `other` is not changed in either case.
pub open spec fn pulled_once<V, S, F: Fn(&Body<V, S>, &Body<V, S>) -> Option<V>>(
    pull: F,
    before: Body<V, S>,
    other: Body<V, S>,
    after: Body<V, S>,
) -> bool {
    ||| pull.ensures((&before, &other), None) && after == before
    ||| pull.ensures((&before, &other), Some(after.vel)) && after == (Body {
        vel: after.vel,
        ..before
    })
}

/// Whether `after` can be what `before` has become after moving for one time
/// step. The kernel `advance` gives the body's new position, and the body
/// changes in nothing else.
pub open spec fn moved<V, S, G: Fn(&Body<V, S>) -> V>(
    advance: G,
    before: Body<V, S>,
    after: Body<V, S>,
) -> bool {
    &&& advance.ensures((&before,), after.pos)
    &&& after == (Body { pos: after.pos, ..before })
}

impl<V: Copy, S: Copy> Body<V, S> {
    /// Makes a body at `pos` with velocity `vel` and radius `size`. Its mass
    /// is what `mass_of` gives for `density` and `size`.
    pub fn new<M: FnOnce(S, S) -> S>(pos: V, vel: V, density: S, size: S, mass_of: M) -> (body: Self)
        requires
            mass_of.requires((density, size)),
        ensures
            made(mass_of, pos, vel, density, size, body),
    {
        let radius = size;
        let mass = mass_of(density, radius);
        Body { pos, vel, mass, radius, color: Color::body() }
    }

    /// Lets `other` pull this body once.
    pub fn apply_gravity<F: Fn(&Body<V, S>, &Body<V, S>) -> Option<V>>(
        &mut self,
        other: &Body<V, S>,
        pull: &F,
    )
        requires
            pull.requires((old(self), other)),
        ensures
            pulled_once(*pull, *old(self), *other, *final(self)),
    {
        match pull(self, other) {
            Some(vel) => {
                self.vel = vel;
            },
            None => {},
        }
    }

    /// Moves this body for one time step.
    pub fn update<G: Fn(&Body<V, S>) -> V>(&mut self, advance: &G)
        requires
            advance.requires((old(self),)),
        ensures
            moved(*advance, *old(self), *final(self)),
    {
        self.pos = advance(self);
    }
}

/// A pair that `pull` skips changes neither of its bodies: the pulled body
/// stays as it is in every field, and the other body is only read.
pub proof fn lemma_skipped_pair_changes_nothing<
    V,
    S,
    F: Fn(&Body<V, S>, &Body<V, S>) -> Option<V>,
>(pull: F, before: Body<V, S>, other: Body<V, S>, after: Body<V, S>)
    requires
        forall|out: Option<V>| #[trigger] pull.ensures((&before, &other), out) ==> out is None,
        pulled_once(pull, before, other, after),
    ensures
        after == before,
{
}

/// A pair that `pull` does not skip changes the velocity of the pulled body
/// to what `pull` gives, and nothing else.
pub proof fn lemma_pulled_pair_changes_velocity_only<
    V,
    S,
    F: Fn(&Body<V, S>, &Body<V, S>) -> Option<V>,
>(pull: F, before: Body<V, S>, other: Body<V, S>, after: Body<V, S>)
    requires
        forall|out: Option<V>| #[trigger] pull.ensures((&before, &other), out) ==> out is Some,
        pulled_once(pull, before, other, after),
    ensures
        pull.ensures((&before, &other), Some(after.vel)),
        after == (Body { vel: after.vel, ..before }),
{
}

} // verus!
