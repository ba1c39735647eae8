//! The sandbox: the body store, the camera, the pending spawn, the spawn
//! settings and the two display flags, with the operations that a frame
//! performs on them.

use crate::body::{made, Body};
use crate::camera::{steered, Camera};
use crate::controls::{Keys, Pan};
use crate::gesture::{Drag, Gesture, Pointer};
use crate::simulation::{lemma_step_keeps_what_a_body_is, step, stepped};
use vstd::prelude::*;

verus! {

/// The state of a sandbox. Everything in it can be read from outside, and
/// changed only through the operations below.
pub struct Sandbox<V, S> {
    bodies: Vec<Body<V, S>>,
    camera: Camera<V, S>,
    home: Camera<V, S>,
    size: S,
    density: S,
    gesture: Gesture<V>,
    show_hud: bool,
    elastic: bool,
}

/// The sandbox as the contracts see it.
pub struct SandboxView<V, S> {
    /// The bodies, in the order in which they were spawned.
    pub bodies: Seq<Body<V, S>>,
    /// The camera.
    pub camera: Camera<V, S>,
    /// The camera that a reset goes back to.
    pub home: Camera<V, S>,
    /// The radius of the bodies that are spawned.
    pub size: S,
    /// The density of the bodies that are spawned.
    pub density: S,
    /// The spawn gesture.
    pub gesture: Gesture<V>,
    /// Whether the overlay is shown.
    pub show_hud: bool,
    /// The elastic-collision flag. It is stored and shown, and has no effect
    /// on the simulation.
    pub elastic: bool,
}

impl<V, S> View for Sandbox<V, S> {
    type V = SandboxView<V, S>;

    closed spec fn view(&self) -> SandboxView<V, S> {
        SandboxView {
            bodies: self.bodies@,
            camera: self.camera,
            home: self.home,
            size: self.size,
            density: self.density,
            gesture: self.gesture,
            show_hud: self.show_hud,
            elastic: self.elastic,
        }
    }
}

/// The relation between the store before and after a frame's pointer input
/// that completed `drag`. Without a drag the store is unchanged. With one it
/// has grown at its end by exactly one body: it stands at the drag's anchor,
/// has the velocity that `velocity_of` gives for the anchor and the release
/// position, the radius `size`, and the mass that `mass_of` gives for
/// `density` and `size`.
pub open spec fn spawned<V, S, L: FnOnce(V, V) -> V, M: FnOnce(S, S) -> S>(
    velocity_of: L,
    mass_of: M,
    drag: Option<Drag<V>>,
    density: S,
    size: S,
    before: Seq<Body<V, S>>,
    after: Seq<Body<V, S>>,
) -> bool {
    match drag {
        None => after == before,
        Some(d) => {
            &&& after.len() == before.len() + 1
            &&& after.drop_last() == before
            &&& velocity_of.ensures((d.anchor, d.release), after.last().vel)
            &&& made(mass_of, d.anchor, after.last().vel, density, size, after.last())
        },
    }
}

/// The numeric kernels that a frame is run with.
pub struct Kernels<Pk, Zk, Gk, Ak, Lk, Vk, Mk> {
    /// Where one pan puts the camera offset.
    pub pan: Pk,
    /// What the frame's scrolling makes of the zoom.
    pub zoom: Zk,
    /// What the pull of a second body makes of a body's velocity, or
    /// nothing where the pair is skipped.
    pub pull: Gk,
    /// Where a body stands after the frame's time step.
    pub advance: Ak,
    /// Where in world space the pointer is, as the camera shows the world.
    pub locate: Lk,
    /// The velocity of the body that a drag spawns, from the drag's anchor
    /// and release position.
    pub velocity_of: Vk,
    /// The mass of a body, from its density and radius.
    pub mass_of: Mk,
}

impl<V, S> SandboxView<V, S> {
    /// Whether `after` can be this sandbox after the keys of one frame have
    /// been handled, in this order: `R` empties the body store and puts the
    /// camera back to its home, `H` flips the overlay flag, `E` flips the
    /// elastic flag, the held pan keys pan the camera, and the frame's
    /// scrolling zooms it.
    pub open spec fn keyed<M: Fn(&Camera<V, S>, Pan) -> V, Z: FnOnce(&Camera<V, S>) -> S>(
        self,
        keys: Keys,
        pan: M,
        zoom: Z,
        after: Self,
    ) -> bool {
        &&& after == (SandboxView {
            bodies: if keys.r {
                Seq::empty()
            } else {
                self.bodies
            },
            camera: after.camera,
            show_hud: self.show_hud != keys.h,
            elastic: self.elastic != keys.e,
            ..self
        })
        &&& steered(
            pan,
            zoom,
            if keys.r {
                self.home
            } else {
                self.camera
            },
            keys.pan_steps(),
            after.camera,
        )
    }

    /// Whether `after` can be this sandbox after one simulation step: the
    /// bodies have gone through a gravity pass and an integration pass, and
    /// nothing else has changed.
    pub open spec fn simulated<F: Fn(&Body<V, S>, &Body<V, S>) -> Option<V>, G: Fn(&Body<V, S>) -> V>(
        self,
        pull: F,
        advance: G,
        after: Self,
    ) -> bool {
        &&& stepped(pull, advance, self.bodies, after.bodies)
        &&& after == (SandboxView { bodies: after.bodies, ..self })
    }

    /// Whether `after` can be this sandbox after the pointer input of one
    /// frame has been handled: the gesture has taken the press and the
    /// release, the drag that the frame completed has spawned a body, and
    /// nothing else has changed.
    pub open spec fn pointed<L: FnOnce(V, V) -> V, M: FnOnce(S, S) -> S>(
        self,
        pointer: Pointer<V>,
        velocity_of: L,
        mass_of: M,
        after: Self,
    ) -> bool where V: Copy {
        &&& spawned(
            velocity_of,
            mass_of,
            pointer.completes(self.gesture),
            self.density,
            self.size,
            self.bodies,
            after.bodies,
        )
        &&& after == (SandboxView {
            bodies: after.bodies,
            gesture: pointer.leaves(self.gesture),
            ..self
        })
    }
}

impl<V: Copy, S: Copy> SandboxView<V, S> {
    /// Whether `after` can be this sandbox after one frame: the keys are
    /// handled first, then the simulation step is run, and then the pointer
    /// input is handled at the world position at which the camera, as the
    /// keys have left it, shows the pointer.
    pub open spec fn framed<
        Pk: Fn(&Camera<V, S>, Pan) -> V,
        Zk: FnOnce(&Camera<V, S>) -> S,
        Gk: Fn(&Body<V, S>, &Body<V, S>) -> Option<V>,
        Ak: Fn(&Body<V, S>) -> V,
        Lk: FnOnce(&Camera<V, S>) -> V,
        Vk: FnOnce(V, V) -> V,
        Mk: FnOnce(S, S) -> S,
    >(
        self,
        keys: Keys,
        pressed: bool,
        released: bool,
        kernels: Kernels<Pk, Zk, Gk, Ak, Lk, Vk, Mk>,
        after: Self,
    ) -> bool {
        exists|keyed: Self, simulated: Self, at: V|
            #![trigger
                self.keyed(keys, kernels.pan, kernels.zoom, keyed),
                keyed.simulated(kernels.pull, kernels.advance, simulated),
                kernels.locate.ensures((&simulated.camera,), at)]
            {
                &&& self.keyed(keys, kernels.pan, kernels.zoom, keyed)
                &&& keyed.simulated(kernels.pull, kernels.advance, simulated)
                &&& kernels.locate.ensures((&simulated.camera,), at)
                &&& simulated.pointed(
                    Pointer { pressed, released, at },
                    kernels.velocity_of,
                    kernels.mass_of,
                    after,
                )
            }
    }
}

impl<V: Copy, S: Copy> Sandbox<V, S> {
    /// A sandbox with no bodies and no pending spawn, the camera at `home`,
    /// the overlay shown and the elastic flag off. The bodies that it spawns
    /// have the radius `size` and the density `density`.
    pub fn new(home: Camera<V, S>, size: S, density: S) -> (sandbox: Self)
        ensures
            sandbox@ == (SandboxView {
                bodies: Seq::empty(),
                camera: home,
                home,
                size,
                density,
                gesture: Gesture::Idle,
                show_hud: true,
                elastic: false,
            }),
    {
        Sandbox {
            bodies: Vec::new(),
            camera: home,
            home,
            size,
            density,
            gesture: Gesture::idle(),
            show_hud: true,
            elastic: false,
        }
    }

    /// Resets the sandbox: the body store is emptied and the camera goes
    /// back to its home, whatever they were. The pending spawn, the spawn
    /// settings and the flags stay as they are.
    pub fn reset(&mut self)
        ensures
            final(self)@ == (SandboxView {
                bodies: Seq::empty(),
                camera: old(self)@.home,
                ..old(self)@
            }),
    {
        self.bodies.clear();
        self.camera = self.home;
    }

    /// Handles the keys of one frame, in this order: `R` resets the sandbox,
    /// `H` flips the overlay flag, `E` flips the elastic flag, the held pan
    /// keys pan the camera, and the frame's scrolling zooms it. No key
    /// touches a body other than by the reset, and none touches the pending
    /// spawn.
    pub fn handle_keys<M: Fn(&Camera<V, S>, Pan) -> V, Z: FnOnce(&Camera<V, S>) -> S>(
        &mut self,
        keys: &Keys,
        pan: M,
        zoom: Z,
    )
        requires
            forall|c: Camera<V, S>, step: Pan| pan.requires((&c, step)),
            forall|c: Camera<V, S>| zoom.requires((&c,)),
        ensures
            old(self)@.keyed(*keys, pan, zoom, final(self)@),
    {
        if keys.r {
            self.reset();
        }
        if keys.h {
            self.show_hud = !self.show_hud;
        }
        if keys.e {
            self.elastic = !self.elastic;
        }
        let steps = keys.pans();
        self.camera.steer(&steps, pan, zoom);
    }

    /// Runs one simulation step: the gravity pass with `pull`, then the
    /// integration pass with `advance`. Nothing but the bodies changes, and
    /// no body is added or removed.
    pub fn step<F: Fn(&Body<V, S>, &Body<V, S>) -> Option<V>, G: Fn(&Body<V, S>) -> V>(
        &mut self,
        pull: F,
        advance: G,
    )
        requires
            forall|a: Body<V, S>, b: Body<V, S>| pull.requires((&a, &b)),
            forall|a: Body<V, S>| advance.requires((&a,)),
        ensures
            old(self)@.simulated(pull, advance, final(self)@),
    {
        step(&mut self.bodies, pull, advance);
    }

    /// Handles the pointer input of one frame. A press arms an idle gesture
    /// at the pointer's position; a release completes the drag that is under
    /// way, and a body is spawned from it at the end of the store. The
    /// bodies already in the store are not touched.
    pub fn handle_pointer<L: FnOnce(V, V) -> V, M: FnOnce(S, S) -> S>(
        &mut self,
        pointer: &Pointer<V>,
        velocity_of: L,
        mass_of: M,
    )
        requires
            pointer.completes(old(self)@.gesture) matches Some(d) ==> velocity_of.requires(
                (d.anchor, d.release),
            ),
            pointer.completes(old(self)@.gesture) is Some ==> mass_of.requires(
                (old(self)@.density, old(self)@.size),
            ),
        ensures
            old(self)@.pointed(*pointer, velocity_of, mass_of, final(self)@),
    {
        match self.gesture.handle(pointer) {
            None => {},
            Some(drag) => {
                let vel = velocity_of(drag.anchor, drag.release);
                let body = Body::new(drag.anchor, vel, self.density, self.size, mass_of);
                self.bodies.push(body);
                assert(self.bodies@.drop_last() =~= old(self)@.bodies);
            },
        }
    }

    /// Runs one frame: handles the keys, runs the simulation step, and
    /// handles the pointer input. A body that the frame spawns is not moved
    /// in that frame, and a reset comes before everything else.
    pub fn frame<
        Pk: Fn(&Camera<V, S>, Pan) -> V,
        Zk: FnOnce(&Camera<V, S>) -> S,
        Gk: Fn(&Body<V, S>, &Body<V, S>) -> Option<V>,
        Ak: Fn(&Body<V, S>) -> V,
        Lk: FnOnce(&Camera<V, S>) -> V,
        Vk: FnOnce(V, V) -> V,
        Mk: FnOnce(S, S) -> S,
    >(&mut self, keys: &Keys, pressed: bool, released: bool, kernels: Kernels<Pk, Zk, Gk, Ak, Lk, Vk, Mk>)
        requires
            forall|c: Camera<V, S>, step: Pan| kernels.pan.requires((&c, step)),
            forall|c: Camera<V, S>| kernels.zoom.requires((&c,)),
            forall|a: Body<V, S>, b: Body<V, S>| kernels.pull.requires((&a, &b)),
            forall|a: Body<V, S>| kernels.advance.requires((&a,)),
            forall|c: Camera<V, S>| kernels.locate.requires((&c,)),
            forall|anchor: V, release: V| kernels.velocity_of.requires((anchor, release)),
            released && (pressed || old(self)@.gesture is Armed) ==> kernels.mass_of.requires(
                (old(self)@.density, old(self)@.size),
            ),
        ensures
            old(self)@.framed(*keys, pressed, released, kernels, final(self)@),
    {
        let Kernels { pan, zoom, pull, advance, locate, velocity_of, mass_of } = kernels;
        self.handle_keys(keys, pan, zoom);
        let ghost keyed = self@;
        self.step(pull, advance);
        let ghost simulated = self@;
        let at = locate(&self.camera);
        let pointer = Pointer { pressed, released, at };
        self.handle_pointer(&pointer, velocity_of, mass_of);
        assert(old(self)@.keyed(*keys, kernels.pan, kernels.zoom, keyed));
        assert(keyed.simulated(kernels.pull, kernels.advance, simulated));
        assert(kernels.locate.ensures((&simulated.camera,), at));
    }

    /// The bodies, in the order in which they were spawned.
    pub fn bodies(&self) -> (bodies: &Vec<Body<V, S>>)
        ensures
            bodies@ == self@.bodies,
    {
        &self.bodies
    }

    /// The number of bodies.
    pub fn body_count(&self) -> (count: usize)
        ensures
            count == self@.bodies.len(),
    {
        self.bodies.len()
    }

    /// The camera.
    pub fn camera(&self) -> (camera: Camera<V, S>)
        ensures
            camera == self@.camera,
    {
        self.camera
    }

    /// The radius of the bodies that are spawned.
    pub fn size(&self) -> (size: S)
        ensures
            size == self@.size,
    {
        self.size
    }

    /// The density of the bodies that are spawned.
    pub fn density(&self) -> (density: S)
        ensures
            density == self@.density,
    {
        self.density
    }

    /// The spawn gesture.
    pub fn gesture(&self) -> (gesture: &Gesture<V>)
        ensures
            *gesture == self@.gesture,
    {
        &self.gesture
    }

    /// Whether the overlay is shown.
    pub fn show_hud(&self) -> (shown: bool)
        ensures
            shown == self@.show_hud,
    {
        self.show_hud
    }

    /// The elastic-collision flag.
    pub fn elastic(&self) -> (elastic: bool)
        ensures
            elastic == self@.elastic,
    {
        self.elastic
    }
}

/// Bodies come and go in two ways only. In a frame the store loses its
/// bodies if `R` went down, and all of them; what is left goes through the
/// simulation step, which keeps their number; and the store gains one body if
/// the frame completes a drag, and no more than one. The spawn settings and
/// the camera's home are the same after every frame, and the flags change
/// by their keys alone.
pub proof fn lemma_frame_keeps_count_and_settings<
    V: Copy,
    S: Copy,
    Pk: Fn(&Camera<V, S>, Pan) -> V,
    Zk: FnOnce(&Camera<V, S>) -> S,
    Gk: Fn(&Body<V, S>, &Body<V, S>) -> Option<V>,
    Ak: Fn(&Body<V, S>) -> V,
    Lk: FnOnce(&Camera<V, S>) -> V,
    Vk: FnOnce(V, V) -> V,
    Mk: FnOnce(S, S) -> S,
>(
    before: SandboxView<V, S>,
    keys: Keys,
    pressed: bool,
    released: bool,
    kernels: Kernels<Pk, Zk, Gk, Ak, Lk, Vk, Mk>,
    after: SandboxView<V, S>,
)
    requires
        before.framed(keys, pressed, released, kernels, after),
    ensures
        after.bodies.len() == (if keys.r {
            0
        } else {
            before.bodies.len()
        }) + (if released && (pressed || before.gesture is Armed) {
            1nat
        } else {
            0nat
        }),
        after.home == before.home,
        after.size == before.size,
        after.density == before.density,
        after.show_hud == (before.show_hud != keys.h),
        after.elastic == (before.elastic != keys.e),
        released ==> after.gesture is Idle,
        !released && (pressed || before.gesture is Armed) ==> after.gesture is Armed,
        !released && !pressed ==> after.gesture == before.gesture,
{
    let (keyed, simulated, at) = choose|keyed: SandboxView<V, S>, simulated: SandboxView<V, S>, at: V|
        #![trigger
            before.keyed(keys, kernels.pan, kernels.zoom, keyed),
            keyed.simulated(kernels.pull, kernels.advance, simulated),
            kernels.locate.ensures((&simulated.camera,), at)]
        {
            &&& before.keyed(keys, kernels.pan, kernels.zoom, keyed)
            &&& keyed.simulated(kernels.pull, kernels.advance, simulated)
            &&& kernels.locate.ensures((&simulated.camera,), at)
            &&& simulated.pointed(
                Pointer { pressed, released, at },
                kernels.velocity_of,
                kernels.mass_of,
                after,
            )
        };
    lemma_step_keeps_what_a_body_is(kernels.pull, kernels.advance, keyed.bodies, simulated.bodies);
}

} // verus!
