//! The camera: a world-space offset and a zoom.
//!
//! The camera is changed by pan and zoom input only. How far a pan moves the
//! offset and what a frame's scrolling makes of the zoom is computed by
//! kernels that the caller hands in.

use crate::controls::Pan;
use vstd::prelude::*;

verus! {

/// The camera. The world position `offset` is shown at the centre of the
/// screen, magnified by `zoom`.
#[derive(Debug, PartialEq)]
pub struct Camera<V, S> {
    pub offset: V,
    pub zoom: S,
}

impl<V: Copy, S: Copy> Clone for Camera<V, S> {
    fn clone(&self) -> (copy: Self)
        ensures
            copy == *self,
    {
        *self
    }
}

impl<V: Copy, S: Copy> Copy for Camera<V, S> {

}

/// Whether `after` can be the camera `before` after the pan `step`: the
/// kernel `pan` gives the new offset, and the zoom stays as it is.
pub open spec fn panned_once<V, S, M: Fn(&Camera<V, S>, Pan) -> V>(
    pan: M,
    before: Camera<V, S>,
    step: Pan,
    after: Camera<V, S>,
) -> bool {
    &&& pan.ensures((&before, step), after.offset)
    &&& after.zoom == before.zoom
}

/// Whether `end` can be the camera `start` after the pans `steps`, applied
/// one after the other and in order.
pub open spec fn panned<V, S, M: Fn(&Camera<V, S>, Pan) -> V>(
    pan: M,
    start: Camera<V, S>,
    steps: Seq<Pan>,
    end: Camera<V, S>,
) -> bool
    decreases steps.len(),
{
    if steps.len() == 0 {
        end == start
    } else {
        exists|mid: Camera<V, S>|
            panned(pan, start, steps.drop_last(), mid) && #[trigger] panned_once(
                pan,
                mid,
                steps.last(),
                end,
            )
    }
}

/// Whether `after` can be the camera `before` after a frame's zooming: the
/// kernel `zoom` gives the new zoom, and the offset stays as it is.
pub open spec fn zoomed<V, S, Z: FnOnce(&Camera<V, S>) -> S>(
    zoom: Z,
    before: Camera<V, S>,
    after: Camera<V, S>,
) -> bool {
    &&& zoom.ensures((&before,), after.zoom)
    &&& after.offset == before.offset
}

/// Whether `end` can be the camera `start` after a frame's camera input: the
/// pans `steps` first, then the zooming.
pub open spec fn steered<V, S, M: Fn(&Camera<V, S>, Pan) -> V, Z: FnOnce(&Camera<V, S>) -> S>(
    pan: M,
    zoom: Z,
    start: Camera<V, S>,
    steps: Seq<Pan>,
    end: Camera<V, S>,
) -> bool {
    exists|mid: Camera<V, S>| #[trigger] panned(pan, start, steps, mid) && zoomed(zoom, mid, end)
}

impl<V: Copy, S: Copy> Camera<V, S> {
    /// Pans the camera once.
    pub fn pan<M: Fn(&Camera<V, S>, Pan) -> V>(&mut self, step: Pan, pan: &M)
        requires
            pan.requires((old(self), step)),
        ensures
            panned_once(*pan, *old(self), step, *final(self)),
    {
        self.offset = pan(self, step);
    }

    /// Zooms the camera.
    pub fn rescale<Z: FnOnce(&Camera<V, S>) -> S>(&mut self, zoom: Z)
        requires
            zoom.requires((old(self),)),
        ensures
            zoomed(zoom, *old(self), *final(self)),
    {
        self.zoom = zoom(self);
    }

    /// Applies a frame's camera input: the pans `steps`, in order, then the
    /// zooming.
    pub fn steer<M: Fn(&Camera<V, S>, Pan) -> V, Z: FnOnce(&Camera<V, S>) -> S>(
        &mut self,
        steps: &Vec<Pan>,
        pan: M,
        zoom: Z,
    )
        requires
            forall|c: Camera<V, S>, step: Pan| pan.requires((&c, step)),
            forall|c: Camera<V, S>| zoom.requires((&c,)),
        ensures
            steered(pan, zoom, *old(self), steps@, *final(self)),
    {
        let mut k: usize = 0;
        while k < steps.len()
            invariant
                k <= steps.len(),
                forall|c: Camera<V, S>, step: Pan| pan.requires((&c, step)),
                panned(pan, *old(self), steps@.take(k as int), *self),
            decreases steps.len() - k,
        {
            let ghost held = *self;
            self.pan(steps[k], &pan);
            proof {
                let done = steps@.take(k + 1);
                assert(done.drop_last() =~= steps@.take(k as int));
                assert(panned_once(pan, held, done.last(), *self));
            }
            k += 1;
        }
        assert(steps@.take(k as int) =~= steps@);
        self.rescale(zoom);
    }
}

/// Pans move the offset only: the zoom after any number of pans is the zoom
/// before them. Without a pan the camera stays as it is.
pub proof fn lemma_pans_keep_zoom<V, S, M: Fn(&Camera<V, S>, Pan) -> V>(
    pan: M,
    start: Camera<V, S>,
    steps: Seq<Pan>,
    end: Camera<V, S>,
)
    requires
        panned(pan, start, steps, end),
    ensures
        end.zoom == start.zoom,
        steps.len() == 0 ==> end == start,
    decreases steps.len(),
{
    if steps.len() > 0 {
        let mid = choose|mid: Camera<V, S>|
            panned(pan, start, steps.drop_last(), mid) && #[trigger] panned_once(
                pan,
                mid,
                steps.last(),
                end,
            );
        lemma_pans_keep_zoom(pan, start, steps.drop_last(), mid);
    }
}

/// The camera `c` after the pan `step`, where `f` says where a pan puts the
/// offset.
pub open spec fn pan_of<V, S>(
    f: spec_fn(Camera<V, S>, Pan) -> V,
    c: Camera<V, S>,
    step: Pan,
) -> Camera<V, S> {
    Camera { offset: f(c, step), zoom: c.zoom }
}

/// Where the result of `pan` is the function `f` of its two arguments, the
/// pans `steps` have exactly one outcome: the left fold over them of one pan
/// as `f` gives it.
pub proof fn lemma_pans_by_function<V, S, M: Fn(&Camera<V, S>, Pan) -> V>(
    pan: M,
    f: spec_fn(Camera<V, S>, Pan) -> V,
    start: Camera<V, S>,
    steps: Seq<Pan>,
    end: Camera<V, S>,
)
    requires
        forall|c: Camera<V, S>, step: Pan, offset: V| #[trigger]
            pan.ensures((&c, step), offset) ==> offset == f(c, step),
        panned(pan, start, steps, end),
    ensures
        end == steps.fold_left(start, |c: Camera<V, S>, step: Pan| pan_of(f, c, step)),
    decreases steps.len(),
{
    if steps.len() > 0 {
        let mid = choose|mid: Camera<V, S>|
            panned(pan, start, steps.drop_last(), mid) && #[trigger] panned_once(
                pan,
                mid,
                steps.last(),
                end,
            );
        lemma_pans_by_function(pan, f, start, steps.drop_last(), mid);
    }
}

} // verus!
