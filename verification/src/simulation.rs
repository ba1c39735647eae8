//! The two passes of a simulation step over the ordered body store: the
//! pairwise gravity accumulator and the integrator.
//!
//! A kernel is any function value; what it computes is known to the passes
//! only through its own contract, so everything stated here holds for every
//! kernel.

use crate::body::{moved, pulled_once, Body};
use vstd::prelude::*;

verus! {

/// Whether `end` can be what `start` has become after being pulled, one
/// after the other and in order, by each body of `others`.
pub open spec fn pulled_by<V, S, F: Fn(&Body<V, S>, &Body<V, S>) -> Option<V>>(
    pull: F,
    start: Body<V, S>,
    others: Seq<Body<V, S>>,
    end: Body<V, S>,
) -> bool
    decreases others.len(),
{
    if others.len() == 0 {
        end == start
    } else {
        exists|mid: Body<V, S>|
            pulled_by(pull, start, others.drop_last(), mid) && #[trigger] pulled_once(
                pull,
                mid,
                others.last(),
                end,
            )
    }
}

/// The relation between the store before and after one gravity pass: the
/// store keeps its length, and the body at each index has been pulled by
/// exactly the bodies stored after it, in index order, each taken as it was
/// before the pass. No body is pulled by one stored before it.
pub open spec fn gravity_pass<V, S, F: Fn(&Body<V, S>, &Body<V, S>) -> Option<V>>(
    pull: F,
    before: Seq<Body<V, S>>,
    after: Seq<Body<V, S>>,
) -> bool {
    &&& after.len() == before.len()
    &&& forall|i: int|
        0 <= i < before.len() ==> pulled_by(
            pull,
            before[i],
            before.subrange(i + 1, before.len() as int),
            #[trigger] after[i],
        )
}

/// The relation between the store before and after one integration pass: the
/// store keeps its length, and the body at each index is the old body at that
/// index, moved once.
pub open spec fn motion_pass<V, S, G: Fn(&Body<V, S>) -> V>(
    advance: G,
    before: Seq<Body<V, S>>,
    after: Seq<Body<V, S>>,
) -> bool {
    &&& after.len() == before.len()
    &&& forall|i: int| 0 <= i < before.len() ==> moved(advance, before[i], #[trigger] after[i])
}

/// The relation between the store before and after one simulation step: a
/// gravity pass, then an integration pass over its result.
pub open spec fn stepped<
    V,
    S,
    F: Fn(&Body<V, S>, &Body<V, S>) -> Option<V>,
    G: Fn(&Body<V, S>) -> V,
>(pull: F, advance: G, before: Seq<Body<V, S>>, after: Seq<Body<V, S>>) -> bool {
    exists|mid: Seq<Body<V, S>>|
        #[trigger] gravity_pass(pull, before, mid) && motion_pass(advance, mid, after)
}

/// Runs the pairwise gravity accumulator over `bodies`. Each unordered pair
/// of bodies is visited once, and of the two only the body with the lower
/// index is pulled; the other is left as it is.
pub fn accumulate_gravity<V: Copy, S: Copy, F: Fn(&Body<V, S>, &Body<V, S>) -> Option<V>>(
    bodies: &mut Vec<Body<V, S>>,
    pull: F,
)
    requires
        forall|a: Body<V, S>, b: Body<V, S>| pull.requires((&a, &b)),
    ensures
        gravity_pass(pull, old(bodies)@, final(bodies)@),
{
    let n = bodies.len();
    let ghost before = bodies@;
    let mut i: usize = 0;
    while i < n
        invariant
            i <= n,
            n == before.len(),
            bodies@.len() == n,
            forall|a: Body<V, S>, b: Body<V, S>| pull.requires((&a, &b)),
            forall|k: int|
                0 <= k < i ==> pulled_by(
                    pull,
                    before[k],
                    before.subrange(k + 1, n as int),
                    #[trigger] bodies@[k],
                ),
            forall|k: int| i <= k < n ==> bodies@[k] == before[k],
        decreases n - i,
    {
        let mut this = bodies[i];
        let mut j: usize = i + 1;
        while j < n
            invariant
                i < j <= n,
                n == before.len(),
                bodies@.len() == n,
                forall|a: Body<V, S>, b: Body<V, S>| pull.requires((&a, &b)),
                pulled_by(pull, before[i as int], before.subrange(i + 1, j as int), this),
                forall|k: int| i < k < n ==> bodies@[k] == before[k],
            decreases n - j,
        {
            let ghost held = this;
            this.apply_gravity(&bodies[j], &pull);
            proof {
                // `held` is the witness: it was pulled by the bodies up to `j`,
                // and the body at `j` has just pulled it once more.
                let others = before.subrange(i + 1, j + 1);
                assert(others.drop_last() =~= before.subrange(i + 1, j as int));
                assert(pulled_once(pull, held, others.last(), this));
            }
            j += 1;
        }
        let ghost entry = bodies@;
        bodies.set(i, this);
        assert forall|k: int| 0 <= k < i implies pulled_by(
            pull,
            before[k],
            before.subrange(k + 1, n as int),
            #[trigger] bodies@[k],
        ) by {
            assert(bodies@[k] == entry[k]);
        }
        i += 1;
    }
}

/// Runs the integrator over `bodies`: every body is moved once,
/// unconditionally.
pub fn integrate<V: Copy, S: Copy, G: Fn(&Body<V, S>) -> V>(
    bodies: &mut Vec<Body<V, S>>,
    advance: G,
)
    requires
        forall|a: Body<V, S>| advance.requires((&a,)),
    ensures
        motion_pass(advance, old(bodies)@, final(bodies)@),
{
    let n = bodies.len();
    let ghost before = bodies@;
    let mut i: usize = 0;
    while i < n
        invariant
            i <= n,
            n == before.len(),
            bodies@.len() == n,
            forall|a: Body<V, S>| advance.requires((&a,)),
            forall|k: int| 0 <= k < i ==> moved(advance, before[k], #[trigger] bodies@[k]),
            forall|k: int| i <= k < n ==> bodies@[k] == before[k],
        decreases n - i,
    {
        let mut this = bodies[i];
        this.update(&advance);
        bodies.set(i, this);
        i += 1;
    }
}

/// Runs one simulation step over `bodies`: the gravity pass, then the
/// integration pass.
pub fn step<
    V: Copy,
    S: Copy,
    F: Fn(&Body<V, S>, &Body<V, S>) -> Option<V>,
    G: Fn(&Body<V, S>) -> V,
>(bodies: &mut Vec<Body<V, S>>, pull: F, advance: G)
    requires
        forall|a: Body<V, S>, b: Body<V, S>| pull.requires((&a, &b)),
        forall|a: Body<V, S>| advance.requires((&a,)),
    ensures
        stepped(pull, advance, old(bodies)@, final(bodies)@),
{
    accumulate_gravity(bodies, pull);
    assert(gravity_pass(pull, old(bodies)@, bodies@));
    integrate(bodies, advance);
}

/// Being pulled changes nothing of a body but its velocity.
pub proof fn lemma_pulls_change_velocity_only<V, S, F: Fn(&Body<V, S>, &Body<V, S>) -> Option<V>>(
    pull: F,
    start: Body<V, S>,
    others: Seq<Body<V, S>>,
    end: Body<V, S>,
)
    requires
        pulled_by(pull, start, others, end),
    ensures
        end == (Body { vel: end.vel, ..start }),
    decreases others.len(),
{
    if others.len() > 0 {
        let mid = choose|mid: Body<V, S>|
            pulled_by(pull, start, others.drop_last(), mid) && #[trigger] pulled_once(
                pull,
                mid,
                others.last(),
                end,
            );
        lemma_pulls_change_velocity_only(pull, start, others.drop_last(), mid);
    }
}

/// A body comes out of being pulled by `others` as it went in if `pull`
/// skips its pair with each of them.
pub proof fn lemma_skipped_pulls_change_nothing<
    V,
    S,
    F: Fn(&Body<V, S>, &Body<V, S>) -> Option<V>,
>(pull: F, start: Body<V, S>, others: Seq<Body<V, S>>, end: Body<V, S>)
    requires
        forall|k: int, out: Option<V>|
            0 <= k < others.len() && #[trigger] pull.ensures((&start, &others[k]), out)
                ==> out is None,
        pulled_by(pull, start, others, end),
    ensures
        end == start,
    decreases others.len(),
{
    if others.len() > 0 {
        let mid = choose|mid: Body<V, S>|
            pulled_by(pull, start, others.drop_last(), mid) && #[trigger] pulled_once(
                pull,
                mid,
                others.last(),
                end,
            );
        lemma_skipped_pulls_change_nothing(pull, start, others.drop_last(), mid);
    }
}

/// The body `a` after one pull by `b`, where `f` says what the pull gives:
/// no velocity if the pair is skipped, else the new velocity of `a`.
pub open spec fn pull_of<V, S>(
    f: spec_fn(Body<V, S>, Body<V, S>) -> Option<V>,
    a: Body<V, S>,
    b: Body<V, S>,
) -> Body<V, S> {
    match f(a, b) {
        Some(vel) => Body { vel, ..a },
        None => a,
    }
}

/// Where the result of `pull` is the function `f` of its two arguments, a
/// body pulled by all of `others` ends as the left fold over them of one
/// pull as `f` gives it.
pub proof fn lemma_pull_by_function<V, S, F: Fn(&Body<V, S>, &Body<V, S>) -> Option<V>>(
    pull: F,
    f: spec_fn(Body<V, S>, Body<V, S>) -> Option<V>,
    start: Body<V, S>,
    others: Seq<Body<V, S>>,
    end: Body<V, S>,
)
    requires
        forall|a: Body<V, S>, b: Body<V, S>, out: Option<V>| #[trigger]
            pull.ensures((&a, &b), out) ==> out == f(a, b),
        pulled_by(pull, start, others, end),
    ensures
        end == others.fold_left(start, |a: Body<V, S>, b: Body<V, S>| pull_of(f, a, b)),
    decreases others.len(),
{
    if others.len() > 0 {
        let mid = choose|mid: Body<V, S>|
            pulled_by(pull, start, others.drop_last(), mid) && #[trigger] pulled_once(
                pull,
                mid,
                others.last(),
                end,
            );
        lemma_pull_by_function(pull, f, start, others.drop_last(), mid);
    }
}

/// A gravity pass changes nothing of any body but its velocity: no body
/// moves, and mass, radius and colour stay as they are.
pub proof fn lemma_gravity_changes_velocity_only<
    V,
    S,
    F: Fn(&Body<V, S>, &Body<V, S>) -> Option<V>,
>(pull: F, before: Seq<Body<V, S>>, after: Seq<Body<V, S>>)
    requires
        gravity_pass(pull, before, after),
    ensures
        after.len() == before.len(),
        forall|i: int|
            0 <= i < before.len() ==> #[trigger] after[i] == (Body {
                vel: after[i].vel,
                ..before[i]
            }),
{
    assert forall|i: int| 0 <= i < before.len() implies #[trigger] after[i] == (Body {
        vel: after[i].vel,
        ..before[i]
    }) by {
        lemma_pulls_change_velocity_only(
            pull,
            before[i],
            before.subrange(i + 1, before.len() as int),
            after[i],
        );
    }
}

/// A gravity pass leaves a body as it was if `pull` skips its pair with
/// every body stored after it. The last body of the store has none after it,
/// so no gravity pass changes it.
pub proof fn lemma_skipped_body_is_untouched<V, S, F: Fn(&Body<V, S>, &Body<V, S>) -> Option<V>>(
    pull: F,
    before: Seq<Body<V, S>>,
    after: Seq<Body<V, S>>,
    i: int,
)
    requires
        gravity_pass(pull, before, after),
        0 <= i < before.len(),
        forall|j: int, out: Option<V>|
            i < j < before.len() && #[trigger] pull.ensures((&before[i], &before[j]), out)
                ==> out is None,
    ensures
        after[i] == before[i],
{
    let others = before.subrange(i + 1, before.len() as int);
    assert forall|k: int, out: Option<V>|
        0 <= k < others.len() && #[trigger] pull.ensures(
            (&before[i], &others[k]),
            out,
        ) implies out is None by {
        assert(others[k] == before[i + 1 + k]);
    }
    lemma_skipped_pulls_change_nothing(pull, before[i], others, after[i]);
}

/// What a gravity pass does to a body depends on that body and on the bodies
/// stored after it, and on nothing else: a pass over a store that agrees
/// with `before` from index `i` on can do to the body at `i` whatever the
/// pass over `before` did to it.
pub proof fn lemma_pull_looks_only_ahead<V, S, F: Fn(&Body<V, S>, &Body<V, S>) -> Option<V>>(
    pull: F,
    before: Seq<Body<V, S>>,
    after: Seq<Body<V, S>>,
    other: Seq<Body<V, S>>,
    i: int,
)
    requires
        gravity_pass(pull, before, after),
        other.len() == before.len(),
        0 <= i < before.len(),
        forall|k: int| i <= k < before.len() ==> other[k] == before[k],
    ensures
        pulled_by(pull, other[i], other.subrange(i + 1, other.len() as int), after[i]),
{
    assert(other.subrange(i + 1, other.len() as int) =~= before.subrange(
        i + 1,
        before.len() as int,
    ));
}

/// Where the result of `pull` is the function `f` of its two arguments, a
/// gravity pass has exactly one outcome: each body ends as the left fold,
/// over the bodies stored after it, of one pull as `f` gives it.
pub proof fn lemma_gravity_pass_by_function<V, S, F: Fn(&Body<V, S>, &Body<V, S>) -> Option<V>>(
    pull: F,
    f: spec_fn(Body<V, S>, Body<V, S>) -> Option<V>,
    before: Seq<Body<V, S>>,
    after: Seq<Body<V, S>>,
)
    requires
        forall|a: Body<V, S>, b: Body<V, S>, out: Option<V>| #[trigger]
            pull.ensures((&a, &b), out) ==> out == f(a, b),
        gravity_pass(pull, before, after),
    ensures
        after.len() == before.len(),
        forall|i: int|
            0 <= i < before.len() ==> #[trigger] after[i] == before.subrange(
                i + 1,
                before.len() as int,
            ).fold_left(before[i], |a: Body<V, S>, b: Body<V, S>| pull_of(f, a, b)),
{
    assert forall|i: int| 0 <= i < before.len() implies #[trigger] after[i] == before.subrange(
        i + 1,
        before.len() as int,
    ).fold_left(before[i], |a: Body<V, S>, b: Body<V, S>| pull_of(f, a, b)) by {
        lemma_pull_by_function(
            pull,
            f,
            before[i],
            before.subrange(i + 1, before.len() as int),
            after[i],
        );
    }
}

/// An integration pass changes nothing of any body but its position:
/// velocity, mass, radius and colour stay as they are.
pub proof fn lemma_motion_changes_position_only<V, S, G: Fn(&Body<V, S>) -> V>(
    advance: G,
    before: Seq<Body<V, S>>,
    after: Seq<Body<V, S>>,
)
    requires
        motion_pass(advance, before, after),
    ensures
        after.len() == before.len(),
        forall|i: int|
            0 <= i < before.len() ==> #[trigger] after[i] == (Body {
                pos: after[i].pos,
                ..before[i]
            }),
{
}

/// The body `a` after one move, where `f` says where the move puts it.
pub open spec fn move_of<V, S>(f: spec_fn(Body<V, S>) -> V, a: Body<V, S>) -> Body<V, S> {
    Body { pos: f(a), ..a }
}

/// Where the result of `advance` is the function `f` of its argument, an
/// integration pass has exactly one outcome: every body stands where `f`
/// puts it.
pub proof fn lemma_motion_pass_by_function<V, S, G: Fn(&Body<V, S>) -> V>(
    advance: G,
    f: spec_fn(Body<V, S>) -> V,
    before: Seq<Body<V, S>>,
    after: Seq<Body<V, S>>,
)
    requires
        forall|a: Body<V, S>, pos: V| #[trigger] advance.ensures((&a,), pos) ==> pos == f(a),
        motion_pass(advance, before, after),
    ensures
        after == before.map_values(|a: Body<V, S>| move_of(f, a)),
{
    assert(after =~= before.map_values(|a: Body<V, S>| move_of(f, a)));
}

/// A simulation step neither adds nor removes a body, and leaves every
/// body's mass, radius and colour as they are.
pub proof fn lemma_step_keeps_what_a_body_is<
    V,
    S,
    F: Fn(&Body<V, S>, &Body<V, S>) -> Option<V>,
    G: Fn(&Body<V, S>) -> V,
>(pull: F, advance: G, before: Seq<Body<V, S>>, after: Seq<Body<V, S>>)
    requires
        stepped(pull, advance, before, after),
    ensures
        after.len() == before.len(),
        forall|i: int|
            0 <= i < before.len() ==> #[trigger] after[i] == (Body {
                pos: after[i].pos,
                vel: after[i].vel,
                ..before[i]
            }),
{
    let mid = choose|mid: Seq<Body<V, S>>|
        #[trigger] gravity_pass(pull, before, mid) && motion_pass(advance, mid, after);
    lemma_gravity_changes_velocity_only(pull, before, mid);
    assert forall|i: int| 0 <= i < before.len() implies #[trigger] after[i] == (Body {
        pos: after[i].pos,
        vel: after[i].vel,
        ..before[i]
    }) by {
        assert(mid[i] == (Body { vel: mid[i].vel, ..before[i] }));
        assert(moved(advance, mid[i], after[i]));
    }
}

} // verus!
