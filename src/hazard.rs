//! The per-tick hazard push on chain heads.
//!
//! Every hazard pushes every chain head, with no spatial test, by its push
//! direction scaled by `PUSH_SCALE`.
//!
//! Accumulator policy: a head's accumulator is attached the first tick the
//! head is seen without one and is kept from then on, but each tick clears
//! it and sums the pushes anew. A head's accumulated force is therefore the
//! same after every tick of an unchanged world; it does not grow tick after
//! tick.
use vstd::prelude::*;
use crate::world::{Body, Force, World};

verus! {

/// Magnitude factor applied to a hazard's push direction.
pub const PUSH_SCALE: i128 = 100000;

/// X component of a body's push; zero for a body that is no hazard.
pub open spec fn push_x(b: Body) -> int {
    match b.push {
        Some(p) => p.x as int,
        None => 0,
    }
}

/// Y component of a body's push; zero for a body that is no hazard.
pub open spec fn push_y(b: Body) -> int {
    match b.push {
        Some(p) => p.y as int,
        None => 0,
    }
}

/// Sum of the x components of the pushes of all hazards in `s`.
pub open spec fn push_sum_x(s: Seq<Body>) -> int
    decreases s.len(),
{
    if s.len() == 0 {
        0
    } else {
        push_sum_x(s.drop_last()) + push_x(s.last())
    }
}

/// Sum of the y components of the pushes of all hazards in `s`.
pub open spec fn push_sum_y(s: Seq<Body>) -> int
    decreases s.len(),
{
    if s.len() == 0 {
        0
    } else {
        push_sum_y(s.drop_last()) + push_y(s.last())
    }
}

/// Number of hazards in `s`.
pub open spec fn hazard_count(s: Seq<Body>) -> nat
    decreases s.len(),
{
    if s.len() == 0 {
        0
    } else {
        hazard_count(s.drop_last()) + if s.last().push.is_some() {
            1nat
        } else {
            0nat
        }
    }
}

/// Number of chain heads in `s`.
pub open spec fn head_count(s: Seq<Body>) -> nat
    decreases s.len(),
{
    if s.len() == 0 {
        0
    } else {
        head_count(s.drop_last()) + if s.last().head {
            1nat
        } else {
            0nat
        }
    }
}

/// The force every head of `s` carries after a tick.
pub open spec fn head_force(s: Seq<Body>) -> Force {
    Force { x: (PUSH_SCALE * push_sum_x(s)) as i128, y: (PUSH_SCALE * push_sum_y(s)) as i128 }
}

/// A body after a tick in which the heads get force `f`.
pub open spec fn ticked_body(b: Body, f: Force) -> Body {
    if b.head {
        Body { force: Some(f), ..b }
    } else {
        b
    }
}

/// The bodies `s` with every head given force `f`.
pub open spec fn with_head_force(s: Seq<Body>, f: Force) -> Seq<Body> {
    s.map_values(|b: Body| ticked_body(b, f))
}

/// The bodies after one tick.
pub open spec fn ticked(s: Seq<Body>) -> Seq<Body> {
    with_head_force(s, head_force(s))
}

proof fn lemma_push_sum_bound(s: Seq<Body>)
    ensures
        -2147483648 * s.len() <= push_sum_x(s) <= 2147483647 * s.len(),
        -2147483648 * s.len() <= push_sum_y(s) <= 2147483647 * s.len(),
    decreases s.len(),
{
    if s.len() > 0 {
        lemma_push_sum_bound(s.drop_last());
    }
}

proof fn lemma_head_force_fits(s: Seq<Body>)
    requires
        s.len() <= usize::MAX,
    ensures
        i128::MIN <= PUSH_SCALE * push_sum_x(s) <= i128::MAX,
        i128::MIN <= PUSH_SCALE * push_sum_y(s) <= i128::MAX,
{
    lemma_push_sum_bound(s);
    let n = s.len() as int;
    let x = push_sum_x(s);
    let y = push_sum_y(s);
    assert(i128::MIN <= 100000 * x <= i128::MAX) by (nonlinear_arith)
        requires
            -2147483648 * n <= x <= 2147483647 * n,
            0 <= n <= 18446744073709551615,
    ;
    assert(i128::MIN <= 100000 * y <= i128::MAX) by (nonlinear_arith)
        requires
            -2147483648 * n <= y <= 2147483647 * n,
            0 <= n <= 18446744073709551615,
    ;
}

/// Runs the hazard step of one tick: attaches a zero accumulator to every
/// head that has none, then gives every head the sum over all hazards of
/// `push * PUSH_SCALE`. Bodies that are no head, and all joints, are left
/// as they are.
pub fn heads_scared(world: &mut World)
    ensures
        final(world).bodies@ == ticked(old(world).bodies@),
        final(world).joints@ == old(world).joints@,
        old(world).wf() ==> final(world).wf(),
        forall|i: int|
            0 <= i < old(world).bodies@.len() && (#[trigger] old(world).bodies@[i]).head
                ==> final(world).bodies@[i].force == Some(head_force(old(world).bodies@)),
{
    let ghost s = world.bodies@;
    let n: usize = world.bodies.len();
    let mut sx: i128 = 0;
    let mut sy: i128 = 0;
    let mut i: usize = 0;
    while i < n
        invariant
            s == world.bodies@,
            n == s.len(),
            0 <= i <= n,
            sx == push_sum_x(s.take(i as int)),
            sy == push_sum_y(s.take(i as int)),
        decreases n - i,
    {
        proof {
            assert(s.take(i + 1).drop_last() =~= s.take(i as int));
            lemma_push_sum_bound(s.take(i + 1));
            assert(-2147483648 * (i + 1) >= i128::MIN) by (nonlinear_arith)
                requires
                    i < 18446744073709551615,
            ;
        }
        match world.bodies[i].push {
            Some(p) => {
                sx = sx + p.x as i128;
                sy = sy + p.y as i128;
            },
            None => {},
        }
        i = i + 1;
    }
    proof {
        assert(s.take(n as int) =~= s);
        lemma_head_force_fits(s);
    }
    let f = Force { x: PUSH_SCALE * sx, y: PUSH_SCALE * sy };
    let mut k: usize = 0;
    while k < n
        invariant
            n == s.len(),
            world.bodies@.len() == n,
            f == head_force(s),
            0 <= k <= n,
            forall|j: int| 0 <= j < k ==> world.bodies@[j] == ticked_body(s[j], f),
            forall|j: int| k <= j < n ==> world.bodies@[j] == s[j],
            world.joints@ == old(world).joints@,
            s == old(world).bodies@,
        decreases n - k,
    {
        if world.bodies[k].head {
            let b = world.bodies[k];
            world.bodies.set(k, Body { force: Some(f), ..b });
        }
        k = k + 1;
    }
    proof {
        assert(world.bodies@ =~= ticked(s));
    }
}

/// Sum of the x components of the accumulated forces of all heads in `s`.
pub open spec fn total_head_force_x(s: Seq<Body>) -> int
    decreases s.len(),
{
    if s.len() == 0 {
        0
    } else {
        total_head_force_x(s.drop_last()) + match s.last().force {
            Some(f) if s.last().head => f.x as int,
            _ => 0,
        }
    }
}

/// Sum of the y components of the accumulated forces of all heads in `s`.
pub open spec fn total_head_force_y(s: Seq<Body>) -> int
    decreases s.len(),
{
    if s.len() == 0 {
        0
    } else {
        total_head_force_y(s.drop_last()) + match s.last().force {
            Some(f) if s.last().head => f.y as int,
            _ => 0,
        }
    }
}

proof fn lemma_same_pushes(s: Seq<Body>, t: Seq<Body>)
    requires
        s.len() == t.len(),
        forall|i: int| 0 <= i < s.len() ==> (#[trigger] s[i]).push == t[i].push && s[i].head == t[i].head,
    ensures
        push_sum_x(s) == push_sum_x(t),
        push_sum_y(s) == push_sum_y(t),
        hazard_count(s) == hazard_count(t),
        head_count(s) == head_count(t),
    decreases s.len(),
{
    if s.len() > 0 {
        assert forall|i: int| 0 <= i < s.drop_last().len() implies (#[trigger] s.drop_last()[i]).push
            == t.drop_last()[i].push && s.drop_last()[i].head == t.drop_last()[i].head by {
            assert(s[i].push == t[i].push);
        }
        lemma_same_pushes(s.drop_last(), t.drop_last());
    }
}

proof fn lemma_total_of_ticked(s: Seq<Body>, f: Force)
    ensures
        total_head_force_x(with_head_force(s, f)) == head_count(s) * f.x,
        total_head_force_y(with_head_force(s, f)) == head_count(s) * f.y,
    decreases s.len(),
{
    if s.len() == 0 {
        assert(with_head_force(s, f).len() == 0);
        let h = head_count(s) as int;
        assert(h == 0);
        assert(h * f.x == 0 && h * f.y == 0) by (nonlinear_arith)
            requires
                h == 0,
        ;
    }
    if s.len() > 0 {
        let m = with_head_force(s, f);
        assert(m.drop_last() =~= with_head_force(s.drop_last(), f));
        assert(m.last() == ticked_body(s.last(), f));
        lemma_total_of_ticked(s.drop_last(), f);
        let h = head_count(s.drop_last()) as int;
        assert(total_head_force_x(m) == total_head_force_x(m.drop_last()) + match m.last().force {
            Some(g) if m.last().head => g.x as int,
            _ => 0,
        });
        if s.last().head {
            assert(m.last().force == Some(f));
            assert(total_head_force_x(m) == h * f.x + f.x);
            assert(head_count(s) == h + 1);
            assert((h + 1) * f.x == h * f.x + f.x) by (nonlinear_arith);
            assert((h + 1) * f.y == h * f.y + f.y) by (nonlinear_arith);
        } else {
            assert(head_count(s) == h);
        }
    }
}

proof fn lemma_no_hazard_no_push(s: Seq<Body>)
    requires
        hazard_count(s) == 0,
    ensures
        push_sum_x(s) == 0,
        push_sum_y(s) == 0,
    decreases s.len(),
{
    if s.len() > 0 {
        lemma_no_hazard_no_push(s.drop_last());
    }
}

/// The push a head receives in a tick is the sum over all hazards of the
/// hazard's direction times `PUSH_SCALE`, whatever the positions of the
/// bodies: two worlds that agree on which bodies are heads and hazards and on
/// the push directions give every head the same force. Summed over the `N`
/// heads, the forces are `N` times that sum: one contribution per hazard and
/// head.
pub proof fn lemma_broadcast(s: Seq<Body>, t: Seq<Body>)
    requires
        s.len() == t.len(),
        forall|i: int| 0 <= i < s.len() ==> (#[trigger] s[i]).push == t[i].push && s[i].head == t[i].head,
    ensures
        head_force(s) == head_force(t),
        s.len() <= usize::MAX ==> head_force(s).x == PUSH_SCALE * push_sum_x(s),
        s.len() <= usize::MAX ==> head_force(s).y == PUSH_SCALE * push_sum_y(s),
        s.len() <= usize::MAX ==> total_head_force_x(ticked(s)) == head_count(s) * (PUSH_SCALE
            * push_sum_x(s)),
        s.len() <= usize::MAX ==> total_head_force_y(ticked(s)) == head_count(s) * (PUSH_SCALE
            * push_sum_y(s)),
{
    lemma_same_pushes(s, t);
    lemma_total_of_ticked(s, head_force(s));
    if s.len() <= usize::MAX {
        lemma_head_force_fits(s);
    }
}

/// Ticking again changes nothing: a head's accumulator is attached once,
/// kept, and holds the same force after every tick of an unchanged world, so
/// it never grows. With no hazard at all it stays zero.
pub proof fn lemma_tick_stable(s: Seq<Body>)
    ensures
        ticked(ticked(s)) == ticked(s),
        forall|i: int|
            0 <= i < s.len() && (#[trigger] s[i]).head ==> ticked(s)[i].force == Some(
                head_force(s),
            ),
        hazard_count(s) == 0 ==> head_force(s) == (Force { x: 0, y: 0 }),
{
    let t = ticked(s);
    lemma_same_pushes(s, t);
    assert(head_force(t) == head_force(s));
    assert(ticked(t) =~= t);
    if hazard_count(s) == 0 {
        lemma_no_hazard_no_push(s);
    }
}

} // verus!
