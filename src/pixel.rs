use vstd::prelude::*;

verus! {

/// Where a pixel stands in its escape-time iteration.
#[derive(Clone, Copy, Debug, PartialEq, Eq, Structural)]
pub enum PixelStatus {
    /// Still iterating: a later dispatch resumes it.
    Active,
    /// Its orbit left the bailout radius.
    Escaped,
    /// It reached the global iteration cap without escaping.
    Exhausted,
}

/// The integer part of one pixel's resumable state. The floating-point
/// delta that travels with it is owned by the compute backend.
#[derive(Clone, Copy, Debug, PartialEq, Eq, Structural)]
pub struct PixelCounters {
    /// Index into the reference orbit that the delta is relative to.
    pub ref_iteration: u32,
    /// Iterations performed so far, counting those skipped by the series
    /// approximation.
    pub iteration: u32,
    pub status: PixelStatus,
}

/// How the freshly perturbed point compares, as measured by the backend.
#[derive(Clone, Copy, Debug, PartialEq, Eq, Structural)]
pub enum Magnitude {
    /// The full position `|z|²` exceeds the bailout.
    Escaped,
    /// The full position is smaller than the delta alone (`|z|² < |d|²`):
    /// the reference has drifted away and the pixel must be rebased.
    BelowDelta,
    /// Neither of the above.
    Bounded,
}

/// What the backend must do to its floating-point delta after a step.
#[derive(Clone, Copy, Debug, PartialEq, Eq, Structural)]
pub enum Step {
    /// The pixel escaped: colour it from the current reference point.
    Escape,
    /// Add the reference point to the delta and restart at the orbit origin.
    Rebase,
    /// Keep the delta and move on to the next reference point.
    Continue,
}

/// What the backend must colour a finished pixel with.
#[derive(Clone, Copy, Debug, PartialEq, Eq, Structural)]
pub enum Shade {
    /// The designated interior colour (black).
    Interior,
    /// Smooth colouring from the escape iteration and the reference point
    /// at `ref_iteration`.
    Smooth { iteration: u32, ref_iteration: u32 },
    /// The pixel has not finished yet.
    Pending,
}

/// The counters a pixel starts with: the series approximation has already
/// carried it to iteration `polylim`.
pub open spec fn start_spec(polylim: nat) -> PixelCounters {
    PixelCounters { ref_iteration: polylim as u32, iteration: polylim as u32, status: PixelStatus::Active }
}

/// The state well-formed against an orbit of `orbit_len` records and a cap
/// of `iterations`.
pub open spec fn pixel_wf(c: PixelCounters, orbit_len: nat, iterations: nat) -> bool {
    &&& c.iteration <= iterations
    &&& c.ref_iteration < orbit_len
    &&& c.status == PixelStatus::Active ==> c.ref_iteration + 1 < orbit_len
    &&& c.status == PixelStatus::Exhausted ==> c.iteration == iterations
}

/// One perturbation step, given how the new point measured.
pub open spec fn advance_spec(c: PixelCounters, m: Magnitude, orbit_len: nat) -> (PixelCounters, Step) {
    let next = (c.ref_iteration + 1) as u32;
    if m == Magnitude::Escaped {
        (PixelCounters { ref_iteration: next, status: PixelStatus::Escaped, ..c }, Step::Escape)
    } else if next + 1 == orbit_len || m == Magnitude::BelowDelta {
        (
            PixelCounters { ref_iteration: 0, iteration: (c.iteration + 1) as u32, ..c },
            Step::Rebase,
        )
    } else {
        (
            PixelCounters { ref_iteration: next, iteration: (c.iteration + 1) as u32, ..c },
            Step::Continue,
        )
    }
}

/// Whether another step may run in the current dispatch.
pub open spec fn may_step(c: PixelCounters, iterations: nat) -> bool {
    c.status == PixelStatus::Active && c.iteration < iterations
}

/// The state stored at the end of a dispatch: a pixel that reached the cap
/// becomes exhausted.
pub open spec fn settle_spec(c: PixelCounters, iterations: nat) -> PixelCounters {
    if c.status == PixelStatus::Active && c.iteration >= iterations {
        PixelCounters { status: PixelStatus::Exhausted, ..c }
    } else {
        c
    }
}

/// Counters for a pixel that enters the iteration at `polylim`.
pub fn start(polylim: u32) -> (r: PixelCounters)
    ensures
        r == start_spec(polylim as nat),
{
    PixelCounters { ref_iteration: polylim, iteration: polylim, status: PixelStatus::Active }
}

/// Whether the kernel runs another iteration on this pixel, having already
/// run `done` of at most `batch_iter` in this dispatch.
pub fn wants_iteration(c: &PixelCounters, iterations: u32, done: u32, batch_iter: u32) -> (r: bool)
    ensures
        r == (may_step(*c, iterations as nat) && done < batch_iter),
{
    c.status == PixelStatus::Active && c.iteration < iterations && done < batch_iter
}

/// Advances the counters by one perturbation step and tells the backend
/// what to do with its delta: escape, rebase onto the orbit origin (when
/// the last reference record is reached or the delta outgrew the
/// reference), or continue.
pub fn advance(c: &PixelCounters, m: Magnitude, orbit_len: u32, iterations: u32) -> (r: (PixelCounters, Step))
    requires
        may_step(*c, iterations as nat),
        pixel_wf(*c, orbit_len as nat, iterations as nat),
    ensures
        r == advance_spec(*c, m, orbit_len as nat),
        pixel_wf(r.0, orbit_len as nat, iterations as nat),
        r.0.iteration >= c.iteration,
{
    let next: u32 = c.ref_iteration + 1;
    if m == Magnitude::Escaped {
        (PixelCounters { ref_iteration: next, iteration: c.iteration, status: PixelStatus::Escaped }, Step::Escape)
    } else if next as u64 + 1 == orbit_len as u64 || m == Magnitude::BelowDelta {
        (PixelCounters { ref_iteration: 0, iteration: c.iteration + 1, status: c.status }, Step::Rebase)
    } else {
        (PixelCounters { ref_iteration: next, iteration: c.iteration + 1, status: c.status }, Step::Continue)
    }
}

/// Closes a dispatch for one pixel. Returns the stored state and whether
/// the pixel still counts as remaining work.
pub fn settle(c: &PixelCounters, iterations: u32) -> (r: (PixelCounters, bool))
    ensures
        r.0 == settle_spec(*c, iterations as nat),
        r.1 == (r.0.status == PixelStatus::Active),
        c.status != PixelStatus::Active ==> r.0 == *c,
{
    if c.status == PixelStatus::Active && c.iteration >= iterations {
        (PixelCounters { ref_iteration: c.ref_iteration, iteration: c.iteration, status: PixelStatus::Exhausted }, false)
    } else {
        (*c, c.status == PixelStatus::Active)
    }
}


/// How a pixel is coloured: a pixel that exhausted the cap gets the interior
/// colour whatever its delta holds; an escaped one is smooth-coloured.
pub open spec fn shade_spec(c: PixelCounters) -> Shade {
    match c.status {
        PixelStatus::Exhausted => Shade::Interior,
        PixelStatus::Escaped => Shade::Smooth { iteration: c.iteration, ref_iteration: c.ref_iteration },
        PixelStatus::Active => Shade::Pending,
    }
}

/// The colouring decision for a pixel.
pub fn shade(c: &PixelCounters) -> (r: Shade)
    ensures
        r == shade_spec(*c),
        c.status == PixelStatus::Exhausted ==> r == Shade::Interior,
{
    match c.status {
        PixelStatus::Exhausted => Shade::Interior,
        PixelStatus::Escaped => Shade::Smooth { iteration: c.iteration, ref_iteration: c.ref_iteration },
        PixelStatus::Active => Shade::Pending,
    }
}

/// Number of pixels still active in `s`.
pub open spec fn active_count(s: Seq<PixelCounters>) -> nat
    decreases s.len(),
{
    if s.len() == 0 {
        0
    } else {
        active_count(s.drop_last()) + if s.last().status == PixelStatus::Active { 1nat } else { 0nat }
    }
}

/// The remaining-work counter of a dispatch: the pixels left active.
pub fn count_active(states: &Vec<PixelCounters>) -> (r: u64)
    ensures
        r == active_count(states@),
{
    let mut n: u64 = 0;
    let mut i: usize = 0;
    while i < states.len()
        invariant
            i <= states@.len(),
            n == active_count(states@.subrange(0, i as int)),
            n <= i,
        decreases states.len() - i,
    {
        proof {
            let t = states@.subrange(0, i as int + 1);
            assert(t.drop_last() =~= states@.subrange(0, i as int));
        }
        if states[i].status == PixelStatus::Active {
            n = n + 1;
        }
        i = i + 1;
    }
    assert(states@.subrange(0, states@.len() as int) =~= states@);
    n
}

proof fn lemma_finished_kept_count(before: Seq<PixelCounters>, after: Seq<PixelCounters>)
    requires
        before.len() == after.len(),
        forall|i: int| 0 <= i < before.len() && before[i].status != PixelStatus::Active ==> after[i] == before[i],
    ensures
        active_count(after) <= active_count(before),
    decreases before.len(),
{
    if before.len() > 0 {
        assert forall|i: int| 0 <= i < before.drop_last().len() && before.drop_last()[i].status != PixelStatus::Active
            implies after.drop_last()[i] == before.drop_last()[i] by {
            assert(before.drop_last()[i] == before[i]);
            assert(after.drop_last()[i] == after[i]);
        }
        lemma_finished_kept_count(before.drop_last(), after.drop_last());
    }
}

/// The state after at most `b` steps, where the step taken at iteration `k`
/// measures `ev(k)`. The backend's delta evolves deterministically, one step
/// per iteration, so a pixel's measurements are a function of the iteration.
pub open spec fn run_steps(
    c: PixelCounters,
    ev: spec_fn(nat) -> Magnitude,
    orbit_len: nat,
    iterations: nat,
    b: nat,
) -> PixelCounters
    decreases b,
{
    if b == 0 || !may_step(c, iterations) {
        c
    } else {
        run_steps(advance_spec(c, ev(c.iteration as nat), orbit_len).0, ev, orbit_len, iterations, (b - 1) as nat)
    }
}

/// One dispatch with a batch bound of `b` iterations.
pub open spec fn dispatch_spec(
    c: PixelCounters,
    ev: spec_fn(nat) -> Magnitude,
    orbit_len: nat,
    iterations: nat,
    b: nat,
) -> PixelCounters {
    settle_spec(run_steps(c, ev, orbit_len, iterations, b), iterations)
}

/// `n` successive dispatches with a batch bound of `b` iterations.
pub open spec fn dispatches(
    c: PixelCounters,
    ev: spec_fn(nat) -> Magnitude,
    orbit_len: nat,
    iterations: nat,
    b: nat,
    n: nat,
) -> PixelCounters
    decreases n,
{
    if n == 0 {
        c
    } else {
        dispatches(dispatch_spec(c, ev, orbit_len, iterations, b), ev, orbit_len, iterations, b, (n - 1) as nat)
    }
}

proof fn lemma_run_idle(c: PixelCounters, ev: spec_fn(nat) -> Magnitude, orbit_len: nat, iterations: nat, k: nat)
    requires
        !may_step(c, iterations),
    ensures
        run_steps(c, ev, orbit_len, iterations, k) == c,
    decreases k,
{
}

proof fn lemma_run_compose(
    c: PixelCounters,
    ev: spec_fn(nat) -> Magnitude,
    orbit_len: nat,
    iterations: nat,
    a: nat,
    b: nat,
)
    ensures
        run_steps(run_steps(c, ev, orbit_len, iterations, a), ev, orbit_len, iterations, b)
            == run_steps(c, ev, orbit_len, iterations, a + b),
    decreases a,
{
    if a == 0 {
    } else if !may_step(c, iterations) {
        lemma_run_idle(c, ev, orbit_len, iterations, b);
        lemma_run_idle(c, ev, orbit_len, iterations, a);
        lemma_run_idle(c, ev, orbit_len, iterations, a + b);
    } else {
        let d = advance_spec(c, ev(c.iteration as nat), orbit_len).0;
        lemma_run_compose(d, ev, orbit_len, iterations, (a - 1) as nat, b);
        assert((a + b - 1) as nat == (a - 1) as nat + b);
    }
}

proof fn lemma_run_reaches_end(
    c: PixelCounters,
    ev: spec_fn(nat) -> Magnitude,
    orbit_len: nat,
    iterations: nat,
    k: nat,
)
    requires
        iterations <= u32::MAX,
        c.iteration + k >= iterations,
    ensures
        !may_step(run_steps(c, ev, orbit_len, iterations, k), iterations),
    decreases k,
{
    if k > 0 && may_step(c, iterations) {
        let d = advance_spec(c, ev(c.iteration as nat), orbit_len).0;
        if ev(c.iteration as nat) == Magnitude::Escaped {
            lemma_run_idle(d, ev, orbit_len, iterations, (k - 1) as nat);
        } else {
            lemma_run_reaches_end(d, ev, orbit_len, iterations, (k - 1) as nat);
        }
    }
}

proof fn lemma_run_saturates(
    c: PixelCounters,
    ev: spec_fn(nat) -> Magnitude,
    orbit_len: nat,
    iterations: nat,
    k: nat,
)
    requires
        iterations <= u32::MAX,
        c.iteration <= iterations,
        k >= iterations - c.iteration,
    ensures
        run_steps(c, ev, orbit_len, iterations, k)
            == run_steps(c, ev, orbit_len, iterations, (iterations - c.iteration) as nat),
{
    let m = (iterations - c.iteration) as nat;
    lemma_run_compose(c, ev, orbit_len, iterations, m, (k - m) as nat);
    lemma_run_reaches_end(c, ev, orbit_len, iterations, m);
    lemma_run_idle(run_steps(c, ev, orbit_len, iterations, m), ev, orbit_len, iterations, (k - m) as nat);
}

proof fn lemma_dispatches_as_one_run(
    c: PixelCounters,
    ev: spec_fn(nat) -> Magnitude,
    orbit_len: nat,
    iterations: nat,
    b: nat,
    n: nat,
)
    requires
        n >= 1,
    ensures
        dispatches(c, ev, orbit_len, iterations, b, n)
            == settle_spec(run_steps(c, ev, orbit_len, iterations, n * b), iterations),
    decreases n,
{
    let r = run_steps(c, ev, orbit_len, iterations, b);
    let d = dispatch_spec(c, ev, orbit_len, iterations, b);
    assert(dispatches(c, ev, orbit_len, iterations, b, n)
        == dispatches(d, ev, orbit_len, iterations, b, (n - 1) as nat));
    if n == 1 {
        assert(n * b == b) by (nonlinear_arith)
            requires n == 1;
        assert(dispatches(d, ev, orbit_len, iterations, b, 0) == d);
    } else {
        let n1 = (n - 1) as nat;
        lemma_dispatches_as_one_run(d, ev, orbit_len, iterations, b, n1);
        assert(b + n1 * b == n * b) by (nonlinear_arith)
            requires n1 == n - 1;
        lemma_run_compose(c, ev, orbit_len, iterations, b, n1 * b);
        if may_step(r, iterations) {
            assert(d == r);
        } else {
            lemma_run_idle(r, ev, orbit_len, iterations, n1 * b);
            lemma_run_idle(d, ev, orbit_len, iterations, n1 * b);
        }
    }
}

/// The batch bound changes only how many dispatches a render takes: with
/// any two positive bounds, enough dispatches leave a pixel in the same
/// final state.
pub proof fn batch_bound_invariance(
    c: PixelCounters,
    ev: spec_fn(nat) -> Magnitude,
    orbit_len: nat,
    iterations: nat,
    b1: nat,
    n1: nat,
    b2: nat,
    n2: nat,
)
    requires
        iterations <= u32::MAX,
        c.iteration <= iterations,
        b1 >= 1,
        b2 >= 1,
        n1 >= 1,
        n2 >= 1,
        n1 * b1 >= iterations - c.iteration,
        n2 * b2 >= iterations - c.iteration,
    ensures
        dispatches(c, ev, orbit_len, iterations, b1, n1) == dispatches(c, ev, orbit_len, iterations, b2, n2),
        !may_step(dispatches(c, ev, orbit_len, iterations, b1, n1), iterations),
{
    lemma_dispatches_as_one_run(c, ev, orbit_len, iterations, b1, n1);
    lemma_dispatches_as_one_run(c, ev, orbit_len, iterations, b2, n2);
    lemma_run_saturates(c, ev, orbit_len, iterations, n1 * b1);
    lemma_run_saturates(c, ev, orbit_len, iterations, n2 * b2);
    lemma_run_reaches_end(c, ev, orbit_len, iterations, n1 * b1);
}

proof fn lemma_dispatch_keeps_finished(
    c: PixelCounters,
    ev: spec_fn(nat) -> Magnitude,
    orbit_len: nat,
    iterations: nat,
    b: nat,
)
    requires
        c.status != PixelStatus::Active,
    ensures
        dispatch_spec(c, ev, orbit_len, iterations, b) == c,
{
    lemma_run_idle(c, ev, orbit_len, iterations, b);
}

/// The pixel store after one dispatch with batch bound `b`, pixel `i`
/// measuring `evs[i]`.
pub open spec fn dispatch_all(
    s: Seq<PixelCounters>,
    evs: Seq<spec_fn(nat) -> Magnitude>,
    orbit_len: nat,
    iterations: nat,
    b: nat,
) -> Seq<PixelCounters> {
    Seq::new(s.len(), |i: int| dispatch_spec(s[i], evs[i], orbit_len, iterations, b))
}

/// Across successive dispatches at an unchanged view the remaining-work
/// count never grows: a dispatch leaves escaped and exhausted pixels as
/// they are.
pub proof fn remaining_non_increasing(
    s: Seq<PixelCounters>,
    evs: Seq<spec_fn(nat) -> Magnitude>,
    orbit_len: nat,
    iterations: nat,
    b: nat,
)
    requires
        evs.len() == s.len(),
    ensures
        active_count(dispatch_all(s, evs, orbit_len, iterations, b)) <= active_count(s),
{
    let after = dispatch_all(s, evs, orbit_len, iterations, b);
    assert forall|i: int| 0 <= i < s.len() && s[i].status != PixelStatus::Active implies after[i] == s[i] by {
        lemma_dispatch_keeps_finished(s[i], evs[i], orbit_len, iterations, b);
    }
    lemma_finished_kept_count(s, after);
}

/// A pixel that exhausted the iteration cap is coloured with the interior
/// colour, whatever its reference index and whatever its delta.
pub proof fn exhausted_is_interior(c: PixelCounters, d: PixelCounters)
    requires
        c.status == PixelStatus::Exhausted,
        d.status == PixelStatus::Exhausted,
    ensures
        shade_spec(c) == Shade::Interior,
        shade_spec(c) == shade_spec(d),
{
}

} // verus!
