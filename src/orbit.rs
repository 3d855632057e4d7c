use vstd::prelude::*;
use crate::precision::exp_or_zero;

verus! {

/// A record whose shared scale falls below this exponent is stored as an
/// exact zero.
pub const UNDERFLOW_EXPONENT: i32 = -10000;

/// How one reference point is stored: as two single-precision mantissas
/// that share one binary exponent.
#[derive(Clone, Copy, Debug, PartialEq, Eq, Structural)]
pub enum RecordScale {
    /// The point is stored as `(0, 0)` with scale 0.
    Zero,
    /// The shared exponent, and how far each component's mantissa is to be
    /// shifted right (divided by `2^shift`) to be expressed in it.
    Scaled { scale: i32, x_shift: u32, y_shift: u32 },
}

/// The storage of a point whose components have binary exponents `xe` and
/// `ye` (`None` for an exact zero).
pub open spec fn record_scale_spec(xe: Option<i32>, ye: Option<i32>) -> RecordScale {
    let x = exp_or_zero(xe);
    let y = exp_or_zero(ye);
    let s = if x >= y { x } else { y };
    if s < UNDERFLOW_EXPONENT {
        RecordScale::Zero
    } else {
        RecordScale::Scaled { scale: s as i32, x_shift: (s - x) as u32, y_shift: (s - y) as u32 }
    }
}

/// Picks the shared exponent of a reference record: the larger of the two
/// components' exponents, or an exact zero below `UNDERFLOW_EXPONENT`.
pub fn record_scale(xe: Option<i32>, ye: Option<i32>) -> (r: RecordScale)
    ensures
        r == record_scale_spec(xe, ye),
{
    let x: i32 = match xe {
        Some(v) => v,
        None => 0,
    };
    let y: i32 = match ye {
        Some(v) => v,
        None => 0,
    };
    let s: i32 = if x >= y { x } else { y };
    if s < UNDERFLOW_EXPONENT {
        RecordScale::Zero
    } else {
        let xs: i64 = s as i64 - x as i64;
        let ys: i64 = s as i64 - y as i64;
        RecordScale::Scaled { scale: s, x_shift: xs as u32, y_shift: ys as u32 }
    }
}

/// The shared exponents of a reference orbit under construction, one per
/// record, with the iteration cap it is built for. The mantissas travel
/// beside it in the high-precision backend.
pub struct ReferenceOrbit {
    scales: Vec<i32>,
    iterations: usize,
    escaped: bool,
    flags: Ghost<Seq<bool>>,
}

impl ReferenceOrbit {
    /// The records' scales.
    pub closed spec fn scales(&self) -> Seq<i32> {
        self.scales@
    }

    /// The iteration cap `N`: the orbit holds at most `N + 1` records.
    pub closed spec fn cap(&self) -> nat {
        self.iterations as nat
    }

    /// Whether the last record left the escape radius.
    pub closed spec fn has_escaped(&self) -> bool {
        self.escaped
    }

    /// For each record, whether it lay outside the escape radius.
    pub closed spec fn escapes(&self) -> Seq<bool> {
        self.flags@
    }

    pub open spec fn wf(&self) -> bool {
        &&& 1 <= self.scales().len() <= self.cap() + 1
        &&& self.cap() < usize::MAX
        &&& self.escapes().len() == self.scales().len()
        &&& self.has_escaped() == self.escapes().last()
        &&& forall|i: int| 0 <= i < self.escapes().len() - 1 ==> !#[trigger] self.escapes()[i]
    }

    /// Whether the builder takes another record.
    pub open spec fn open_for_more(&self) -> bool {
        !self.has_escaped() && self.scales().len() < self.cap() + 1
    }

    /// Starts an orbit with its origin record `0 + 0i`.
    pub fn new(iterations: usize) -> (r: Self)
        requires
            iterations < usize::MAX,
        ensures
            r.wf(),
            r.scales() == seq![0i32],
            r.cap() == iterations,
            !r.has_escaped(),
            r.escapes() == seq![false],
    {
        let mut scales: Vec<i32> = Vec::new();
        scales.push(0);
        let ghost first: Seq<bool> = seq![false];
        let flags: Ghost<Seq<bool>> = Ghost(first);
        ReferenceOrbit { scales, iterations, escaped: false, flags }
    }

    /// Number of records.
    pub fn len(&self) -> (r: usize)
        requires
            self.wf(),
        ensures
            r == self.scales().len(),
    {
        self.scales.len()
    }

    /// Whether another record is wanted: the orbit has neither escaped nor
    /// reached `N + 1` records.
    pub fn wants_next(&self) -> (r: bool)
        requires
            self.wf(),
        ensures
            r == self.open_for_more(),
    {
        !self.escaped && self.scales.len() < self.iterations + 1
    }

    /// Appends the record of the next orbit point, whose components have
    /// the binary exponents `xe` and `ye`; `escaped` tells whether its
    /// squared magnitude exceeds the reference bailout. Returns how the
    /// backend is to store its mantissas.
    pub fn push(&mut self, xe: Option<i32>, ye: Option<i32>, escaped: bool) -> (r: RecordScale)
        requires
            old(self).wf(),
            old(self).open_for_more(),
        ensures
            final(self).wf(),
            r == record_scale_spec(xe, ye),
            final(self).scales() == old(self).scales().push(
                match r {
                    RecordScale::Zero => 0i32,
                    RecordScale::Scaled { scale, .. } => scale,
                },
            ),
            final(self).cap() == old(self).cap(),
            final(self).has_escaped() == escaped,
            final(self).escapes() == old(self).escapes().push(escaped),
    {
        let r = record_scale(xe, ye);
        let s: i32 = match r {
            RecordScale::Zero => 0,
            RecordScale::Scaled { scale, .. } => scale,
        };
        self.scales.push(s);
        self.escaped = escaped;
        self.flags = Ghost(self.flags@.push(escaped));
        r
    }

    /// The scale of record `i`.
    pub fn scale(&self, i: usize) -> (r: i32)
        requires
            i < self.scales().len(),
        ensures
            r == self.scales()[i as int],
    {
        self.scales[i]
    }
}

/// A finished reference orbit is never longer than `N + 1` records; every
/// record but the last lies inside the escape radius; and it stops short of
/// `N + 1` records only at a record outside it.
pub proof fn orbit_length_bound(o: &ReferenceOrbit)
    requires
        o.wf(),
        !o.open_for_more(),
    ensures
        1 <= o.scales().len() <= o.cap() + 1,
        forall|i: int| 0 <= i < o.scales().len() - 1 ==> !#[trigger] o.escapes()[i],
        o.escapes().last() || o.scales().len() == o.cap() + 1,
{
}

/// The series-approximation progress: the last iteration whose
/// coefficients were committed, and whether the approximation has failed.
#[derive(Clone, Copy, Debug, PartialEq, Eq, Structural)]
pub struct SeriesState {
    pub polylim: usize,
    pub failed: bool,
}

/// Whether the update at iteration `i` is committed, given whether the
/// cubic term stayed dominated (`accurate`).
pub open spec fn commits(s: SeriesState, i: nat, accurate: bool) -> bool {
    !s.failed && (i == 0 || accurate)
}

impl SeriesState {
    /// No coefficients committed yet: `polylim = 0`.
    pub fn new() -> (r: Self)
        ensures
            r.polylim == 0,
            !r.failed,
    {
        SeriesState { polylim: 0, failed: false }
    }

    /// Records the validity test of iteration `i`. The update is committed
    /// (and `polylim` becomes `i`) while the approximation has never
    /// failed and the test holds, the first iteration always passing. A
    /// failed test fails the approximation for good.
    pub fn observe(&mut self, i: usize, accurate: bool) -> (commit: bool)
        ensures
            commit == commits(*old(self), i as nat, accurate),
            final(self).polylim == if commit { i } else { old(self).polylim },
            final(self).failed == (old(self).failed || !(i == 0 || accurate)),
    {
        let pass = i == 0 || accurate;
        let commit = !self.failed && pass;
        if commit {
            self.polylim = i;
        }
        if !pass {
            self.failed = true;
        }
        commit
    }
}

/// Once the approximation has failed, no later iteration commits and
/// `polylim` stays where it was.
pub proof fn failure_is_permanent(s: SeriesState, i: nat, accurate: bool)
    requires
        s.failed,
    ensures
        !commits(s, i, accurate),
{
}

} // verus!
