use vstd::prelude::*;

verus! {

/// Where a render at a fixed view stands.
#[derive(Clone, Copy, Debug, PartialEq, Eq, Structural)]
pub enum Phase {
    /// The view changed: the reference orbit must be rebuilt.
    NeedsOrbit,
    /// Dispatches run until no pixel is left active.
    Rendering,
    /// Every pixel finished: the output can be resolved.
    Done,
}

/// What the backend does for one `step`.
#[derive(Clone, Copy, Debug, PartialEq, Eq, Structural)]
pub enum StepPlan {
    /// Rebuild the reference orbit and coefficients, write the uniforms,
    /// zero the pixel states and the counter, then dispatch.
    RebuildAndDispatch,
    /// Zero the counter and dispatch once more.
    Dispatch,
}

/// The cooperative dispatch scheduler: splits a render into bounded
/// dispatches and decides from the remaining-work counter when it is done.
pub struct Scheduler {
    updated_position: bool,
    finished_render: bool,
    dispatches: u64,
}

impl Scheduler {
    pub closed spec fn updated_position(&self) -> bool {
        self.updated_position
    }

    pub closed spec fn finished_render(&self) -> bool {
        self.finished_render
    }

    /// Dispatches since the view last changed.
    pub closed spec fn dispatch_count(&self) -> nat {
        self.dispatches as nat
    }

    pub open spec fn phase(&self) -> Phase {
        if self.updated_position() {
            Phase::NeedsOrbit
        } else if self.finished_render() {
            Phase::Done
        } else {
            Phase::Rendering
        }
    }

    /// A scheduler for a fresh view: the orbit is still to be built.
    pub fn new() -> (r: Self)
        ensures
            r.updated_position(),
            !r.finished_render(),
            r.dispatch_count() == 0,
    {
        Scheduler { updated_position: true, finished_render: false, dispatches: 0 }
    }

    /// The view was written: the next step rebuilds the orbit and discards
    /// the pixel states.
    pub fn position_changed(&mut self)
        ensures
            final(self).updated_position(),
            !final(self).finished_render(),
            final(self).dispatch_count() == 0,
    {
        self.updated_position = true;
        self.finished_render = false;
        self.dispatches = 0;
    }

    /// Starts a step: says whether the orbit must be rebuilt first.
    pub fn begin_step(&mut self) -> (r: StepPlan)
        ensures
            r == (if old(self).updated_position() { StepPlan::RebuildAndDispatch } else { StepPlan::Dispatch }),
            !final(self).updated_position(),
            final(self).finished_render() == (old(self).finished_render() && !old(self).updated_position()),
            final(self).dispatch_count() == old(self).dispatch_count(),
    {
        if self.updated_position {
            self.updated_position = false;
            self.finished_render = false;
            StepPlan::RebuildAndDispatch
        } else {
            StepPlan::Dispatch
        }
    }

    /// Ends a step with the counter read back after the dispatch: the
    /// render is finished when no pixel is left active. Returns the count.
    pub fn end_step(&mut self, remaining: u64) -> (r: u64)
        ensures
            r == remaining,
            final(self).updated_position() == old(self).updated_position(),
            final(self).finished_render() == (remaining == 0),
            final(self).dispatch_count() == if old(self).dispatch_count() < u64::MAX {
                old(self).dispatch_count() + 1
            } else {
                old(self).dispatch_count()
            },
    {
        self.finished_render = remaining == 0;
        if self.dispatches < u64::MAX {
            self.dispatches = self.dispatches + 1;
        }
        remaining
    }

    /// Whether the render of the current view is complete:
    /// `!updated_position && finished_render`.
    pub fn finished(&self) -> (r: bool)
        ensures
            r == (!self.updated_position() && self.finished_render()),
            r == (self.phase() == Phase::Done),
    {
        !self.updated_position && self.finished_render
    }

    /// Dispatches since the view last changed.
    pub fn dispatches(&self) -> (r: u64)
        ensures
            r == self.dispatch_count(),
    {
        self.dispatches
    }
}

/// The batch bound of one dispatch: the one asked for, or the configured
/// default.
pub fn batch_bound(requested: Option<u32>, default: u32) -> (r: u32)
    ensures
        r == match requested {
            Some(b) => b,
            None => default,
        },
{
    match requested {
        Some(b) => b,
        None => default,
    }
}

/// How a dispatch covers the kernel target.
#[derive(Clone, Copy, Debug, PartialEq, Eq, Structural)]
pub enum DispatchMode {
    /// One pass over the whole target.
    Whole,
    /// Small scissored tiles, each its own submission.
    Tiled,
}

/// How a dispatch ended on the device.
#[derive(Clone, Copy, Debug, PartialEq, Eq, Structural)]
pub enum DispatchOutcome {
    Completed,
    /// The platform watchdog killed it.
    TimedOut,
}

/// What the host does after a dispatch.
#[derive(Clone, Copy, Debug, PartialEq, Eq, Structural)]
pub enum Recovery {
    /// Go on with the render.
    Proceed,
    /// Run the same dispatch again in tiles.
    RetryTiled,
    /// Report a resource error to the caller.
    Fatal,
}

/// A dispatch that timed out is retried once with finer tiling; one that
/// times out even in tiles is fatal.
pub fn recover(mode: DispatchMode, outcome: DispatchOutcome) -> (r: Recovery)
    ensures
        r == match outcome {
            DispatchOutcome::Completed => Recovery::Proceed,
            DispatchOutcome::TimedOut => if mode == DispatchMode::Whole {
                Recovery::RetryTiled
            } else {
                Recovery::Fatal
            },
        },
{
    match outcome {
        DispatchOutcome::Completed => Recovery::Proceed,
        DispatchOutcome::TimedOut => match mode {
            DispatchMode::Whole => Recovery::RetryTiled,
            DispatchMode::Tiled => Recovery::Fatal,
        },
    }
}

} // verus!
