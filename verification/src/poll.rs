//! The poll loop's decision core: a state machine that tells the driver,
//! after each completed step, what to do next. The driver performs the
//! sleeping, measuring and sending and reports each outcome back; the
//! rule that every cycle — succeeded or failed — is followed by the same
//! fixed rest and a fresh attempt is stated and proved here.

use vstd::prelude::*;

use crate::exporter::ExportOutcome;
use crate::reading::Reading;
use crate::session::MeasurementError;

verus! {

/// Which step of the cycle the driver is currently performing.
#[derive(Debug, Clone, Copy, PartialEq, Eq, Structural)]
pub enum PollPhase {
    /// Sleeping out the configured interval.
    Resting,
    /// Running one forced measurement.
    Sampling,
    /// Exporting the cycle's reading.
    Delivering,
}

/// The driver's report that its current step finished, with what came
/// of it.
pub enum PollEvent {
    /// The interval sleep completed.
    IntervalElapsed,
    /// The measurement step ended with a reading or a recoverable error.
    Measured(Result<Reading, MeasurementError>),
    /// The export step ended; a transport failure arrives here as an
    /// outcome like any other, never as a fault.
    Delivered(ExportOutcome),
}

impl PollEvent {
    /// Which phase this event reports the completion of.
    pub open spec fn reports(self, phase: PollPhase) -> bool {
        match self {
            PollEvent::IntervalElapsed => phase is Resting,
            PollEvent::Measured(_) => phase is Sampling,
            PollEvent::Delivered(_) => phase is Delivering,
        }
    }
}

/// What the driver must do next.
pub enum PollDirective {
    /// Sleep for the given number of milliseconds.
    Rest(u32),
    /// Command one forced measurement.
    Measure,
    /// Export the given reading.
    Export(Reading),
}

/// The loop driver's state: the fixed interval between cycles and the
/// step currently in flight. The loop has no terminal state: every
/// event yields a next directive.
pub struct PollLoop {
    /// Delay between measurement cycles, in milliseconds; fixed for the
    /// process lifetime.
    pub interval_ms: u32,
    pub phase: PollPhase,
}

impl PollLoop {
    /// Starts the loop; the first directive is a full rest, as the first
    /// cycle begins with the interval sleep.
    pub fn new(interval_ms: u32) -> (r: (PollLoop, PollDirective))
        ensures
            r.0.interval_ms == interval_ms,
            r.0.phase is Resting,
            r.1 == PollDirective::Rest(interval_ms),
    {
        (PollLoop { interval_ms, phase: PollPhase::Resting }, PollDirective::Rest(interval_ms))
    }

    /// Takes the outcome of the step just finished and decides the next
    /// one: a completed rest starts a measurement; a successful
    /// measurement is exported; a failed measurement ends the cycle
    /// early with the next rest; and any export outcome — delivered or
    /// transport-failed — is followed by the next rest. No event, in
    /// particular no export failure, ends the loop or escapes it.
    pub fn next_directive(&mut self, event: PollEvent) -> (d: PollDirective)
        requires
            event.reports(old(self).phase),
        ensures
            poll_transition(*old(self), event, *final(self), d),
    {
        match event {
            PollEvent::IntervalElapsed => {
                self.phase = PollPhase::Sampling;
                PollDirective::Measure
            },
            PollEvent::Measured(outcome) => {
                match outcome {
                    Result::Ok(reading) => {
                        self.phase = PollPhase::Delivering;
                        PollDirective::Export(reading)
                    },
                    Result::Err(_) => {
                        self.phase = PollPhase::Resting;
                        PollDirective::Rest(self.interval_ms)
                    },
                }
            },
            PollEvent::Delivered(_) => {
                self.phase = PollPhase::Resting;
                PollDirective::Rest(self.interval_ms)
            },
        }
    }
}

/// After an export — whatever its outcome, a transport failure
/// included — the loop's next directive is the full interval rest: a
/// failed send is logged and dropped by the driver, and the loop always
/// reaches its next sleep.
pub proof fn lemma_export_failure_stays_in_loop(
    before: PollLoop,
    after: PollLoop,
    outcome: ExportOutcome,
    d: PollDirective,
)
    requires
        before.phase is Delivering,
        poll_transition(before, PollEvent::Delivered(outcome), after, d),
    ensures
        d == PollDirective::Rest(before.interval_ms),
        after.phase is Resting,
        after.interval_ms == before.interval_ms,
{
}

/// The transition relation that `PollLoop::next_directive` implements:
/// `next_directive` called on `before` with `event` moves the state to
/// `after` and returns `d`.
pub open spec fn poll_transition(
    before: PollLoop,
    event: PollEvent,
    after: PollLoop,
    d: PollDirective,
) -> bool {
    &&& after.interval_ms == before.interval_ms
    &&& (match event {
        PollEvent::IntervalElapsed => d is Measure && after.phase is Sampling,
        PollEvent::Measured(outcome) => match outcome {
            Result::Ok(reading) => d == PollDirective::Export(reading) && after.phase is Delivering,
            Result::Err(_) => d == PollDirective::Rest(before.interval_ms)
                && after.phase is Resting,
        },
        PollEvent::Delivered(_) => d == PollDirective::Rest(before.interval_ms)
            && after.phase is Resting,
    })
}

} // verus!
