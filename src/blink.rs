use vstd::prelude::*;

verus! {

/// One step of a blink pattern on an exported output line.
#[derive(Clone, Copy, Debug, PartialEq, Eq, Structural)]
pub enum BlinkStep {
    /// Drive the line to this level (0 or 1).
    Drive(u8),
    /// Keep the line as it is for this many milliseconds.
    Hold(u64),
}

/// A blink request the schedule cannot be built from.
#[derive(Clone, Copy, Debug, PartialEq, Eq, Structural)]
pub enum BlinkError {
    /// The half-period was zero.
    InvalidArgument,
}

/// The number of low/high cycles that fit in `duration_ms` with half-period `period_ms`.
pub open spec fn iterations_of(duration_ms: u64, period_ms: u64) -> nat
    recommends
        period_ms > 0,
{
    (duration_ms / period_ms / 2) as nat
}

/// Step `i` of `iterations` low/high cycles of half-period `period_ms`,
/// followed by a final drive low.
pub open spec fn step_at(iterations: nat, period_ms: u64, i: int) -> BlinkStep {
    if i < 4 * iterations {
        if i % 4 == 0 {
            BlinkStep::Drive(0)
        } else if i % 4 == 2 {
            BlinkStep::Drive(1)
        } else {
            BlinkStep::Hold(period_ms)
        }
    } else {
        BlinkStep::Drive(0)
    }
}

/// `iterations` cycles of: drive low, hold, drive high, hold; then, when
/// `end_low`, one more drive low so that the line is left low.
pub open spec fn blink_steps(iterations: nat, period_ms: u64, end_low: bool) -> Seq<BlinkStep> {
    Seq::new(
        4 * iterations + (if end_low { 1nat } else { 0nat }),
        |i: int| step_at(iterations, period_ms, i),
    )
}

/// A blink pattern that ends the blink leaves the line driven low, and makes
/// as many high drives as it has cycles.
pub proof fn lemma_blink_ends_low(iterations: nat, period_ms: u64)
    ensures
        blink_steps(iterations, period_ms, true).last() == BlinkStep::Drive(0),
        forall|i: int|
            0 <= i < blink_steps(iterations, period_ms, true).len() ==> (#[trigger] blink_steps(
                iterations,
                period_ms,
                true,
            )[i] == BlinkStep::Drive(1) <==> i < 4 * iterations && i % 4 == 2),
{
}

/// Computes how many low/high cycles a blink of `duration_ms` with half-period
/// `period_ms` makes; a zero half-period is refused.
pub fn blink_iterations(duration_ms: u64, period_ms: u64) -> (r: Result<u64, BlinkError>)
    ensures
        period_ms == 0 ==> r == Err::<u64, BlinkError>(BlinkError::InvalidArgument),
        period_ms > 0 ==> r == Ok::<u64, BlinkError>(iterations_of(duration_ms, period_ms) as u64),
{
    if period_ms == 0 {
        Err(BlinkError::InvalidArgument)
    } else {
        Ok(duration_ms / period_ms / 2)
    }
}

/// A blink pattern handed out one step at a time.
#[derive(Clone, Copy, Debug)]
pub struct BlinkSchedule {
    period_ms: u64,
    iterations: u64,
    end_low: bool,
    next: u128,
}

impl BlinkSchedule {
    /// Every step of the pattern, from the first.
    pub closed spec fn steps(&self) -> Seq<BlinkStep> {
        blink_steps(self.iterations as nat, self.period_ms, self.end_low)
    }

    /// How many steps have been handed out.
    pub closed spec fn position(&self) -> nat {
        self.next as nat
    }

    /// The pattern of a one-shot blink: as many cycles as fit in `duration_ms`,
    /// ending with the line driven low. A zero half-period is refused.
    pub fn for_blink(duration_ms: u64, period_ms: u64) -> (r: Result<BlinkSchedule, BlinkError>)
        ensures
            period_ms == 0 <==> r is Err,
            period_ms == 0 ==> r == Err::<BlinkSchedule, BlinkError>(BlinkError::InvalidArgument),
            r matches Ok(s) ==> s.steps() == blink_steps(
                iterations_of(duration_ms, period_ms),
                period_ms,
                true,
            ) && s.position() == 0,
    {
        match blink_iterations(duration_ms, period_ms) {
            Err(e) => Err(e),
            Ok(n) => Ok(BlinkSchedule { period_ms, iterations: n, end_low: true, next: 0 }),
        }
    }

    /// The pattern of one worker cycle: drive low, hold, drive high, hold.
    pub fn cycle(period_ms: u64) -> (s: BlinkSchedule)
        ensures
            s.steps() == blink_steps(1, period_ms, false),
            s.position() == 0,
    {
        BlinkSchedule { period_ms, iterations: 1, end_low: false, next: 0 }
    }

    pub fn is_finished(&self) -> (r: bool)
        ensures
            r == (self.position() >= self.steps().len()),
    {
        let total: u128 = 4 * (self.iterations as u128) + if self.end_low { 1u128 } else { 0u128 };
        self.next >= total
    }

    /// Hands out the next step, or `None` once the pattern is over.
    pub fn next_step(&mut self) -> (r: Option<BlinkStep>)
        ensures
            final(self).steps() == old(self).steps(),
            old(self).position() < old(self).steps().len() ==> r == Some(
                old(self).steps()[old(self).position() as int],
            ) && final(self).position() == old(self).position() + 1,
            old(self).position() >= old(self).steps().len() ==> r is None && final(self).position()
                == old(self).position(),
    {
        let total: u128 = 4 * (self.iterations as u128) + if self.end_low { 1u128 } else { 0u128 };
        if self.next >= total {
            return None;
        }
        let i: u128 = self.next;
        let step = if i < 4 * (self.iterations as u128) {
            if i % 4 == 0 {
                BlinkStep::Drive(0)
            } else if i % 4 == 2 {
                BlinkStep::Drive(1)
            } else {
                BlinkStep::Hold(self.period_ms)
            }
        } else {
            BlinkStep::Drive(0)
        };
        self.next = i + 1;
        Some(step)
    }
}

} // verus!
