//! The countdown state machine.
//!
//! A countdown from `seconds` shows `seconds`, then `seconds - 1`, and
//! so on down to `0`, one value per second. The host runs the loop on a
//! background thread; between updates it polls a shared stop flag that
//! the frontend can raise to cancel the run. This module holds both
//! halves as plain data: [`TimerControl`] is the shared flag, and
//! [`Countdown`] decides, from that flag, which value to emit next and
//! when the run is over.

use vstd::prelude::*;

verus! {

/// The shared control word: the frontend raises `stop`, the counting
/// loop polls it once per tick.
pub struct TimerControl {
    pub stop: bool,
}

impl TimerControl {
    /// A fresh control: no stop requested.
    pub fn new() -> (c: TimerControl)
        ensures
            !c.stop,
    {
        TimerControl { stop: false }
    }

    /// Ask any running countdown to halt. Returns the value the
    /// frontend display is reset to.
    pub fn request_stop(&mut self) -> (display: u32)
        ensures
            final(self).stop,
            display == 0,
    {
        self.stop = true;
        0
    }

    /// Clear the stop request so a new countdown may run.
    pub fn arm(&mut self)
        ensures
            !final(self).stop,
    {
        self.stop = false;
    }
}

/// The values a countdown from `seconds` emits when no stop is ever
/// requested, in order: `seconds`, `seconds - 1`, ..., `1`, `0`.
pub open spec fn countdown_seq(seconds: u32) -> Seq<u32> {
    Seq::new((seconds + 1) as nat, |k: int| (seconds - k) as u32)
}

/// The state one countdown run carries between ticks.
pub struct Countdown {
    /// The value the next tick will emit.
    pub remaining: u32,
    /// Whether the run is over, by reaching zero or by a stop request.
    pub finished: bool,
}

impl Countdown {
    /// A countdown about to emit `seconds`.
    pub fn new(seconds: u32) -> (c: Countdown)
        ensures
            c.remaining == seconds,
            !c.finished,
    {
        Countdown { remaining: seconds, finished: false }
    }

    /// One tick's decision. `stop_requested` is the control flag as the
    /// loop read it: if raised, the run halts with nothing emitted;
    /// otherwise the current value is emitted and the run advances,
    /// ending once `0` has been emitted.
    pub fn step(&mut self, stop_requested: bool) -> (emit: Option<u32>)
        requires
            !old(self).finished,
        ensures
            stop_requested ==> emit is None && final(self).finished,
            !stop_requested ==> emit == Some(old(self).remaining),
            !stop_requested && old(self).remaining > 0 ==> !final(self).finished
                && final(self).remaining == old(self).remaining - 1,
            !stop_requested && old(self).remaining == 0 ==> final(self).finished,
    {
        if stop_requested {
            self.finished = true;
            None
        } else {
            let value: u32 = self.remaining;
            if self.remaining == 0 {
                self.finished = true;
            } else {
                self.remaining = self.remaining - 1;
            }
            Some(value)
        }
    }
}

/// The whole trace of a countdown that is never stopped: driving
/// [`Countdown::step`] with the flag down emits exactly
/// [`countdown_seq`]`(seconds)`.
pub fn uninterrupted_trace(seconds: u32) -> (trace: Vec<u32>)
    ensures
        trace@ == countdown_seq(seconds),
{
    let mut countdown = Countdown::new(seconds);
    let mut trace: Vec<u32> = Vec::new();
    while !countdown.finished
        invariant
            forall|k: int| 0 <= k < trace@.len() ==> trace@[k] == seconds - k,
            !countdown.finished ==> trace@.len() <= seconds
                && countdown.remaining == seconds - trace@.len(),
            countdown.finished ==> trace@.len() == seconds + 1,
        decreases seconds + 1 - trace@.len(),
    {
        let emitted: u32 = countdown.step(false).unwrap();
        trace.push(emitted);
    }
    proof {
        assert(trace@ =~= countdown_seq(seconds));
    }
    trace
}

} // verus!
