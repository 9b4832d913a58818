//! The clock of a capture: one reading of the host's monotonic counter,
//! taken when the capture stream starts, and the conversion of device
//! positions into time elapsed since that reading.
use vstd::arithmetic::div_mod::{
    lemma_div_is_ordered, lemma_div_is_ordered_by_denominator, lemma_div_plus_one,
    lemma_div_pos_is_pos,
};
use vstd::prelude::*;

verus! {

/// Nanoseconds in a second.
pub const NANOS_PER_SECOND: u64 = 1_000_000_000;

/// A span of time in whole nanoseconds.
#[derive(Clone, Copy, Debug, PartialEq, Eq, Structural)]
pub struct Duration {
    pub nanos: u128,
}

impl View for Duration {
    type V = nat;

    open spec fn view(&self) -> nat {
        self.nanos as nat
    }
}

impl Duration {
    /// The span of no time at all.
    pub open spec fn zero() -> Duration {
        Duration { nanos: 0 }
    }

    pub fn from_nanos(nanos: u128) -> (span: Duration)
        ensures
            span@ == nanos,
            span == (Duration { nanos }),
    {
        Duration { nanos }
    }

    pub fn as_nanos(&self) -> (nanos: u128)
        ensures
            nanos == self@,
    {
        self.nanos
    }

    /// The whole seconds of the span.
    pub fn as_secs(&self) -> (secs: u128)
        ensures
            secs == self@ / (NANOS_PER_SECOND as nat),
    {
        self.nanos / 1_000_000_000u128
    }

    /// What is left of the span beside its whole seconds.
    pub fn subsec_nanos(&self) -> (nanos: u32)
        ensures
            nanos == self@ % (NANOS_PER_SECOND as nat),
    {
        let rest: u128 = self.nanos % 1_000_000_000u128;
        rest as u32
    }
}

/// The counter reading that a session's timestamps are measured from.
#[derive(Clone, Copy, Debug, PartialEq, Eq, Structural)]
pub struct TimebaseSnapshot {
    /// The monotonic counter when the capture stream started.
    pub reference_counter_value: i64,
    /// Counter ticks in a second.
    pub counter_frequency: i64,
    /// The device position when the capture stream started.
    pub start_position: u64,
}

impl TimebaseSnapshot {
    /// A reading that time can be computed from: the counter ticks at a
    /// positive rate.
    pub open spec fn wf(self) -> bool {
        self.counter_frequency > 0
    }

    /// The reading of a stream that starts at device position zero, where
    /// the frequency can be divided by. The counter value is kept as it
    /// was read, whatever it is.
    pub open spec fn captured(counter_value: i64, counter_frequency: i64) -> Option<
        TimebaseSnapshot,
    > {
        if counter_frequency > 0 {
            Some(
                TimebaseSnapshot {
                    reference_counter_value: counter_value,
                    counter_frequency,
                    start_position: 0,
                },
            )
        } else {
            None
        }
    }

    /// Nanoseconds between the reading and the moment the device reached
    /// `device_position`, rounded down. A position before the reading's own
    /// counts as the reading.
    pub open spec fn elapsed_nanos(self, device_position: u64) -> nat {
        if device_position >= self.start_position {
            ((device_position - self.start_position) * NANOS_PER_SECOND
                / (self.counter_frequency as int)) as nat
        } else {
            0
        }
    }

    /// The time elapsed since the reading when the device stood at
    /// `device_position`.
    pub open spec fn timestamp(self, device_position: u64) -> Duration {
        Duration { nanos: self.elapsed_nanos(device_position) as u128 }
    }

    /// Nanoseconds between the counter's zero and the reading, rounded down.
    pub open spec fn start_nanos(self) -> nat {
        (self.reference_counter_value * NANOS_PER_SECOND / (self.counter_frequency as int)) as nat
    }

    /// The time between the counter's zero and the reading. A reading
    /// below the counter's zero has none.
    pub open spec fn start_time(self) -> Option<Duration> {
        if self.reference_counter_value >= 0 {
            Some(Duration { nanos: self.start_nanos() as u128 })
        } else {
            None
        }
    }

    /// Takes the snapshot from the two counter values read right after the
    /// capture stream started. There is one for every counter value; there
    /// is none where the frequency is not positive.
    pub fn snapshot(counter_value: i64, counter_frequency: i64) -> (taken: Option<
        TimebaseSnapshot,
    >)
        ensures
            taken == Self::captured(counter_value, counter_frequency),
            taken matches Some(s) ==> s.wf(),
    {
        if counter_frequency > 0 {
            Some(
                TimebaseSnapshot {
                    reference_counter_value: counter_value,
                    counter_frequency,
                    start_position: 0,
                },
            )
        } else {
            None
        }
    }

    /// The time elapsed since the session started when the device stood at
    /// `device_position`.
    pub fn to_timestamp(&self, device_position: u64) -> (elapsed: Duration)
        requires
            self.wf(),
        ensures
            elapsed == self.timestamp(device_position),
            elapsed@ == self.elapsed_nanos(device_position),
    {
        if device_position < self.start_position {
            return Duration::from_nanos(0);
        }
        let ticks: u128 = (device_position - self.start_position) as u128;
        let frequency: u128 = self.counter_frequency as u128;
        let scaled: u128 = ticks * 1_000_000_000u128;
        proof {
            lemma_div_pos_is_pos(scaled as int, frequency as int);
        }
        Duration::from_nanos(scaled / frequency)
    }

    /// The host clock at the session's start, as time since the counter's
    /// zero: what a timestamp is added to for a time on the host's clock.
    /// There is none for a counter that read below zero.
    pub fn start_wallclock(&self) -> (start: Option<Duration>)
        requires
            self.wf(),
        ensures
            start == self.start_time(),
            start matches Some(span) ==> span@ == self.start_nanos(),
    {
        if self.reference_counter_value < 0 {
            return None;
        }
        let ticks: u128 = self.reference_counter_value as u128;
        let frequency: u128 = self.counter_frequency as u128;
        let scaled: u128 = ticks * 1_000_000_000u128;
        proof {
            lemma_div_pos_is_pos(scaled as int, frequency as int);
        }
        Some(Duration::from_nanos(scaled / frequency))
    }

    /// The elapsed nanoseconds of any position fit a `Duration`.
    pub proof fn elapsed_fits(self, device_position: u64)
        requires
            self.wf(),
        ensures
            self.elapsed_nanos(device_position) <= u128::MAX,
            self.timestamp(device_position)@ == self.elapsed_nanos(device_position),
    {
        if device_position >= self.start_position {
            let scaled = (device_position - self.start_position) * NANOS_PER_SECOND;
            lemma_div_is_ordered_by_denominator(scaled, 1, self.counter_frequency as int);
            lemma_div_pos_is_pos(scaled, self.counter_frequency as int);
        }
    }

    /// A later device position never maps to an earlier time.
    pub proof fn elapsed_is_monotonic(self, earlier: u64, later: u64)
        requires
            self.wf(),
            earlier <= later,
        ensures
            self.elapsed_nanos(earlier) <= self.elapsed_nanos(later),
    {
        let f = self.counter_frequency as int;
        if earlier >= self.start_position {
            let a = (earlier - self.start_position) * NANOS_PER_SECOND;
            let b = (later - self.start_position) * NANOS_PER_SECOND;
            lemma_div_is_ordered(a, b, f);
            lemma_div_pos_is_pos(a, f);
        }
    }

    /// Where the counter ticks no faster than once a nanosecond, two
    /// positions at or after the reading's own map to different times, in
    /// the order of the positions.
    pub proof fn elapsed_is_strictly_monotonic(self, earlier: u64, later: u64)
        requires
            self.wf(),
            self.counter_frequency <= NANOS_PER_SECOND,
            self.start_position <= earlier < later,
        ensures
            self.elapsed_nanos(earlier) < self.elapsed_nanos(later),
    {
        let f = self.counter_frequency as int;
        let a = (earlier - self.start_position) * NANOS_PER_SECOND;
        let b = (later - self.start_position) * NANOS_PER_SECOND;
        lemma_div_pos_is_pos(a, f);
        lemma_div_plus_one(a, f);
        lemma_div_is_ordered(f + a, b, f);
    }
}

} // verus!
