use vstd::prelude::*;

verus! {

/// Ticks from 15 Oct 1582 to the Unix epoch, 1 Jan 1970.
pub const V1_NS_TICKS: u64 = 0x01B2_1DD2_1381_4000;

/// The whole seconds of the duration `d`.
pub uninterp spec fn secs_of(d: core::time::Duration) -> u64;

/// The fractional part of the duration `d`, in nanoseconds.
pub uninterp spec fn nanos_of(d: core::time::Duration) -> u32;

/// Relies on `core::time::Duration::as_secs`: the whole seconds of the duration.
pub assume_specification[ core::time::Duration::as_secs ](d: &core::time::Duration) -> (r: u64)
    ensures
        r == secs_of(*d),
;

/// Relies on `core::time::Duration::subsec_nanos`: the fractional part of the duration in
/// nanoseconds, always less than one billion.
pub assume_specification[ core::time::Duration::subsec_nanos ](d: &core::time::Duration) -> (r:
    u32)
    ensures
        r == nanos_of(*d),
        r < 1_000_000_000,
;

/// Ticks of the time `secs` seconds and `nanos` nanoseconds after the Unix epoch, modulo
/// 2^64.
pub open spec fn unix_ticks(secs: u64, nanos: u32) -> u64 {
    ((V1_NS_TICKS + secs * 10_000_000 + nanos / 100) % 0x1_0000_0000_0000_0000) as u64
}

/// Timestamp for use with the time-based (`v1`) algorithm.
#[derive(Clone, Debug, Copy)]
pub struct Timestamp {
    ticks: u64,
    counter: u16,
}

impl Timestamp {
    /// Number of 100-nanosecond intervals since 15 Oct 1582.
    pub closed spec fn ticks(self) -> u64 {
        self.ticks
    }

    /// Value that tells apart timestamps generated in rapid succession.
    pub closed spec fn counter(self) -> u16 {
        self.counter
    }

    /// Creates a timestamp from raw parts, as per RFC4122.
    ///
    /// - `ticks` is the number of 100-nanosecond intervals elapsed since 15 Oct 1582 00:00:00.00.
    /// - `counter` is the value used to tell apart timestamps generated in rapid succession.
    pub fn from_parts(ticks: u64, counter: u16) -> (r: Self)
        ensures
            r.ticks() == ticks,
            r.counter() == counter,
    {
        Self { ticks, counter }
    }

    /// Creates a timestamp from the time `secs` seconds and `nanos` nanoseconds after the
    /// Unix epoch, with a zero counter. The ticks wrap around past 2^64.
    pub fn from_unix_parts(secs: u64, nanos: u32) -> (r: Self)
        ensures
            r.ticks() == unix_ticks(secs, nanos),
            r.counter() == 0,
    {
        let ticks = (V1_NS_TICKS as u128 + secs as u128 * 10_000_000 + nanos as u128 / 100)
            % 0x1_0000_0000_0000_0000;
        Self::from_parts(ticks as u64, 0)
    }

    /// Creates a timestamp from a duration since the Unix epoch, with a zero counter.
    pub fn from_unix(time: core::time::Duration) -> (r: Self)
        ensures
            r.ticks() == unix_ticks(secs_of(time), nanos_of(time)),
            r.counter() == 0,
    {
        let secs = time.as_secs();
        let nanos = time.subsec_nanos();
        Self::from_unix_parts(secs, nanos)
    }

    /// Sets the counter, to further avoid collisions between timestamps.
    pub fn set_counter(self, counter: u16) -> (r: Self)
        ensures
            r.ticks() == self.ticks(),
            r.counter() == counter,
    {
        let mut this = self;
        this.counter = counter;
        this
    }

    /// Returns the timestamp as raw parts: ticks and counter.
    pub fn into_parts(self) -> (r: (u64, u16))
        ensures
            r == (self.ticks(), self.counter()),
    {
        (self.ticks, self.counter)
    }
}

} // verus!
