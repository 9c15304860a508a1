//! A monotonic, never repeating reading of the wall clock.

use vstd::prelude::*;

verus! {

/// Relies on `SystemTime::elapsed` from the UNIX epoch: the wall-clock time
/// in nanoseconds, whatever the operating system reports (zero before the
/// epoch).
#[verifier::external_body]
fn wall_clock_ns() -> u64 {
    match std::time::UNIX_EPOCH.elapsed() {
        Ok(d) => d.as_nanos() as u64,
        Err(_) => 0,
    }
}

/// The timestamp handed out after `last` when the wall clock reads
/// `observed`: the reading if it moved past `last`, else one nanosecond
/// after `last`.
pub open spec fn next_unique(last: int, observed: int) -> int {
    if observed > last {
        observed
    } else if last < u64::MAX {
        last + 1
    } else {
        last
    }
}

/// Computes the timestamp that follows `last` for a wall-clock reading of
/// `observed`.
pub fn next_unique_ns(last: u64, observed: u64) -> (r: u64)
    ensures
        r == next_unique(last as int, observed as int),
{
    if observed > last {
        observed
    } else if last < u64::MAX {
        last + 1
    } else {
        last
    }
}

/// A wall-clock time source whose readings never repeat and never decrease.
/// One source is shared, by reference, among all live clocks of a process.
pub struct MonotonicTime {
    last_ns: u64,
}

impl MonotonicTime {
    /// A source that has handed out no reading yet.
    pub fn new() -> (r: MonotonicTime)
        ensures
            r.last() == 0,
    {
        MonotonicTime { last_ns: 0 }
    }

    /// The latest reading handed out.
    pub closed spec fn last(&self) -> int {
        self.last_ns as int
    }

    /// The latest reading handed out, in UNIX nanoseconds.
    pub fn last_ns(&self) -> (r: u64)
        ensures
            r == self.last(),
    {
        self.last_ns
    }

    /// Reads the wall clock: the result is later than every earlier reading
    /// (until the largest timestamp is reached).
    pub fn get_time_ns(&mut self) -> (r: u64)
        ensures
            r == final(self).last(),
            r >= old(self).last(),
            old(self).last() < u64::MAX ==> r > old(self).last(),
    {
        let observed = wall_clock_ns();
        let r = next_unique_ns(self.last_ns, observed);
        self.last_ns = r;
        r
    }
}

} // verus!
