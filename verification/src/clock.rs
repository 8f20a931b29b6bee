//! The system clock.

use crate::external::utc_now;
use crate::packet::Timestamp;
use vstd::prelude::*;

verus! {

/// Whether the instant is one that the system clock was read to show. Only a
/// reading of the clock establishes this: no instant that was made up has it.
pub closed spec fn read_from_clock(now: Timestamp) -> bool {
    call_ensures(utc_now, (), now)
}

/// Reads the system clock.
pub(crate) fn read_clock() -> (now: Timestamp)
    ensures
        call_ensures(utc_now, (), now),
        read_from_clock(now),
        now.is_clock_reading(),
{
    let clock = utc_now;
    clock()
}

/// An instant that was read from the clock is one that the outside clock
/// returned, and nothing else is.
pub(crate) proof fn law_reading_was_returned_by_clock(now: Timestamp)
    ensures
        read_from_clock(now) <==> call_ensures(utc_now, (), now),
        read_from_clock(now) ==> now.is_clock_reading(),
{
}

} // verus!
