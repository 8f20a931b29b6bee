//! The packets of the Interledger protocol, as far as a node reads them.

use crate::external::octets;
use bytes::Bytes;
use vstd::prelude::*;

verus! {

/// The number of nanoseconds in a second.
pub const NANOS_PER_SECOND: u32 = 1_000_000_000;

/// The first second that the clock can show: the start of the year -262143.
pub const FIRST_CLOCK_SECOND: i64 = -8_334_601_228_800;

/// The last second that the clock can show: the end of the year 262142.
pub const LAST_CLOCK_SECOND: i64 = 8_210_266_876_799;

/// An instant in UTC, in seconds since the start of 1970 and nanoseconds since
/// the start of that second.
#[derive(Clone, Copy, Debug, PartialEq, Eq, Structural)]
pub struct Timestamp {
    /// Whole seconds since 1970-01-01T00:00:00Z, not counting leap seconds.
    pub secs: i64,
    /// Nanoseconds since the start of the second.
    pub nanos: u32,
}

impl View for Timestamp {
    type V = int;

    /// The nanoseconds since the start of 1970.
    open spec fn view(&self) -> int {
        self.secs * NANOS_PER_SECOND + self.nanos
    }
}

impl Timestamp {
    /// Whether the nanoseconds are a fraction of a second.
    pub open spec fn well_formed(self) -> bool {
        self.nanos < NANOS_PER_SECOND
    }

    /// Whether the system clock can show this instant.
    pub open spec fn is_clock_reading(self) -> bool {
        &&& self.well_formed()
        &&& FIRST_CLOCK_SECOND <= self.secs <= LAST_CLOCK_SECOND
    }

    /// The instant that lies the given number of seconds later.
    pub fn plus_seconds(self, seconds: i64) -> (later: Timestamp)
        requires
            self.well_formed(),
            i64::MIN <= self.secs + seconds <= i64::MAX,
        ensures
            later.well_formed(),
            later@ == self@ + seconds * NANOS_PER_SECOND,
            later.secs == self.secs + seconds,
            later.nanos == self.nanos,
    {
        Timestamp { secs: self.secs + seconds, nanos: self.nanos }
    }
}

/// Where a packet goes: an ILP address.
#[derive(Debug, PartialEq, Eq, Hash)]
pub struct Address {
    /// The text of the address, its segments separated by dots.
    pub text: String,
}

impl View for Address {
    type V = Seq<char>;

    open spec fn view(&self) -> Seq<char> {
        self.text@
    }
}

impl Clone for Address {
    fn clone(&self) -> (copy: Self)
        ensures
            copy@ == self@,
            copy.text@ == self.text@,
    {
        Address { text: self.text.clone() }
    }
}

/// A packet that offers money to whoever knows the preimage of a hash.
#[derive(Debug)]
pub struct Prepare {
    /// The address that the packet is sent to.
    pub destination: Address,
    /// The amount, in units of the sender's asset at the sender's scale.
    pub amount: u64,
    /// The SHA-256 hash of the fulfillment that the packet asks for.
    pub execution_condition: Bytes,
    /// When the offer ends.
    pub expires_at: Timestamp,
    /// What the sender tells the receiver.
    pub data: Bytes,
}

impl Prepare {
    /// Whether two packets say the same.
    pub open spec fn same_as(self, other: Prepare) -> bool {
        &&& self.destination@ == other.destination@
        &&& self.amount == other.amount
        &&& octets(self.execution_condition) == octets(other.execution_condition)
        &&& self.expires_at == other.expires_at
        &&& octets(self.data) == octets(other.data)
    }

    /// A packet with the given fields.
    pub fn new(
        destination: &str,
        amount: u64,
        execution_condition: &[u8],
        expires_at: Timestamp,
        data: Bytes,
    ) -> (prepare: Prepare)
        ensures
            prepare.destination@ == destination@,
            prepare.destination.text@ == destination@,
            prepare.amount == amount,
            octets(prepare.execution_condition) == execution_condition@,
            prepare.expires_at == expires_at,
            prepare.data == data,
    {
        Prepare {
            destination: Address { text: destination.to_owned() },
            amount,
            execution_condition: Bytes::copy_from_slice(execution_condition),
            expires_at,
            data,
        }
    }

    /// The amount that the packet offers.
    pub fn amount(&self) -> (amount: u64)
        ensures
            amount == self.amount,
    {
        self.amount
    }
}

impl Clone for Prepare {
    fn clone(&self) -> (copy: Self)
        ensures
            copy.same_as(*self),
            copy.destination.text@ == self.destination.text@,
            copy.amount == self.amount,
            octets(copy.execution_condition) == octets(self.execution_condition),
            copy.expires_at == self.expires_at,
            octets(copy.data) == octets(self.data),
    {
        Prepare {
            destination: self.destination.clone(),
            amount: self.amount,
            execution_condition: self.execution_condition.clone(),
            expires_at: self.expires_at,
            data: self.data.clone(),
        }
    }
}

/// A packet that accepts a Prepare.
#[derive(Debug)]
pub struct Fulfill {
    /// The preimage of the execution condition.
    pub fulfillment: Bytes,
    /// What the receiver tells the sender.
    pub data: Bytes,
}

impl Fulfill {
    /// Whether two packets say the same.
    pub open spec fn same_as(self, other: Fulfill) -> bool {
        &&& octets(self.fulfillment) == octets(other.fulfillment)
        &&& octets(self.data) == octets(other.data)
    }
}

impl Clone for Fulfill {
    fn clone(&self) -> (copy: Self)
        ensures
            copy.same_as(*self),
            octets(copy.fulfillment) == octets(self.fulfillment),
            octets(copy.data) == octets(self.data),
    {
        Fulfill { fulfillment: self.fulfillment.clone(), data: self.data.clone() }
    }
}

/// A packet that turns a Prepare down.
#[derive(Debug)]
pub struct Reject {
    /// The three characters that name the error.
    pub code: String,
    /// The node that turned the packet down, if it is known.
    pub triggered_by: Option<Address>,
    /// What went wrong, in words.
    pub message: String,
    /// What the node tells the sender.
    pub data: Bytes,
}

impl Reject {
    /// Whether two packets say the same.
    pub open spec fn same_as(self, other: Reject) -> bool {
        &&& self.code@ == other.code@
        &&& self.triggered_by is Some <==> other.triggered_by is Some
        &&& self.triggered_by is Some ==> self.triggered_by->0@ == other.triggered_by->0@
        &&& self.message@ == other.message@
        &&& octets(self.data) == octets(other.data)
    }
}

impl Clone for Reject {
    fn clone(&self) -> (copy: Self)
        ensures
            copy.same_as(*self),
            copy.code@ == self.code@,
            match (copy.triggered_by, self.triggered_by) {
                (Some(left), Some(right)) => left.text@ == right.text@,
                (None, None) => true,
                _ => false,
            },
            copy.message@ == self.message@,
            octets(copy.data) == octets(self.data),
    {
        let triggered_by = match &self.triggered_by {
            Some(address) => Some(address.clone()),
            None => None,
        };
        Reject {
            code: self.code.clone(),
            triggered_by,
            message: self.message.clone(),
            data: self.data.clone(),
        }
    }
}

/// Any packet of the protocol.
#[derive(Debug)]
pub enum Packet {
    /// An offer.
    Prepare(Prepare),
    /// The acceptance of an offer.
    Fulfill(Fulfill),
    /// The refusal of an offer.
    Reject(Reject),
}

/// An instant is well formed if its nanoseconds do not fill a second, and counts
/// the nanoseconds since the start of 1970.
pub proof fn law_instant_counts_nanoseconds(instant: Timestamp)
    ensures
        instant.well_formed() <==> instant.nanos < 1_000_000_000,
        instant@ == instant.secs * 1_000_000_000 + instant.nanos,
{
}

/// Two ways to write an instant are the same if they count the same nanoseconds.
pub proof fn law_instant_is_written_one_way(left: Timestamp, right: Timestamp)
    requires
        left.nanos < 1_000_000_000,
        right.nanos < 1_000_000_000,
        left@ == right@,
    ensures
        left == right,
{
}

/// Packets that say the same have the same contents, field by field.
pub proof fn law_same_prepare_has_same_fields(left: Prepare, right: Prepare)
    ensures
        left.same_as(right) <==> {
            &&& left.destination.text@ == right.destination.text@
            &&& left.amount == right.amount
            &&& octets(left.execution_condition) == octets(right.execution_condition)
            &&& left.expires_at == right.expires_at
            &&& octets(left.data) == octets(right.data)
        },
{
}

} // verus!
