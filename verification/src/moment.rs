//! Instants of universal time, as plain numbers. The calendar behind them is
//! the `chrono` crate's.

use vstd::prelude::*;

verus! {

/// The first second that the calendar can name.
pub const FIRST_SECOND: i64 = -8_334_601_228_800;

/// The last second that the calendar can name.
pub const LAST_SECOND: i64 = 8_210_266_876_799;

/// Whether the calendar has a name for an instant: its second lies in range, and a
/// fraction of a second or more belongs to a leap second at the end of a minute.
pub open spec fn nameable(secs: i64, nanos: u32) -> bool {
    &&& FIRST_SECOND <= secs <= LAST_SECOND
    &&& nanos < 2_000_000_000
    &&& nanos >= 1_000_000_000 ==> secs % 60 == 59
}

/// An instant: whole seconds since the beginning of 1970, and the nanoseconds
/// behind them.
#[derive(Clone, Copy, Debug, PartialEq, Eq)]
pub struct Timestamp {
    secs: i64,
    nanos: u32,
}

impl Timestamp {
    #[verifier::type_invariant]
    spec fn well_formed(self) -> bool {
        nameable(self.secs, self.nanos)
    }

    /// Whole seconds since the beginning of 1970.
    pub closed spec fn second(self) -> i64 {
        self.secs
    }

    /// Nanoseconds behind the whole second.
    pub closed spec fn nano(self) -> u32 {
        self.nanos
    }

    /// Whether this instant comes before `other`.
    pub open spec fn earlier(self, other: Timestamp) -> bool {
        self.second() < other.second() || (self.second() == other.second() && self.nano()
            < other.nano())
    }

    /// The instant with the given numbers, where the calendar has one.
    pub fn new(secs: i64, nanos: u32) -> (r: Option<Timestamp>)
        ensures
            r is Some <==> nameable(secs, nanos),
            r matches Some(t) ==> t.second() == secs && t.nano() == nanos,
    {
        if secs < FIRST_SECOND || secs > LAST_SECOND || nanos >= 2_000_000_000 {
            return None;
        }
        if nanos >= 1_000_000_000 && minute_second(secs) != 59 {
            return None;
        }
        Some(Timestamp { secs, nanos })
    }

    /// Whole seconds since the beginning of 1970.
    pub fn seconds(&self) -> (r: i64)
        ensures
            r == self.second(),
            FIRST_SECOND <= r <= LAST_SECOND,
    {
        proof {
            use_type_invariant(self);
        }
        self.secs
    }

    /// Nanoseconds behind the whole second.
    pub fn nanoseconds(&self) -> (r: u32)
        ensures
            r == self.nano(),
            r < 2_000_000_000,
    {
        proof {
            use_type_invariant(self);
        }
        self.nanos
    }

    /// Whether this instant comes before `other`.
    pub fn is_earlier(&self, other: &Timestamp) -> (r: bool)
        ensures
            r == self.earlier(*other),
    {
        self.secs < other.secs || (self.secs == other.secs && self.nanos < other.nanos)
    }

    /// The instant as RFC 3339 writes it, in universal time.
    pub fn to_rfc3339(&self) -> (r: String)
        ensures
            r@ == rfc3339_text(self.second(), self.nano()),
    {
        proof {
            use_type_invariant(self);
        }
        rfc3339(self.secs, self.nanos)
    }

    /// The instant a positive number of seconds later; none where the calendar ends
    /// before it. A leap second counts as the second that it follows.
    pub fn plus(&self, secs: i64) -> (r: Option<Timestamp>)
        requires
            0 < secs <= LAST_SECOND,
        ensures
            r is Some <==> self.second() + secs <= LAST_SECOND,
            r matches Some(t) ==> t.second() == self.second() + secs && t.nano() == below_second(
                self.nano(),
            ),
    {
        proof {
            use_type_invariant(self);
        }
        if self.secs > LAST_SECOND - secs {
            return None;
        }
        let (later, nanos) = later(self.secs, self.nanos, secs);
        Some(Timestamp { secs: later, nanos })
    }

    /// The present instant. Which one it is depends on the machine's clock.
    pub fn now() -> (r: Timestamp)
        ensures
            FIRST_SECOND <= r.second() <= LAST_SECOND,
            r.nano() < 1_000_000_000,
    {
        let (secs, nanos) = utc_now();
        Timestamp { secs, nanos }
    }
}

/// Nanoseconds without the whole second that a leap second adds.
pub open spec fn below_second(nanos: u32) -> u32 {
    if nanos >= 1_000_000_000 {
        (nanos - 1_000_000_000) as u32
    } else {
        nanos
    }
}

fn minute_second(secs: i64) -> (r: i64)
    requires
        secs >= FIRST_SECOND,
        secs <= LAST_SECOND,
    ensures
        r == secs % 60,
{
    // The calendar begins with a whole minute.
    (secs - FIRST_SECOND) % 60
}

/// The text that `chrono::DateTime::<Utc>::to_rfc3339` writes for an instant.
pub uninterp spec fn rfc3339_text(secs: i64, nanos: u32) -> Seq<char>;

/// `chrono::DateTime::from_timestamp`, then `DateTime::to_rfc3339`: the calendar
/// names every instant in its range, and its text depends on the two numbers alone.
#[verifier::external_body]
fn rfc3339(secs: i64, nanos: u32) -> (r: String)
    requires
        nameable(secs, nanos),
    ensures
        r@ == rfc3339_text(secs, nanos),
{
    chrono::DateTime::from_timestamp(secs, nanos).unwrap().to_rfc3339()
}

/// `chrono::DateTime + chrono::Duration::seconds`: adding a positive number of whole
/// seconds moves the second and keeps the fraction, but leaves a leap second.
#[verifier::external_body]
fn later(secs: i64, nanos: u32, add: i64) -> (r: (i64, u32))
    requires
        nameable(secs, nanos),
        0 < add,
        secs + add <= LAST_SECOND,
    ensures
        r.0 == secs + add,
        r.1 == below_second(nanos),
{
    let t = chrono::DateTime::from_timestamp(secs, nanos).unwrap() + chrono::Duration::seconds(add);
    (t.timestamp(), t.timestamp_subsec_nanos())
}

/// `chrono::Utc::now`: the present instant lies within the calendar and is never a leap
/// second. Which instant it is depends on the machine's clock, and
/// nothing is said of it.
#[verifier::external_body]
fn utc_now() -> (r: (i64, u32))
    ensures
        FIRST_SECOND <= r.0 <= LAST_SECOND,
        r.1 < 1_000_000_000,
{
    let t = chrono::Utc::now();
    (t.timestamp(), t.timestamp_subsec_nanos())
}

} // verus!
