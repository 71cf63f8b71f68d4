use vstd::prelude::*;

verus! {

/// The first second of year -262143, the earliest that chrono represents, in
/// seconds since 1970-01-01T00:00:00Z.
pub const MIN_SECS: i64 = -8334601228800;

/// The last second of year 262142, the latest that chrono represents, in
/// seconds since 1970-01-01T00:00:00Z.
pub const MAX_SECS: i64 = 8210266876799;

/// Whether whole seconds since the Unix epoch and nanoseconds within that
/// second make an instant that chrono represents: a nanosecond count of one
/// second or more stands for a leap second, so only on a second that ends a
/// minute.
pub open spec fn represented(secs: int, nanos: int) -> bool {
    &&& MIN_SECS <= secs <= MAX_SECS
    &&& 0 <= nanos < 2_000_000_000
    &&& nanos >= 1_000_000_000 ==> secs % 60 == 59
}

/// A UTC instant that chrono represents: whole seconds since the Unix epoch
/// and the nanoseconds within that second.
#[derive(Clone, Copy, Debug, PartialEq, Eq)]
pub struct Timestamp {
    secs: i64,
    nanos: u32,
}

/// The ISO 8601 text that chrono writes for an instant.
pub uninterp spec fn rfc3339_text(secs: int, nanos: int) -> Seq<char>;

/// Relies on chrono's `DateTime::<Utc>::from_timestamp`, which gives a time for
/// every pair that `represented` admits (its day falls in the years -262143 to
/// 262142, and `NaiveTime::from_num_seconds_from_midnight_opt` takes the
/// nanoseconds), and on `DateTime::to_rfc3339_opts` with automatic fractional
/// digits and a `Z` suffix: the text that chrono's serde support writes for a
/// `DateTime<Utc>`, which writes every year of that range.
#[verifier::external_body]
fn rfc3339(secs: i64, nanos: u32) -> (r: String)
    requires
        represented(secs as int, nanos as int),
    ensures
        r@ == rfc3339_text(secs as int, nanos as int),
{
    match chrono::DateTime::from_timestamp(secs, nanos) {
        Some(t) => t.to_rfc3339_opts(chrono::SecondsFormat::AutoSi, true),
        None => String::new(),
    }
}

impl Timestamp {
    #[verifier::type_invariant]
    spec fn in_range(self) -> bool {
        represented(self.secs as int, self.nanos as int)
    }

    /// Seconds since the Unix epoch.
    pub closed spec fn secs_spec(self) -> int {
        self.secs as int
    }

    /// Nanoseconds within the second.
    pub closed spec fn nanos_spec(self) -> int {
        self.nanos as int
    }

    /// The instant `secs` seconds and `nanos` nanoseconds after the Unix
    /// epoch, or `None` where chrono does not represent it.
    pub fn new(secs: i64, nanos: u32) -> (r: Option<Timestamp>)
        ensures
            r is Some <==> represented(secs as int, nanos as int),
            r matches Some(t) ==> t.secs_spec() == secs && t.nanos_spec() == nanos,
    {
        if MIN_SECS <= secs && secs <= MAX_SECS && nanos < 2_000_000_000 && (nanos < 1_000_000_000
            || secs % 60 == 59 || secs % 60 == -1) {
            Some(Timestamp { secs, nanos })
        } else {
            None
        }
    }

    /// Seconds since the Unix epoch.
    pub fn seconds(&self) -> (r: i64)
        ensures
            r == self.secs_spec(),
            represented(r as int, self.nanos_spec()),
    {
        proof { use_type_invariant(self); }
        self.secs
    }

    /// Nanoseconds within the second.
    pub fn nanoseconds(&self) -> (r: u32)
        ensures
            r == self.nanos_spec(),
            represented(self.secs_spec(), r as int),
    {
        proof { use_type_invariant(self); }
        self.nanos
    }

    /// The ISO 8601 text of the instant, as the service expects it.
    pub fn to_rfc3339(&self) -> (r: String)
        ensures
            r@ == rfc3339_text(self.secs_spec(), self.nanos_spec()),
    {
        proof { use_type_invariant(self); }
        rfc3339(self.secs, self.nanos)
    }
}

} // verus!
