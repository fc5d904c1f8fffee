use vstd::prelude::*;

verus! {

/// Earliest second, counted from the Unix epoch, that a UTC date-time can
/// hold: the first second of the year -262143.
pub const MIN_UNIX_SECS: i64 = -8334601228800;

/// Latest second, counted from the Unix epoch, that a UTC date-time can
/// hold: the last second of the year 262142.
pub const MAX_UNIX_SECS: i64 = 8210266876799;

/// Nanoseconds in one second.
pub const NANOS_PER_SEC: u32 = 1000000000;

/// Whether `secs` seconds and `nanos` nanoseconds after the Unix epoch name
/// an instant of the UTC calendar (leap seconds aside).
pub open spec fn valid_instant(secs: i64, nanos: u32) -> bool {
    MIN_UNIX_SECS <= secs <= MAX_UNIX_SECS && nanos < NANOS_PER_SEC
}

/// An instant in UTC, as whole seconds since the Unix epoch and the
/// nanoseconds within that second.
#[derive(Clone, Copy, Debug, PartialEq, Eq)]
pub struct Timestamp {
    secs: i64,
    nanos: u32,
}

/// The human-readable UTC rendering of an instant, such as
/// `2015-05-15 00:00:00.250 UTC`.
pub uninterp spec fn utc_text(secs: i64, nanos: u32) -> Seq<char>;

impl Timestamp {
    #[verifier::type_invariant]
    spec fn well_formed(self) -> bool {
        valid_instant(self.secs, self.nanos)
    }

    pub closed spec fn spec_secs(self) -> i64 {
        self.secs
    }

    pub closed spec fn spec_nanos(self) -> u32 {
        self.nanos
    }

    /// The instant `secs` seconds and `nanos` nanoseconds after the Unix
    /// epoch, or `None` where no UTC date-time holds it.
    pub fn from_unix(secs: i64, nanos: u32) -> (r: Option<Timestamp>)
        ensures
            r is Some <==> valid_instant(secs, nanos),
            r matches Some(t) ==> t.spec_secs() == secs && t.spec_nanos() == nanos,
    {
        if MIN_UNIX_SECS <= secs && secs <= MAX_UNIX_SECS && nanos < NANOS_PER_SEC {
            Some(Timestamp { secs, nanos })
        } else {
            None
        }
    }

    /// The current time.
    pub fn now() -> (r: Timestamp) {
        utc_now()
    }

    /// Whole seconds since the Unix epoch.
    pub fn secs(&self) -> (r: i64)
        ensures
            r == self.spec_secs(),
    {
        self.secs
    }

    /// Nanoseconds within the second.
    pub fn nanos(&self) -> (r: u32)
        ensures
            r == self.spec_nanos(),
    {
        self.nanos
    }

    /// The instant rendered as text.
    pub fn render(&self) -> (r: String)
        ensures
            r@ == self.text(),
    {
        proof {
            use_type_invariant(self);
        }
        match render_utc(self.secs, self.nanos) {
            Some(s) => s,
            None => String::new(),
        }
    }

    /// The text of the instant, as `render` gives it.
    pub open spec fn text(self) -> Seq<char> {
        utc_text(self.spec_secs(), self.spec_nanos())
    }
}

/// Relies on chrono's `Utc::now`, read back through `DateTime::timestamp` and
/// `DateTime::timestamp_subsec_nanos`: `now` builds its result with
/// `DateTime::from_timestamp` from a `Duration` since the epoch, whose
/// sub-second nanoseconds stay below one second, and every `DateTime<Utc>`
/// lies between `DateTime::MIN_UTC` and `DateTime::MAX_UTC`.
#[verifier::external_body]
fn utc_now() -> (r: Timestamp)
    ensures
        valid_instant(r.secs, r.nanos),
{
    let t = chrono::Utc::now();
    Timestamp { secs: t.timestamp(), nanos: t.timestamp_subsec_nanos() }
}

/// Relies on chrono's `DateTime::<Utc>::from_timestamp`, which gives a
/// date-time for every in-range second and nanosecond below one second, and
/// on its `Display`, whose text depends on the instant alone.
#[verifier::external_body]
fn render_utc(secs: i64, nanos: u32) -> (r: Option<String>)
    requires
        valid_instant(secs, nanos),
    ensures
        r is Some,
        r.unwrap()@ == utc_text(secs, nanos),
{
    match chrono::DateTime::<chrono::Utc>::from_timestamp(secs, nanos) {
        Some(t) => Some(t.to_string()),
        None => None,
    }
}

} // verus!
