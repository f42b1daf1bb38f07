//! Timestamp resolution: parsed instants and elapsed-seconds arithmetic.

use vstd::arithmetic::div_mod::lemma_fundamental_div_mod_converse;
use vstd::prelude::*;

verus! {

/// Largest magnitude, in whole seconds since the Unix epoch, that a parsed
/// instant may have: chrono documents a representable range of about
/// ±262,000 years, which stays well inside this bound.  Keeping instants
/// this small means a difference of two of them never overflows `i64`.
pub const MAX_INSTANT_SECS: i64 = 10_000_000_000_000;

/// An instant parsed from an RFC3339 string: whole seconds since the Unix
/// epoch (negative before it), the sub-second part in nanoseconds, and the
/// instant rendered back as display text.
pub struct Timestamp {
    pub secs: i64,
    pub nanos: u32,
    pub text: String,
}

/// Mathematical image of a [`Timestamp`].
pub ghost struct TimestampView {
    pub secs: int,
    pub nanos: int,
    pub text: Seq<char>,
}

impl View for Timestamp {
    type V = TimestampView;

    open spec fn view(&self) -> TimestampView {
        TimestampView { secs: self.secs as int, nanos: self.nanos as int, text: self.text@ }
    }
}

impl Timestamp {
    /// The instant lies in the range the parser can produce.  The
    /// sub-second part is below two seconds rather than one: during a leap
    /// second the parser reports nanoseconds beyond 999,999,999.
    pub open spec fn wf(self) -> bool {
        &&& self.nanos < 2_000_000_000
        &&& -MAX_INSTANT_SECS <= self.secs <= MAX_INSTANT_SECS
    }
}

/// The instant an RFC3339 string denotes, as (whole seconds, sub-second
/// nanoseconds) since the Unix epoch, or `None` where the string is not
/// valid RFC3339.
pub uninterp spec fn rfc3339_instant(s: Seq<char>) -> Option<(int, int)>;

/// The display text of the instant an RFC3339 string denotes.
pub uninterp spec fn rfc3339_rendered(s: Seq<char>) -> Seq<char>;

/// Relies on chrono's `DateTime::parse_from_rfc3339`: it succeeds exactly on
/// valid RFC3339 text, and the instant it returns is a function of the text
/// alone.  chrono documents the representable range as about ±262,000 years
/// from the common epoch, and a sub-second part that exceeds 999,999,999
/// nanoseconds only during a leap second (so it stays below two seconds).
/// The display text comes from the `DateTime`'s `Display` implementation,
/// again a function of the text alone.
#[verifier::external_body]
pub(crate) fn parse_rfc3339(s: &str) -> (r: Option<Timestamp>)
    ensures
        r is Some <==> rfc3339_instant(s@) is Some,
        r matches Some(t) ==> {
            &&& t.wf()
            &&& rfc3339_instant(s@) == Some((t.secs as int, t.nanos as int))
            &&& t.text@ == rfc3339_rendered(s@)
        },
{
    match chrono::DateTime::parse_from_rfc3339(s) {
        Ok(dt) => Some(
            Timestamp {
                secs: dt.timestamp(),
                nanos: dt.timestamp_subsec_nanos(),
                text: dt.to_string(),
            },
        ),
        Err(_) => None,
    }
}

/// Whole seconds of the span from instant `a` to instant `b`, truncated
/// toward zero; negative when `b` lies before `a`.
pub open spec fn elapsed_secs(a_secs: int, a_nanos: int, b_secs: int, b_nanos: int) -> int {
    let total = (b_secs - a_secs) * 1_000_000_000 + (b_nanos - a_nanos);
    if total >= 0 {
        total / 1_000_000_000
    } else {
        -((-total) / 1_000_000_000)
    }
}

/// [`elapsed_secs`] over timestamp views.
pub open spec fn elapsed_of(a: TimestampView, b: TimestampView) -> int {
    elapsed_secs(a.secs, a.nanos, b.secs, b.nanos)
}

/// Truncating a span toward zero agrees with borrow/carry normalisation of
/// its seconds and nanosecond parts.
proof fn lemma_truncated_span(total: int, q: int, n: int)
    requires
        total == q * 1_000_000_000 + n,
        0 <= n < 1_000_000_000,
    ensures
        (if total >= 0 {
            total / 1_000_000_000
        } else {
            -((-total) / 1_000_000_000)
        }) == (if q < 0 && n > 0 {
            q + 1
        } else {
            q
        }),
{
    if total >= 0 {
        lemma_fundamental_div_mod_converse(total, 1_000_000_000, q, n);
    } else {
        if n == 0 {
            lemma_fundamental_div_mod_converse(-total, 1_000_000_000, -q, 0);
        } else {
            lemma_fundamental_div_mod_converse(-total, 1_000_000_000, -q - 1, 1_000_000_000 - n);
        }
    }
}

/// Seconds of `b - a`, truncated toward zero; may be negative when the
/// inputs are inconsistent — callers decide what that means.
pub fn elapsed_seconds(a: &Timestamp, b: &Timestamp) -> (r: i64)
    requires
        a.wf(),
        b.wf(),
    ensures
        r == elapsed_of(a@, b@),
{
    let ghost total: int = (b.secs - a.secs) * 1_000_000_000 + (b.nanos - a.nanos);
    let mut ds: i64 = b.secs - a.secs;
    let mut dn: i64 = b.nanos as i64 - a.nanos as i64;
    if dn < 0 {
        ds = ds - 1;
        dn = dn + 1_000_000_000;
    }
    if dn < 0 {
        ds = ds - 1;
        dn = dn + 1_000_000_000;
    }
    if dn >= 1_000_000_000 {
        ds = ds + 1;
        dn = dn - 1_000_000_000;
    }
    proof {
        lemma_truncated_span(total, ds as int, dn as int);
    }
    if ds < 0 && dn > 0 {
        ds + 1
    } else {
        ds
    }
}

} // verus!
