//! Timestamps: epoch seconds, their RFC 3339 text form, and the trusted
//! boundary to the calendar library that formats and parses that form.
//!
//! A timestamp is carried as non-leap seconds since the Unix epoch. What the
//! canonical text of a timestamp looks like is named, not written out:
//! `rfc3339_of` names the text the formatter returns and `parsed_ts` names
//! what the parser makes of arbitrary text, and the trusted contracts below
//! tie the two together only as far as the library documents.

use vstd::prelude::*;

verus! {

/// The last timestamp this library formats: 9999-12-31T23:59:59 UTC. Keeping
/// to four-digit years keeps the canonical text at a fixed width.
pub const TS_MAX: i64 = 253402300799;

/// Whether a timestamp lies in the range this library stores and formats.
pub open spec fn ts_in_range(t: i64) -> bool {
    0 <= t <= TS_MAX
}

/// The RFC 3339 text of a timestamp, as the calendar library renders it.
pub uninterp spec fn rfc3339_of(t: i64) -> Seq<char>;

/// What the calendar library's RFC 3339 parser returns on a given text:
/// the timestamp it denotes, or nothing when the text is malformed.
pub uninterp spec fn parsed_ts(s: Seq<char>) -> Option<i64>;

/// Lexicographic order on character sequences by code point.
pub open spec fn lex_le(a: Seq<char>, b: Seq<char>) -> bool
    decreases a.len(),
{
    if a.len() == 0 {
        true
    } else if b.len() == 0 {
        false
    } else if a[0] != b[0] {
        (a[0] as u32) < (b[0] as u32)
    } else {
        lex_le(a.skip(1), b.skip(1))
    }
}

/// Whether every character is seven-bit. For such text, byte order — what
/// the storage engine sorts text by — coincides with code-point order.
pub open spec fn ascii_chars(s: Seq<char>) -> bool {
    forall|i: int| 0 <= i < s.len() ==> (s[i] as u32) < 128
}

/// The lexicographic order is antisymmetric: two sequences below one another
/// are the same sequence.
pub proof fn lemma_lex_antisymmetric(a: Seq<char>, b: Seq<char>)
    requires
        lex_le(a, b),
        lex_le(b, a),
    ensures
        a == b,
    decreases a.len(),
{
    if a.len() == 0 {
        assert(b.len() == 0);
        assert(a =~= b);
    } else {
        assert(b.len() != 0);
        assert(a[0] == b[0]);
        lemma_lex_antisymmetric(a.skip(1), b.skip(1));
        assert forall|i: int| 0 <= i < a.len() implies a[i] == b[i] by {
            if i > 0 {
                assert(a.skip(1)[i - 1] == a[i]);
                assert(b.skip(1)[i - 1] == b[i]);
            }
        }
        assert(a =~= b);
    }
}

/// Law: the canonical texts of two timestamps order exactly as the
/// timestamps do. The premises are what the formatter guarantees of the two
/// texts it returned: each parses back to its timestamp, and a timestamp no
/// later never formats to a lexicographically larger text.
pub proof fn lemma_text_order_reflects_time(t1: i64, t2: i64)
    requires
        ts_in_range(t1),
        ts_in_range(t2),
        parsed_ts(rfc3339_of(t1)) == Some(t1),
        parsed_ts(rfc3339_of(t2)) == Some(t2),
        t1 <= t2 ==> lex_le(rfc3339_of(t1), rfc3339_of(t2)),
        lex_le(rfc3339_of(t2), rfc3339_of(t1)),
    ensures
        t2 <= t1,
{
    if t1 < t2 {
        lemma_lex_antisymmetric(rfc3339_of(t1), rfc3339_of(t2));
        assert(rfc3339_of(t1) == rfc3339_of(t2));
        assert(Some(t1) == Some(t2));
        assert(false);
    }
}

/// Relies on `chrono::DateTime::<Utc>::from_timestamp` (defined for every
/// timestamp in range, per its documentation) and `DateTime::to_rfc3339`:
/// the canonical text of `t`. The text has the fixed 25-character shape
/// `YYYY-MM-DDTHH:MM:SS+00:00`, so it parses back to `t` and text order
/// follows timestamp order.
#[verifier::external_body]
pub fn format_rfc3339(t: i64) -> (r: String)
    requires
        ts_in_range(t),
    ensures
        r@ == rfc3339_of(t),
        parsed_ts(r@) == Some(t),
        r@.len() == 25,
        ascii_chars(r@),
        forall|t2: i64| ts_in_range(t2) && t2 <= t ==> lex_le(rfc3339_of(t2), r@),
{
    let dt = chrono::DateTime::<chrono::Utc>::from_timestamp(t, 0).unwrap();
    dt.to_rfc3339()
}

/// Relies on `chrono::DateTime::parse_from_rfc3339` and
/// `DateTime::timestamp`: what the parser makes of `s`.
#[verifier::external_body]
pub fn parse_rfc3339(s: &str) -> (r: Option<i64>)
    ensures
        r == parsed_ts(s@),
{
    match chrono::DateTime::parse_from_rfc3339(s) {
        Ok(dt) => Some(dt.timestamp()),
        Err(_) => None,
    }
}

/// Relies on `chrono::Utc::now` and `DateTime::timestamp`: the clock's
/// current timestamp. Nothing is promised of a clock reading.
#[verifier::external_body]
pub fn now_epoch_seconds() -> i64 {
    chrono::Utc::now().timestamp()
}

/// A clock reading forced into the range this library stores: readings
/// before the epoch or beyond the supported ceiling are clamped.
pub fn current_stamp() -> (r: i64)
    ensures
        ts_in_range(r),
{
    let t = now_epoch_seconds();
    if t < 0 {
        0
    } else if t > TS_MAX {
        TS_MAX
    } else {
        t
    }
}

/// A point in time as the catalog stores it: whole seconds since the epoch.
/// Only the years 1970 through 9999 are stored — the window in which the
/// canonical RFC 3339 text has a fixed width, so that text order and time
/// order coincide.
#[derive(Debug, Clone, Copy, PartialEq, Eq, Structural)]
pub struct DbDateTime {
    pub secs: i64,
}

impl DbDateTime {
    /// Whether this timestamp lies in the stored range.
    pub open spec fn wf(self) -> bool {
        ts_in_range(self.secs)
    }

    pub fn new(secs: i64) -> (r: DbDateTime)
        requires
            ts_in_range(secs),
        ensures
            r.secs == secs,
    {
        DbDateTime { secs }
    }

    /// The canonical RFC 3339 text of this timestamp.
    pub fn to_text(&self) -> (r: String)
        requires
            self.wf(),
        ensures
            r@ == rfc3339_of(self.secs),
            parsed_ts(r@) == Some(self.secs),
    {
        format_rfc3339(self.secs)
    }

    /// Reads a timestamp back from text; nothing for malformed text or for
    /// one outside the stored range.
    pub fn parse(s: &str) -> (r: Option<DbDateTime>)
        ensures
            match r {
                Some(d) => parsed_ts(s@) == Some(d.secs) && d.wf(),
                None => parsed_ts(s@) is None
                    || (parsed_ts(s@) matches Some(t) && !ts_in_range(t)),
            },
    {
        match parse_rfc3339(s) {
            Some(t) => {
                if 0 <= t && t <= TS_MAX {
                    Some(DbDateTime { secs: t })
                } else {
                    None
                }
            },
            None => None,
        }
    }
}

} // verus!
