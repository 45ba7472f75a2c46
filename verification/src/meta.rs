//! Display strings for a file's timestamps.
//!
//! A timestamp reaches the library as whole seconds since the Unix epoch;
//! the surrounding application extracts that from the file system.  chrono
//! turns the seconds into a display string; a missing or out-of-range
//! timestamp degrades to a placeholder instead of failing.

use vstd::prelude::*;
use vstd::string::StringExecFns;

verus! {

/// The last second chrono is asked to format: 9999-12-31 23:59:59 UTC.
/// Far inside the range `DateTime::from_timestamp` documents as `Some`.
pub const MAX_LABEL_SECS: u64 = 253402300799;

/// What chrono's `%a %b %e %T %Y` format shows for a UTC timestamp.  The
/// result depends on the seconds value alone.
pub uninterp spec fn fmt_of(secs: u64) -> Seq<char>;

/// Relies on chrono's `DateTime::<Utc>::from_timestamp` and `format`: within
/// the documented range the timestamp formats, in UTC and with chrono's
/// fixed English names, to a string that is a function of the seconds alone.
#[verifier::external_body]
fn fmt_epoch(secs: u64) -> (r: String)
    requires
        secs <= MAX_LABEL_SECS,
    ensures
        r@ == fmt_of(secs),
{
    match chrono::DateTime::<chrono::Utc>::from_timestamp(secs as i64, 0) {
        Some(dt) => dt.format("%a %b %e %T %Y").to_string(),
        None => String::new(),
    }
}

/// The display label of one possibly-missing timestamp: its formatted form,
/// or `unknown` where the timestamp is absent or beyond the formatted range.
pub open spec fn label_of(t: Option<u64>) -> Seq<char> {
    match t {
        Option::Some(s) => if s <= MAX_LABEL_SECS {
            fmt_of(s)
        } else {
            "unknown"@
        },
        Option::None => "unknown"@,
    }
}

/// The whole info line for a file's three timestamps.
pub open spec fn info_line_of(created: Option<u64>, accessed: Option<u64>, modified: Option<u64>) -> Seq<char> {
    "Created: "@ + label_of(created) + ", Accessed: "@ + label_of(accessed) + ", Modified: "@
        + label_of(modified)
}

/// Format one possibly-missing timestamp, substituting the placeholder
/// rather than failing.
pub fn timestamp_label(t: Option<u64>) -> (r: String)
    ensures
        r@ == label_of(t),
{
    match t {
        Some(s) => {
            if s <= MAX_LABEL_SECS {
                fmt_epoch(s)
            } else {
                "unknown".to_owned()
            }
        },
        None => "unknown".to_owned(),
    }
}

/// The info line shown for the selected file: its created, accessed and
/// modified timestamps, each degrading to `unknown` when absent.
pub fn metadata_str(created: Option<u64>, accessed: Option<u64>, modified: Option<u64>) -> (r:
    String)
    ensures
        r@ == info_line_of(created, accessed, modified),
{
    let lc = timestamp_label(created);
    let la = timestamp_label(accessed);
    let lm = timestamp_label(modified);
    let mut out = "Created: ".to_owned();
    out.append(lc.as_str());
    out.append(", Accessed: ");
    out.append(la.as_str());
    out.append(", Modified: ");
    out.append(lm.as_str());
    proof {
        assert(out@ =~= info_line_of(created, accessed, modified));
    }
    out
}

} // verus!
