//! Timestamp rendering for the signers. A Unix timestamp (seconds since the
//! epoch, UTC) is injected by the caller; the vendor-prescribed date and
//! time renderings of it are computed by chrono behind trusted wrappers,
//! each a function of the timestamp alone.

use vstd::prelude::*;

verus! {

/// Exclusive upper bound on the timestamps the signers accept: the first
/// second of year 10000, past which the RFC 2822 rendering is undefined.
pub const TS_MAX: u64 = 253402300800;

/// The RFC 2822 rendering of the timestamp in UTC, e.g.
/// `Sun, 12 Oct 2025 07:30:00 +0000`.
pub uninterp spec fn rfc2822_of(ts: u64) -> Seq<char>;

/// The compact UTC date of the timestamp, e.g. `20251012`.
pub uninterp spec fn ymd_basic_of(ts: u64) -> Seq<char>;

/// The compact UTC date and time of the timestamp, e.g. `20251012T073000Z`.
pub uninterp spec fn ymd_hms_basic_of(ts: u64) -> Seq<char>;

/// The dashed UTC date of the timestamp, e.g. `2025-10-12`.
pub uninterp spec fn ymd_dashed_of(ts: u64) -> Seq<char>;

/// Relies on chrono's `DateTime::from_timestamp` and `to_rfc2822`: the
/// RFC 2822 rendering of the timestamp in UTC, a function of it alone;
/// defined (no panic) for years up to 9999.
#[verifier::external_body]
pub(crate) fn rfc2822_utc(ts: u64) -> (r: String)
    requires
        ts < TS_MAX,
    ensures
        r@ == rfc2822_of(ts),
{
    let t = chrono::DateTime::<chrono::Utc>::from_timestamp(ts as i64, 0).unwrap();
    t.to_rfc2822()
}

/// Relies on chrono's `DateTime::from_timestamp` and `format("%Y%m%d")`:
/// the compact UTC date of the timestamp, a function of it alone.
#[verifier::external_body]
pub(crate) fn ymd_basic_utc(ts: u64) -> (r: String)
    requires
        ts < TS_MAX,
    ensures
        r@ == ymd_basic_of(ts),
{
    let t = chrono::DateTime::<chrono::Utc>::from_timestamp(ts as i64, 0).unwrap();
    t.format("%Y%m%d").to_string()
}

/// Relies on chrono's `DateTime::from_timestamp` and
/// `format("%Y%m%dT%H%M%SZ")`: the compact UTC date-time of the timestamp,
/// a function of it alone.
#[verifier::external_body]
pub(crate) fn ymd_hms_basic_utc(ts: u64) -> (r: String)
    requires
        ts < TS_MAX,
    ensures
        r@ == ymd_hms_basic_of(ts),
{
    let t = chrono::DateTime::<chrono::Utc>::from_timestamp(ts as i64, 0).unwrap();
    t.format("%Y%m%dT%H%M%SZ").to_string()
}

/// Relies on chrono's `DateTime::from_timestamp` and `format("%Y-%m-%d")`:
/// the dashed UTC date of the timestamp, a function of it alone.
#[verifier::external_body]
pub(crate) fn ymd_dashed_utc(ts: u64) -> (r: String)
    requires
        ts < TS_MAX,
    ensures
        r@ == ymd_dashed_of(ts),
{
    let t = chrono::DateTime::<chrono::Utc>::from_timestamp(ts as i64, 0).unwrap();
    t.format("%Y-%m-%d").to_string()
}

} // verus!
