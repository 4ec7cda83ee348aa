//! The decisions of the historical backfill job: the time window it
//! covers and when another page is fetched. The fetching itself is
//! outside work; these functions decide it from plain values.
use vstd::prelude::*;

verus! {

pub const MS_PER_DAY: i64 = 86400000;

/// How many rows one backfill page asks for.
pub const PAGE_ROWS: usize = 100;

/// The window a backfill over the past `days` days covers, ending now.
pub fn backfill_window(now_ms: i64, days: i64) -> (r: (i64, i64))
    requires
        0 <= days <= 100000,
        -4611686018427387904 <= now_ms <= 4611686018427387904,
    ensures
        r.0 == now_ms - days * MS_PER_DAY,
        r.1 == now_ms,
{
    (now_ms - days * MS_PER_DAY, now_ms)
}

/// Whether another page follows: only a full page of rows announces
/// more.
pub fn next_page(page: u32, rows_got: usize) -> (r: Option<u32>)
    requires
        page < u32::MAX,
    ensures
        rows_got < PAGE_ROWS ==> r is None,
        rows_got >= PAGE_ROWS ==> r == Some((page + 1) as u32),
{
    if rows_got < PAGE_ROWS {
        None
    } else {
        Some(page + 1)
    }
}

} // verus!
