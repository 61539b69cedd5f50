use vstd::prelude::*;

use crate::Amount;
use crate::Timestamp;
use crate::common::PaginatedResponse;
use crate::common::PaginationParams;
use crate::constants::NANOS_PER_DAY;
use crate::constants::NANOS_PER_MONTH;
use crate::constants::NANOS_PER_SECOND;
use crate::errors::StudiFiError;
use crate::errors::StudiFiResult;

verus! {

/// Convert nanoseconds to whole seconds, rounding down.
pub fn nanos_to_seconds(nanos: Timestamp) -> (r: u64)
    ensures
        r == nanos / NANOS_PER_SECOND,
{
    nanos / NANOS_PER_SECOND
}

/// Convert whole seconds to nanoseconds.
pub fn seconds_to_nanos(seconds: u64) -> (r: Timestamp)
    requires
        seconds * NANOS_PER_SECOND <= u64::MAX,
    ensures
        r == seconds * NANOS_PER_SECOND,
{
    seconds * NANOS_PER_SECOND
}

/// Convert whole days to nanoseconds.
pub fn days_to_nanos(days: u64) -> (r: Timestamp)
    requires
        days * NANOS_PER_DAY <= u64::MAX,
    ensures
        r == days * NANOS_PER_DAY,
{
    days * NANOS_PER_DAY
}

/// Convert scheduling months (30 days each) to nanoseconds.
pub fn months_to_nanos(months: u32) -> (r: Timestamp)
    requires
        months * NANOS_PER_MONTH <= u64::MAX,
    ensures
        r == months * NANOS_PER_MONTH,
{
    months as u64 * NANOS_PER_MONTH
}

/// Accept any strictly positive amount.
pub fn validate_amount(amount: Amount) -> (r: StudiFiResult<()>)
    ensures
        r is Ok <==> amount > 0,
{
    if amount > 0 {
        Ok(())
    } else {
        Err(StudiFiError::InvalidInput("Amount must be positive".to_owned()))
    }
}

/// Accept a rate that is at most the whole (10_000 basis points).
pub fn validate_rate_bps(rate_bps: u64) -> (r: StudiFiResult<()>)
    ensures
        r is Ok <==> rate_bps <= crate::constants::BPS_SCALE,
{
    if rate_bps <= crate::constants::BPS_SCALE {
        Ok(())
    } else {
        Err(StudiFiError::InvalidInput("Rate must be between 0 and 10000 basis points".to_owned()))
    }
}

/// Whole days between a past instant and `now`; 0 when `created_at` is not past.
pub fn calculate_age_days(created_at: Timestamp, now: Timestamp) -> (r: u64)
    ensures
        now > created_at ==> r == (now - created_at) / (NANOS_PER_DAY as int),
        now <= created_at ==> r == 0,
{
    if now > created_at {
        (now - created_at) / NANOS_PER_DAY
    } else {
        0
    }
}

/// True when `duration_nanos` has fully elapsed since `timestamp` at `now`.
pub fn is_expired(timestamp: Timestamp, duration_nanos: Timestamp, now: Timestamp) -> (r: bool)
    requires
        timestamp + duration_nanos <= u64::MAX,
    ensures
        r == (now > timestamp + duration_nanos),
{
    now > timestamp + duration_nanos
}

/// The window of `items` selected by `params`, with its place in the whole.
pub fn paginate<T: Clone>(items: &Vec<T>, params: &PaginationParams) -> (r: PaginatedResponse<T>)
    requires
        items@.len() <= u32::MAX,
    ensures
        r.total_count == items@.len(),
        r.offset == params.offset,
        r.limit == params.limit,
        r.items@.len() == page_len(items@.len() as int, params.offset as int, params.limit as int),
        forall|i: int|
            0 <= i < r.items@.len() ==> cloned(items@[params.offset + i], #[trigger] r.items@[i]),
        r.has_more == (params.offset + r.items@.len() < items@.len()),
{
    let total_count: u32 = items.len() as u32;
    let start: usize = params.offset as usize;
    let mut page: Vec<T> = Vec::new();
    if start < items.len() {
        let end: usize = if items.len() - start < params.limit as usize {
            items.len()
        } else {
            start + params.limit as usize
        };
        let mut i: usize = start;
        while i < end
            invariant
                start <= i <= end <= items@.len(),
                end - start <= params.limit,
                page@.len() == i - start,
                forall|j: int| 0 <= j < page@.len() ==> cloned(items@[start + j], #[trigger] page@[j]),
            decreases end - i,
        {
            page.push(items[i].clone());
            i += 1;
        }
    }
    PaginatedResponse::new(page, total_count, params.offset, params.limit)
}

/// How many entries a window of `limit` starting at `offset` holds, out of `total`.
pub open spec fn page_len(total: int, offset: int, limit: int) -> int {
    if offset >= total {
        0
    } else if total - offset < limit {
        total - offset
    } else {
        limit
    }
}

} // verus!
