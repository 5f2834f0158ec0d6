//! Usage counters of an organization.

use vstd::prelude::*;

use crate::clock::{representable, seconds_to_midnight};
use crate::error::{exhausted, AppError, UploadLimit};

verus! {

/// What an organization consumes, and its ceilings.
#[derive(Clone, Copy, Debug, PartialEq, Eq, Structural)]
pub struct OrganizationUsage {
    /// Bytes uploaded during the current UTC day.
    pub daily_upload_bytes: u64,
    /// Bytes stored.
    pub stored_bytes: u64,
    /// Daily ceiling, if there is one.
    pub daily_upload_limit: Option<u64>,
    /// Storage ceiling, if there is one.
    pub storage_limit: Option<u64>,
}

/// One row of usage counters.
#[derive(Clone, Copy, Debug, PartialEq, Eq, Structural)]
pub struct UsageRow {
    /// Bytes uploaded during the current UTC day.
    pub daily_upload_bytes: i64,
    /// Bytes stored.
    pub stored_bytes: i64,
    /// Daily ceiling.
    pub daily_upload_limit: Option<i64>,
    /// Storage ceiling.
    pub storage_limit: Option<i64>,
}

/// A counter or ceiling as stored; a negative one counts as exhausted.
pub open spec fn counter_of(value: i64) -> u64 {
    if value < 0 {
        u64::MAX
    } else {
        value as u64
    }
}

/// A counter or ceiling as stored; a negative one counts as exhausted.
pub fn counter(value: i64) -> (count: u64)
    ensures
        count == counter_of(value),
{
    if value < 0 {
        u64::MAX
    } else {
        value as u64
    }
}

/// An optional ceiling as stored.
pub open spec fn ceiling_of(value: Option<i64>) -> Option<u64> {
    match value {
        Some(limit) => Some(counter_of(limit)),
        None => None,
    }
}

/// An optional ceiling as stored.
fn ceiling(value: Option<i64>) -> (limit: Option<u64>)
    ensures
        limit == ceiling_of(value),
{
    match value {
        Some(limit) => Some(counter(limit)),
        None => None,
    }
}

/// The usage that a row stands for.
pub open spec fn usage_of(row: UsageRow) -> OrganizationUsage {
    OrganizationUsage {
        daily_upload_bytes: counter_of(row.daily_upload_bytes),
        stored_bytes: counter_of(row.stored_bytes),
        daily_upload_limit: ceiling_of(row.daily_upload_limit),
        storage_limit: ceiling_of(row.storage_limit),
    }
}

/// The usage that a row stands for.
pub fn usage(row: UsageRow) -> (usage: OrganizationUsage)
    ensures
        usage == usage_of(row),
{
    OrganizationUsage {
        daily_upload_bytes: counter(row.daily_upload_bytes),
        stored_bytes: counter(row.stored_bytes),
        daily_upload_limit: ceiling(row.daily_upload_limit),
        storage_limit: ceiling(row.storage_limit),
    }
}

/// The usage of an organization without a row: nothing, without ceilings.
pub open spec fn no_usage() -> OrganizationUsage {
    OrganizationUsage {
        daily_upload_bytes: 0,
        stored_bytes: 0,
        daily_upload_limit: None,
        storage_limit: None,
    }
}

/// The usage that was read, or none where no row exists.
pub fn read_usage(row: Option<UsageRow>) -> (read: OrganizationUsage)
    ensures
        read == match row {
            Some(stored) => usage_of(stored),
            None => no_usage(),
        },
{
    match row {
        Some(stored) => usage(stored),
        None => OrganizationUsage {
            daily_upload_bytes: 0,
            stored_bytes: 0,
            daily_upload_limit: None,
            storage_limit: None,
        },
    }
}

/// The bytes by which an upload moves the day's counter. A size that the
/// counter column cannot hold fails.
pub fn daily_charge(bytes: u64) -> (charge: Result<i64, AppError>)
    ensures
        charge == if bytes <= i64::MAX {
            Ok::<i64, AppError>(bytes as i64)
        } else {
            Err::<i64, AppError>(AppError::Internal { category: "usage_overflow" })
        },
{
    if bytes <= i64::MAX as u64 {
        Ok(bytes as i64)
    } else {
        Err(AppError::Internal { category: "usage_overflow" })
    }
}

/// What a refused limit is reported as.
pub open spec fn refusal(limit: UploadLimit, now: i128) -> AppError {
    AppError::UploadLimitExhausted {
        limit,
        retry_after_seconds: if limit.resets_spec() {
            Some(seconds_to_midnight(now as int) as u64)
        } else {
            None
        },
    }
}

/// Reports the verdict of a limit check on usage that was read.
pub fn check_limit(verdict: Result<(), UploadLimit>, now: i128) -> (result: Result<(), AppError>)
    requires
        representable(now as int),
    ensures
        result == match verdict {
            Ok(()) => Ok::<(), AppError>(()),
            Err(limit) => Err::<(), AppError>(refusal(limit, now)),
        },
{
    match verdict {
        Ok(()) => Ok(()),
        Err(limit) => Err(exhausted(limit, now)),
    }
}

/// Reports the verdicts on a charged upload: the day's counter already holds
/// the upload, the storage counter does not yet, so the day is asked first and
/// the storage after it.
pub fn charge_upload(
    daily: Result<(), UploadLimit>,
    storage: Result<(), UploadLimit>,
    now: i128,
) -> (result: Result<(), AppError>)
    requires
        representable(now as int),
    ensures
        result == match (daily, storage) {
            (Err(limit), _) => Err::<(), AppError>(refusal(limit, now)),
            (Ok(()), Err(limit)) => Err::<(), AppError>(refusal(limit, now)),
            (Ok(()), Ok(())) => Ok::<(), AppError>(()),
        },
{
    match daily {
        Err(limit) => Err(exhausted(limit, now)),
        Ok(()) => match storage {
            Err(limit) => Err(exhausted(limit, now)),
            Ok(()) => Ok(()),
        },
    }
}

/// A corrupted counter never admits more than an intact one: it reads as the
/// largest count there is.
pub proof fn law_negative_counters_read_as_exhausted(value: i64, intact: i64)
    requires
        value < 0 <= intact,
    ensures
        counter_of(value) > counter_of(intact),
{
}

} // verus!
