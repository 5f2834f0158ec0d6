//! Planes, stale contexts and the outbox.

use vstd::prelude::*;

use crate::postgres::TenantContext;

verus! {

/// A testing environment changed under a request.
pub const STALE_TESTING_ENVIRONMENT_CONTEXT: &'static str = "testing environment changed while the request was in progress";

/// A request of a testing environment without a testing database.
pub const TESTING_DATABASE_MISSING: &'static str = "the Briefcase testing database is not configured";

/// Database that a request is served from.
#[derive(Clone, Copy, Debug, PartialEq, Eq, Structural)]
pub enum Plane {
    /// The production database.
    Production,
    /// The shared testing database.
    Testing,
}

/// Chooses the database of a context. A testing context never falls back to
/// production.
pub fn pool_for(context: &TenantContext, testing_configured: bool) -> (plane: Result<
    Plane,
    &'static str,
>)
    ensures
        match context.testing_environment_id {
            None => plane == Ok::<Plane, &'static str>(Plane::Production),
            Some(_) => if testing_configured {
                plane == Ok::<Plane, &'static str>(Plane::Testing)
            } else {
                plane matches Err(message) && message@ == TESTING_DATABASE_MISSING@
            },
        },
{
    if context.testing_environment_id.is_none() {
        Ok(Plane::Production)
    } else if testing_configured {
        Ok(Plane::Testing)
    } else {
        Err(TESTING_DATABASE_MISSING)
    }
}

/// Whether the generation of a context has to be compared with the control
/// plane.
pub fn checks_generation(context: &TenantContext) -> (answer: bool)
    ensures
        answer == (context.testing_environment_id is Some
            && context.testing_environment_control_version is Some),
{
    context.testing_environment_id.is_some()
        && context.testing_environment_control_version.is_some()
}

/// Refuses a context whose generation the control plane has left behind.
pub fn begin(context: &TenantContext, generation_is_current: bool) -> (result: Result<
    (),
    &'static str,
>)
    ensures
        result is Err == (context.testing_environment_id is Some
            && context.testing_environment_control_version is Some && !generation_is_current),
        result matches Err(message) ==> message@ == STALE_TESTING_ENVIRONMENT_CONTEXT@,
{
    if checks_generation(context) && !generation_is_current {
        return Err(STALE_TESTING_ENVIRONMENT_CONTEXT);
    }
    Ok(())
}

/// Where an outbox event goes after a failed delivery.
pub fn failure_status(terminal: bool) -> (status: &'static str)
    ensures
        status@ == if terminal {
            "dead_letter"@
        } else {
            "pending"@
        },
{
    if terminal {
        "dead_letter"
    } else {
        "pending"
    }
}

/// Whether an update under a lease found the lease still held.
pub fn lease_held(updated_rows: u64) -> (held: bool)
    ensures
        held == (updated_rows == 1),
{
    updated_rows == 1
}

/// Number and size of a part as columns; what they cannot hold is refused.
pub fn part_columns(part_number: u32, size_bytes: u64) -> (columns: Option<(i32, i64)>)
    ensures
        columns == if part_number <= i32::MAX && size_bytes <= i64::MAX {
            Some((part_number as i32, size_bytes as i64))
        } else {
            None
        },
{
    if part_number <= i32::MAX as u32 && size_bytes <= i64::MAX as u64 {
        Some((part_number as i32, size_bytes as i64))
    } else {
        None
    }
}

} // verus!
