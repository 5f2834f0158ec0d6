//! Reports that members submit.

use vstd::prelude::*;

use crate::error::{internal, MetadataRepositoryError};
use crate::model::IdempotencyClaim;

verus! {

/// Receipt of a report. Repeating the request gives the same one.
#[derive(Clone, Copy, Debug, PartialEq, Eq, Structural)]
pub struct ReportReceipt {
    /// Report identifier.
    pub id: u128,
    /// Whether the report was accepted.
    pub accepted: bool,
}

/// What submitting a report leads to.
#[derive(Clone, Copy, Debug, PartialEq, Eq, Structural)]
pub struct ReportOutcome {
    /// The receipt.
    pub receipt: ReportReceipt,
    /// Whether the report is stored now, rather than before.
    pub stores: bool,
}

/// Decides whether a report is stored, and its receipt.
pub fn submit_report(claim: IdempotencyClaim) -> (outcome: Result<
    ReportOutcome,
    MetadataRepositoryError,
>)
    ensures
        outcome == match claim {
            IdempotencyClaim::Acquired(Some(id)) => Ok::<ReportOutcome, MetadataRepositoryError>(
                ReportOutcome { receipt: ReportReceipt { id, accepted: true }, stores: true },
            ),
            IdempotencyClaim::Replay(Some(id)) => Ok::<ReportOutcome, MetadataRepositoryError>(
                ReportOutcome { receipt: ReportReceipt { id, accepted: true }, stores: false },
            ),
            _ => Err::<ReportOutcome, MetadataRepositoryError>(
                MetadataRepositoryError::Internal {
                    reason: "report idempotency record omitted identifier",
                },
            ),
        },
{
    match claim {
        IdempotencyClaim::Acquired(Some(id)) => Ok(
            ReportOutcome { receipt: ReportReceipt { id, accepted: true }, stores: true },
        ),
        IdempotencyClaim::Replay(Some(id)) => Ok(
            ReportOutcome { receipt: ReportReceipt { id, accepted: true }, stores: false },
        ),
        _ => Err(internal("report idempotency record omitted identifier")),
    }
}

} // verus!
