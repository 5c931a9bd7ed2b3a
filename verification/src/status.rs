//! The two-layer result of a boundary call.
//!
//! A call into the isolated context reports two independent outcomes: the
//! transport layer says whether the call mechanism itself completed, and the
//! application layer says whether the requested database operation
//! succeeded.  The application layer is returned by reference and holds
//! stale data whenever the transport layer failed, so it must never be
//! consulted in that case.  `BoundaryStatus` makes that impossible by
//! construction: the application status exists only on the transport-success
//! arm.

use vstd::prelude::*;

verus! {

/// Outcome of the requested database operation, meaningful only when the
/// transport layer reported success.
#[derive(Clone, Copy, Debug, PartialEq, Eq, Structural)]
pub enum AppStatus {
    Success,
    Failure,
}

/// The two-layer result of one boundary call.  The application status is
/// carried only on the arm where the transport layer succeeded.
#[derive(Clone, Copy, Debug, PartialEq, Eq, Structural)]
pub enum BoundaryStatus {
    /// The call mechanism itself failed; the application status is
    /// undefined and is not represented at all.
    TransportFailure,
    /// The call mechanism completed; `app` is the operation's own outcome.
    Completed { app: AppStatus },
}

/// What a pair of raw status codes means.  The platform reports success on
/// either layer as the code zero.  When the transport code is non-zero the
/// application code is stale and is ignored.
pub open spec fn status_of(transport: u32, app: u32) -> BoundaryStatus {
    if transport != 0 {
        BoundaryStatus::TransportFailure
    } else if app == 0 {
        BoundaryStatus::Completed { app: AppStatus::Success }
    } else {
        BoundaryStatus::Completed { app: AppStatus::Failure }
    }
}

/// Classify the two raw status codes of a boundary call into the two-layer
/// result.  `transport` is the code returned by the call mechanism itself,
/// `app` the code returned by reference for the database operation; both
/// report success as zero.
pub fn classify_status(transport: u32, app: u32) -> (r: BoundaryStatus)
    ensures
        r == status_of(transport, app),
{
    if transport != 0 {
        BoundaryStatus::TransportFailure
    } else if app == 0 {
        BoundaryStatus::Completed { app: AppStatus::Success }
    } else {
        BoundaryStatus::Completed { app: AppStatus::Failure }
    }
}

/// The application layer is never consulted when the transport layer
/// signals failure: on a non-zero transport code the classification is the
/// same whatever the application code holds.
pub proof fn lemma_status_layer_gating(transport: u32, app1: u32, app2: u32)
    requires
        transport != 0,
    ensures
        status_of(transport, app1) == status_of(transport, app2),
        status_of(transport, app1) == BoundaryStatus::TransportFailure,
{
}

} // verus!
