//! Queries that the database abandons.
//!
//! The database gives up on a running query when a change to it is pending,
//! when the query was told to stop, or when a thread it waited for panicked.
//! A query of this library that meets this ends in a `Cancelled` failure that
//! names the reason.

use salsa::Cancelled;
use vstd::prelude::*;

use crate::error::{BatchError, ErrorKind};

verus! {

/// The database's own account of an abandoned query, opaque to the verifier.
#[verifier::external_type_specification]
#[verifier::external_body]
pub struct ExCancelled(Cancelled);

/// Why the database gave up on a query.
#[derive(Clone, Copy, Debug, PartialEq, Eq, Structural)]
pub enum Interruption {
    Local,
    PendingWrite,
    PropagatedPanic,
    Other,
}

/// Tells the variants of `salsa::Cancelled` apart. The enum is open to new
/// variants, which all become `Other`. Nothing is claimed about which reason
/// comes out.
#[verifier::external_body]
pub(crate) fn interruption_of(cancelled: Cancelled) -> Interruption {
    match cancelled {
        Cancelled::Local => Interruption::Local,
        Cancelled::PendingWrite => Interruption::PendingWrite,
        Cancelled::PropagatedPanic => Interruption::PropagatedPanic,
        _ => Interruption::Other,
    }
}

/// The message shown for an interrupted query.
pub open spec fn interruption_text(why: Interruption) -> Seq<char> {
    match why {
        Interruption::Local => "Local"@,
        Interruption::PendingWrite => "PendingWrite"@,
        Interruption::PropagatedPanic => "PropagatedPanic"@,
        Interruption::Other => "Cancelled"@,
    }
}

/// Whether `failure` is that of an interrupted query: of kind `Cancelled`,
/// with the message of one of the reasons.
pub open spec fn is_interrupted(failure: BatchError) -> bool {
    failure.kind == ErrorKind::Cancelled && exists|why: Interruption|
        failure.detail@ == #[trigger] interruption_text(why)
}

/// The failure that an interrupted query ends in.
pub fn interrupted(why: Interruption) -> (out: BatchError)
    ensures
        out.kind == ErrorKind::Cancelled,
        out.detail@ == interruption_text(why),
        is_interrupted(out),
{
    match why {
        Interruption::Local => BatchError::new(ErrorKind::Cancelled, "Local"),
        Interruption::PendingWrite => BatchError::new(ErrorKind::Cancelled, "PendingWrite"),
        Interruption::PropagatedPanic => BatchError::new(ErrorKind::Cancelled, "PropagatedPanic"),
        Interruption::Other => BatchError::new(ErrorKind::Cancelled, "Cancelled"),
    }
}

} // verus!
