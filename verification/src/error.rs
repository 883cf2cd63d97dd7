//! The failures that the lifecycle operations report.

use vstd::prelude::*;

verus! {

/// What a lookup did not find.
#[derive(Clone, Copy, Debug, PartialEq, Eq, Structural)]
pub enum Missing {
    /// No access method of that name at the level.
    AccessMethod,
    /// No grant of that identifier under the access method.
    Grant,
    /// No user of that name at the level.
    User,
}

/// What the engine was asked for and does not offer.
#[derive(Clone, Copy, Debug, PartialEq, Eq, Structural)]
pub enum Unsupported {
    /// Access methods are managed at root, namespace and database level only.
    Level,
    /// Grants cannot be issued for token-based access methods.
    TokenGrant,
}

/// A typed failure of a lifecycle operation.
#[derive(Clone, Copy, Debug, PartialEq, Eq, Structural)]
pub enum Error {
    /// The access method, the grant or the user does not exist.
    NotFound(Missing),
    /// The operation is not offered here.
    Unimplemented(Unsupported),
    /// The subject is of a kind that the access method does not accept.
    InvalidSubject,
    /// The operation needs another tenancy level, or a namespace or a
    /// database that is not selected.
    LevelMismatch,
    /// The access method lacks the configuration that the grant needs.
    MethodMismatch,
    /// The grant has been revoked before.
    AlreadyRevoked,
    /// The key identifier drawn for a new grant is already taken.
    Collision,
    /// The caller may not perform the action at the level.
    Denied,
    /// The store failed for another reason.
    StoreFailure,
}

/// What the operator is told after a collision.
pub open spec fn collision_warning() -> Seq<char> {
    "A collision was found when attempting to create a new grant. Purging inactive grants is advised"@
}

impl Error {
    /// What the operator of the server is told of the failure, over and
    /// above the failure itself: after a collision, that grants that are no
    /// longer active should be purged, since identifiers are getting
    /// scarce. Of other failures nothing more is said.
    pub fn warning(&self) -> (r: Option<&'static str>)
        ensures
            match r {
                Some(text) => *self == Error::Collision && text@ == collision_warning(),
                None => *self != Error::Collision,
            },
    {
        match self {
            Error::Collision => Some(
                "A collision was found when attempting to create a new grant. Purging inactive grants is advised",
            ),
            _ => None,
        }
    }

    /// Whether the failure goes away when the whole statement is run again:
    /// only a collision does, since each run draws a new key identifier.
    pub fn is_retryable(&self) -> (r: bool)
        ensures
            r == (*self == Error::Collision),
    {
        match self {
            Error::Collision => true,
            _ => false,
        }
    }
}

/// The mathematical value of an outcome: that of what was returned, or the
/// failure itself.
pub open spec fn ok_view<T: View>(r: Result<T, Error>) -> Result<T::V, Error> {
    match r {
        Ok(t) => Ok(t@),
        Err(e) => Err(e),
    }
}

} // verus!
