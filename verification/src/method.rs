//! What the lifecycle reads from the definition of an access method.

use vstd::prelude::*;
use crate::time::Duration;

verus! {

/// The kind of bearer key that an access method issues. The kind sets the
/// prefix of the key, so that keys of different kinds are told apart at
/// sight.
#[derive(Clone, Copy, Debug, PartialEq, Eq, Structural)]
pub enum BearerAccessType {
    Bearer,
    Refresh,
}

/// The kind of subject that bearer grants of an access method are for.
#[derive(Clone, Copy, Debug, PartialEq, Eq, Structural)]
pub enum BearerAccessSubject {
    Record,
    User,
}

/// The bearer configuration of an access method.
#[derive(Clone, Copy, Debug, PartialEq, Eq, Structural)]
pub struct BearerAccess {
    pub kind: BearerAccessType,
    pub subject: BearerAccessSubject,
}

/// What a record access method says of bearer grants: it may allow none.
#[derive(Clone, Copy, Debug, PartialEq, Eq)]
pub struct RecordAccess {
    pub bearer: Option<BearerAccess>,
}

/// The type of an access method.
#[derive(Clone, Copy, Debug, PartialEq, Eq)]
pub enum AccessType {
    /// Token-based: no grants are issued for it.
    Jwt,
    /// For records of a database, with bearer grants where configured.
    Record(RecordAccess),
    /// For bearer grants alone.
    Bearer(BearerAccess),
}

/// The definition of an access method, as far as grants depend on it.
#[derive(Debug, PartialEq, Eq)]
pub struct AccessMethod {
    pub name: String,
    pub kind: AccessType,
    /// How long a grant lasts; `None` where grants do not expire.
    pub grant_duration: Option<Duration>,
}

/// The mathematical value of an [`AccessMethod`].
pub struct AccessMethodView {
    pub name: Seq<char>,
    pub kind: AccessType,
    pub grant_duration: Option<Duration>,
}

impl View for AccessMethod {
    type V = AccessMethodView;

    open spec fn view(&self) -> AccessMethodView {
        AccessMethodView {
            name: self.name@,
            kind: self.kind,
            grant_duration: self.grant_duration,
        }
    }
}

impl Clone for AccessMethod {
    fn clone(&self) -> (r: Self)
        ensures
            r == *self,
    {
        AccessMethod {
            name: self.name.clone(),
            kind: self.kind,
            grant_duration: self.grant_duration,
        }
    }
}

impl BearerAccessType {
    /// The prefix of the keys of this kind.
    pub open spec fn spec_prefix(self) -> Seq<char> {
        match self {
            BearerAccessType::Bearer => seq![
                's', 'u', 'r', 'r', 'e', 'a', 'l', '-', 'b', 'e', 'a', 'r', 'e', 'r',
            ],
            BearerAccessType::Refresh => seq![
                's', 'u', 'r', 'r', 'e', 'a', 'l', '-', 'r', 'e', 'f', 'r', 'e', 's', 'h',
            ],
        }
    }

    /// The prefix of the keys of this kind: `surreal-bearer` or
    /// `surreal-refresh`.
    pub fn prefix(&self) -> (p: &'static str)
        ensures
            p@ == self.spec_prefix(),
    {
        proof {
            reveal_strlit("surreal-bearer");
            reveal_strlit("surreal-refresh");
        }
        match self {
            BearerAccessType::Bearer => {
                assert("surreal-bearer"@ =~= self.spec_prefix());
                "surreal-bearer"
            },
            BearerAccessType::Refresh => {
                assert("surreal-refresh"@ =~= self.spec_prefix());
                "surreal-refresh"
            },
        }
    }
}

} // verus!
