//! What an operation asks of its surroundings: the writes to the store and
//! the entries for the audit log, in the order in which they are due.

use vstd::prelude::*;
use crate::error::Error;
use crate::grant::{AccessGrant, AccessGrantView};
use crate::tenancy::{Level, LevelView};
use crate::views::views;

verus! {

/// Where a grant lives in the store: the level, the name of the access
/// method, and the identifier of the grant.
#[derive(Debug, PartialEq, Eq)]
pub struct GrantKey {
    pub level: Level,
    pub ac: String,
    pub id: String,
}

/// The mathematical value of a [`GrantKey`].
pub struct GrantKeyView {
    pub level: LevelView,
    pub ac: Seq<char>,
    pub id: Seq<char>,
}

impl View for GrantKey {
    type V = GrantKeyView;

    open spec fn view(&self) -> GrantKeyView {
        GrantKeyView { level: self.level@, ac: self.ac@, id: self.id@ }
    }
}

impl Clone for GrantKey {
    fn clone(&self) -> (r: Self)
        ensures
            r == *self,
    {
        GrantKey { level: self.level.clone(), ac: self.ac.clone(), id: self.id.clone() }
    }
}

/// The operations that leave a line in the audit log.
#[derive(Clone, Copy, Debug, PartialEq, Eq, Structural)]
pub enum Operation {
    Create,
    Revoke,
    Purge,
}

/// An entry for the audit log: what was done to which grant, and by whom.
#[derive(Debug, PartialEq, Eq)]
pub struct AuditEntry {
    pub operation: Operation,
    /// The access method of the grant.
    pub ac: String,
    /// The identifier of the grant.
    pub id: String,
    /// The kind of grant.
    pub kind: String,
    /// The identifier of the subject of the grant.
    pub subject: String,
    /// The identity that ran the statement.
    pub actor: String,
}

/// The mathematical value of an [`AuditEntry`].
pub struct AuditEntryView {
    pub operation: Operation,
    pub ac: Seq<char>,
    pub id: Seq<char>,
    pub kind: Seq<char>,
    pub subject: Seq<char>,
    pub actor: Seq<char>,
}

impl View for AuditEntry {
    type V = AuditEntryView;

    open spec fn view(&self) -> AuditEntryView {
        AuditEntryView {
            operation: self.operation,
            ac: self.ac@,
            id: self.id@,
            kind: self.kind@,
            subject: self.subject@,
            actor: self.actor@,
        }
    }
}

impl Clone for AuditEntry {
    fn clone(&self) -> (r: Self)
        ensures
            r == *self,
    {
        AuditEntry {
            operation: self.operation,
            ac: self.ac.clone(),
            id: self.id.clone(),
            kind: self.kind.clone(),
            subject: self.subject.clone(),
            actor: self.actor.clone(),
        }
    }
}

/// One thing to be done for an operation.
#[derive(Debug, PartialEq, Eq)]
pub enum Effect {
    /// Make sure that the namespace exists.
    EnsureNamespace(String),
    /// Make sure that the database exists in the namespace.
    EnsureDatabase(String, String),
    /// Write the grant under the key, and fail if the key is taken.
    Insert(GrantKey, AccessGrant),
    /// Write the grant under the key, whatever was there.
    Overwrite(GrantKey, AccessGrant),
    /// Delete what is under the key.
    Delete(GrantKey),
    /// Write the entry to the audit log.
    Audit(AuditEntry),
}

/// The mathematical value of an [`Effect`].
pub enum EffectView {
    EnsureNamespace(Seq<char>),
    EnsureDatabase(Seq<char>, Seq<char>),
    Insert(GrantKeyView, AccessGrantView),
    Overwrite(GrantKeyView, AccessGrantView),
    Delete(GrantKeyView),
    Audit(AuditEntryView),
}

impl View for Effect {
    type V = EffectView;

    open spec fn view(&self) -> EffectView {
        match self {
            Effect::EnsureNamespace(ns) => EffectView::EnsureNamespace(ns@),
            Effect::EnsureDatabase(ns, db) => EffectView::EnsureDatabase(ns@, db@),
            Effect::Insert(key, grant) => EffectView::Insert(key@, grant@),
            Effect::Overwrite(key, grant) => EffectView::Overwrite(key@, grant@),
            Effect::Delete(key) => EffectView::Delete(key@),
            Effect::Audit(entry) => EffectView::Audit(entry@),
        }
    }
}

impl Clone for Effect {
    fn clone(&self) -> (r: Self)
        ensures
            r == *self,
    {
        match self {
            Effect::EnsureNamespace(ns) => Effect::EnsureNamespace(ns.clone()),
            Effect::EnsureDatabase(ns, db) => Effect::EnsureDatabase(ns.clone(), db.clone()),
            Effect::Insert(key, grant) => Effect::Insert(key.clone(), grant.clone()),
            Effect::Overwrite(key, grant) => Effect::Overwrite(key.clone(), grant.clone()),
            Effect::Delete(key) => Effect::Delete(key.clone()),
            Effect::Audit(entry) => Effect::Audit(entry.clone()),
        }
    }
}

/// The grants of an operation, as they are returned, and what the
/// operation asks to be done.
#[derive(Debug, PartialEq, Eq)]
pub struct Outcome {
    /// The grants that the operation touched, redacted, in scan order.
    pub grants: Vec<AccessGrant>,
    /// What has to be done, in this order. The first effect that fails
    /// ends the operation with that failure, and the grants are not
    /// returned.
    pub effects: Vec<Effect>,
}

/// The mathematical value of an [`Outcome`].
pub struct OutcomeView {
    pub grants: Seq<AccessGrantView>,
    pub effects: Seq<EffectView>,
}

impl View for Outcome {
    type V = OutcomeView;

    open spec fn view(&self) -> OutcomeView {
        OutcomeView { grants: views(self.grants@), effects: views(self.effects@) }
    }
}

/// How the store answered a write.
#[derive(Clone, Copy, Debug, PartialEq, Eq, Structural)]
pub enum StoreReply {
    /// The write was made.
    Done,
    /// Nothing was written: the key is taken.
    Exists,
    /// Nothing was written, for another reason.
    Failed,
}

/// The key of the grant `id` of the access method `ac` at `level`.
pub open spec fn grant_key(level: LevelView, ac: Seq<char>, id: Seq<char>) -> GrantKeyView {
    GrantKeyView { level, ac, id }
}

/// The audit entry for `operation` on `grant` by `actor`.
pub open spec fn audit_entry(
    operation: Operation,
    grant: AccessGrantView,
    actor: Seq<char>,
) -> AuditEntryView {
    AuditEntryView {
        operation,
        ac: grant.ac,
        id: grant.id,
        kind: grant.grant.variant(),
        subject: grant.subject.id(),
        actor,
    }
}

/// What has to exist before a grant is written at `level`: at namespace
/// level the namespace, at database level the namespace and then the
/// database.
pub open spec fn ancestors(level: LevelView) -> Seq<EffectView> {
    match level {
        LevelView::Root => seq![],
        LevelView::Ns(ns) => seq![EffectView::EnsureNamespace(ns)],
        LevelView::Db(ns, db) => seq![
            EffectView::EnsureNamespace(ns),
            EffectView::EnsureDatabase(ns, db),
        ],
    }
}

/// What comes of an effect, given the store's answer to it: a write that
/// was made is in order; an insert that found its key taken is a collision;
/// any other answer is a failure of the store.
pub open spec fn spec_settle(effect: EffectView, reply: StoreReply) -> Result<(), Error> {
    match reply {
        StoreReply::Done => Ok(()),
        StoreReply::Exists => if effect is Insert {
            Err(Error::Collision)
        } else {
            Err(Error::StoreFailure)
        },
        StoreReply::Failed => Err(Error::StoreFailure),
    }
}

impl GrantKey {
    /// The key of the grant `id` of the access method `ac` at `level`.
    pub fn new(level: &Level, ac: &String, id: &String) -> (key: GrantKey)
        ensures
            key@ == grant_key(level@, ac@, id@),
    {
        GrantKey { level: level.clone(), ac: ac.clone(), id: id.clone() }
    }
}

impl Operation {
    /// The verb of the operation.
    pub open spec fn verb(self) -> Seq<char> {
        match self {
            Operation::Create => "create"@,
            Operation::Revoke => "revoke"@,
            Operation::Purge => "purge"@,
        }
    }
}

impl AuditEntryView {
    /// The entry as a line of the log.
    pub open spec fn message(self) -> Seq<char> {
        "Access method '"@ + self.ac + "' was used to "@ + self.operation.verb() + " grant '"@
            + self.id + "' of type '"@ + self.kind + "' for '"@ + self.subject + "' by '"@
            + self.actor + "'"@
    }
}

impl AuditEntry {
    /// The entry as a line of the log, as in `Access method 'api' was used
    /// to create grant 'aB3dE6gH9jKl' of type 'bearer' for 'alice' by
    /// 'root'`.
    pub fn message(&self) -> (line: String)
        ensures
            line@ == self@.message(),
    {
        let mut line = String::from_str("Access method '");
        line.append(self.ac.as_str());
        line.append("' was used to ");
        match self.operation {
            Operation::Create => {
                line.append("create");
            },
            Operation::Revoke => {
                line.append("revoke");
            },
            Operation::Purge => {
                line.append("purge");
            },
        }
        line.append(" grant '");
        line.append(self.id.as_str());
        line.append("' of type '");
        line.append(self.kind.as_str());
        line.append("' for '");
        line.append(self.subject.as_str());
        line.append("' by '");
        line.append(self.actor.as_str());
        line.append("'");
        assert(line@ =~= self@.message());
        line
    }

    /// The audit entry for `operation` on `grant` by `actor`.
    pub fn new(operation: Operation, grant: &AccessGrant, actor: &str) -> (entry: AuditEntry)
        ensures
            entry@ == audit_entry(operation, grant@, actor@),
    {
        AuditEntry {
            operation,
            ac: grant.ac.clone(),
            id: grant.id.clone(),
            kind: String::from_str(grant.grant.variant()),
            subject: grant.subject.id(),
            actor: String::from_str(actor),
        }
    }
}

/// Appends to `effects` what has to exist before a grant is written at
/// `level`.
pub fn push_ancestors(effects: &mut Vec<Effect>, level: &Level)
    ensures
        views(final(effects)@) == views(old(effects)@) + ancestors(level@),
{
    match level {
        Level::Root => {},
        Level::Ns(ns) => {
            effects.push(Effect::EnsureNamespace(ns.clone()));
        },
        Level::Db(ns, db) => {
            effects.push(Effect::EnsureNamespace(ns.clone()));
            effects.push(Effect::EnsureDatabase(ns.clone(), db.clone()));
        },
    }
    assert(views(effects@) =~= views(old(effects)@) + ancestors(level@));
}

/// What comes of an effect, given the store's answer to it. A collision
/// stops the statement like any failure: the caller may run it again, and
/// a new key identifier is drawn.
pub fn settle(effect: &Effect, reply: StoreReply) -> (r: Result<(), Error>)
    ensures
        r == spec_settle(effect@, reply),
{
    match reply {
        StoreReply::Done => Ok(()),
        StoreReply::Exists => match effect {
            Effect::Insert(_, _) => Err(Error::Collision),
            _ => Err(Error::StoreFailure),
        },
        StoreReply::Failed => Err(Error::StoreFailure),
    }
}

} // verus!
