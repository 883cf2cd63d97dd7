//! Create: issuing a grant under an access method.

use vstd::prelude::*;
use crate::effect::{
    ancestors, audit_entry, grant_key, push_ancestors, AuditEntry, Effect,
    EffectView, GrantKey, Operation,
};
use crate::error::{ok_view, Error, Unsupported};
use crate::grant::{
    AccessGrant, AccessGrantView, Grant, GrantBearer, GrantBearerView, GrantView, Subject,
    SubjectView,
};
use crate::method::{AccessMethod, AccessType, BearerAccessSubject, BearerAccessType};
use crate::statement::AccessStatementGrant;
use crate::tenancy::{Level, LevelView};
use crate::time::{Datetime, Duration};
use crate::views::{lemma_views_push, text_view, views};

verus! {

/// A grant that was issued: the grant as it is returned to the caller, with
/// the key in plaintext, and what has to be done for it to take effect.
#[derive(Debug, PartialEq, Eq)]
pub struct Issued {
    /// The new grant. Its key is the plaintext bearer key: this is the one
    /// time that it is seen.
    pub grant: AccessGrant,
    /// What has to be done, in this order. The first effect that fails
    /// ends the statement with that failure, and the grant is not returned.
    pub effects: Vec<Effect>,
}

/// The mathematical value of an [`Issued`].
pub struct IssuedView {
    pub grant: AccessGrantView,
    pub effects: Seq<EffectView>,
}

impl View for Issued {
    type V = IssuedView;

    open spec fn view(&self) -> IssuedView {
        IssuedView { grant: self.grant@, effects: views(self.effects@) }
    }
}

/// Whether a grant for `subject` can be issued under an access method of
/// type `kind` at `level`, and if so, of which kind its key is.
///
/// No grants are issued for a token-based method. A record method takes
/// records as subjects, at database level, and must allow bearer grants. A
/// bearer method takes the kind of subject that it is configured for; a
/// record as subject needs the database level.
pub open spec fn spec_check(level: LevelView, kind: AccessType, subject: SubjectView) -> Result<
    BearerAccessType,
    Error,
> {
    match kind {
        AccessType::Jwt => Err(Error::Unimplemented(Unsupported::TokenGrant)),
        AccessType::Record(record) => match subject {
            SubjectView::User(_) => Err(Error::InvalidSubject),
            SubjectView::Record(_) => if !(level is Db) {
                Err(Error::LevelMismatch)
            } else {
                match record.bearer {
                    Some(bearer) => Ok(bearer.kind),
                    None => Err(Error::MethodMismatch),
                }
            },
        },
        AccessType::Bearer(bearer) => match subject {
            SubjectView::User(_) => if bearer.subject is User {
                Ok(bearer.kind)
            } else {
                Err(Error::InvalidSubject)
            },
            SubjectView::Record(_) => if !(level is Db) {
                Err(Error::LevelMismatch)
            } else if bearer.subject is Record {
                Ok(bearer.kind)
            } else {
                Err(Error::InvalidSubject)
            },
        },
    }
}

/// The user that must exist at the level before the grant is issued: the
/// subject, where it is a user and the grant can be issued at all. A
/// record need not exist.
pub open spec fn spec_required_user(
    level: LevelView,
    kind: AccessType,
    subject: SubjectView,
) -> Result<Option<Seq<char>>, Error> {
    match spec_check(level, kind, subject) {
        Ok(_) => match subject {
            SubjectView::User(name) => Ok(Some(name)),
            SubjectView::Record(_) => Ok(None),
        },
        Err(e) => Err(e),
    }
}

/// When a grant created at `now` expires: after the grant duration, where
/// there is one. A time beyond the last instant that can be represented
/// counts as that instant.
pub open spec fn expiration(now: Datetime, duration: Option<Duration>) -> Option<Datetime> {
    match duration {
        Some(d) => Some(now.saturating_plus(d)),
        None => None,
    }
}

/// The grant that is issued at `now` under the access method `ac` with the
/// bearer key `key`: named after the key identifier, not revoked, and
/// expiring after the grant duration of the method, if it has one.
pub open spec fn issued_grant(
    ac: Seq<char>,
    duration: Option<Duration>,
    subject: SubjectView,
    key: GrantBearerView,
    now: Datetime,
) -> AccessGrantView {
    AccessGrantView {
        id: key.id,
        ac,
        creation: now,
        expiration: expiration(now, duration),
        revocation: None,
        subject,
        grant: GrantView::Bearer(key),
    }
}

/// The grant as it is stored: the key of a bearer grant gives way to its
/// digest.
pub open spec fn stored_form(grant: AccessGrantView) -> AccessGrantView {
    match grant.grant {
        GrantView::Bearer(bearer) => AccessGrantView {
            grant: GrantView::Bearer(bearer.hashed()),
            ..grant
        },
        _ => grant,
    }
}

/// What issuing `grant` asks for: the containers of the level are made
/// sure of, the stored form of the grant is inserted under its key, which
/// must be free, and the grant is logged as created by `actor`.
pub open spec fn issue_effects(
    level: LevelView,
    grant: AccessGrantView,
    actor: Seq<char>,
) -> Seq<EffectView> {
    ancestors(level) + seq![
        EffectView::Insert(grant_key(level, grant.ac, grant.id), stored_form(grant)),
        EffectView::Audit(audit_entry(Operation::Create, grant, actor)),
    ]
}

/// The outcome of issuing a grant with the bearer key `key`.
pub open spec fn spec_issue(
    level: LevelView,
    ac: Seq<char>,
    duration: Option<Duration>,
    subject: SubjectView,
    key: GrantBearerView,
    now: Datetime,
    actor: Seq<char>,
) -> IssuedView {
    let grant = issued_grant(ac, duration, subject, key, now);
    IssuedView { grant, effects: issue_effects(level, grant, actor) }
}

/// The outcome of a grant statement for which the bearer key `key` was
/// drawn.
pub open spec fn spec_create(
    level: LevelView,
    ac: Seq<char>,
    kind: AccessType,
    duration: Option<Duration>,
    subject: SubjectView,
    key: GrantBearerView,
    now: Datetime,
    actor: Seq<char>,
) -> Result<IssuedView, Error> {
    match spec_check(level, kind, subject) {
        Ok(_) => Ok(spec_issue(level, ac, duration, subject, key, now, actor)),
        Err(e) => Err(e),
    }
}

/// Whether a grant for `subject` can be issued under `method` at `level`,
/// and if so, of which kind its key is.
pub fn check_grant(level: &Level, method: &AccessMethod, subject: &Subject) -> (r: Result<
    BearerAccessType,
    Error,
>)
    ensures
        r == spec_check(level@, method.kind, subject@),
{
    match &method.kind {
        AccessType::Jwt => Err(Error::Unimplemented(Unsupported::TokenGrant)),
        AccessType::Record(record) => {
            match subject {
                Subject::User(_) => {
                    return Err(Error::InvalidSubject);
                },
                Subject::Record(_) => {
                    if !level.is_database() {
                        return Err(Error::LevelMismatch);
                    }
                },
            }
            match &record.bearer {
                Some(bearer) => Ok(bearer.kind),
                None => Err(Error::MethodMismatch),
            }
        },
        AccessType::Bearer(bearer) => {
            match subject {
                Subject::User(_) => {
                    match bearer.subject {
                        BearerAccessSubject::User => {},
                        BearerAccessSubject::Record => {
                            return Err(Error::InvalidSubject);
                        },
                    }
                },
                Subject::Record(_) => {
                    if !level.is_database() {
                        return Err(Error::LevelMismatch);
                    }
                    match bearer.subject {
                        BearerAccessSubject::Record => {},
                        BearerAccessSubject::User => {
                            return Err(Error::InvalidSubject);
                        },
                    }
                },
            }
            Ok(bearer.kind)
        },
    }
}

/// The mathematical value of a user that is asked for, or of the failure.
pub open spec fn user_view(r: Result<Option<String>, Error>) -> Result<Option<Seq<char>>, Error> {
    match r {
        Ok(user) => Ok(text_view(user)),
        Err(e) => Err(e),
    }
}

/// The user that must exist at `level` before the grant is issued, if
/// there is one. The caller looks the user up, and ends the statement if
/// the user is not found.
pub fn required_user(level: &Level, method: &AccessMethod, subject: &Subject) -> (r: Result<
    Option<String>,
    Error,
>)
    ensures
        user_view(r) == spec_required_user(level@, method.kind, subject@),
{
    match check_grant(level, method, subject) {
        Ok(_) => match subject {
            Subject::User(name) => Ok(Some(name.clone())),
            Subject::Record(_) => Ok(None),
        },
        Err(e) => Err(e),
    }
}

/// The grant as it is stored.
pub fn stored(grant: &AccessGrant) -> (r: AccessGrant)
    ensures
        r@ == stored_form(grant@),
{
    let payload = match &grant.grant {
        Grant::Bearer(bearer) => Grant::Bearer(bearer.clone().hashed()),
        other => other.clone(),
    };
    AccessGrant {
        id: grant.id.clone(),
        ac: grant.ac.clone(),
        creation: grant.creation,
        expiration: grant.expiration,
        revocation: grant.revocation,
        subject: grant.subject.clone(),
        grant: payload,
    }
}

/// Issues the grant for `subject` under `method` with the bearer key
/// `key`, at `now`.
pub fn issue_grant(
    level: &Level,
    method: &AccessMethod,
    subject: &Subject,
    key: GrantBearer,
    now: &Datetime,
    actor: &str,
) -> (issued: Issued)
    ensures
        issued@ == spec_issue(
            level@,
            method.name@,
            method.grant_duration,
            subject@,
            key@,
            *now,
            actor@,
        ),
{
    let expiration = match &method.grant_duration {
        Some(duration) => Some(now.saturating_add(duration)),
        None => None,
    };
    let grant = AccessGrant {
        id: key.id.clone(),
        ac: method.name.clone(),
        creation: *now,
        expiration,
        revocation: None,
        subject: subject.clone(),
        grant: Grant::Bearer(key),
    };
    let mut effects: Vec<Effect> = Vec::new();
    push_ancestors(&mut effects, level);
    let write = Effect::Insert(GrantKey::new(level, &grant.ac, &grant.id), stored(&grant));
    let entry = Effect::Audit(AuditEntry::new(Operation::Create, &grant, actor));
    proof {
        lemma_views_push(effects@, write);
        lemma_views_push(effects@.push(write), entry);
        assert(views(effects@).push(write@).push(entry@) =~= issue_effects(
            level@,
            grant@,
            actor@,
        ));
    }
    effects.push(write);
    effects.push(entry);
    Issued { grant, effects }
}

/// Runs a grant statement with a bearer key that was drawn beforehand.
pub fn create_grant_with_key(
    stmt: &AccessStatementGrant,
    level: &Level,
    method: &AccessMethod,
    key: GrantBearer,
    now: &Datetime,
    actor: &str,
) -> (r: Result<Issued, Error>)
    ensures
        ok_view(r) == spec_create(
            level@,
            method.name@,
            method.kind,
            method.grant_duration,
            stmt.subject@,
            key@,
            *now,
            actor@,
        ),
{
    match check_grant(level, method, &stmt.subject) {
        Ok(_) => Ok(issue_grant(level, method, &stmt.subject, key, now, actor)),
        Err(e) => Err(e),
    }
}

/// Runs a grant statement.
///
/// `level` is where the statement runs, `method` the access method that
/// it names, as found at that level, and `now` the current time. Where the
/// subject is a user, the caller has made sure that the user exists (see
/// [`required_user`]).
///
/// If the access method does not allow the grant, the statement fails,
/// and no key is drawn. Else a new bearer key is drawn under the prefix of
/// the method's kind of key, and the grant is issued with it: it is
/// returned with the key in plaintext, and its stored form, with the
/// key's digest in place of the key, is to be inserted.
pub fn create_grant(
    stmt: &AccessStatementGrant,
    level: &Level,
    method: &AccessMethod,
    now: &Datetime,
    actor: &str,
) -> (r: Result<Issued, Error>)
    ensures
        match spec_check(level@, method.kind, stmt.subject@) {
            Ok(kind) => exists|key: GrantBearerView|
                key.is_fresh(kind.spec_prefix()) && ok_view(r) == Ok::<IssuedView, Error>(
                    #[trigger] spec_issue(
                        level@,
                        method.name@,
                        method.grant_duration,
                        stmt.subject@,
                        key,
                        *now,
                        actor@,
                    ),
                ),
            Err(e) => r == Err::<Issued, Error>(e),
        },
{
    match check_grant(level, method, &stmt.subject) {
        Ok(kind) => {
            let key = GrantBearer::new(kind.prefix());
            let ghost fresh = key@;
            let issued = issue_grant(level, method, &stmt.subject, key, now, actor);
            proof {
                assert(fresh.is_fresh(kind.spec_prefix()));
                assert(issued@ == spec_issue(
                    level@,
                    method.name@,
                    method.grant_duration,
                    stmt.subject@,
                    fresh,
                    *now,
                    actor@,
                ));
            }
            Ok(issued)
        },
        Err(e) => Err(e),
    }
}

/// Under a record access method no grant is issued outside a database,
/// and none for a user, whatever key is drawn: a user as subject is
/// refused as an invalid subject at every level, a record at root or
/// namespace level as a mismatch of levels.
pub proof fn lemma_record_method_levels(
    level: LevelView,
    ac: Seq<char>,
    kind: AccessType,
    duration: Option<Duration>,
    subject: SubjectView,
    key: GrantBearerView,
    now: Datetime,
    actor: Seq<char>,
)
    requires
        kind is Record,
    ensures
        subject is User ==> spec_create(level, ac, kind, duration, subject, key, now, actor)
            == Err::<IssuedView, Error>(Error::InvalidSubject),
        subject is Record && !(level is Db) ==> spec_create(
            level,
            ac,
            kind,
            duration,
            subject,
            key,
            now,
            actor,
        ) == Err::<IssuedView, Error>(Error::LevelMismatch),
{
}

/// A grant is issued well formed, not revoked, and not expired at the
/// time of its creation; what is stored of it is well formed too.
pub proof fn lemma_issued_is_well_formed(
    ac: Seq<char>,
    duration: Option<Duration>,
    subject: SubjectView,
    key: GrantBearerView,
    now: Datetime,
)
    ensures
        ({
            let grant = issued_grant(ac, duration, subject, key, now);
            &&& grant.well_formed()
            &&& stored_form(grant).well_formed()
            &&& grant.is_active(now)
            &&& duration is None ==> grant.expiration is None
        }),
{
}

/// The one write of a grant statement is an insert under the key of the
/// new grant, and what it writes is the stored form. Nothing that is in
/// the store is written over or deleted; if the key is taken, the insert
/// fails, and the statement with it.
pub proof fn lemma_create_only_inserts(
    level: LevelView,
    ac: Seq<char>,
    duration: Option<Duration>,
    subject: SubjectView,
    key: GrantBearerView,
    now: Datetime,
    actor: Seq<char>,
    i: int,
)
    requires
        0 <= i < spec_issue(level, ac, duration, subject, key, now, actor).effects.len(),
    ensures
        ({
            let issued = spec_issue(level, ac, duration, subject, key, now, actor);
            let effect = issued.effects[i];
            &&& !(effect is Overwrite)
            &&& !(effect is Delete)
            &&& effect is Insert ==> effect == EffectView::Insert(
                grant_key(level, ac, key.id),
                stored_form(issued.grant),
            ) && crate::effect::spec_settle(effect, crate::effect::StoreReply::Exists) == Err::<
                (),
                Error,
            >(Error::Collision)
        }),
{
}

/// What is stored of an issued grant is the digest of its key, never the
/// key: the two differ.
pub proof fn lemma_stored_key_is_digest(
    ac: Seq<char>,
    duration: Option<Duration>,
    subject: SubjectView,
    prefix: Seq<char>,
    key: GrantBearerView,
    now: Datetime,
)
    requires
        key.is_fresh(prefix),
    ensures
        ({
            let grant = issued_grant(ac, duration, subject, key, now);
            &&& stored_form(grant).grant == GrantView::Bearer(key.hashed())
            &&& key.hashed().key == crate::bearer::key_digest(key.key)
            &&& key.hashed().key != key.key
        }),
{
    let secret = choose|secret: Seq<char>|
        crate::bearer::is_secret(secret) && key.key == #[trigger] crate::bearer::bearer_key(
            prefix,
            key.id,
            secret,
        );
    crate::bearer::lemma_hash_hides_key(prefix, key.id, secret);
}

} // verus!
