//! The grant as it is stored and returned, its derived predicates and its
//! redacted form.

use vstd::prelude::*;
use crate::time::Datetime;
use crate::views::text_view;

verus! {

/// A universally unique identifier, held as its 128 bits.
#[derive(Clone, Copy, Debug, PartialEq, Eq, PartialOrd, Hash, Structural)]
pub struct Uuid(pub u128);

/// A reference to a record: its table and its identifier in that table.
#[derive(Debug, PartialEq, Eq, PartialOrd, Hash)]
pub struct Thing {
    pub tb: String,
    pub id: String,
}

/// The mathematical value of a [`Thing`].
pub struct ThingView {
    pub tb: Seq<char>,
    pub id: Seq<char>,
}

/// For whom a grant is issued: a record, which need not exist yet, or a user.
#[derive(Debug, PartialEq, Eq, PartialOrd, Hash)]
pub enum Subject {
    Record(Thing),
    User(String),
}

/// The mathematical value of a [`Subject`].
pub enum SubjectView {
    Record(ThingView),
    User(Seq<char>),
}

/// A token grant: the identifier of a token, and the token itself while it
/// has not been handed out.
#[derive(Debug, PartialEq, Eq, PartialOrd, Hash)]
pub struct GrantJwt {
    pub jti: Uuid,
    pub token: Option<String>,
}

/// A record grant: as a token grant, with the identifier of the record.
#[derive(Debug, PartialEq, Eq, PartialOrd, Hash)]
pub struct GrantRecord {
    pub rid: Uuid,
    pub jti: Uuid,
    pub token: Option<String>,
}

/// A bearer grant: the public key identifier and the key. The key is the
/// plaintext bearer key right after it was generated, its digest once the
/// grant is stored, and a marker once the grant is redacted.
#[derive(Debug, PartialEq, Eq, PartialOrd, Hash)]
pub struct GrantBearer {
    pub id: String,
    pub key: String,
}

/// The secret payload of a grant.
#[derive(Debug, PartialEq, Eq, PartialOrd, Hash)]
pub enum Grant {
    Jwt(GrantJwt),
    Record(GrantRecord),
    Bearer(GrantBearer),
}

/// The mathematical value of a [`GrantJwt`].
pub struct GrantJwtView {
    pub jti: Uuid,
    pub token: Option<Seq<char>>,
}

/// The mathematical value of a [`GrantRecord`].
pub struct GrantRecordView {
    pub rid: Uuid,
    pub jti: Uuid,
    pub token: Option<Seq<char>>,
}

/// The mathematical value of a [`GrantBearer`].
pub struct GrantBearerView {
    pub id: Seq<char>,
    pub key: Seq<char>,
}

/// The mathematical value of a [`Grant`].
pub enum GrantView {
    Jwt(GrantJwtView),
    Record(GrantRecordView),
    Bearer(GrantBearerView),
}

/// An access grant: the entity that is stored and returned.
#[derive(Debug, PartialEq, Eq, PartialOrd, Hash)]
pub struct AccessGrant {
    /// Unique identifier; for a bearer grant, its key identifier.
    pub id: String,
    /// Name of the access method that the grant was issued under.
    pub ac: String,
    /// When the grant was created.
    pub creation: Datetime,
    /// When the grant expires, if it does.
    pub expiration: Option<Datetime>,
    /// When the grant was revoked, if it was.
    pub revocation: Option<Datetime>,
    /// For whom the grant was issued.
    pub subject: Subject,
    /// The secret payload.
    pub grant: Grant,
}

/// The mathematical value of an [`AccessGrant`].
pub struct AccessGrantView {
    pub id: Seq<char>,
    pub ac: Seq<char>,
    pub creation: Datetime,
    pub expiration: Option<Datetime>,
    pub revocation: Option<Datetime>,
    pub subject: SubjectView,
    pub grant: GrantView,
}

impl View for Thing {
    type V = ThingView;

    open spec fn view(&self) -> ThingView {
        ThingView { tb: self.tb@, id: self.id@ }
    }
}

impl View for Subject {
    type V = SubjectView;

    open spec fn view(&self) -> SubjectView {
        match self {
            Subject::Record(thing) => SubjectView::Record(thing@),
            Subject::User(name) => SubjectView::User(name@),
        }
    }
}

impl View for GrantJwt {
    type V = GrantJwtView;

    open spec fn view(&self) -> GrantJwtView {
        GrantJwtView { jti: self.jti, token: text_view(self.token) }
    }
}

impl View for GrantRecord {
    type V = GrantRecordView;

    open spec fn view(&self) -> GrantRecordView {
        GrantRecordView { rid: self.rid, jti: self.jti, token: text_view(self.token) }
    }
}

impl View for GrantBearer {
    type V = GrantBearerView;

    open spec fn view(&self) -> GrantBearerView {
        GrantBearerView { id: self.id@, key: self.key@ }
    }
}

impl View for Grant {
    type V = GrantView;

    open spec fn view(&self) -> GrantView {
        match self {
            Grant::Jwt(g) => GrantView::Jwt(g@),
            Grant::Record(g) => GrantView::Record(g@),
            Grant::Bearer(g) => GrantView::Bearer(g@),
        }
    }
}

impl View for AccessGrant {
    type V = AccessGrantView;

    open spec fn view(&self) -> AccessGrantView {
        AccessGrantView {
            id: self.id@,
            ac: self.ac@,
            creation: self.creation,
            expiration: self.expiration,
            revocation: self.revocation,
            subject: self.subject@,
            grant: self.grant@,
        }
    }
}

fn clone_token(token: &Option<String>) -> (r: Option<String>)
    ensures
        r == *token,
{
    match token {
        Some(t) => Some(t.clone()),
        None => None,
    }
}

impl Clone for Thing {
    fn clone(&self) -> (r: Self)
        ensures
            r == *self,
    {
        Thing { tb: self.tb.clone(), id: self.id.clone() }
    }
}

impl Clone for Subject {
    fn clone(&self) -> (r: Self)
        ensures
            r == *self,
    {
        match self {
            Subject::Record(thing) => Subject::Record(thing.clone()),
            Subject::User(name) => Subject::User(name.clone()),
        }
    }
}

impl Clone for GrantJwt {
    fn clone(&self) -> (r: Self)
        ensures
            r == *self,
    {
        GrantJwt { jti: self.jti, token: clone_token(&self.token) }
    }
}

impl Clone for GrantRecord {
    fn clone(&self) -> (r: Self)
        ensures
            r == *self,
    {
        GrantRecord { rid: self.rid, jti: self.jti, token: clone_token(&self.token) }
    }
}

impl Clone for GrantBearer {
    fn clone(&self) -> (r: Self)
        ensures
            r == *self,
    {
        GrantBearer { id: self.id.clone(), key: self.key.clone() }
    }
}

impl Clone for Grant {
    fn clone(&self) -> (r: Self)
        ensures
            r == *self,
    {
        match self {
            Grant::Jwt(g) => Grant::Jwt(g.clone()),
            Grant::Record(g) => Grant::Record(g.clone()),
            Grant::Bearer(g) => Grant::Bearer(g.clone()),
        }
    }
}

impl Clone for AccessGrant {
    fn clone(&self) -> (r: Self)
        ensures
            r == *self,
    {
        AccessGrant {
            id: self.id.clone(),
            ac: self.ac.clone(),
            creation: self.creation,
            expiration: self.expiration,
            revocation: self.revocation,
            subject: self.subject.clone(),
            grant: self.grant.clone(),
        }
    }
}

/// The text that stands in for the key of a redacted bearer grant.
pub open spec fn redaction_marker() -> Seq<char> {
    seq!['[', 'R', 'E', 'D', 'A', 'C', 'T', 'E', 'D', ']']
}

impl ThingView {
    /// The record reference as one text: table, a colon, identifier.
    pub open spec fn raw(self) -> Seq<char> {
        self.tb + seq![':'] + self.id
    }
}

impl SubjectView {
    /// The main identifier of the subject as text.
    pub open spec fn id(self) -> Seq<char> {
        match self {
            SubjectView::Record(thing) => thing.raw(),
            SubjectView::User(name) => name,
        }
    }
}

impl GrantView {
    /// The name of the kind of grant.
    pub open spec fn variant(self) -> Seq<char> {
        match self {
            GrantView::Jwt(_) => seq!['j', 'w', 't'],
            GrantView::Record(_) => seq!['r', 'e', 'c', 'o', 'r', 'd'],
            GrantView::Bearer(_) => seq!['b', 'e', 'a', 'r', 'e', 'r'],
        }
    }

    /// The payload without secret material: a token is dropped, the key of
    /// a bearer grant gives way to the redaction marker.
    pub open spec fn redacted(self) -> GrantView {
        match self {
            GrantView::Jwt(g) => GrantView::Jwt(GrantJwtView { jti: g.jti, token: None }),
            GrantView::Record(g) => GrantView::Record(
                GrantRecordView { rid: g.rid, jti: g.jti, token: None },
            ),
            GrantView::Bearer(g) => GrantView::Bearer(
                GrantBearerView { id: g.id, key: redaction_marker() },
            ),
        }
    }
}

impl AccessGrantView {
    /// A bearer grant is named after its key: the identifier of the grant
    /// is the key identifier.
    pub open spec fn well_formed(self) -> bool {
        self.grant matches GrantView::Bearer(bearer) ==> self.id == bearer.id
    }

    /// The grant has an expiration time, and it lies strictly before `now`.
    pub open spec fn is_expired(self, now: Datetime) -> bool {
        match self.expiration {
            Some(exp) => exp.before(now),
            None => false,
        }
    }

    /// The grant has a revocation time.
    pub open spec fn is_revoked(self) -> bool {
        self.revocation is Some
    }

    /// The grant can still be used at `now`: it has no revocation time, and
    /// no expiration time that lies before `now`.
    pub open spec fn is_active(self, now: Datetime) -> bool {
        &&& self.revocation is None
        &&& (self.expiration matches Some(exp) ==> !exp.before(now))
    }

    /// The grant as shown to callers: all as it is, but for the payload,
    /// which is redacted.
    pub open spec fn redacted(self) -> AccessGrantView {
        AccessGrantView { grant: self.grant.redacted(), ..self }
    }

    /// The grant as revoked at `now`.
    pub open spec fn revoked_at(self, now: Datetime) -> AccessGrantView {
        AccessGrantView { revocation: Some(now), ..self }
    }
}

impl Thing {
    /// The record reference as one text: table, a colon, identifier.
    pub fn to_raw(&self) -> (r: String)
        ensures
            r@ == self@.raw(),
    {
        let mut raw = self.tb.clone();
        proof {
            reveal_strlit(":");
        }
        raw.append(":");
        raw.append(self.id.as_str());
        assert(raw@ =~= self@.raw());
        raw
    }
}

impl Subject {
    /// The main identifier of the subject as text.
    pub fn id(&self) -> (r: String)
        ensures
            r@ == self@.id(),
    {
        match self {
            Subject::Record(thing) => thing.to_raw(),
            Subject::User(name) => name.clone(),
        }
    }
}

impl Grant {
    /// The name of the kind of grant: `jwt`, `record` or `bearer`.
    pub fn variant(&self) -> (r: &'static str)
        ensures
            r@ == self@.variant(),
    {
        proof {
            reveal_strlit("jwt");
            reveal_strlit("record");
            reveal_strlit("bearer");
        }
        match self {
            Grant::Jwt(_) => {
                assert("jwt"@ =~= self@.variant());
                "jwt"
            },
            Grant::Record(_) => {
                assert("record"@ =~= self@.variant());
                "record"
            },
            Grant::Bearer(_) => {
                assert("bearer"@ =~= self@.variant());
                "bearer"
            },
        }
    }

    /// The payload without secret material.
    pub fn redacted(&self) -> (r: Grant)
        ensures
            r@ == self@.redacted(),
    {
        match self {
            Grant::Jwt(g) => Grant::Jwt(GrantJwt { jti: g.jti, token: None }),
            Grant::Record(g) => Grant::Record(GrantRecord { rid: g.rid, jti: g.jti, token: None }),
            Grant::Bearer(g) => {
                proof {
                    reveal_strlit("[REDACTED]");
                }
                let key = String::from_str("[REDACTED]");
                assert(key@ =~= redaction_marker());
                Grant::Bearer(GrantBearer { id: g.id.clone(), key })
            },
        }
    }
}

impl AccessGrant {
    /// The grant with its secrets redacted, as it is shown to callers. Only
    /// the answer to the statement that created a grant shows it otherwise.
    pub fn redacted(&self) -> (r: AccessGrant)
        ensures
            r@ == self@.redacted(),
    {
        AccessGrant {
            id: self.id.clone(),
            ac: self.ac.clone(),
            creation: self.creation,
            expiration: self.expiration,
            revocation: self.revocation,
            subject: self.subject.clone(),
            grant: self.grant.redacted(),
        }
    }

    /// Whether the grant has expired at `now`.
    pub fn is_expired(&self, now: &Datetime) -> (r: bool)
        ensures
            r == self@.is_expired(*now),
    {
        match &self.expiration {
            Some(exp) => exp.is_before(now),
            None => false,
        }
    }

    /// Whether the grant has been revoked.
    pub fn is_revoked(&self) -> (r: bool)
        ensures
            r == self@.is_revoked(),
    {
        self.revocation.is_some()
    }

    /// Whether the grant can still be used at `now`.
    pub fn is_active(&self, now: &Datetime) -> (r: bool)
        ensures
            r == self@.is_active(*now),
    {
        !(self.is_expired(now) || self.is_revoked())
    }
}

/// Redacting twice is redacting once.
pub proof fn lemma_redaction_idempotent(grant: AccessGrantView)
    ensures
        grant.redacted().redacted() == grant.redacted(),
{
}

/// At every time a grant is active exactly when it is neither expired nor
/// revoked.
pub proof fn lemma_active_iff_neither(grant: AccessGrantView, now: Datetime)
    ensures
        grant.is_active(now) == !(grant.is_expired(now) || grant.is_revoked()),
{
}

/// Redacting and revoking change neither the name of a grant nor its
/// times of creation and expiration, and keep a grant well formed.
pub proof fn lemma_shape_is_kept(grant: AccessGrantView, now: Datetime)
    ensures
        grant.redacted().id == grant.id,
        grant.redacted().creation == grant.creation,
        grant.redacted().expiration == grant.expiration,
        grant.redacted().revocation == grant.revocation,
        grant.revoked_at(now).id == grant.id,
        grant.revoked_at(now).creation == grant.creation,
        grant.revoked_at(now).expiration == grant.expiration,
        grant.well_formed() ==> grant.redacted().well_formed() && grant.revoked_at(
            now,
        ).well_formed(),
{
}

/// A redacted grant holds no token, and in place of a key only the marker.
pub proof fn lemma_redaction_hides_secrets(grant: AccessGrantView)
    ensures
        match grant.redacted().grant {
            GrantView::Jwt(g) => g.token is None,
            GrantView::Record(g) => g.token is None,
            GrantView::Bearer(g) => g.key == redaction_marker(),
        },
{
}

} // verus!
