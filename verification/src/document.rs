//! Grants as structured documents: the form in which a condition sees a
//! grant, and in which grants are returned.

use vstd::prelude::*;
use crate::grant::{
    AccessGrant, AccessGrantView, Grant, GrantView, Subject, SubjectView, Thing, ThingView, Uuid,
};
use crate::time::Datetime;
use crate::views::views;

verus! {

/// A value of a document.
#[derive(Debug, PartialEq, Eq)]
pub enum Value {
    /// No value.
    Absent,
    Strand(String),
    Datetime(Datetime),
    Thing(Thing),
    Uuid(Uuid),
    Object(Object),
    Array(Vec<Value>),
}

/// A document: named fields, in the order in which they were added.
#[derive(Debug, PartialEq, Eq)]
pub struct Object {
    pub fields: Vec<(String, Value)>,
}

/// The mathematical value of a [`Value`].
pub enum ValueView {
    Absent,
    Strand(Seq<char>),
    Datetime(Datetime),
    Thing(ThingView),
    Uuid(Uuid),
    Object(Seq<(Seq<char>, ValueView)>),
    Array(Seq<ValueView>),
}

/// The mathematical value of a value: scalars as they are, documents and
/// arrays with the values of what they hold.
pub open spec fn value_view(value: Value) -> ValueView
    decreases value,
{
    match value {
        Value::Absent => ValueView::Absent,
        Value::Strand(text) => ValueView::Strand(text@),
        Value::Datetime(at) => ValueView::Datetime(at),
        Value::Thing(thing) => ValueView::Thing(thing@),
        Value::Uuid(id) => ValueView::Uuid(id),
        Value::Object(object) => ValueView::Object(
            Seq::new(
                object.fields.len() as nat,
                |i: int|
                    if 0 <= i < object.fields.len() {
                        (object.fields[i].0@, value_view(object.fields[i].1))
                    } else {
                        (Seq::empty(), ValueView::Absent)
                    },
            ),
        ),
        Value::Array(items) => ValueView::Array(
            Seq::new(
                items.len() as nat,
                |i: int|
                    if 0 <= i < items.len() {
                        value_view(items[i])
                    } else {
                        ValueView::Absent
                    },
            ),
        ),
    }
}

impl View for Value {
    type V = ValueView;

    open spec fn view(&self) -> ValueView {
        value_view(*self)
    }
}

impl View for Object {
    type V = Seq<(Seq<char>, ValueView)>;

    open spec fn view(&self) -> Seq<(Seq<char>, ValueView)> {
        Seq::new(self.fields.len() as nat, |i: int| (self.fields[i].0@, self.fields[i].1@))
    }
}

/// The value of a time that may be missing.
pub open spec fn optional_time(at: Option<Datetime>) -> ValueView {
    match at {
        Some(at) => ValueView::Datetime(at),
        None => ValueView::Absent,
    }
}

/// The document of a subject: the record under `record`, or the name of
/// the user under `user`.
pub open spec fn subject_document(subject: SubjectView) -> Seq<(Seq<char>, ValueView)> {
    match subject {
        SubjectView::Record(thing) => seq![("record"@, ValueView::Thing(thing))],
        SubjectView::User(name) => seq![("user"@, ValueView::Strand(name))],
    }
}

/// A token as the last field of a document, where there is one.
pub open spec fn token_field(token: Option<Seq<char>>) -> Seq<(Seq<char>, ValueView)> {
    match token {
        Some(token) => seq![("token"@, ValueView::Strand(token))],
        None => seq![],
    }
}

/// The document of the payload of a grant.
pub open spec fn payload_document(grant: GrantView) -> Seq<(Seq<char>, ValueView)> {
    match grant {
        GrantView::Jwt(g) => seq![("jti"@, ValueView::Uuid(g.jti))] + token_field(g.token),
        GrantView::Record(g) => seq![
            ("rid"@, ValueView::Uuid(g.rid)),
            ("jti"@, ValueView::Uuid(g.jti)),
        ] + token_field(g.token),
        GrantView::Bearer(g) => seq![
            ("id"@, ValueView::Strand(g.id)),
            ("key"@, ValueView::Strand(g.key)),
        ],
    }
}

/// The document of a grant.
pub open spec fn grant_document(grant: AccessGrantView) -> Seq<(Seq<char>, ValueView)> {
    seq![
        ("id"@, ValueView::Strand(grant.id)),
        ("ac"@, ValueView::Strand(grant.ac)),
        ("type"@, ValueView::Strand(grant.grant.variant())),
        ("creation"@, ValueView::Datetime(grant.creation)),
        ("expiration"@, optional_time(grant.expiration)),
        ("revocation"@, optional_time(grant.revocation)),
        ("subject"@, ValueView::Object(subject_document(grant.subject))),
        ("grant"@, ValueView::Object(payload_document(grant.grant))),
    ]
}

/// Documents, one for each grant.
pub open spec fn grant_documents(grants: Seq<AccessGrantView>) -> Seq<ValueView> {
    grants.map_values(|grant: AccessGrantView| ValueView::Object(grant_document(grant)))
}

impl Value {
    /// A document as a value.
    pub fn object(object: Object) -> (value: Value)
        ensures
            value@ == ValueView::Object(object@),
    {
        let value = Value::Object(object);
        proof {
            reveal_with_fuel(value_view, 2);
            assert(value@->Object_0 =~= object@);
        }
        value
    }

    /// A time that may be missing, as a value.
    pub fn from_time(at: &Option<Datetime>) -> (value: Value)
        ensures
            value@ == optional_time(*at),
    {
        match at {
            Some(at) => Value::Datetime(*at),
            None => Value::Absent,
        }
    }

    /// The documents of the grants, as an array.
    pub fn from_grants(grants: &Vec<AccessGrant>) -> (value: Value)
        ensures
            value@ == ValueView::Array(grant_documents(views(grants@))),
    {
        let mut items: Vec<Value> = Vec::new();
        let mut at: usize = 0;
        while at < grants.len()
            invariant
                at <= grants.len(),
                items.len() == at,
                forall|i: int|
                    0 <= i < at ==> (#[trigger] items[i])@ == ValueView::Object(
                        grant_document(grants[i]@),
                    ),
            decreases grants.len() - at,
        {
            items.push(Value::object(Object::from_grant(&grants[at])));
            at = at + 1;
        }
        let value = Value::Array(items);
        proof {
            reveal_with_fuel(value_view, 2);
            assert(value@->Array_0 =~= grant_documents(views(grants@)));
        }
        value
    }
}

impl Object {
    /// The empty document.
    pub fn new() -> (object: Object)
        ensures
            object@ == Seq::<(Seq<char>, ValueView)>::empty(),
    {
        let object = Object { fields: Vec::new() };
        assert(object@ =~= Seq::<(Seq<char>, ValueView)>::empty());
        object
    }

    /// Adds a field at the end of the document.
    pub fn insert(&mut self, name: &str, value: Value)
        ensures
            final(self)@ == old(self)@.push((name@, value@)),
    {
        self.fields.push((String::from_str(name), value));
        assert(self@ =~= old(self)@.push((name@, value@)));
    }

    /// The document of a subject.
    pub fn from_subject(subject: &Subject) -> (object: Object)
        ensures
            object@ == subject_document(subject@),
    {
        let mut object = Object::new();
        match subject {
            Subject::Record(thing) => {
                object.insert("record", Value::Thing(thing.clone()));
            },
            Subject::User(name) => {
                object.insert("user", Value::Strand(name.clone()));
            },
        }
        assert(object@ =~= subject_document(subject@));
        object
    }

    /// The document of the payload of a grant.
    pub fn from_payload(grant: &Grant) -> (object: Object)
        ensures
            object@ == payload_document(grant@),
    {
        let mut object = Object::new();
        match grant {
            Grant::Jwt(g) => {
                object.insert("jti", Value::Uuid(g.jti));
                if let Some(token) = &g.token {
                    object.insert("token", Value::Strand(token.clone()));
                }
            },
            Grant::Record(g) => {
                object.insert("rid", Value::Uuid(g.rid));
                object.insert("jti", Value::Uuid(g.jti));
                if let Some(token) = &g.token {
                    object.insert("token", Value::Strand(token.clone()));
                }
            },
            Grant::Bearer(g) => {
                object.insert("id", Value::Strand(g.id.clone()));
                object.insert("key", Value::Strand(g.key.clone()));
            },
        }
        assert(object@ =~= payload_document(grant@));
        object
    }

    /// The document of a grant: its identifier, access method and kind,
    /// its three times, its subject and its payload. Nothing is held
    /// back here: to show a grant, redact it first.
    pub fn from_grant(grant: &AccessGrant) -> (object: Object)
        ensures
            object@ == grant_document(grant@),
    {
        let mut object = Object::new();
        object.insert("id", Value::Strand(grant.id.clone()));
        object.insert("ac", Value::Strand(grant.ac.clone()));
        object.insert("type", Value::Strand(String::from_str(grant.grant.variant())));
        object.insert("creation", Value::Datetime(grant.creation));
        object.insert("expiration", Value::from_time(&grant.expiration));
        object.insert("revocation", Value::from_time(&grant.revocation));
        object.insert("subject", Value::object(Object::from_subject(&grant.subject)));
        object.insert("grant", Value::object(Object::from_payload(&grant.grant)));
        assert(object@ =~= grant_document(grant@));
        object
    }
}

} // verus!
