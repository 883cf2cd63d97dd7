//! The questions that the engine asks of its surroundings, and the answers.

use vstd::prelude::*;
use crate::document::{Value, ValueView};
use crate::effect::{Effect, EffectView, GrantKey, GrantKeyView, StoreReply};
use crate::error::Error;
use crate::grant::{AccessGrant, AccessGrantView};
use crate::method::{AccessMethod, AccessMethodView};
use crate::statement::Cond;
use crate::tenancy::{Action, Base, BaseView, Level, LevelView};
use crate::time::Datetime;
use crate::views::views;

verus! {

/// What a statement returns when it has gone through.
#[derive(Debug, PartialEq, Eq)]
pub enum Output {
    /// The grant that was issued, with its key in plaintext.
    Grant(AccessGrant),
    /// The grants that were shown, revoked or purged, as documents.
    Value(Value),
}

/// The mathematical value of an [`Output`].
pub enum OutputView {
    Grant(AccessGrantView),
    Value(ValueView),
}

impl View for Output {
    type V = OutputView;

    open spec fn view(&self) -> OutputView {
        match self {
            Output::Grant(grant) => OutputView::Grant(grant@),
            Output::Value(value) => OutputView::Value(value@),
        }
    }
}

/// What the engine asks of its surroundings.
#[derive(Debug, PartialEq, Eq)]
pub enum Request {
    /// Whether the caller may do the action with access grants at the
    /// level.
    Allowed(Action, Base),
    /// The access method of that name at the level. What was read from the
    /// store before is to be dropped first.
    Method(Level, String),
    /// Whether the user of that name exists at the level.
    User(Level, String),
    /// The grant under the key.
    Grant(GrantKey),
    /// All grants of the access method of that name at the level, in the
    /// order of the store.
    Grants(Level, String),
    /// Whether the condition is true of the document.
    Verdict(Cond, Value),
    /// The current time.
    Time,
    /// That the effect be carried out.
    Perform(Effect),
    /// Nothing more: the statement has ended, with this result.
    Done(Result<Output, Error>),
}

/// The mathematical value of a [`Request`].
pub enum RequestView {
    Allowed(Action, BaseView),
    Method(LevelView, Seq<char>),
    User(LevelView, Seq<char>),
    Grant(GrantKeyView),
    Grants(LevelView, Seq<char>),
    Verdict(Seq<char>, ValueView),
    Time,
    Perform(EffectView),
    Done(Result<OutputView, Error>),
}

impl View for Request {
    type V = RequestView;

    open spec fn view(&self) -> RequestView {
        match self {
            Request::Allowed(action, base) => RequestView::Allowed(*action, base@),
            Request::Method(level, name) => RequestView::Method(level@, name@),
            Request::User(level, name) => RequestView::User(level@, name@),
            Request::Grant(key) => RequestView::Grant(key@),
            Request::Grants(level, name) => RequestView::Grants(level@, name@),
            Request::Verdict(cond, doc) => RequestView::Verdict(cond.0@, doc@),
            Request::Time => RequestView::Time,
            Request::Perform(effect) => RequestView::Perform(effect@),
            Request::Done(result) => RequestView::Done(
                match result {
                    Ok(output) => Ok(output@),
                    Err(e) => Err(*e),
                },
            ),
        }
    }
}

/// What the surroundings answer.
#[derive(Debug, PartialEq, Eq)]
pub enum Reply {
    /// Whether the caller is allowed.
    Allowed(bool),
    /// The access method, if there is one.
    Method(Option<AccessMethod>),
    /// Whether the user exists.
    User(bool),
    /// The grant, if there is one.
    Grant(Option<AccessGrant>),
    /// The grants, in the order of the store.
    Grants(Vec<AccessGrant>),
    /// Whether the condition is true, or why that could not be found out.
    Verdict(Result<bool, Error>),
    /// The current time.
    Time(Datetime),
    /// What the store said to the effect.
    Performed(StoreReply),
    /// The request could not be carried out.
    Failed(Error),
}

/// The mathematical value of a [`Reply`].
pub enum ReplyView {
    Allowed(bool),
    Method(Option<AccessMethodView>),
    User(bool),
    Grant(Option<AccessGrantView>),
    Grants(Seq<AccessGrantView>),
    Verdict(Result<bool, Error>),
    Time(Datetime),
    Performed(StoreReply),
    Failed(Error),
}

impl View for Reply {
    type V = ReplyView;

    open spec fn view(&self) -> ReplyView {
        match self {
            Reply::Allowed(allowed) => ReplyView::Allowed(*allowed),
            Reply::Method(method) => ReplyView::Method(
                match method {
                    Some(method) => Some(method@),
                    None => None,
                },
            ),
            Reply::User(exists) => ReplyView::User(*exists),
            Reply::Grant(grant) => ReplyView::Grant(
                match grant {
                    Some(grant) => Some(grant@),
                    None => None,
                },
            ),
            Reply::Grants(grants) => ReplyView::Grants(views(grants@)),
            Reply::Verdict(verdict) => ReplyView::Verdict(*verdict),
            Reply::Time(now) => ReplyView::Time(*now),
            Reply::Performed(reply) => ReplyView::Performed(*reply),
            Reply::Failed(e) => ReplyView::Failed(*e),
        }
    }
}

/// The mathematical value of the result of a statement.
pub open spec fn result_view(result: Result<Output, Error>) -> Result<OutputView, Error> {
    match result {
        Ok(output) => Ok(output@),
        Err(e) => Err(e),
    }
}

} // verus!
