//! The four statements on access grants.

use vstd::prelude::*;
use crate::grant::{Subject, SubjectView};
use crate::tenancy::{base_view, Action, Base, BaseView};
use crate::time::Duration;
use crate::views::text_view;

verus! {

/// A condition on grants, as it was written. The engine does not evaluate
/// it: it is told the verdict for each grant that it asks about.
#[derive(Debug, Default, PartialEq, Eq, PartialOrd, Hash)]
pub struct Cond(pub String);

/// Issue a grant under the access method `ac` for `subject`.
#[derive(Debug, PartialEq, Eq, PartialOrd, Hash)]
pub struct AccessStatementGrant {
    pub ac: String,
    pub base: Option<Base>,
    pub subject: Subject,
}

/// Show the grant `gr` of the access method `ac`, or, where none is named,
/// all of its grants that meet `cond`.
#[derive(Debug, Default, PartialEq, Eq, PartialOrd, Hash)]
pub struct AccessStatementShow {
    pub ac: String,
    pub base: Option<Base>,
    pub gr: Option<String>,
    pub cond: Option<Cond>,
}

/// Revoke the grant `gr` of the access method `ac`, or, where none is
/// named, all of its grants that meet `cond`.
#[derive(Debug, Default, PartialEq, Eq, PartialOrd, Hash)]
pub struct AccessStatementRevoke {
    pub ac: String,
    pub base: Option<Base>,
    pub gr: Option<String>,
    pub cond: Option<Cond>,
}

/// Delete the grants of the access method `ac` that expired or were
/// revoked more than `grace` ago.
#[derive(Debug, Default, PartialEq, Eq, PartialOrd, Hash)]
pub struct AccessStatementPurge {
    pub ac: String,
    pub base: Option<Base>,
    pub expired: bool,
    pub revoked: bool,
    pub grace: Duration,
}

/// A statement on access grants.
#[derive(Debug, PartialEq, Eq, PartialOrd, Hash)]
pub enum AccessStatement {
    Grant(AccessStatementGrant),
    Show(AccessStatementShow),
    Revoke(AccessStatementRevoke),
    Purge(AccessStatementPurge),
}

fn clone_base(base: &Option<Base>) -> (r: Option<Base>)
    ensures
        r == *base,
{
    match base {
        Some(base) => Some(base.clone()),
        None => None,
    }
}

fn clone_text(text: &Option<String>) -> (r: Option<String>)
    ensures
        r == *text,
{
    match text {
        Some(text) => Some(text.clone()),
        None => None,
    }
}

fn clone_cond(cond: &Option<Cond>) -> (r: Option<Cond>)
    ensures
        r == *cond,
{
    match cond {
        Some(cond) => Some(cond.clone()),
        None => None,
    }
}

impl Clone for Cond {
    fn clone(&self) -> (r: Self)
        ensures
            r == *self,
    {
        Cond(self.0.clone())
    }
}

impl Clone for AccessStatementGrant {
    fn clone(&self) -> (r: Self)
        ensures
            r == *self,
    {
        AccessStatementGrant {
            ac: self.ac.clone(),
            base: clone_base(&self.base),
            subject: self.subject.clone(),
        }
    }
}

impl Clone for AccessStatementShow {
    fn clone(&self) -> (r: Self)
        ensures
            r == *self,
    {
        AccessStatementShow {
            ac: self.ac.clone(),
            base: clone_base(&self.base),
            gr: clone_text(&self.gr),
            cond: clone_cond(&self.cond),
        }
    }
}

impl Clone for AccessStatementRevoke {
    fn clone(&self) -> (r: Self)
        ensures
            r == *self,
    {
        AccessStatementRevoke {
            ac: self.ac.clone(),
            base: clone_base(&self.base),
            gr: clone_text(&self.gr),
            cond: clone_cond(&self.cond),
        }
    }
}

impl Clone for AccessStatementPurge {
    fn clone(&self) -> (r: Self)
        ensures
            r == *self,
    {
        AccessStatementPurge {
            ac: self.ac.clone(),
            base: clone_base(&self.base),
            expired: self.expired,
            revoked: self.revoked,
            grace: self.grace,
        }
    }
}

impl Clone for AccessStatement {
    fn clone(&self) -> (r: Self)
        ensures
            r == *self,
    {
        match self {
            AccessStatement::Grant(stmt) => AccessStatement::Grant(stmt.clone()),
            AccessStatement::Show(stmt) => AccessStatement::Show(stmt.clone()),
            AccessStatement::Revoke(stmt) => AccessStatement::Revoke(stmt.clone()),
            AccessStatement::Purge(stmt) => AccessStatement::Purge(stmt.clone()),
        }
    }
}

/// The start of every statement: the access method, and the level where
/// one is named.
pub open spec fn head_text(ac: Seq<char>, base: Option<BaseView>) -> Seq<char> {
    "ACCESS "@ + ac + match base {
        Some(base) => " ON "@ + base.text(),
        None => seq![],
    }
}

/// The grants that a show or revoke statement is about: the named one,
/// else those that meet the condition, else all.
pub open spec fn selection_text(gr: Option<Seq<char>>, cond: Option<Seq<char>>) -> Seq<char> {
    match gr {
        Some(id) => " GRANT "@ + id,
        None => match cond {
            Some(expr) => " WHERE "@ + expr,
            None => " ALL"@,
        },
    }
}

/// The grants that a purge statement is about.
pub open spec fn purge_kinds_text(expired: bool, revoked: bool) -> Seq<char> {
    if expired && revoked {
        " EXPIRED, REVOKED"@
    } else if expired {
        " EXPIRED"@
    } else if revoked {
        " REVOKED"@
    } else {
        " NONE"@
    }
}

/// The view of an optional condition: the expression as it was written.
pub open spec fn cond_view(cond: Option<Cond>) -> Option<Seq<char>> {
    match cond {
        Some(cond) => Some(cond.0@),
        None => None,
    }
}

fn push_head(text: &mut String, ac: &String, base: &Option<Base>)
    requires
        old(text)@.len() == 0,
    ensures
        final(text)@ == head_text(ac@, base_view(*base)),
{
    text.append("ACCESS ");
    text.append(ac.as_str());
    if let Some(base) = base {
        text.append(" ON ");
        let level = base.to_string();
        text.append(level.as_str());
    }
    assert(text@ =~= head_text(ac@, base_view(*base)));
}

fn push_selection(text: &mut String, gr: &Option<String>, cond: &Option<Cond>)
    ensures
        final(text)@ == old(text)@ + selection_text(text_view(*gr), cond_view(*cond)),
{
    match gr {
        Some(id) => {
            text.append(" GRANT ");
            text.append(id.as_str());
        },
        None => match cond {
            Some(cond) => {
                text.append(" WHERE ");
                text.append(cond.0.as_str());
            },
            None => {
                text.append(" ALL");
            },
        },
    }
    assert(text@ =~= old(text)@ + selection_text(text_view(*gr), cond_view(*cond)));
}

impl Cond {
    /// The condition as it is written in a statement.
    pub fn to_string(&self) -> (text: String)
        ensures
            text@ == "WHERE "@ + self.0@,
    {
        let mut text = String::from_str("WHERE ");
        text.append(self.0.as_str());
        text
    }
}

impl AccessStatementGrant {
    /// The statement as text.
    pub open spec fn text(self) -> Seq<char> {
        head_text(self.ac@, base_view(self.base)) + " GRANT"@ + match self.subject@ {
            SubjectView::User(_) => " FOR USER "@,
            SubjectView::Record(_) => " FOR RECORD "@,
        } + self.subject@.id()
    }

    /// The statement as text: `ACCESS api ON DATABASE GRANT FOR USER alice`.
    pub fn to_string(&self) -> (text: String)
        ensures
            text@ == self.text(),
    {
        let mut text = String::new();
        push_head(&mut text, &self.ac, &self.base);
        text.append(" GRANT");
        match &self.subject {
            Subject::User(_) => {
                text.append(" FOR USER ");
            },
            Subject::Record(_) => {
                text.append(" FOR RECORD ");
            },
        }
        let id = self.subject.id();
        text.append(id.as_str());
        assert(text@ =~= self.text());
        text
    }
}

impl AccessStatementShow {
    /// The statement as text.
    pub open spec fn text(self) -> Seq<char> {
        head_text(self.ac@, base_view(self.base)) + " SHOW"@ + selection_text(
            text_view(self.gr),
            cond_view(self.cond),
        )
    }

    /// The statement as text: `ACCESS api SHOW ALL`.
    pub fn to_string(&self) -> (text: String)
        ensures
            text@ == self.text(),
    {
        let mut text = String::new();
        push_head(&mut text, &self.ac, &self.base);
        text.append(" SHOW");
        push_selection(&mut text, &self.gr, &self.cond);
        text
    }
}

impl AccessStatementRevoke {
    /// The statement as text.
    pub open spec fn text(self) -> Seq<char> {
        head_text(self.ac@, base_view(self.base)) + " REVOKE"@ + selection_text(
            text_view(self.gr),
            cond_view(self.cond),
        )
    }

    /// The statement as text: `ACCESS api REVOKE GRANT aB3dE6gH9jKl`.
    pub fn to_string(&self) -> (text: String)
        ensures
            text@ == self.text(),
    {
        let mut text = String::new();
        push_head(&mut text, &self.ac, &self.base);
        text.append(" REVOKE");
        push_selection(&mut text, &self.gr, &self.cond);
        text
    }
}

impl AccessStatementPurge {
    /// A purge statement that asks for at least one kind of grant, or
    /// `None`: a statement that asks for neither expired nor revoked grants
    /// has nothing to purge.
    pub fn new(ac: String, base: Option<Base>, expired: bool, revoked: bool, grace: Duration) -> (r:
        Option<AccessStatementPurge>)
        ensures
            r == (if expired || revoked {
                Some(AccessStatementPurge { ac, base, expired, revoked, grace })
            } else {
                None
            }),
    {
        if expired || revoked {
            Some(AccessStatementPurge { ac, base, expired, revoked, grace })
        } else {
            None
        }
    }

    /// The statement as text.
    pub open spec fn text(self) -> Seq<char> {
        head_text(self.ac@, base_view(self.base)) + " PURGE"@ + purge_kinds_text(
            self.expired,
            self.revoked,
        ) + if self.grace.secs == 0 && self.grace.nanos == 0 {
            seq![]
        } else {
            " FOR "@ + self.grace.text()
        }
    }

    /// The statement as text: `ACCESS api PURGE EXPIRED, REVOKED FOR 1h`.
    /// A statement that asks for neither kind of grant is written with
    /// `NONE`, though it purges nothing.
    pub fn to_string(&self) -> (text: String)
        ensures
            text@ == self.text(),
    {
        let mut text = String::new();
        push_head(&mut text, &self.ac, &self.base);
        text.append(" PURGE");
        if self.expired && self.revoked {
            text.append(" EXPIRED, REVOKED");
        } else if self.expired {
            text.append(" EXPIRED");
        } else if self.revoked {
            text.append(" REVOKED");
        } else {
            text.append(" NONE");
        }
        if !self.grace.is_zero() {
            text.append(" FOR ");
            let grace = self.grace.to_string();
            text.append(grace.as_str());
        }
        assert(text@ =~= self.text());
        text
    }
}

impl AccessStatement {
    /// The statement as text.
    pub open spec fn text(self) -> Seq<char> {
        match self {
            AccessStatement::Grant(stmt) => stmt.text(),
            AccessStatement::Show(stmt) => stmt.text(),
            AccessStatement::Revoke(stmt) => stmt.text(),
            AccessStatement::Purge(stmt) => stmt.text(),
        }
    }

    /// The statement as text.
    pub fn to_string(&self) -> (text: String)
        ensures
            text@ == self.text(),
    {
        match self {
            AccessStatement::Grant(stmt) => stmt.to_string(),
            AccessStatement::Show(stmt) => stmt.to_string(),
            AccessStatement::Revoke(stmt) => stmt.to_string(),
            AccessStatement::Purge(stmt) => stmt.to_string(),
        }
    }

    /// What the caller must be allowed to do for the statement to run:
    /// showing grants needs the right to view them, all else the right to
    /// edit them.
    pub open spec fn spec_action(self) -> Action {
        match self {
            AccessStatement::Show(_) => Action::View,
            _ => Action::Edit,
        }
    }

    /// The name of the access method that the statement is about.
    pub open spec fn spec_ac(self) -> String {
        match self {
            AccessStatement::Grant(stmt) => stmt.ac,
            AccessStatement::Show(stmt) => stmt.ac,
            AccessStatement::Revoke(stmt) => stmt.ac,
            AccessStatement::Purge(stmt) => stmt.ac,
        }
    }

    /// The level that the statement names, if it names one.
    pub open spec fn spec_base(self) -> Option<Base> {
        match self {
            AccessStatement::Grant(stmt) => stmt.base,
            AccessStatement::Show(stmt) => stmt.base,
            AccessStatement::Revoke(stmt) => stmt.base,
            AccessStatement::Purge(stmt) => stmt.base,
        }
    }

    /// What the caller must be allowed to do for the statement to run.
    pub fn action(&self) -> (a: Action)
        ensures
            a == self.spec_action(),
    {
        match self {
            AccessStatement::Show(_) => Action::View,
            _ => Action::Edit,
        }
    }

    /// The name of the access method that the statement is about.
    pub fn ac(&self) -> (name: &String)
        ensures
            *name == self.spec_ac(),
    {
        match self {
            AccessStatement::Grant(stmt) => &stmt.ac,
            AccessStatement::Show(stmt) => &stmt.ac,
            AccessStatement::Revoke(stmt) => &stmt.ac,
            AccessStatement::Purge(stmt) => &stmt.ac,
        }
    }

    /// The level that the statement names, if it names one.
    pub fn base(&self) -> (base: &Option<Base>)
        ensures
            *base == self.spec_base(),
    {
        match self {
            AccessStatement::Grant(stmt) => &stmt.base,
            AccessStatement::Show(stmt) => &stmt.base,
            AccessStatement::Revoke(stmt) => &stmt.base,
            AccessStatement::Purge(stmt) => &stmt.base,
        }
    }
}

} // verus!
