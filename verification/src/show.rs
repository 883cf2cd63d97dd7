//! Show: returning grants in their redacted form.

use vstd::prelude::*;
use crate::document::{grant_document, grant_documents, Object, Value, ValueView};
use crate::error::{ok_view, Error, Missing};
use crate::grant::{AccessGrant, AccessGrantView};
use crate::statement::AccessStatementShow;
use crate::views::{lemma_views_push, views};

verus! {

/// What is known of the truth of a statement's condition on a grant.
#[derive(Clone, Copy, Debug, PartialEq, Eq, Structural)]
pub enum Verdict {
    /// The condition was not evaluated on the grant.
    Unasked,
    /// The condition is true of the grant, or it is not.
    Holds(bool),
}

/// A grant as the store returned it, with the verdict of the statement's
/// condition on its redacted form.
#[derive(Debug, PartialEq, Eq)]
pub struct Scanned {
    pub grant: AccessGrant,
    pub verdict: Verdict,
}

/// The mathematical value of a [`Scanned`].
pub struct ScannedView {
    pub grant: AccessGrantView,
    pub verdict: Verdict,
}

impl View for Scanned {
    type V = ScannedView;

    open spec fn view(&self) -> ScannedView {
        ScannedView { grant: self.grant@, verdict: self.verdict }
    }
}

impl Clone for Scanned {
    fn clone(&self) -> (r: Self)
        ensures
            r == *self,
    {
        Scanned { grant: self.grant.clone(), verdict: self.verdict }
    }
}

/// A grant passes the condition of a statement: the statement has none, or
/// the condition was found true of the grant. A grant without a verdict
/// does not pass a condition.
pub open spec fn passes(filtered: bool, verdict: Verdict) -> bool {
    !filtered || verdict == Verdict::Holds(true)
}

/// The grants that a statement shows, as a predicate.
pub open spec fn show_rule(filtered: bool) -> spec_fn(ScannedView) -> bool {
    |scanned: ScannedView| passes(filtered, scanned.verdict)
}

/// The form in which a grant is shown.
pub open spec fn shown_form() -> spec_fn(ScannedView) -> AccessGrantView {
    |scanned: ScannedView| scanned.grant.redacted()
}

/// The grants that are shown of those found, redacted and in scan order.
pub open spec fn spec_show_grants(filtered: bool, found: Seq<ScannedView>) -> Seq<AccessGrantView> {
    found.filter(show_rule(filtered)).map_values(shown_form())
}

/// What a show statement returns. Where it names a grant, `found` holds
/// that grant, or nothing if there is none, and the document of the
/// redacted grant is returned. Where it names none, `found` holds all
/// grants of the access method, and the documents of those that pass the
/// condition are returned as an array.
pub open spec fn spec_show(named: bool, filtered: bool, found: Seq<ScannedView>) -> Result<
    ValueView,
    Error,
> {
    if named {
        if found.len() == 0 {
            Err(Error::NotFound(Missing::Grant))
        } else {
            Ok(ValueView::Object(grant_document(found[0].grant.redacted())))
        }
    } else {
        Ok(ValueView::Array(grant_documents(spec_show_grants(filtered, found))))
    }
}

/// What a condition is evaluated on: the document of the redacted grant,
/// never the grant as it is stored.
pub fn condition_input(grant: &AccessGrant) -> (doc: Value)
    ensures
        doc@ == ValueView::Object(grant_document(grant@.redacted())),
{
    Value::object(Object::from_grant(&grant.redacted()))
}

/// Whether the statement needs verdicts on the grants that it scans: it
/// does where it names no grant and has a condition.
pub fn wants_verdicts(stmt: &AccessStatementShow) -> (r: bool)
    ensures
        r == (stmt.gr is None && stmt.cond is Some),
{
    stmt.gr.is_none() && stmt.cond.is_some()
}

/// Whether a grant with this verdict passes the condition of a statement.
pub fn passes_condition(filtered: bool, verdict: &Verdict) -> (r: bool)
    ensures
        r == passes(filtered, *verdict),
{
    if filtered {
        match verdict {
            Verdict::Holds(truth) => *truth,
            _ => false,
        }
    } else {
        true
    }
}

/// The grants that the statement shows of those found: without a
/// condition all of them, with one those of which it is true. They are
/// redacted and keep the order of the scan.
pub fn show_grants(stmt: &AccessStatementShow, found: &Vec<Scanned>) -> (shown: Vec<AccessGrant>)
    ensures
        views(shown@) == spec_show_grants(stmt.cond is Some, views(found@)),
{
    let filtered = stmt.cond.is_some();
    let ghost rule = show_rule(filtered);
    let ghost all = views(found@);
    let mut shown: Vec<AccessGrant> = Vec::new();
    let mut at: usize = 0;
    proof {
        assert(all.take(0).filter(rule) =~= Seq::<ScannedView>::empty()) by {
            reveal(Seq::filter);
        }
        assert(views(shown@) =~= all.take(0).filter(rule).map_values(shown_form()));
    }
    while at < found.len()
        invariant
            at <= found.len(),
            all == views(found@),
            rule == show_rule(filtered),
            views(shown@) == all.take(at as int).filter(rule).map_values(shown_form()),
        decreases found.len() - at,
    {
        let scanned = &found[at];
        proof {
            assert(all[at as int] == scanned@);
            all.lemma_take_succ_push(at as int);
            all.take(at as int).lemma_filter_push(scanned@, rule);
        }
        if passes_condition(filtered, &scanned.verdict) {
            let redacted = scanned.grant.redacted();
            proof {
                lemma_views_push(shown@, redacted);
                all.take(at as int).filter(rule).lemma_push_map_commute(shown_form(), scanned@);
            }
            shown.push(redacted);
        }
        at = at + 1;
    }
    proof {
        assert(all.take(at as int) =~= all);
    }
    shown
}

/// Shows grants of an access method.
///
/// `found` is what the store holds for the statement: where the statement
/// names a grant, that grant, or nothing if it does not exist; else all
/// grants of the access method in scan order, each with the verdict of
/// the statement's condition, if it has one, on [`condition_input`] of the
/// grant. Nothing is written.
pub fn compute_show(stmt: &AccessStatementShow, found: &Vec<Scanned>) -> (r: Result<Value, Error>)
    ensures
        ok_view(r) == spec_show(stmt.gr is Some, stmt.cond is Some, views(found@)),
{
    if stmt.gr.is_some() {
        if found.len() == 0 {
            Err(Error::NotFound(Missing::Grant))
        } else {
            Ok(condition_input(&found[0].grant))
        }
    } else {
        let shown = show_grants(stmt, found);
        Ok(Value::from_grants(&shown))
    }
}

} // verus!
