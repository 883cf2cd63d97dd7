//! A statement as a run of questions and answers.
//!
//! The engine cannot read the store, ask the session, look at the clock or
//! evaluate a condition. It asks for each of these in turn, and decides on
//! the answer what to ask next: a [`Run`] is started with a statement, and
//! every [`Reply`] to its last [`Request`] moves it one step on, until it
//! is done. In what order things are asked, and what an answer leads to,
//! is decided here; carrying the requests out is left to the caller.

use vstd::prelude::*;
use crate::create::{create_grant, required_user, spec_issue};
use crate::document::Value;
use crate::effect::{settle, Effect, GrantKey};
use crate::error::{Error, Missing};
use crate::grant::{AccessGrant, GrantBearerView};
use crate::method::AccessMethod;
use crate::model::{
    condition, drawn_for, fetched, lemma_next_wanted, next_wanted, spec_start, unasked, wants,
    RunView, StageView,
};
use crate::protocol::{result_view, Output, Reply, ReplyView, Request};
use crate::purge::compute_purge;
use crate::revoke::{revoke_grant, wants_verdict};
use crate::show::{compute_show, condition_input, wants_verdicts, Scanned, ScannedView, Verdict};
use crate::statement::{AccessStatement, Cond};
use crate::tenancy::{Base, Level, Selection};
use crate::time::Datetime;
use crate::views::{text_view, views};

verus! {

/// How far a run has come: what it has asked last, with what it has
/// learned so far.
#[derive(Debug, PartialEq, Eq)]
pub enum Stage {
    /// Asked whether the caller is allowed at the level of the statement.
    Allowing(Base),
    /// Asked for the access method.
    Resolving(Level),
    /// Asked whether the user exists for whom a grant is to be issued.
    Verifying(Level, AccessMethod),
    /// Asked for the grant that the statement names.
    Fetching(Level),
    /// Asked for all grants of the access method.
    Scanning(Level),
    /// Asked for the verdict on the grant at the position, with the grants
    /// of the scan and the verdicts that are in.
    Judging(Level, Vec<Scanned>, usize),
    /// Asked for the time, to issue a grant under the access method.
    Issuing(Level, AccessMethod),
    /// Asked for the time, to revoke among what was found.
    Revoking(Level, Vec<Scanned>),
    /// Asked for the time, to purge among the grants of the scan.
    Purging(Level, Vec<AccessGrant>),
    /// Asked for the effect at the position to be carried out; once all
    /// are, the statement returns the output.
    Performing(Vec<Effect>, usize, Output),
    /// The statement has ended.
    Ended,
}

impl View for Stage {
    type V = StageView;

    open spec fn view(&self) -> StageView {
        match self {
            Stage::Allowing(base) => StageView::Allowing(base@),
            Stage::Resolving(level) => StageView::Resolving(level@),
            Stage::Verifying(level, method) => StageView::Verifying(level@, method@),
            Stage::Fetching(level) => StageView::Fetching(level@),
            Stage::Scanning(level) => StageView::Scanning(level@),
            Stage::Judging(level, found, at) => StageView::Judging(
                level@,
                views(found@),
                *at as nat,
            ),
            Stage::Issuing(level, method) => StageView::Issuing(level@, method@),
            Stage::Revoking(level, found) => StageView::Revoking(level@, views(found@)),
            Stage::Purging(level, grants) => StageView::Purging(level@, views(grants@)),
            Stage::Performing(effects, at, output) => StageView::Performing(
                views(effects@),
                *at as nat,
                output@,
            ),
            Stage::Ended => StageView::Ended,
        }
    }
}

/// A statement on its way.
#[derive(Debug, PartialEq, Eq)]
pub struct Run {
    /// The statement.
    pub stmt: AccessStatement,
    /// The namespace and database that the caller has selected.
    pub selection: Selection,
    /// The identity that runs the statement.
    pub actor: String,
    /// How far the run has come.
    pub stage: Stage,
}

impl View for Run {
    type V = RunView;

    open spec fn view(&self) -> RunView {
        RunView {
            stmt: self.stmt,
            selection: self.selection,
            actor: self.actor,
            stage: self.stage@,
        }
    }
}

fn wants_verdict_on(stmt: &AccessStatement, scanned: &Scanned) -> (r: bool)
    ensures
        r == wants(*stmt, scanned@),
{
    match stmt {
        AccessStatement::Show(stmt) => wants_verdicts(stmt),
        AccessStatement::Revoke(stmt) => wants_verdict(stmt, &scanned.grant),
        _ => false,
    }
}

fn find_wanted(stmt: &AccessStatement, found: &Vec<Scanned>, from: usize) -> (at: usize)
    requires
        from <= found.len(),
    ensures
        at == next_wanted(*stmt, views(found@), from as int),
{
    let mut at: usize = from;
    while at < found.len()
        invariant
            from <= at <= found.len(),
            next_wanted(*stmt, views(found@), from as int) == next_wanted(
                *stmt,
                views(found@),
                at as int,
            ),
        decreases found.len() - at,
    {
        assert(views(found@)[at as int] == found@[at as int]@);
        if wants_verdict_on(stmt, &found[at]) {
            return at;
        }
        at = at + 1;
    }
    at
}

fn clone_condition(stmt: &AccessStatement) -> (r: Option<Cond>)
    ensures
        match r {
            Some(cond) => cond.0@ == condition(*stmt) && (*stmt is Show || *stmt is Revoke),
            None => forall|scanned: ScannedView| !wants(*stmt, scanned),
        },
{
    match stmt {
        AccessStatement::Show(stmt) => match &stmt.cond {
            Some(cond) => Some(cond.clone()),
            None => None,
        },
        AccessStatement::Revoke(stmt) => match &stmt.cond {
            Some(cond) => Some(cond.clone()),
            None => None,
        },
        _ => None,
    }
}

impl Run {
    fn at(self, stage: Stage) -> (run: Run)
        ensures
            run@ == self@.at(stage@),
    {
        Run { stmt: self.stmt, selection: self.selection, actor: self.actor, stage }
    }

    fn end(self, result: Result<Output, Error>) -> (r: (Run, Request))
        ensures
            (r.0@, r.1@) == self@.end(result_view(result)),
    {
        (self.at(Stage::Ended), Request::Done(result))
    }

    fn unexpected(self) -> (r: (Run, Request))
        ensures
            (r.0@, r.1@) == self@.unexpected(),
    {
        self.end(Err(Error::StoreFailure))
    }

    fn perform(self, effects: Vec<Effect>, at: usize, output: Output) -> (r: (Run, Request))
        ensures
            (r.0@, r.1@) == self@.perform(views(effects@), at as nat, output@),
    {
        if at < effects.len() {
            let next = effects[at].clone();
            assert(views(effects@)[at as int] == next@);
            (self.at(Stage::Performing(effects, at, output)), Request::Perform(next))
        } else {
            self.end(Ok(output))
        }
    }

    fn lookup(self, level: Level, ac: String, gr: Option<String>) -> (r: (Run, Request))
        ensures
            (r.0@, r.1@) == self@.lookup(level@, ac@, text_view(gr)),
    {
        match gr {
            Some(id) => {
                let key = GrantKey::new(&level, &ac, &id);
                (self.at(Stage::Fetching(level)), Request::Grant(key))
            },
            None => {
                let asked = level.clone();
                (self.at(Stage::Scanning(level)), Request::Grants(asked, ac))
            },
        }
    }

    fn judged(self, level: Level, found: Vec<Scanned>) -> (r: (Run, Request))
        ensures
            (r.0@, r.1@) == self@.judged(level@, views(found@)),
    {
        match &self.stmt {
            AccessStatement::Show(stmt) => {
                let result = match compute_show(stmt, &found) {
                    Ok(value) => Ok(Output::Value(value)),
                    Err(e) => Err(e),
                };
                self.end(result)
            },
            AccessStatement::Revoke(_) => (self.at(Stage::Revoking(level, found)), Request::Time),
            _ => self.unexpected(),
        }
    }

    fn judge(self, level: Level, found: Vec<Scanned>, from: usize) -> (r: (Run, Request))
        requires
            from <= found.len(),
        ensures
            (r.0@, r.1@) == self@.judge(level@, views(found@), from as nat),
    {
        let at = find_wanted(&self.stmt, &found, from);
        proof {
            lemma_next_wanted(self.stmt, views(found@), from as int);
        }
        if at < found.len() {
            assert(views(found@)[at as int] == found@[at as int]@);
            match clone_condition(&self.stmt) {
                Some(cond) => {
                    let doc = condition_input(&found[at].grant);
                    (self.at(Stage::Judging(level, found, at)), Request::Verdict(cond, doc))
                },
                None => {
                    assert(false);
                    self.unexpected()
                },
            }
        } else {
            self.judged(level, found)
        }
    }
}

fn as_unasked(grants: Vec<AccessGrant>) -> (found: Vec<Scanned>)
    ensures
        views(found@) == unasked(views(grants@)),
{
    let mut found: Vec<Scanned> = Vec::new();
    let mut at: usize = 0;
    while at < grants.len()
        invariant
            at <= grants.len(),
            found.len() == at,
            forall|i: int|
                0 <= i < at ==> (#[trigger] found[i])@ == (ScannedView {
                    grant: grants[i]@,
                    verdict: Verdict::Unasked,
                }),
        decreases grants.len() - at,
    {
        found.push(Scanned { grant: grants[at].clone(), verdict: Verdict::Unasked });
        at = at + 1;
    }
    assert(views(found@) =~= unasked(views(grants@)));
    found
}

fn as_fetched(grant: Option<AccessGrant>) -> (found: Vec<Scanned>)
    ensures
        views(found@) == fetched(
            match grant {
                Some(grant) => Some(grant@),
                None => None,
            },
        ),
{
    let mut found: Vec<Scanned> = Vec::new();
    if let Some(grant) = grant {
        found.push(Scanned { grant, verdict: Verdict::Unasked });
    }
    assert(views(found@) =~= fetched(
        match grant {
            Some(grant) => Some(grant@),
            None => None,
        },
    ));
    found
}

impl Run {
    fn resolved(self, level: Level, method: AccessMethod) -> (r: (Run, Request))
        ensures
            (r.0@, r.1@) == self@.resolved(level@, method@),
    {
        match &self.stmt {
            AccessStatement::Grant(stmt) => match required_user(&level, &method, &stmt.subject) {
                Ok(Some(user)) => {
                    let asked = level.clone();
                    (self.at(Stage::Verifying(level, method)), Request::User(asked, user))
                },
                Ok(None) => (self.at(Stage::Issuing(level, method)), Request::Time),
                Err(e) => self.end(Err(e)),
            },
            AccessStatement::Show(stmt) => {
                let ac = stmt.ac.clone();
                let gr = match &stmt.gr {
                    Some(id) => Some(id.clone()),
                    None => None,
                };
                self.lookup(level, ac, gr)
            },
            AccessStatement::Revoke(stmt) => {
                let ac = stmt.ac.clone();
                let gr = match &stmt.gr {
                    Some(id) => Some(id.clone()),
                    None => None,
                };
                self.lookup(level, ac, gr)
            },
            AccessStatement::Purge(stmt) => {
                let ac = stmt.ac.clone();
                let asked = level.clone();
                (self.at(Stage::Scanning(level)), Request::Grants(asked, ac))
            },
        }
    }

    fn scanned(self, level: Level, grants: Vec<AccessGrant>) -> (r: (Run, Request))
        ensures
            (r.0@, r.1@) == self@.scanned(level@, views(grants@)),
    {
        match &self.stmt {
            AccessStatement::Purge(_) => (self.at(Stage::Purging(level, grants)), Request::Time),
            AccessStatement::Grant(_) => self.unexpected(),
            _ => {
                let found = as_unasked(grants);
                self.judge(level, found, 0)
            },
        }
    }

    fn issue(self, level: Level, method: AccessMethod, now: Datetime) -> (r: (Run, Request))
        ensures
            exists|key: GrantBearerView|
                drawn_for(
                    self@.at(StageView::Issuing(level@, method@)),
                    ReplyView::Time(now),
                    key,
                ) && (r.0@, r.1@) == #[trigger] self@.issue(level@, method@, now, key),
    {
        match &self.stmt {
            AccessStatement::Grant(stmt) => {
                match create_grant(stmt, &level, &method, &now, self.actor.as_str()) {
                    Ok(issued) => {
                        let ghost key = choose|key: GrantBearerView|
                            drawn_for(
                                self@.at(StageView::Issuing(level@, method@)),
                                ReplyView::Time(now),
                                key,
                            ) && issued@ == #[trigger] spec_issue(
                                level@,
                                method.name@,
                                method.grant_duration,
                                stmt.subject@,
                                key,
                                now,
                                self.actor@,
                            );
                        let r = self.perform(issued.effects, 0, Output::Grant(issued.grant));
                        assert((r.0@, r.1@) == self@.issue(level@, method@, now, key));
                        r
                    },
                    Err(e) => {
                        let ghost key = GrantBearerView { id: seq![], key: seq![] };
                        let r = self.end(Err(e));
                        assert((r.0@, r.1@) == self@.issue(level@, method@, now, key));
                        r
                    },
                }
            },
            _ => {
                let ghost key = GrantBearerView { id: seq![], key: seq![] };
                let r = self.unexpected();
                assert((r.0@, r.1@) == self@.issue(level@, method@, now, key));
                r
            },
        }
    }

    fn revoke(self, level: Level, found: Vec<Scanned>, now: Datetime) -> (r: (Run, Request))
        ensures
            (r.0@, r.1@) == self@.revoke(level@, views(found@), now),
    {
        match &self.stmt {
            AccessStatement::Revoke(stmt) => {
                match revoke_grant(stmt, &level, &found, &now, self.actor.as_str()) {
                    Ok(out) => {
                        let output = Output::Value(Value::from_grants(&out.grants));
                        self.perform(out.effects, 0, output)
                    },
                    Err(e) => self.end(Err(e)),
                }
            },
            _ => self.unexpected(),
        }
    }

    fn purge(self, level: Level, grants: Vec<AccessGrant>, now: Datetime) -> (r: (Run, Request))
        ensures
            (r.0@, r.1@) == self@.purge(level@, views(grants@), now),
    {
        match &self.stmt {
            AccessStatement::Purge(stmt) => {
                let out = compute_purge(stmt, &level, &grants, &now, self.actor.as_str());
                let output = Output::Value(Value::from_grants(&out.grants));
                self.perform(out.effects, 0, output)
            },
            _ => self.unexpected(),
        }
    }

    /// Starts a statement. `selection` is the namespace and database that
    /// the caller has selected, `actor` the identity that runs the
    /// statement.
    pub fn start(stmt: AccessStatement, selection: Selection, actor: String) -> (r: (Run, Request))
        ensures
            (r.0@, r.1@) == spec_start(stmt, selection, actor),
    {
        let resolved = selection.resolve_base(stmt.base());
        let action = stmt.action();
        let run = Run { stmt, selection, actor, stage: Stage::Ended };
        match resolved {
            Ok(base) => {
                let asked = base.clone();
                (run.at(Stage::Allowing(base)), Request::Allowed(action, asked))
            },
            Err(e) => run.end(Err(e)),
        }
    }
}

impl Run {
    /// Moves the run on by the reply to its last request, and returns the
    /// next request. When that is [`Request::Done`], the statement has
    /// ended, and the run takes no more replies.
    ///
    /// Where a grant is issued, a bearer key is drawn, under the prefix of
    /// the access method: the step is then the step of the model for that
    /// key. At every other step the key is of no account.
    pub fn step(self, reply: Reply) -> (r: (Run, Request))
        ensures
            exists|key: GrantBearerView|
                drawn_for(self@, reply@, key) && (r.0@, r.1@) == #[trigger] self@.step(
                    reply@,
                    key,
                ),
    {
        let ghost before = self@;
        let ghost answer = reply@;
        let ghost none = GrantBearerView { id: seq![], key: seq![] };
        let Run { stmt, selection, actor, stage } = self;
        let run = Run { stmt, selection, actor, stage: Stage::Ended };
        if let Reply::Failed(e) = reply {
            let r = run.end(Err(e));
            assert(drawn_for(before, answer, none) && (r.0@, r.1@) == before.step(answer, none));
            return r;
        }
        match stage {
            Stage::Issuing(level, method) => match reply {
                Reply::Time(now) => {
                    let r = run.issue(level, method, now);
                    proof {
                        let key = choose|key: GrantBearerView|
                            drawn_for(
                                run@.at(StageView::Issuing(level@, method@)),
                                ReplyView::Time(now),
                                key,
                            ) && (r.0@, r.1@) == #[trigger] run@.issue(level@, method@, now, key);
                        assert(drawn_for(before, answer, key) && (r.0@, r.1@) == before.step(
                            answer,
                            key,
                        ));
                    }
                    r
                },
                _ => {
                    let r = run.unexpected();
                    assert(drawn_for(before, answer, none) && (r.0@, r.1@) == before.step(
                        answer,
                        none,
                    ));
                    r
                },
            },
            other => {
                let r = run.step_on(other, reply);
                assert(drawn_for(before, answer, none) && (r.0@, r.1@) == before.step(
                    answer,
                    none,
                ));
                r
            },
        }
    }

    fn step_on(self, stage: Stage, reply: Reply) -> (r: (Run, Request))
        requires
            !(stage is Issuing),
            !(reply is Failed),
        ensures
            forall|key: GrantBearerView|
                (r.0@, r.1@) == #[trigger] self@.at(stage@).step(reply@, key),
    {
        match stage {
            Stage::Allowing(base) => match reply {
                Reply::Allowed(allowed) => match self.selection.enter(&base, allowed) {
                    Ok(level) => {
                        let ac = self.stmt.ac().clone();
                        let asked = level.clone();
                        (self.at(Stage::Resolving(level)), Request::Method(asked, ac))
                    },
                    Err(e) => self.end(Err(e)),
                },
                _ => self.unexpected(),
            },
            Stage::Resolving(level) => match reply {
                Reply::Method(Some(method)) => self.resolved(level, method),
                Reply::Method(None) => self.end(Err(Error::NotFound(Missing::AccessMethod))),
                _ => self.unexpected(),
            },
            Stage::Verifying(level, method) => match reply {
                Reply::User(true) => (self.at(Stage::Issuing(level, method)), Request::Time),
                Reply::User(false) => self.end(Err(Error::NotFound(Missing::User))),
                _ => self.unexpected(),
            },
            Stage::Fetching(level) => match reply {
                Reply::Grant(grant) => {
                    let found = as_fetched(grant);
                    self.judged(level, found)
                },
                _ => self.unexpected(),
            },
            Stage::Scanning(level) => match reply {
                Reply::Grants(grants) => self.scanned(level, grants),
                _ => self.unexpected(),
            },
            Stage::Judging(level, found, at) => match reply {
                Reply::Verdict(Ok(truth)) => {
                    if at < found.len() {
                        let mut found = found;
                        let ghost old_found = found@;
                        let judged = Scanned {
                            grant: found[at].grant.clone(),
                            verdict: Verdict::Holds(truth),
                        };
                        found.set(at, judged);
                        assert(views(found@) =~= views(old_found).update(
                            at as int,
                            ScannedView {
                                grant: views(old_found)[at as int].grant,
                                verdict: Verdict::Holds(truth),
                            },
                        ));
                        self.judge(level, found, at + 1)
                    } else {
                        self.unexpected()
                    }
                },
                Reply::Verdict(Err(e)) => self.end(Err(e)),
                _ => self.unexpected(),
            },
            Stage::Issuing(_, _) => self.unexpected(),
            Stage::Revoking(level, found) => match reply {
                Reply::Time(now) => self.revoke(level, found, now),
                _ => self.unexpected(),
            },
            Stage::Purging(level, grants) => match reply {
                Reply::Time(now) => self.purge(level, grants, now),
                _ => self.unexpected(),
            },
            Stage::Performing(effects, at, output) => match reply {
                Reply::Performed(answer) => {
                    if at < effects.len() {
                        assert(views(effects@)[at as int] == effects@[at as int]@);
                        match settle(&effects[at], answer) {
                            Ok(_) => self.perform(effects, at + 1, output),
                            Err(e) => self.end(Err(e)),
                        }
                    } else {
                        self.unexpected()
                    }
                },
                _ => self.unexpected(),
            },
            Stage::Ended => self.unexpected(),
        }
    }
}

} // verus!
