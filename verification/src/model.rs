//! The run of a statement, as mathematics: which question follows which
//! answer, and the laws that hold of every run.

use vstd::prelude::*;
use crate::create::{spec_check, spec_create, spec_required_user};
use crate::document::{grant_document, grant_documents, ValueView};
use crate::effect::{grant_key, spec_settle, EffectView, StoreReply};
use crate::error::{Error, Missing};
use crate::grant::{AccessGrantView, GrantBearerView};
use crate::method::AccessMethodView;
use crate::protocol::{OutputView, ReplyView, RequestView};
use crate::purge::spec_purge;
use crate::revoke::spec_revoke;
use crate::show::{spec_show, ScannedView, Verdict};
use crate::statement::AccessStatement;
use crate::tenancy::{base_view, spec_enter, spec_resolve_base, BaseView, LevelView, Selection};
use crate::time::Datetime;
use crate::views::text_view;

verus! {

/// The mathematical value of a [`Stage`].
pub enum StageView {
    Allowing(BaseView),
    Resolving(LevelView),
    Verifying(LevelView, AccessMethodView),
    Fetching(LevelView),
    Scanning(LevelView),
    Judging(LevelView, Seq<ScannedView>, nat),
    Issuing(LevelView, AccessMethodView),
    Revoking(LevelView, Seq<ScannedView>),
    Purging(LevelView, Seq<AccessGrantView>),
    Performing(Seq<EffectView>, nat, OutputView),
    Ended,
}

/// The mathematical value of a [`Run`]: the statement, the selection and
/// the actor as they are, and the value of the stage.
pub struct RunView {
    pub stmt: AccessStatement,
    pub selection: Selection,
    pub actor: String,
    pub stage: StageView,
}

/// The grants of a scan, with no verdict asked for yet.
pub open spec fn unasked(grants: Seq<AccessGrantView>) -> Seq<ScannedView> {
    grants.map_values(|grant: AccessGrantView| ScannedView { grant, verdict: Verdict::Unasked })
}

/// What a named grant comes to as something found: the grant itself, or
/// nothing.
pub open spec fn fetched(grant: Option<AccessGrantView>) -> Seq<ScannedView> {
    match grant {
        Some(grant) => seq![ScannedView { grant, verdict: Verdict::Unasked }],
        None => seq![],
    }
}

/// Documents as the output of a statement.
pub open spec fn shown(result: Result<ValueView, Error>) -> Result<OutputView, Error> {
    match result {
        Ok(value) => Ok(OutputView::Value(value)),
        Err(e) => Err(e),
    }
}

/// The statement puts its condition to the grant: it is a show or revoke
/// statement that names no grant and has a condition, and, for a revoke
/// statement, the grant is not revoked yet.
pub open spec fn wants(stmt: AccessStatement, scanned: ScannedView) -> bool {
    match stmt {
        AccessStatement::Show(stmt) => stmt.gr is None && stmt.cond is Some,
        AccessStatement::Revoke(stmt) => stmt.gr is None && stmt.cond is Some
            && scanned.grant.revocation is None,
        _ => false,
    }
}

/// The position of the first grant from `from` on that the statement puts
/// its condition to, or the number of grants if there is none.
pub open spec fn next_wanted(stmt: AccessStatement, found: Seq<ScannedView>, from: int) -> int
    decreases found.len() - from,
{
    if from < 0 || from >= found.len() {
        found.len() as int
    } else if wants(stmt, found[from]) {
        from
    } else {
        next_wanted(stmt, found, from + 1)
    }
}

/// The condition of a statement, as it was written.
pub open spec fn condition(stmt: AccessStatement) -> Seq<char> {
    match stmt {
        AccessStatement::Show(stmt) => match stmt.cond {
            Some(cond) => cond.0@,
            None => seq![],
        },
        AccessStatement::Revoke(stmt) => match stmt.cond {
            Some(cond) => cond.0@,
            None => seq![],
        },
        _ => seq![],
    }
}

impl RunView {
    /// The run at another stage.
    pub open spec fn at(self, stage: StageView) -> RunView {
        RunView { stage, ..self }
    }

    /// The run ends with the result.
    pub open spec fn end(self, result: Result<OutputView, Error>) -> (RunView, RequestView) {
        (self.at(StageView::Ended), RequestView::Done(result))
    }

    /// The run got an answer to what it did not ask: it ends as on a
    /// failure of the store.
    pub open spec fn unexpected(self) -> (RunView, RequestView) {
        self.end(Err(Error::StoreFailure))
    }

    /// The effects from the position on are to be carried out: the next
    /// one is asked for, and when none is left, the run ends with the
    /// output.
    pub open spec fn perform(self, effects: Seq<EffectView>, at: nat, output: OutputView) -> (
        RunView,
        RequestView,
    ) {
        if at < effects.len() {
            (
                self.at(StageView::Performing(effects, at, output)),
                RequestView::Perform(effects[at as int]),
            )
        } else {
            self.end(Ok(output))
        }
    }

    /// The grants of a show or revoke statement are looked up: the named
    /// one, or all of the access method.
    pub open spec fn lookup(self, level: LevelView, ac: Seq<char>, gr: Option<Seq<char>>) -> (
        RunView,
        RequestView,
    ) {
        match gr {
            Some(id) => (
                self.at(StageView::Fetching(level)),
                RequestView::Grant(grant_key(level, ac, id)),
            ),
            None => (self.at(StageView::Scanning(level)), RequestView::Grants(level, ac)),
        }
    }

    /// The access method was found. A grant statement is checked against
    /// it, and asks for the user where one has to exist, else for the
    /// time; the other statements look their grants up.
    pub open spec fn resolved(self, level: LevelView, method: AccessMethodView) -> (
        RunView,
        RequestView,
    ) {
        match self.stmt {
            AccessStatement::Grant(stmt) => match spec_required_user(
                level,
                method.kind,
                stmt.subject@,
            ) {
                Ok(Some(user)) => (
                    self.at(StageView::Verifying(level, method)),
                    RequestView::User(level, user),
                ),
                Ok(None) => (self.at(StageView::Issuing(level, method)), RequestView::Time),
                Err(e) => self.end(Err(e)),
            },
            AccessStatement::Show(stmt) => self.lookup(level, stmt.ac@, text_view(stmt.gr)),
            AccessStatement::Revoke(stmt) => self.lookup(level, stmt.ac@, text_view(stmt.gr)),
            AccessStatement::Purge(stmt) => (
                self.at(StageView::Scanning(level)),
                RequestView::Grants(level, stmt.ac@),
            ),
        }
    }

    /// The grants are found, and the verdicts that the statement wants are
    /// in: a show statement ends, a revoke statement asks for the time.
    pub open spec fn judged(self, level: LevelView, found: Seq<ScannedView>) -> (
        RunView,
        RequestView,
    ) {
        match self.stmt {
            AccessStatement::Show(stmt) => self.end(
                shown(spec_show(stmt.gr is Some, stmt.cond is Some, found)),
            ),
            AccessStatement::Revoke(_) => (
                self.at(StageView::Revoking(level, found)),
                RequestView::Time,
            ),
            _ => self.unexpected(),
        }
    }

    /// The verdicts before the position are in: the next grant that the
    /// statement puts its condition to is asked about, in its redacted
    /// form, and when there is none left, the verdicts are in.
    pub open spec fn judge(self, level: LevelView, found: Seq<ScannedView>, from: nat) -> (
        RunView,
        RequestView,
    ) {
        let at = next_wanted(self.stmt, found, from as int);
        if at < found.len() {
            (
                self.at(StageView::Judging(level, found, at as nat)),
                RequestView::Verdict(
                    condition(self.stmt),
                    ValueView::Object(grant_document(found[at].grant.redacted())),
                ),
            )
        } else {
            self.judged(level, found)
        }
    }

    /// The scan is in: a purge statement asks for the time, a show or
    /// revoke statement for the verdicts that it wants.
    pub open spec fn scanned(self, level: LevelView, grants: Seq<AccessGrantView>) -> (
        RunView,
        RequestView,
    ) {
        match self.stmt {
            AccessStatement::Purge(_) => (
                self.at(StageView::Purging(level, grants)),
                RequestView::Time,
            ),
            AccessStatement::Grant(_) => self.unexpected(),
            _ => self.judge(level, unasked(grants), 0),
        }
    }

    /// The time is in for a grant statement: the grant is issued with the
    /// bearer key `key`, and its effects are to be carried out.
    pub open spec fn issue(
        self,
        level: LevelView,
        method: AccessMethodView,
        now: Datetime,
        key: GrantBearerView,
    ) -> (RunView, RequestView) {
        match self.stmt {
            AccessStatement::Grant(stmt) => match spec_create(
                level,
                method.name,
                method.kind,
                method.grant_duration,
                stmt.subject@,
                key,
                now,
                self.actor@,
            ) {
                Ok(issued) => self.perform(issued.effects, 0, OutputView::Grant(issued.grant)),
                Err(e) => self.end(Err(e)),
            },
            _ => self.unexpected(),
        }
    }

    /// The time is in for a revoke statement.
    pub open spec fn revoke(self, level: LevelView, found: Seq<ScannedView>, now: Datetime) -> (
        RunView,
        RequestView,
    ) {
        match self.stmt {
            AccessStatement::Revoke(stmt) => match spec_revoke(
                level,
                stmt.ac@,
                text_view(stmt.gr),
                stmt.cond is Some,
                found,
                now,
                self.actor@,
            ) {
                Ok(out) => self.perform(
                    out.effects,
                    0,
                    OutputView::Value(ValueView::Array(grant_documents(out.grants))),
                ),
                Err(e) => self.end(Err(e)),
            },
            _ => self.unexpected(),
        }
    }

    /// The time is in for a purge statement.
    pub open spec fn purge(self, level: LevelView, grants: Seq<AccessGrantView>, now: Datetime) -> (
        RunView,
        RequestView,
    ) {
        match self.stmt {
            AccessStatement::Purge(stmt) => {
                let out = spec_purge(
                    level,
                    stmt.ac@,
                    stmt.expired,
                    stmt.revoked,
                    stmt.grace,
                    grants,
                    now,
                    self.actor@,
                );
                self.perform(
                    out.effects,
                    0,
                    OutputView::Value(ValueView::Array(grant_documents(out.grants))),
                )
            },
            _ => self.unexpected(),
        }
    }

    /// The run after the reply to its last request, and its next request.
    ///
    /// A request that could not be carried out ends the run with that
    /// failure, and so does an answer to what was not asked. `key` is the
    /// bearer key that is drawn when a grant is issued.
    pub open spec fn step(self, reply: ReplyView, key: GrantBearerView) -> (RunView, RequestView) {
        if reply is Failed {
            self.end(Err(reply->Failed_0))
        } else {
            match self.stage {
                StageView::Allowing(base) => match reply {
                    ReplyView::Allowed(allowed) => match spec_enter(
                        base,
                        allowed,
                        text_view(self.selection.ns),
                        text_view(self.selection.db),
                    ) {
                        Ok(level) => (
                            self.at(StageView::Resolving(level)),
                            RequestView::Method(level, self.stmt.spec_ac()@),
                        ),
                        Err(e) => self.end(Err(e)),
                    },
                    _ => self.unexpected(),
                },
                StageView::Resolving(level) => match reply {
                    ReplyView::Method(Some(method)) => self.resolved(level, method),
                    ReplyView::Method(None) => self.end(
                        Err(Error::NotFound(Missing::AccessMethod)),
                    ),
                    _ => self.unexpected(),
                },
                StageView::Verifying(level, method) => match reply {
                    ReplyView::User(true) => (
                        self.at(StageView::Issuing(level, method)),
                        RequestView::Time,
                    ),
                    ReplyView::User(false) => self.end(Err(Error::NotFound(Missing::User))),
                    _ => self.unexpected(),
                },
                StageView::Fetching(level) => match reply {
                    ReplyView::Grant(grant) => self.judged(level, fetched(grant)),
                    _ => self.unexpected(),
                },
                StageView::Scanning(level) => match reply {
                    ReplyView::Grants(grants) => self.scanned(level, grants),
                    _ => self.unexpected(),
                },
                StageView::Judging(level, found, at) => match reply {
                    ReplyView::Verdict(Ok(truth)) => if at < found.len() {
                        self.judge(
                            level,
                            found.update(
                                at as int,
                                ScannedView {
                                    grant: found[at as int].grant,
                                    verdict: Verdict::Holds(truth),
                                },
                            ),
                            at + 1,
                        )
                    } else {
                        self.unexpected()
                    },
                    ReplyView::Verdict(Err(e)) => self.end(Err(e)),
                    _ => self.unexpected(),
                },
                StageView::Issuing(level, method) => match reply {
                    ReplyView::Time(now) => self.issue(level, method, now, key),
                    _ => self.unexpected(),
                },
                StageView::Revoking(level, found) => match reply {
                    ReplyView::Time(now) => self.revoke(level, found, now),
                    _ => self.unexpected(),
                },
                StageView::Purging(level, grants) => match reply {
                    ReplyView::Time(now) => self.purge(level, grants, now),
                    _ => self.unexpected(),
                },
                StageView::Performing(effects, at, output) => match reply {
                    ReplyView::Performed(answer) => if at < effects.len() {
                        match spec_settle(effects[at as int], answer) {
                            Ok(_) => self.perform(effects, at + 1, output),
                            Err(e) => self.end(Err(e)),
                        }
                    } else {
                        self.unexpected()
                    },
                    _ => self.unexpected(),
                },
                StageView::Ended => self.unexpected(),
            }
        }
    }
}

/// The start of a run: the level of the statement is worked out, and the
/// first thing asked is whether the caller is allowed there.
pub open spec fn spec_start(stmt: AccessStatement, selection: Selection, actor: String) -> (
    RunView,
    RequestView,
) {
    let run = RunView { stmt, selection, actor, stage: StageView::Ended };
    match spec_resolve_base(
        base_view(stmt.spec_base()),
        text_view(selection.ns),
        text_view(selection.db),
    ) {
        Ok(base) => (
            run.at(StageView::Allowing(base)),
            RequestView::Allowed(stmt.spec_action(), base),
        ),
        Err(e) => run.end(Err(e)),
    }
}

/// Where the reply makes the run issue a grant that the access method
/// allows, `key` is a bearer key as it comes out of key generation under
/// the prefix of the method. At every other step the key is of no account.
pub open spec fn drawn_for(run: RunView, reply: ReplyView, key: GrantBearerView) -> bool {
    match run.stage {
        StageView::Issuing(level, method) => match run.stmt {
            AccessStatement::Grant(stmt) => match spec_check(
                level,
                method.kind,
                stmt.subject@,
            ) {
                Ok(kind) => reply is Time ==> key.is_fresh(kind.spec_prefix()),
                Err(_) => true,
            },
            _ => true,
        },
        _ => true,
    }
}

/// The first position from `from` on that the statement puts its condition
/// to lies between `from` and the number of grants, and where it is a
/// position, the statement does put its condition to the grant there.
pub proof fn lemma_next_wanted(stmt: AccessStatement, found: Seq<ScannedView>, from: int)
    requires
        0 <= from <= found.len(),
    ensures
        from <= next_wanted(stmt, found, from) <= found.len(),
        next_wanted(stmt, found, from) < found.len() ==> wants(
            stmt,
            found[next_wanted(stmt, found, from)],
        ),
    decreases found.len() - from,
{
    if from < found.len() && !wants(stmt, found[from]) {
        lemma_next_wanted(stmt, found, from + 1);
    }
}

/// A run begins by asking whether the caller is allowed to do what the
/// statement needs, at the level of the statement, unless that level
/// cannot be worked out: then it ends at once.
pub proof fn lemma_permission_is_asked_first(
    stmt: AccessStatement,
    selection: Selection,
    actor: String,
)
    ensures
        ({
            let (run, request) = spec_start(stmt, selection, actor);
            match request {
                RequestView::Allowed(action, base) => action == stmt.spec_action()
                    && run.stage == StageView::Allowing(base),
                RequestView::Done(result) => result is Err && run.stage is Ended,
                _ => false,
            }
        }),
{
}

/// Until the caller is known to be allowed, nothing is read, written or
/// evaluated: whatever else is answered to the first question ends the
/// run with a failure, and a caller who is not allowed is denied.
pub proof fn lemma_nothing_without_permission(run: RunView, reply: ReplyView, key: GrantBearerView)
    requires
        run.stage is Allowing,
        reply != ReplyView::Allowed(true),
    ensures
        run.step(reply, key).0.stage is Ended,
        run.step(reply, key).1 is Done,
        run.step(reply, key).1->Done_0 is Err,
        reply == ReplyView::Allowed(false) ==> run.step(reply, key).1 == RequestView::Done(
            Err(Error::Denied),
        ),
{
}

proof fn lemma_scan_in_bounds(run: RunView, reply: ReplyView)
    ensures
        match run.stage {
            StageView::Judging(level, found, at) => match reply {
                ReplyView::Verdict(Ok(truth)) => at < found.len() ==> {
                    let next = found.update(
                        at as int,
                        ScannedView {
                            grant: found[at as int].grant,
                            verdict: Verdict::Holds(truth),
                        },
                    );
                    let wanted = next_wanted(run.stmt, next, at as int + 1);
                    at + 1 <= wanted <= next.len() && (wanted < next.len() ==> wants(
                        run.stmt,
                        next[wanted],
                    ))
                },
                _ => true,
            },
            StageView::Scanning(level) => match reply {
                ReplyView::Grants(grants) => {
                    let wanted = next_wanted(run.stmt, unasked(grants), 0);
                    0 <= wanted <= unasked(grants).len() && (wanted < unasked(grants).len()
                        ==> wants(run.stmt, unasked(grants)[wanted]))
                },
                _ => true,
            },
            _ => true,
        },
{
    match run.stage {
        StageView::Judging(level, found, at) => match reply {
            ReplyView::Verdict(Ok(truth)) => {
                if at < found.len() {
                    let next = found.update(
                        at as int,
                        ScannedView {
                            grant: found[at as int].grant,
                            verdict: Verdict::Holds(truth),
                        },
                    );
                    lemma_next_wanted(run.stmt, next, at as int + 1);
                }
            },
            _ => {},
        },
        StageView::Scanning(level) => match reply {
            ReplyView::Grants(grants) => {
                lemma_next_wanted(run.stmt, unasked(grants), 0);
            },
            _ => {},
        },
        _ => {},
    }
}

/// A run is over exactly when it says so: the request is the last one if
/// and only if the run is at its end. A run that is over takes no more
/// replies: whatever it is told, it stays over.
pub proof fn lemma_done_is_the_end(run: RunView, reply: ReplyView, key: GrantBearerView)
    ensures
        run.step(reply, key).1 is Done <==> run.step(reply, key).0.stage is Ended,
        run.stage is Ended ==> run.step(reply, key).1 is Done,
        run.step(reply, key).0.stmt == run.stmt,
        run.step(reply, key).0.selection == run.selection,
        run.step(reply, key).0.actor == run.actor,
{
    lemma_scan_in_bounds(run, reply);
}

impl RunView {
    /// The stage fits the statement: a run that was started with a
    /// statement, and moved on by replies, is never at a stage that belongs
    /// to another kind of statement, nor past the end of what it works
    /// through.
    pub open spec fn coherent(self) -> bool {
        match self.stage {
            StageView::Verifying(_, _) => self.stmt is Grant,
            StageView::Issuing(_, _) => self.stmt is Grant,
            StageView::Fetching(_) => self.stmt is Show || self.stmt is Revoke,
            StageView::Judging(_, found, at) => (self.stmt is Show || self.stmt is Revoke) && at
                < found.len(),
            StageView::Revoking(_, _) => self.stmt is Revoke,
            StageView::Purging(_, _) => self.stmt is Purge,
            StageView::Performing(effects, at, _) => !(self.stmt is Show) && at < effects.len(),
            _ => true,
        }
    }
}

/// A run starts with a stage that fits its statement, and every reply
/// leaves it at one.
pub proof fn lemma_runs_are_coherent(
    stmt: AccessStatement,
    selection: Selection,
    actor: String,
    run: RunView,
    reply: ReplyView,
    key: GrantBearerView,
)
    ensures
        spec_start(stmt, selection, actor).0.coherent(),
        run.coherent() ==> run.step(reply, key).0.coherent(),
{
    lemma_scan_in_bounds(run, reply);
}

/// How far a stage is into a run: permission comes before the access
/// method, the access method before the user and the grants, these before
/// the verdicts, the verdicts before the time, and the time before the
/// effects.
pub open spec fn rank(stage: StageView) -> nat {
    match stage {
        StageView::Allowing(_) => 0,
        StageView::Resolving(_) => 1,
        StageView::Verifying(_, _) => 2,
        StageView::Fetching(_) => 2,
        StageView::Scanning(_) => 2,
        StageView::Judging(_, _, _) => 3,
        StageView::Issuing(_, _) => 4,
        StageView::Revoking(_, _) => 4,
        StageView::Purging(_, _) => 4,
        StageView::Performing(_, _, _) => 5,
        StageView::Ended => 6,
    }
}

/// A run never goes back: every reply takes it to a later stage, or on
/// within the verdicts or the effects. It gets past the first stage only
/// on the answer that the caller is allowed, and past the second only
/// with an access method that was found.
pub proof fn lemma_stages_in_order(run: RunView, reply: ReplyView, key: GrantBearerView)
    requires
        run.coherent(),
    ensures
        ({
            let next = run.step(reply, key).0.stage;
            &&& rank(next) >= rank(run.stage)
            &&& rank(next) == rank(run.stage) ==> next is Judging || next is Performing
                || next is Ended
            &&& (next is Judging && run.stage is Judging) ==> next->Judging_2
                > run.stage->Judging_2
            &&& (next is Performing && run.stage is Performing) ==> next->Performing_1
                == run.stage->Performing_1 + 1
            &&& (run.stage is Allowing && !(next is Ended)) ==> reply == ReplyView::Allowed(true)
                && next is Resolving
            &&& (run.stage is Resolving && !(next is Ended)) ==> reply is Method
                && reply->Method_0 is Some
        }),
{
    lemma_scan_in_bounds(run, reply);
}

/// An effect is asked for only on the time, by a statement that changes
/// grants, or after an effect that was carried out: no show statement
/// asks for one. With the order of the stages, no effect is asked for
/// before the caller was found to be allowed, the access method was found
/// and the grants were looked up.
pub proof fn lemma_writes_have_a_cause(run: RunView, reply: ReplyView, key: GrantBearerView)
    requires
        run.coherent(),
        run.step(reply, key).1 is Perform,
    ensures
        !(run.stmt is Show),
        run.stage is Issuing || run.stage is Revoking || run.stage is Purging
            || run.stage is Performing,
        run.stage is Issuing ==> reply is Time,
        run.stage is Revoking ==> reply is Time,
        run.stage is Purging ==> reply is Time,
        run.stage is Performing ==> reply == ReplyView::Performed(StoreReply::Done),
{
    lemma_scan_in_bounds(run, reply);
}

/// The effects of a statement are asked for one by one, in their order,
/// and the first that the store does not carry out ends the run with the
/// failure that comes of it: a key that is taken on an insert is a
/// collision.
pub proof fn lemma_effects_in_order(run: RunView, answer: StoreReply, key: GrantBearerView)
    requires
        run.stage is Performing,
        run.coherent(),
    ensures
        ({
            let effects = run.stage->Performing_0;
            let at = run.stage->Performing_1;
            let output = run.stage->Performing_2;
            let next = run.step(ReplyView::Performed(answer), key);
            match spec_settle(effects[at as int], answer) {
                Ok(_) => if at + 1 < effects.len() {
                    next == (
                        run.at(StageView::Performing(effects, at + 1, output)),
                        RequestView::Perform(effects[at as int + 1]),
                    )
                } else {
                    next == run.end(Ok(output))
                },
                Err(e) => next == run.end(Err(e)),
            }
        }),
{
}

/// The grant as the condition of a statement sees it: the document of the
/// redacted grant.
pub open spec fn seen(scanned: ScannedView) -> ValueView {
    ValueView::Object(grant_document(scanned.grant.redacted()))
}

/// What was found, with the verdicts that the statement wants from the
/// position `from` on, where `truth` says of each document whether the
/// condition is true of it, or why that cannot be found out: the verdicts
/// are taken in scan order, and the first that cannot be had is the
/// failure of the whole.
pub open spec fn verdicts_in(
    stmt: AccessStatement,
    found: Seq<ScannedView>,
    from: int,
    truth: spec_fn(ValueView) -> Result<bool, Error>,
) -> Result<Seq<ScannedView>, Error>
    decreases found.len() - from,
{
    let at = next_wanted(stmt, found, from);
    if from < 0 || from > found.len() || at >= found.len() {
        Ok(found)
    } else {
        proof {
            lemma_next_wanted(stmt, found, from);
        }
        match truth(seen(found[at])) {
            Ok(holds) => verdicts_in(
                stmt,
                found.update(
                    at,
                    ScannedView { grant: found[at].grant, verdict: Verdict::Holds(holds) },
                ),
                at + 1,
                truth,
            ),
            Err(e) => Err(e),
        }
    }
}

/// The run after every verdict that it asks for was given according to
/// `truth`, in at most `bound` steps, and what it asks then.
pub open spec fn judged_through(
    step: (RunView, RequestView),
    truth: spec_fn(ValueView) -> Result<bool, Error>,
    key: GrantBearerView,
    bound: nat,
) -> (RunView, RequestView)
    decreases bound,
{
    if bound > 0 && step.1 is Verdict {
        judged_through(
            step.0.step(ReplyView::Verdict(truth(step.1->Verdict_1)), key),
            truth,
            key,
            (bound - 1) as nat,
        )
    } else {
        step
    }
}

/// A scan asks for the verdicts that the statement wants, on the redacted
/// grants and in scan order, and for nothing else. When all of them are
/// in, the run goes on with the grants and their verdicts; the first
/// verdict that cannot be had ends the run with that failure, and no
/// further grant is asked about.
pub proof fn lemma_judging_goes_through(
    run: RunView,
    level: LevelView,
    found: Seq<ScannedView>,
    from: nat,
    truth: spec_fn(ValueView) -> Result<bool, Error>,
    key: GrantBearerView,
    bound: nat,
)
    requires
        run.stmt is Show || run.stmt is Revoke,
        from <= found.len(),
        bound >= found.len() - from,
    ensures
        judged_through(run.judge(level, found, from), truth, key, bound) == match verdicts_in(
            run.stmt,
            found,
            from as int,
            truth,
        ) {
            Ok(judged) => run.judged(level, judged),
            Err(e) => run.end(Err(e)),
        },
    decreases found.len() - from,
{
    lemma_next_wanted(run.stmt, found, from as int);
    let at = next_wanted(run.stmt, found, from as int);
    if at < found.len() {
        let asked = run.judge(level, found, from);
        assert(asked.1 == RequestView::Verdict(condition(run.stmt), seen(found[at])));
        assert(bound > 0);
        match truth(seen(found[at])) {
            Ok(holds) => {
                let next = found.update(
                    at,
                    ScannedView { grant: found[at].grant, verdict: Verdict::Holds(holds) },
                );
                let judging = asked.0;
                assert(judging.step(ReplyView::Verdict(Ok(holds)), key) == judging.judge(
                    level,
                    next,
                    (at + 1) as nat,
                ));
                assert(judging.judge(level, next, (at + 1) as nat) == run.judge(
                    level,
                    next,
                    (at + 1) as nat,
                ));
                lemma_judging_goes_through(
                    run,
                    level,
                    next,
                    (at + 1) as nat,
                    truth,
                    key,
                    (bound - 1) as nat,
                );
            },
            Err(e) => {
                let judging = asked.0;
                assert(judging.step(ReplyView::Verdict(Err(e)), key) == run.end(Err(e)));
                assert(judged_through(run.end(Err(e)), truth, key, (bound - 1) as nat)
                    == run.end(Err(e)));
            },
        }
    } else {
        let done = run.judge(level, found, from);
        assert(done == run.judged(level, found));
        assert(!(done.1 is Verdict));
    }
}

/// A show statement without a named grant, from the scan to its end: it
/// returns the documents of the grants that pass its condition, redacted
/// and in scan order, unless its condition cannot be evaluated on a grant;
/// and it asks for no effect.
pub proof fn lemma_show_scan_goes_through(
    run: RunView,
    grants: Seq<AccessGrantView>,
    truth: spec_fn(ValueView) -> Result<bool, Error>,
    key: GrantBearerView,
)
    requires
        run.stage is Scanning,
        run.stmt is Show,
    ensures
        ({
            let stmt = run.stmt->Show_0;
            let end = judged_through(
                run.step(ReplyView::Grants(grants), key),
                truth,
                key,
                grants.len(),
            );
            match verdicts_in(run.stmt, unasked(grants), 0, truth) {
                Ok(judged) => end == run.end(
                    shown(spec_show(stmt.gr is Some, stmt.cond is Some, judged)),
                ),
                Err(e) => end == run.end(Err(e)),
            }
        }),
{
    lemma_judging_goes_through(
        run,
        run.stage->Scanning_0,
        unasked(grants),
        0,
        truth,
        key,
        grants.len(),
    );
}

/// A revoke statement without a named grant, from the scan to the point
/// where it asks for the time: by then it has the verdicts on the grants
/// that are not revoked, and on no others, unless its condition cannot be
/// evaluated on one of them: then it ends, and nothing is revoked.
pub proof fn lemma_revoke_scan_goes_through(
    run: RunView,
    grants: Seq<AccessGrantView>,
    truth: spec_fn(ValueView) -> Result<bool, Error>,
    key: GrantBearerView,
)
    requires
        run.stage is Scanning,
        run.stmt is Revoke,
    ensures
        ({
            let level = run.stage->Scanning_0;
            let end = judged_through(
                run.step(ReplyView::Grants(grants), key),
                truth,
                key,
                grants.len(),
            );
            match verdicts_in(run.stmt, unasked(grants), 0, truth) {
                Ok(judged) => end == (
                    run.at(StageView::Revoking(level, judged)),
                    RequestView::Time,
                ),
                Err(e) => end == run.end(Err(e)),
            }
        }),
{
    lemma_judging_goes_through(
        run,
        run.stage->Scanning_0,
        unasked(grants),
        0,
        truth,
        key,
        grants.len(),
    );
}

} // verus!
