//! Revoke: setting the revocation time of grants, once.

use vstd::prelude::*;
use crate::effect::{
    ancestors, audit_entry, grant_key, push_ancestors, AuditEntry, Effect,
    EffectView, GrantKey, Operation, Outcome, OutcomeView,
};
use crate::error::{ok_view, Error, Missing};
use crate::grant::{AccessGrant, AccessGrantView};
use crate::show::{passes, passes_condition, Scanned, ScannedView};
use crate::statement::AccessStatementRevoke;
use crate::tenancy::{Level, LevelView};
use crate::time::Datetime;
use crate::views::{lemma_filter_without, lemma_views_push, text_view, views};

verus! {

/// The grants that a statement without a named grant revokes, as a
/// predicate: those that are not revoked yet and pass its condition.
pub open spec fn revoke_rule(filtered: bool) -> spec_fn(ScannedView) -> bool {
    |scanned: ScannedView| scanned.grant.revocation is None && passes(filtered, scanned.verdict)
}

/// The form in which a grant revoked at `now` is returned.
pub open spec fn revoked_form(now: Datetime) -> spec_fn(ScannedView) -> AccessGrantView {
    |scanned: ScannedView| scanned.grant.revoked_at(now).redacted()
}

/// What revoking asks for one grant: the containers of the level are made
/// sure of, the grant `revoked`, which carries its revocation time, is
/// written over what is under the key, and the revocation is logged.
pub open spec fn revoke_effects(
    level: LevelView,
    ac: Seq<char>,
    id: Seq<char>,
    revoked: AccessGrantView,
    actor: Seq<char>,
) -> Seq<EffectView> {
    ancestors(level) + seq![
        EffectView::Overwrite(grant_key(level, ac, id), revoked),
        EffectView::Audit(audit_entry(Operation::Revoke, revoked, actor)),
    ]
}

/// What revoking at `now` asks for each grant of a scan that is due.
pub open spec fn scan_revoke_effects(
    level: LevelView,
    ac: Seq<char>,
    now: Datetime,
    actor: Seq<char>,
) -> spec_fn(ScannedView) -> Seq<EffectView> {
    |scanned: ScannedView|
        revoke_effects(level, ac, scanned.grant.id, scanned.grant.revoked_at(now), actor)
}

/// The outcome of revoking the grant named `id`, where `found` holds that
/// grant or nothing: a grant that is missing or already revoked is a
/// failure; else the grant gets `now` as its revocation time.
pub open spec fn spec_revoke_one(
    level: LevelView,
    ac: Seq<char>,
    id: Seq<char>,
    found: Seq<ScannedView>,
    now: Datetime,
    actor: Seq<char>,
) -> Result<OutcomeView, Error> {
    if found.len() == 0 {
        Err(Error::NotFound(Missing::Grant))
    } else if found[0].grant.revocation is Some {
        Err(Error::AlreadyRevoked)
    } else {
        let revoked = found[0].grant.revoked_at(now);
        Ok(
            OutcomeView {
                grants: seq![revoked.redacted()],
                effects: revoke_effects(level, ac, id, revoked, actor),
            },
        )
    }
}

/// The outcome of revoking all grants of a scan that are due: each gets
/// `now` as its revocation time. Grants that are revoked already, and
/// grants that do not pass the condition, are passed over.
pub open spec fn spec_revoke_all(
    level: LevelView,
    ac: Seq<char>,
    filtered: bool,
    found: Seq<ScannedView>,
    now: Datetime,
    actor: Seq<char>,
) -> OutcomeView {
    let due = found.filter(revoke_rule(filtered));
    OutcomeView {
        grants: due.map_values(revoked_form(now)),
        effects: due.flat_map(scan_revoke_effects(level, ac, now, actor)),
    }
}

/// The outcome of a revoke statement.
pub open spec fn spec_revoke(
    level: LevelView,
    ac: Seq<char>,
    named: Option<Seq<char>>,
    filtered: bool,
    found: Seq<ScannedView>,
    now: Datetime,
    actor: Seq<char>,
) -> Result<OutcomeView, Error> {
    match named {
        Some(id) => spec_revoke_one(level, ac, id, found, now, actor),
        None => Ok(spec_revoke_all(level, ac, filtered, found, now, actor)),
    }
}

/// Whether the statement needs a verdict on this grant of its scan: it
/// does where it names no grant and has a condition, and the grant is not
/// revoked yet.
pub fn wants_verdict(stmt: &AccessStatementRevoke, grant: &AccessGrant) -> (r: bool)
    ensures
        r == (stmt.gr is None && stmt.cond is Some && grant.revocation is None),
{
    stmt.gr.is_none() && stmt.cond.is_some() && grant.revocation.is_none()
}

/// The grant with `now` as its revocation time.
pub fn revoked_at(grant: &AccessGrant, now: &Datetime) -> (revoked: AccessGrant)
    ensures
        revoked@ == grant@.revoked_at(*now),
{
    let mut revoked = grant.clone();
    revoked.revocation = Some(*now);
    revoked
}

fn push_revocation(
    effects: &mut Vec<Effect>,
    level: &Level,
    ac: &String,
    id: &String,
    revoked: AccessGrant,
    actor: &str,
)
    ensures
        views(final(effects)@) == views(old(effects)@) + revoke_effects(
            level@,
            ac@,
            id@,
            revoked@,
            actor@,
        ),
{
    push_ancestors(effects, level);
    let entry = Effect::Audit(AuditEntry::new(Operation::Revoke, &revoked, actor));
    let write = Effect::Overwrite(GrantKey::new(level, ac, id), revoked);
    proof {
        lemma_views_push(effects@, write);
        lemma_views_push(effects@.push(write), entry);
        assert(views(effects@).push(write@).push(entry@) =~= views(old(effects)@) + revoke_effects(
            level@,
            ac@,
            id@,
            revoked@,
            actor@,
        ));
    }
    effects.push(write);
    effects.push(entry);
}

/// Revokes all grants of a scan that are due.
pub fn revoke_all(
    stmt: &AccessStatementRevoke,
    level: &Level,
    found: &Vec<Scanned>,
    now: &Datetime,
    actor: &str,
) -> (out: Outcome)
    ensures
        out@ == spec_revoke_all(level@, stmt.ac@, stmt.cond is Some, views(found@), *now, actor@),
{
    let filtered = stmt.cond.is_some();
    let ghost rule = revoke_rule(filtered);
    let ghost todo = scan_revoke_effects(level@, stmt.ac@, *now, actor@);
    let ghost all = views(found@);
    let mut revoked: Vec<AccessGrant> = Vec::new();
    let mut effects: Vec<Effect> = Vec::new();
    let mut at: usize = 0;
    proof {
        assert(all.take(0).filter(rule) =~= Seq::<ScannedView>::empty()) by {
            reveal(Seq::filter);
        }
        assert(views(revoked@) =~= all.take(0).filter(rule).map_values(revoked_form(*now)));
        assert(views(effects@) =~= all.take(0).filter(rule).flat_map(todo));
    }
    while at < found.len()
        invariant
            at <= found.len(),
            all == views(found@),
            rule == revoke_rule(filtered),
            todo == scan_revoke_effects(level@, stmt.ac@, *now, actor@),
            views(revoked@) == all.take(at as int).filter(rule).map_values(revoked_form(*now)),
            views(effects@) == all.take(at as int).filter(rule).flat_map(todo),
        decreases found.len() - at,
    {
        let scanned = &found[at];
        let ghost due = all.take(at as int).filter(rule);
        proof {
            assert(all[at as int] == scanned@);
            all.lemma_take_succ_push(at as int);
            all.take(at as int).lemma_filter_push(scanned@, rule);
        }
        if scanned.grant.revocation.is_none() && passes_condition(filtered, &scanned.verdict) {
            let grant = revoked_at(&scanned.grant, now);
            let shown = grant.redacted();
            proof {
                lemma_views_push(revoked@, shown);
                due.lemma_push_map_commute(revoked_form(*now), scanned@);
                due.lemma_flat_map_push(todo, scanned@);
            }
            push_revocation(&mut effects, level, &stmt.ac, &scanned.grant.id, grant, actor);
            revoked.push(shown);
        }
        at = at + 1;
    }
    proof {
        assert(all.take(at as int) =~= all);
    }
    Outcome { grants: revoked, effects }
}

/// Revokes grants of an access method.
///
/// `found` is what the store holds for the statement: where the statement
/// names a grant, that grant, or nothing if it does not exist; else all
/// grants of the access method `stmt.ac` at `level` in scan order, each
/// with the verdict of the statement's condition where [`wants_verdict`]
/// asks for one. `now` is the current time.
///
/// A named grant that is already revoked is a failure. In a scan, grants
/// that are already revoked are passed over, and so are those that do not
/// pass the condition. Every grant that is revoked gets `now` as its
/// revocation time, is written back, and is logged as revoked by `actor`.
/// Returned are the revoked grants, redacted, in scan order.
pub fn revoke_grant(
    stmt: &AccessStatementRevoke,
    level: &Level,
    found: &Vec<Scanned>,
    now: &Datetime,
    actor: &str,
) -> (r: Result<Outcome, Error>)
    ensures
        ok_view(r) == spec_revoke(
            level@,
            stmt.ac@,
            text_view(stmt.gr),
            stmt.cond is Some,
            views(found@),
            *now,
            actor@,
        ),
{
    match &stmt.gr {
        Some(id) => {
            if found.len() == 0 {
                return Err(Error::NotFound(Missing::Grant));
            }
            if found[0].grant.revocation.is_some() {
                return Err(Error::AlreadyRevoked);
            }
            let grant = revoked_at(&found[0].grant, now);
            let shown = grant.redacted();
            let mut effects: Vec<Effect> = Vec::new();
            push_revocation(&mut effects, level, &stmt.ac, id, grant, actor);
            let mut revoked: Vec<AccessGrant> = Vec::new();
            revoked.push(shown);
            let out = Outcome { grants: revoked, effects };
            proof {
                assert(views(found@)[0] == found@[0]@);
                assert(out@.grants =~= seq![found@[0]@.grant.revoked_at(*now).redacted()]);
                assert(out@.effects =~= revoke_effects(
                    level@,
                    stmt.ac@,
                    id@,
                    found@[0]@.grant.revoked_at(*now),
                    actor@,
                ));
            }
            Ok(out)
        },
        None => Ok(revoke_all(stmt, level, found, now, actor)),
    }
}

/// Revoking a named grant that is already revoked fails, and asks for
/// nothing to be done.
pub proof fn lemma_revoke_one_is_not_repeated(
    level: LevelView,
    ac: Seq<char>,
    id: Seq<char>,
    found: Seq<ScannedView>,
    now: Datetime,
    actor: Seq<char>,
)
    requires
        found.len() > 0,
        found[0].grant.is_revoked(),
    ensures
        spec_revoke_one(level, ac, id, found, now, actor) == Err::<OutcomeView, Error>(
            Error::AlreadyRevoked,
        ),
{
}

/// A scan passes over a grant that is already revoked: the outcome is
/// what it would be if the grant were not there. The grant is not among
/// those returned, and nothing is written for it, so that its revocation
/// time stays as it is.
pub proof fn lemma_revoke_all_skips_revoked(
    level: LevelView,
    ac: Seq<char>,
    filtered: bool,
    found: Seq<ScannedView>,
    i: int,
    now: Datetime,
    actor: Seq<char>,
)
    requires
        0 <= i < found.len(),
        found[i].grant.is_revoked(),
    ensures
        spec_revoke(level, ac, None, filtered, found, now, actor) == spec_revoke(
            level,
            ac,
            None,
            filtered,
            found.remove(i),
            now,
            actor,
        ),
{
    lemma_filter_without(found, i, revoke_rule(filtered));
}

/// Whatever a scan writes is a grant that had no revocation time and now
/// has `now`: a revocation time, once set, is not set again.
pub proof fn lemma_revoke_sets_time_once(
    level: LevelView,
    ac: Seq<char>,
    filtered: bool,
    found: Seq<ScannedView>,
    i: int,
    now: Datetime,
    actor: Seq<char>,
)
    requires
        0 <= i < found.filter(revoke_rule(filtered)).len(),
    ensures
        ({
            let due = found.filter(revoke_rule(filtered))[i];
            let out = spec_revoke_all(level, ac, filtered, found, now, actor);
            &&& found.contains(due)
            &&& due.grant.revocation is None
            &&& out.grants[i] == due.grant.revoked_at(now).redacted()
            &&& out.grants[i].revocation == Some(now)
        }),
{
    let rule = revoke_rule(filtered);
    let due = found.filter(rule);
    found.lemma_filter_pred(rule, i);
    assert(due.contains(due[i]));
    found.lemma_filter_contains_rev(rule, due[i]);
}

} // verus!
