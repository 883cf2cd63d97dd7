//! Purge: deleting grants that have been expired or revoked for longer
//! than a grace period.

use vstd::prelude::*;
use crate::effect::{
    audit_entry, grant_key, AuditEntry, Effect, EffectView, GrantKey,
    Operation, Outcome, OutcomeView,
};
use crate::grant::{AccessGrant, AccessGrantView};
use crate::statement::AccessStatementPurge;
use crate::tenancy::{Level, LevelView};
use crate::time::{Datetime, Duration};
use crate::views::{lemma_views_push, views};

verus! {

/// The instant `at` is not in the future of `now`, and lies more than
/// `grace` before it, both taken in whole seconds. An instant exactly
/// `grace` back has not lapsed yet.
pub open spec fn lapsed(at: Datetime, grace: Duration, now: Datetime) -> bool {
    now.secs >= at.secs && now.elapsed_secs(at) > grace.secs
}

/// The grant is due for deletion at `now`: expired grants are asked for and
/// its expiration time has lapsed, or revoked grants are asked for and its
/// revocation time has lapsed.
pub open spec fn purgeable(
    grant: AccessGrantView,
    expired: bool,
    revoked: bool,
    grace: Duration,
    now: Datetime,
) -> bool {
    ||| expired && grant.expiration is Some && lapsed(grant.expiration->0, grace, now)
    ||| revoked && grant.revocation is Some && lapsed(grant.revocation->0, grace, now)
}

/// The rule of a purge statement at `now`, as a predicate on grants.
pub open spec fn purge_rule(
    expired: bool,
    revoked: bool,
    grace: Duration,
    now: Datetime,
) -> spec_fn(AccessGrantView) -> bool {
    |grant: AccessGrantView| purgeable(grant, expired, revoked, grace, now)
}

/// Redaction, as a function on grants.
pub open spec fn redaction() -> spec_fn(AccessGrantView) -> AccessGrantView {
    |grant: AccessGrantView| grant.redacted()
}

/// What purging asks for a grant that is due: its deletion, then an entry
/// in the audit log.
pub open spec fn purge_effects(level: LevelView, ac: Seq<char>, actor: Seq<char>) -> spec_fn(
    AccessGrantView,
) -> Seq<EffectView> {
    |grant: AccessGrantView|
        seq![
            EffectView::Delete(grant_key(level, ac, grant.id)),
            EffectView::Audit(audit_entry(Operation::Purge, grant, actor)),
        ]
}

/// The outcome of purging the access method `ac` at `level`, where
/// `grants` are its grants in scan order: the grants that are due are
/// returned redacted, and each of them is deleted and logged, all in scan
/// order.
pub open spec fn spec_purge(
    level: LevelView,
    ac: Seq<char>,
    expired: bool,
    revoked: bool,
    grace: Duration,
    grants: Seq<AccessGrantView>,
    now: Datetime,
    actor: Seq<char>,
) -> OutcomeView {
    let due = grants.filter(purge_rule(expired, revoked, grace, now));
    OutcomeView {
        grants: due.map_values(redaction()),
        effects: due.flat_map(purge_effects(level, ac, actor)),
    }
}

/// Whether `at` has lapsed at `now` under `grace`.
pub fn has_lapsed(at: &Datetime, grace: &Duration, now: &Datetime) -> (r: bool)
    ensures
        r == lapsed(*at, *grace, *now),
{
    now.timestamp() >= at.timestamp() && now.seconds_since(at) > grace.secs()
}

/// Whether the statement deletes the grant at `now`.
pub fn is_purgeable(grant: &AccessGrant, stmt: &AccessStatementPurge, now: &Datetime) -> (r: bool)
    ensures
        r == purgeable(grant@, stmt.expired, stmt.revoked, stmt.grace, *now),
{
    let purge_expired = stmt.expired && match &grant.expiration {
        Some(at) => has_lapsed(at, &stmt.grace, now),
        None => false,
    };
    let purge_revoked = stmt.revoked && match &grant.revocation {
        Some(at) => has_lapsed(at, &stmt.grace, now),
        None => false,
    };
    purge_expired || purge_revoked
}

/// Purges the grants of an access method.
///
/// `grants` are all grants of the access method `stmt.ac` at `level`, in
/// the order of the store's scan, and `now` is the current time. Every
/// grant that is due is deleted, and logged as purged by `actor`; the
/// others are left alone. Returned are the deleted grants, redacted, in
/// scan order.
pub fn compute_purge(
    stmt: &AccessStatementPurge,
    level: &Level,
    grants: &Vec<AccessGrant>,
    now: &Datetime,
    actor: &str,
) -> (out: Outcome)
    ensures
        out@ == spec_purge(
            level@,
            stmt.ac@,
            stmt.expired,
            stmt.revoked,
            stmt.grace,
            views(grants@),
            *now,
            actor@,
        ),
{
    let ghost rule = purge_rule(stmt.expired, stmt.revoked, stmt.grace, *now);
    let ghost todo = purge_effects(level@, stmt.ac@, actor@);
    let ghost all = views(grants@);
    let mut purged: Vec<AccessGrant> = Vec::new();
    let mut effects: Vec<Effect> = Vec::new();
    let mut at: usize = 0;
    proof {
        assert(all.take(0).filter(rule) =~= Seq::<AccessGrantView>::empty()) by {
            reveal(Seq::filter);
        }
        assert(views(purged@) =~= all.take(0).filter(rule).map_values(redaction()));
        assert(views(effects@) =~= all.take(0).filter(rule).flat_map(todo));
    }
    while at < grants.len()
        invariant
            at <= grants.len(),
            all == views(grants@),
            rule == purge_rule(stmt.expired, stmt.revoked, stmt.grace, *now),
            todo == purge_effects(level@, stmt.ac@, actor@),
            views(purged@) == all.take(at as int).filter(rule).map_values(redaction()),
            views(effects@) == all.take(at as int).filter(rule).flat_map(todo),
        decreases grants.len() - at,
    {
        let grant = &grants[at];
        let ghost due = all.take(at as int).filter(rule);
        proof {
            assert(all[at as int] == grant@);
            all.lemma_take_succ_push(at as int);
            all.take(at as int).lemma_filter_push(grant@, rule);
        }
        if is_purgeable(grant, stmt, now) {
            let shown = grant.redacted();
            let removal = Effect::Delete(GrantKey::new(level, &stmt.ac, &grant.id));
            let entry = Effect::Audit(AuditEntry::new(Operation::Purge, grant, actor));
            proof {
                lemma_views_push(purged@, shown);
                due.lemma_push_map_commute(redaction(), grant@);
                due.lemma_flat_map_push(todo, grant@);
                lemma_views_push(effects@, removal);
                lemma_views_push(effects@.push(removal), entry);
                assert(views(effects@).push(removal@).push(entry@) =~= views(effects@) + todo(
                    grant@,
                ));
            }
            purged.push(shown);
            effects.push(removal);
            effects.push(entry);
        }
        at = at + 1;
    }
    proof {
        assert(all.take(at as int) =~= all);
    }
    Outcome { grants: purged, effects }
}

/// The grant is due for deletion as a revoked grant.
pub open spec fn revocation_lapsed(
    grant: AccessGrantView,
    revoked: bool,
    grace: Duration,
    now: Datetime,
) -> bool {
    revoked && grant.revocation is Some && lapsed(grant.revocation->0, grace, now)
}

/// A grant that has not expired at `now` is never deleted on account of
/// its expiry, whatever the flags and however short the grace period:
/// unless it is due as a revoked grant, it stays.
pub proof fn lemma_purge_spares_the_future(
    grant: AccessGrantView,
    expired: bool,
    revoked: bool,
    grace: Duration,
    now: Datetime,
)
    requires
        !grant.is_expired(now),
        !revocation_lapsed(grant, revoked, grace, now),
    ensures
        !purgeable(grant, expired, revoked, grace, now),
{
}

/// The grace period is strict: a grant that expired exactly `grace`
/// seconds ago stays, unless it is due as a revoked grant.
pub proof fn lemma_purge_keeps_at_grace(
    grant: AccessGrantView,
    expired: bool,
    revoked: bool,
    grace: Duration,
    now: Datetime,
)
    requires
        grant.expiration is Some,
        now.secs - grant.expiration->0.secs == grace.secs,
        !revocation_lapsed(grant, revoked, grace, now),
    ensures
        !purgeable(grant, expired, revoked, grace, now),
{
}

/// One second past the grace period an expired grant is deleted, once
/// expired grants are asked for.
pub proof fn lemma_purge_deletes_past_grace(
    grant: AccessGrantView,
    revoked: bool,
    grace: Duration,
    now: Datetime,
)
    requires
        grant.expiration is Some,
        now.secs - grant.expiration->0.secs == grace.secs + 1,
    ensures
        purgeable(grant, true, revoked, grace, now),
{
}

} // verus!
