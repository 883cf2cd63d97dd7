//! The store of grants as the engine expects it to behave, and what the
//! operations come to when their effects are carried out on it.
//!
//! Nothing here runs: the store is an outside service. This is the
//! contract that the engine relies on, written down, with the laws that
//! hold of the operations under that contract. The model is of a store
//! that is in working order: it refuses an insert under a key that is
//! taken, and makes every other write. A store that fails for another
//! reason ends the transaction, and nothing of it stays.

use vstd::prelude::*;
use crate::create::{issue_effects, issued_grant, spec_check, spec_issue, stored_form};
use crate::document::{grant_document, grant_documents, ValueView};
use crate::effect::{
    ancestors, audit_entry, grant_key, spec_settle, EffectView, GrantKeyView, Operation,
    OutcomeView, StoreReply,
};
use crate::error::Error;
use crate::grant::{AccessGrantView, GrantBearerView, SubjectView};
use crate::model::{RunView, StageView};
use crate::protocol::{OutputView, ReplyView, RequestView};
use crate::purge::{purge_effects, purge_rule, purgeable, redaction, spec_purge};
use crate::revoke::{
    revoke_effects, revoke_rule, scan_revoke_effects, spec_revoke, spec_revoke_all,
    spec_revoke_one,
};
use crate::show::{spec_show, ScannedView, Verdict};
use crate::tenancy::LevelView;
use crate::time::{Datetime, Duration};
use crate::views::text_view;

verus! {

/// The grants in the store, by key.
pub struct StoreModel {
    pub grants: Map<GrantKeyView, AccessGrantView>,
}

impl StoreModel {
    /// There is a grant under the key.
    pub open spec fn holds(self, key: GrantKeyView) -> bool {
        self.grants.dom().contains(key)
    }

    /// The store with `grant` under `key`.
    pub open spec fn with(self, key: GrantKeyView, grant: AccessGrantView) -> StoreModel {
        StoreModel { grants: self.grants.insert(key, grant) }
    }

    /// The store with nothing under `key`.
    pub open spec fn without(self, key: GrantKeyView) -> StoreModel {
        StoreModel { grants: self.grants.remove(key) }
    }

    /// The store after one effect, and its answer. An insert under a key
    /// that is taken writes nothing; other writes are made. Making sure of
    /// a container and writing to the log leave the grants as they are.
    pub open spec fn perform(self, effect: EffectView) -> (StoreModel, StoreReply) {
        match effect {
            EffectView::Insert(key, grant) => if self.holds(key) {
                (self, StoreReply::Exists)
            } else {
                (self.with(key, grant), StoreReply::Done)
            },
            EffectView::Overwrite(key, grant) => (self.with(key, grant), StoreReply::Done),
            EffectView::Delete(key) => (self.without(key), StoreReply::Done),
            _ => (self, StoreReply::Done),
        }
    }

    /// The store after the effects were carried out in order, up to the
    /// first that failed, and whether one failed.
    pub open spec fn run(self, effects: Seq<EffectView>) -> (StoreModel, Result<(), Error>)
        decreases effects.len(),
    {
        if effects.len() == 0 {
            (self, Ok(()))
        } else {
            let (next, reply) = self.perform(effects[0]);
            match spec_settle(effects[0], reply) {
                Ok(_) => next.run(effects.skip(1)),
                Err(e) => (next, Err(e)),
            }
        }
    }

    /// The store after a transaction that carries the effects out: all of
    /// them, or, if one fails, none.
    pub open spec fn commit(self, effects: Seq<EffectView>) -> Result<StoreModel, Error> {
        match self.run(effects).1 {
            Ok(_) => Ok(self.run(effects).0),
            Err(e) => Err(e),
        }
    }
}

/// Carrying out two runs of effects, one after the other, is carrying out
/// the second on what the first left, unless the first failed.
pub proof fn lemma_run_in_parts(store: StoreModel, first: Seq<EffectView>, second: Seq<EffectView>)
    ensures
        store.run(first + second) == match store.run(first).1 {
            Ok(_) => store.run(first).0.run(second),
            Err(e) => store.run(first),
        },
    decreases first.len(),
{
    if first.len() == 0 {
        assert(first + second =~= second);
    } else {
        let all = first + second;
        assert(all[0] == first[0]);
        assert(all.skip(1) =~= first.skip(1) + second);
        let (next, reply) = store.perform(first[0]);
        if spec_settle(first[0], reply) is Ok {
            lemma_run_in_parts(next, first.skip(1), second);
        }
    }
}

/// Making sure of the containers of a level changes no grant and does not
/// fail.
pub proof fn lemma_ancestors_change_nothing(store: StoreModel, level: LevelView)
    ensures
        store.run(ancestors(level)) == (store, Ok::<(), Error>(())),
{
    reveal_with_fuel(StoreModel::run, 3);
    let effects = ancestors(level);
    if effects.len() == 2 {
        assert(effects.skip(1).skip(1) =~= Seq::<EffectView>::empty());
        assert(effects.skip(1)[0] == effects[1]);
    } else if effects.len() == 1 {
        assert(effects.skip(1) =~= Seq::<EffectView>::empty());
    }
}

/// Issuing a grant, carried out, puts the stored form of the grant under
/// its key if that key is free, and changes nothing else. If the key is
/// taken, it fails with a collision.
pub proof fn lemma_issue_inserts_or_collides(
    store: StoreModel,
    level: LevelView,
    grant: AccessGrantView,
    actor: Seq<char>,
)
    ensures
        ({
            let place = grant_key(level, grant.ac, grant.id);
            store.commit(issue_effects(level, grant, actor)) == if store.holds(place) {
                Err::<StoreModel, Error>(Error::Collision)
            } else {
                Ok::<StoreModel, Error>(store.with(place, stored_form(grant)))
            }
        }),
{
    let place = grant_key(level, grant.ac, grant.id);
    let first = ancestors(level);
    let second = seq![
        EffectView::Insert(place, stored_form(grant)),
        EffectView::Audit(audit_entry(Operation::Create, grant, actor)),
    ];
    assert(issue_effects(level, grant, actor) == first + second);
    lemma_ancestors_change_nothing(store, level);
    lemma_run_in_parts(store, first, second);
    reveal_with_fuel(StoreModel::run, 3);
    assert(second.skip(1)[0] == second[1]);
    assert(second.skip(1).skip(1) =~= Seq::<EffectView>::empty());
}

/// A grant statement, carried out, puts the stored form of the new grant
/// under its key if that key is free, and changes nothing else. If the key
/// is taken, as it is when the key identifier was drawn before under the
/// same access method, the statement fails with a collision, and the store
/// stays as it was.
pub proof fn lemma_create_inserts_or_collides(
    store: StoreModel,
    level: LevelView,
    ac: Seq<char>,
    duration: Option<Duration>,
    subject: SubjectView,
    key: GrantBearerView,
    now: Datetime,
    actor: Seq<char>,
)
    ensures
        ({
            let issued = spec_issue(level, ac, duration, subject, key, now, actor);
            let place = grant_key(level, ac, key.id);
            store.commit(issued.effects) == if store.holds(place) {
                Err::<StoreModel, Error>(Error::Collision)
            } else {
                Ok::<StoreModel, Error>(store.with(place, stored_form(issued.grant)))
            }
        }),
{
    lemma_issue_inserts_or_collides(
        store,
        level,
        issued_grant(ac, duration, subject, key, now),
        actor,
    );
}

/// After a grant was issued, issuing another under the same access method
/// for which the same key identifier was drawn fails with a collision,
/// whatever else the two grants hold, and writes nothing.
pub proof fn lemma_second_create_collides(
    store: StoreModel,
    level: LevelView,
    first: AccessGrantView,
    first_actor: Seq<char>,
    second: AccessGrantView,
    second_actor: Seq<char>,
)
    requires
        first.ac == second.ac,
        first.id == second.id,
        store.commit(issue_effects(level, first, first_actor)) is Ok,
    ensures
        store.commit(issue_effects(level, first, first_actor))->Ok_0.commit(
            issue_effects(level, second, second_actor),
        ) == Err::<StoreModel, Error>(Error::Collision),
{
    lemma_issue_inserts_or_collides(store, level, first, first_actor);
    let after = store.commit(issue_effects(level, first, first_actor))->Ok_0;
    assert(after.holds(grant_key(level, first.ac, first.id)));
    lemma_issue_inserts_or_collides(after, level, second, second_actor);
}

/// What is stored of a grant shows as the grant itself does: redaction
/// takes the digest away as it takes the key away.
pub proof fn lemma_stored_form_shows_alike(grant: AccessGrantView)
    ensures
        stored_form(grant).redacted() == grant.redacted(),
{
}

/// The grant that was issued is the one that a show statement for its
/// identifier finds in the store, and what is shown of it is the grant
/// redacted: all that was returned when it was issued, but for the key.
pub proof fn lemma_show_after_create(
    store: StoreModel,
    level: LevelView,
    grant: AccessGrantView,
    actor: Seq<char>,
    filtered: bool,
    verdict: Verdict,
)
    requires
        store.commit(issue_effects(level, grant, actor)) is Ok,
    ensures
        ({
            let place = grant_key(level, grant.ac, grant.id);
            let after = store.commit(issue_effects(level, grant, actor))->Ok_0;
            let found = seq![ScannedView { grant: after.grants[place], verdict }];
            &&& after.holds(place)
            &&& after.grants[place] == stored_form(grant)
            &&& spec_show(true, filtered, found) == Ok::<ValueView, Error>(
                ValueView::Object(grant_document(grant.redacted())),
            )
        }),
{
    lemma_issue_inserts_or_collides(store, level, grant, actor);
}

/// Revoking carried out for one grant puts the revoked grant under the
/// key, and changes nothing else.
pub proof fn lemma_revoke_writes_back(
    store: StoreModel,
    level: LevelView,
    ac: Seq<char>,
    id: Seq<char>,
    revoked: AccessGrantView,
    actor: Seq<char>,
)
    ensures
        store.run(revoke_effects(level, ac, id, revoked, actor)) == (
            store.with(grant_key(level, ac, id), revoked),
            Ok::<(), Error>(()),
        ),
{
    let first = ancestors(level);
    let second = seq![
        EffectView::Overwrite(grant_key(level, ac, id), revoked),
        EffectView::Audit(audit_entry(Operation::Revoke, revoked, actor)),
    ];
    assert(revoke_effects(level, ac, id, revoked, actor) == first + second);
    lemma_ancestors_change_nothing(store, level);
    lemma_run_in_parts(store, first, second);
    reveal_with_fuel(StoreModel::run, 3);
    assert(second.skip(1)[0] == second[1]);
    assert(second.skip(1).skip(1) =~= Seq::<EffectView>::empty());
}

/// A grant is revoked once: after the statement that names it went
/// through, the store holds it with the time of that statement, and the
/// same statement, run again at any later time on what the store holds
/// now, fails and leaves that time as it is.
pub proof fn lemma_revoke_one_then_again(
    store: StoreModel,
    level: LevelView,
    ac: Seq<char>,
    id: Seq<char>,
    grant: AccessGrantView,
    verdict: Verdict,
    now: Datetime,
    later: Datetime,
    actor: Seq<char>,
)
    requires
        grant.revocation is None,
    ensures
        ({
            let place = grant_key(level, ac, id);
            let first = spec_revoke_one(
                level,
                ac,
                id,
                seq![ScannedView { grant, verdict }],
                now,
                actor,
            );
            &&& first is Ok
            &&& first->Ok_0.grants == seq![grant.revoked_at(now).redacted()]
            &&& store.commit(first->Ok_0.effects) == Ok::<StoreModel, Error>(
                store.with(place, grant.revoked_at(now)),
            )
            &&& spec_revoke_one(
                level,
                ac,
                id,
                seq![
                    ScannedView {
                        grant: store.commit(first->Ok_0.effects)->Ok_0.grants[place],
                        verdict,
                    },
                ],
                later,
                actor,
            ) == Err::<OutcomeView, Error>(Error::AlreadyRevoked)
        }),
{
    lemma_revoke_writes_back(store, level, ac, id, grant.revoked_at(now), actor);
}

/// The keys under which the grants of the access method `ac` at `level`
/// are stored.
pub open spec fn keys_of(level: LevelView, ac: Seq<char>, grants: Seq<AccessGrantView>) -> Set<
    GrantKeyView,
> {
    Set::new(
        |key: GrantKeyView|
            exists|i: int|
                0 <= i < grants.len() && key == grant_key(level, ac, (#[trigger] grants[i]).id),
    )
}

/// The grants are in the store, each under its key: they are what a scan
/// of the access method `ac` at `level` has found, or a part of it.
pub open spec fn scanned_from(
    store: StoreModel,
    level: LevelView,
    ac: Seq<char>,
    grants: Seq<AccessGrantView>,
) -> bool {
    forall|i: int|
        0 <= i < grants.len() ==> {
            let place = grant_key(level, ac, (#[trigger] grants[i]).id);
            store.holds(place) && store.grants[place] == grants[i]
        }
}

/// Purging carried out deletes the grants that it is asked for, and
/// changes nothing else.
pub proof fn lemma_purge_run(
    store: StoreModel,
    level: LevelView,
    ac: Seq<char>,
    actor: Seq<char>,
    due: Seq<AccessGrantView>,
)
    ensures
        store.run(due.flat_map(purge_effects(level, ac, actor))) == (
            StoreModel { grants: store.grants.remove_keys(keys_of(level, ac, due)) },
            Ok::<(), Error>(()),
        ),
    decreases due.len(),
{
    let todo = purge_effects(level, ac, actor);
    if due.len() == 0 {
        assert(due.flat_map(todo) =~= Seq::<EffectView>::empty());
        assert(store.grants.remove_keys(keys_of(level, ac, due)) =~= store.grants);
    } else {
        let head = due.drop_last();
        let last = due.last();
        let place = grant_key(level, ac, last.id);
        assert(due =~= head.push(last));
        head.lemma_flat_map_push(todo, last);
        lemma_purge_run(store, level, ac, actor, head);
        lemma_run_in_parts(store, head.flat_map(todo), todo(last));
        let before = StoreModel { grants: store.grants.remove_keys(keys_of(level, ac, head)) };
        assert(before.run(todo(last)) == (before.without(place), Ok::<(), Error>(()))) by {
            reveal_with_fuel(StoreModel::run, 3);
            assert(todo(last).skip(1)[0] == todo(last)[1]);
            assert(todo(last).skip(1).skip(1) =~= Seq::<EffectView>::empty());
        }
        assert(keys_of(level, ac, due) =~= keys_of(level, ac, head).insert(place)) by {
            assert forall|key: GrantKeyView| #[trigger]
                keys_of(level, ac, due).contains(key) implies keys_of(level, ac, head).insert(
                place,
            ).contains(key) by {
                let i = choose|i: int|
                    0 <= i < due.len() && key == grant_key(level, ac, (#[trigger] due[i]).id);
                if i < head.len() {
                    assert(head[i] == due[i]);
                }
            }
            assert forall|key: GrantKeyView| #[trigger]
                keys_of(level, ac, head).insert(place).contains(key) implies keys_of(
                level,
                ac,
                due,
            ).contains(key) by {
                if key == place {
                    assert(due[due.len() - 1] == last);
                } else {
                    let i = choose|i: int|
                        0 <= i < head.len() && key == grant_key(
                            level,
                            ac,
                            (#[trigger] head[i]).id,
                        );
                    assert(due[i] == head[i]);
                }
            }
        }
        assert(before.without(place).grants =~= store.grants.remove_keys(
            keys_of(level, ac, due),
        ));
    }
}

/// A purge statement, carried out, deletes the grants that are due, and
/// changes nothing else in the store.
pub proof fn lemma_purge_deletes_the_due(
    store: StoreModel,
    level: LevelView,
    ac: Seq<char>,
    expired: bool,
    revoked: bool,
    grace: Duration,
    grants: Seq<AccessGrantView>,
    now: Datetime,
    actor: Seq<char>,
)
    ensures
        ({
            let out = spec_purge(level, ac, expired, revoked, grace, grants, now, actor);
            let due = grants.filter(purge_rule(expired, revoked, grace, now));
            store.commit(out.effects) == Ok::<StoreModel, Error>(
                StoreModel { grants: store.grants.remove_keys(keys_of(level, ac, due)) },
            )
        }),
{
    lemma_purge_run(
        store,
        level,
        ac,
        actor,
        grants.filter(purge_rule(expired, revoked, grace, now)),
    );
}

/// A grant of the scan that is not due is still in the store, as it was,
/// after the purge statement was carried out: so is every grant that has
/// not expired and was not revoked.
pub proof fn lemma_purge_keeps_the_rest(
    store: StoreModel,
    level: LevelView,
    ac: Seq<char>,
    expired: bool,
    revoked: bool,
    grace: Duration,
    grants: Seq<AccessGrantView>,
    now: Datetime,
    actor: Seq<char>,
    i: int,
)
    requires
        scanned_from(store, level, ac, grants),
        0 <= i < grants.len(),
        !purgeable(grants[i], expired, revoked, grace, now),
    ensures
        ({
            let out = spec_purge(level, ac, expired, revoked, grace, grants, now, actor);
            let place = grant_key(level, ac, grants[i].id);
            &&& store.commit(out.effects) is Ok
            &&& store.commit(out.effects)->Ok_0.holds(place)
            &&& store.commit(out.effects)->Ok_0.grants[place] == grants[i]
        }),
{
    let rule = purge_rule(expired, revoked, grace, now);
    let due = grants.filter(rule);
    let place = grant_key(level, ac, grants[i].id);
    lemma_purge_deletes_the_due(store, level, ac, expired, revoked, grace, grants, now, actor);
    if keys_of(level, ac, due).contains(place) {
        let j = choose|j: int|
            0 <= j < due.len() && place == grant_key(level, ac, (#[trigger] due[j]).id);
        grants.lemma_filter_pred(rule, j);
        assert(due.contains(due[j]));
        grants.lemma_filter_contains_rev(rule, due[j]);
        let m = choose|m: int| 0 <= m < grants.len() && grants[m] == due[j];
        assert(store.grants[grant_key(level, ac, grants[m].id)] == grants[m]);
        assert(grants[m] == grants[i]);
        assert(false);
    }
}

/// Every grant of the scan that is due is gone from the store after the
/// purge statement was carried out.
pub proof fn lemma_purge_removes_the_due(
    store: StoreModel,
    level: LevelView,
    ac: Seq<char>,
    expired: bool,
    revoked: bool,
    grace: Duration,
    grants: Seq<AccessGrantView>,
    now: Datetime,
    actor: Seq<char>,
    i: int,
)
    requires
        0 <= i < grants.len(),
        purgeable(grants[i], expired, revoked, grace, now),
    ensures
        ({
            let out = spec_purge(level, ac, expired, revoked, grace, grants, now, actor);
            &&& store.commit(out.effects) is Ok
            &&& !store.commit(out.effects)->Ok_0.holds(grant_key(level, ac, grants[i].id))
            &&& out.grants.contains(grants[i].redacted())
        }),
{
    let rule = purge_rule(expired, revoked, grace, now);
    let due = grants.filter(rule);
    lemma_purge_deletes_the_due(store, level, ac, expired, revoked, grace, grants, now, actor);
    grants.lemma_filter_contains(rule, i);
    let j = choose|j: int| 0 <= j < due.len() && due[j] == grants[i];
    assert(keys_of(level, ac, due).contains(grant_key(level, ac, due[j].id)));
    assert(due.map_values(redaction())[j] == grants[i].redacted());
}

/// The store after the grants of `due` were revoked at `now`, one after
/// the other.
pub open spec fn revoked_in(
    store: StoreModel,
    level: LevelView,
    ac: Seq<char>,
    now: Datetime,
    due: Seq<ScannedView>,
) -> StoreModel
    decreases due.len(),
{
    if due.len() == 0 {
        store
    } else {
        revoked_in(store, level, ac, now, due.drop_last()).with(
            grant_key(level, ac, due.last().grant.id),
            due.last().grant.revoked_at(now),
        )
    }
}

/// Revoking carried out for the grants of a scan that are due writes each
/// of them back with its revocation time, and does not fail.
pub proof fn lemma_revoke_all_run(
    store: StoreModel,
    level: LevelView,
    ac: Seq<char>,
    now: Datetime,
    actor: Seq<char>,
    due: Seq<ScannedView>,
)
    ensures
        store.run(due.flat_map(scan_revoke_effects(level, ac, now, actor))) == (
            revoked_in(store, level, ac, now, due),
            Ok::<(), Error>(()),
        ),
    decreases due.len(),
{
    let todo = scan_revoke_effects(level, ac, now, actor);
    if due.len() == 0 {
        assert(due.flat_map(todo) =~= Seq::<EffectView>::empty());
    } else {
        let head = due.drop_last();
        let last = due.last();
        assert(due =~= head.push(last));
        head.lemma_flat_map_push(todo, last);
        lemma_revoke_all_run(store, level, ac, now, actor, head);
        lemma_run_in_parts(store, head.flat_map(todo), todo(last));
        lemma_revoke_writes_back(
            revoked_in(store, level, ac, now, head),
            level,
            ac,
            last.grant.id,
            last.grant.revoked_at(now),
            actor,
        );
    }
}

/// Revoking the grants of `due` leaves alone what is under a key that is
/// not the key of one of them.
pub proof fn lemma_revoked_in_elsewhere(
    store: StoreModel,
    level: LevelView,
    ac: Seq<char>,
    now: Datetime,
    due: Seq<ScannedView>,
    key: GrantKeyView,
)
    requires
        forall|i: int|
            0 <= i < due.len() ==> key != grant_key(level, ac, (#[trigger] due[i]).grant.id),
    ensures
        revoked_in(store, level, ac, now, due).holds(key) == store.holds(key),
        store.holds(key) ==> revoked_in(store, level, ac, now, due).grants[key]
            == store.grants[key],
    decreases due.len(),
{
    if due.len() > 0 {
        let head = due.drop_last();
        assert forall|i: int| 0 <= i < head.len() implies key != grant_key(
            level,
            ac,
            (#[trigger] head[i]).grant.id,
        ) by {
            assert(head[i] == due[i]);
        }
        assert(due[due.len() - 1] == due.last());
        lemma_revoked_in_elsewhere(store, level, ac, now, head, key);
    }
}

/// After the grants of `due` were revoked, the store holds each of them
/// with its revocation time, provided that grants of the same name are
/// the same grant.
pub proof fn lemma_revoked_in_at(
    store: StoreModel,
    level: LevelView,
    ac: Seq<char>,
    now: Datetime,
    due: Seq<ScannedView>,
    i: int,
)
    requires
        0 <= i < due.len(),
        forall|j: int, k: int|
            0 <= j < due.len() && 0 <= k < due.len() && (#[trigger] due[j]).grant.id == (
            #[trigger] due[k]).grant.id ==> due[j].grant == due[k].grant,
    ensures
        revoked_in(store, level, ac, now, due).holds(grant_key(level, ac, due[i].grant.id)),
        revoked_in(store, level, ac, now, due).grants[grant_key(level, ac, due[i].grant.id)]
            == due[i].grant.revoked_at(now),
    decreases due.len(),
{
    let head = due.drop_last();
    let last = due.last();
    assert(due[due.len() - 1] == last);
    if due[i].grant.id == last.grant.id {
        assert(due[i].grant == last.grant);
    } else {
        assert(head[i] == due[i]);
        assert forall|j: int, k: int|
            0 <= j < head.len() && 0 <= k < head.len() && (#[trigger] head[j]).grant.id == (
            #[trigger] head[k]).grant.id implies head[j].grant == head[k].grant by {
            assert(head[j] == due[j]);
            assert(head[k] == due[k]);
        }
        lemma_revoked_in_at(store, level, ac, now, head, i);
    }
}

/// The grants of what was found.
pub open spec fn grants_of(found: Seq<ScannedView>) -> Seq<AccessGrantView> {
    found.map_values(|scanned: ScannedView| scanned.grant)
}

/// A revoke statement without a named grant, carried out on a scan of the
/// store: every grant of the scan that is due is in the store with `now`
/// as its revocation time, and every grant that was revoked before is in
/// the store as it was, with the revocation time that it had.
pub proof fn lemma_revoke_all_in_store(
    store: StoreModel,
    level: LevelView,
    ac: Seq<char>,
    filtered: bool,
    found: Seq<ScannedView>,
    now: Datetime,
    actor: Seq<char>,
    i: int,
)
    requires
        scanned_from(store, level, ac, grants_of(found)),
        0 <= i < found.len(),
    ensures
        ({
            let out = spec_revoke_all(level, ac, filtered, found, now, actor);
            let place = grant_key(level, ac, found[i].grant.id);
            let after = store.commit(out.effects);
            &&& after is Ok
            &&& after->Ok_0.holds(place)
            &&& revoke_rule(filtered)(found[i]) ==> after->Ok_0.grants[place]
                == found[i].grant.revoked_at(now)
            &&& found[i].grant.is_revoked() ==> after->Ok_0.grants[place] == found[i].grant
        }),
{
    let rule = revoke_rule(filtered);
    let due = found.filter(rule);
    let place = grant_key(level, ac, found[i].grant.id);
    lemma_revoke_all_run(store, level, ac, now, actor, due);
    assert(grants_of(found)[i] == found[i].grant);
    assert forall|j: int| 0 <= j < due.len() implies found.contains(#[trigger] due[j]) && rule(
        due[j],
    ) by {
        found.lemma_filter_pred(rule, j);
        assert(due.contains(due[j]));
        found.lemma_filter_contains_rev(rule, due[j]);
    }
    assert forall|j: int| 0 <= j < due.len() implies store.grants[grant_key(
        level,
        ac,
        (#[trigger] due[j]).grant.id,
    )] == due[j].grant by {
        assert(found.contains(due[j]));
        let m = choose|m: int| 0 <= m < found.len() && found[m] == due[j];
        assert(grants_of(found)[m] == found[m].grant);
    }
    if rule(found[i]) {
        found.lemma_filter_contains(rule, i);
        let j = choose|j: int| 0 <= j < due.len() && due[j] == found[i];
        lemma_revoked_in_at(store, level, ac, now, due, j);
    } else if found[i].grant.is_revoked() {
        lemma_revoked_in_elsewhere(store, level, ac, now, due, place);
    } else {
        if exists|j: int| 0 <= j < due.len() && place == grant_key(
            level,
            ac,
            (#[trigger] due[j]).grant.id,
        ) {
            let j = choose|j: int|
                0 <= j < due.len() && place == grant_key(
                    level,
                    ac,
                    (#[trigger] due[j]).grant.id,
                );
            lemma_revoked_in_at(store, level, ac, now, due, j);
        } else {
            lemma_revoked_in_elsewhere(store, level, ac, now, due, place);
        }
    }
}

/// The store and the last request of a run that is carrying effects out,
/// after every effect that the run asks for was put to the store and the
/// store's answer was handed back.
pub open spec fn carried_out(run: RunView, store: StoreModel, key: GrantBearerView) -> (
    StoreModel,
    RequestView,
)
    decreases
        match run.stage {
            StageView::Performing(effects, at, _) => effects.len() - at,
            _ => 0,
        },
{
    match run.stage {
        StageView::Performing(effects, at, output) => if at < effects.len() {
            let (stored, answer) = store.perform(effects[at as int]);
            let (next, request) = run.step(ReplyView::Performed(answer), key);
            if request is Perform && next.stage is Performing && next.stage->Performing_0
                == effects && next.stage->Performing_1 == at + 1 {
                carried_out(next, stored, key)
            } else {
                (stored, request)
            }
        } else {
            (store, RequestView::Done(Err(Error::StoreFailure)))
        },
        _ => (store, RequestView::Done(Err(Error::StoreFailure))),
    }
}

/// What a run that carries effects out comes to is what the effects come
/// to on the store: if all of them are carried out, the run ends with its
/// output; if one fails, the run ends with that failure.
pub proof fn lemma_effects_are_run(
    run: RunView,
    store: StoreModel,
    key: GrantBearerView,
)
    requires
        run.stage is Performing,
        run.coherent(),
    ensures
        ({
            let effects = run.stage->Performing_0;
            let at = run.stage->Performing_1;
            let output = run.stage->Performing_2;
            let rest = effects.skip(at as int);
            carried_out(run, store, key) == (
                store.run(rest).0,
                RequestView::Done(
                    match store.run(rest).1 {
                        Ok(_) => Ok(output),
                        Err(e) => Err(e),
                    },
                ),
            )
        }),
    decreases run.stage->Performing_0.len() - run.stage->Performing_1,
{
    let effects = run.stage->Performing_0;
    let at = run.stage->Performing_1;
    let output = run.stage->Performing_2;
    let rest = effects.skip(at as int);
    assert(rest[0] == effects[at as int]);
    assert(rest.skip(1) =~= effects.skip(at as int + 1));
    let (stored, answer) = store.perform(effects[at as int]);
    let (next, request) = run.step(ReplyView::Performed(answer), key);
    crate::model::lemma_effects_in_order(run, answer, key);
    reveal_with_fuel(StoreModel::run, 2);
    assert(store.run(rest) == match spec_settle(rest[0], answer) {
        Ok(_) => stored.run(rest.skip(1)),
        Err(e) => (stored, Err::<(), Error>(e)),
    });
    if spec_settle(effects[at as int], answer) is Ok {
        if at + 1 < effects.len() {
            lemma_effects_are_run(next, stored, key);
            assert(carried_out(run, store, key) == carried_out(next, stored, key));
        } else {
            assert(rest.skip(1) =~= Seq::<EffectView>::empty());
            assert(carried_out(run, store, key) == (stored, request));
        }
    } else {
        assert(carried_out(run, store, key) == (stored, request));
    }
}

/// The store and the last request of a run after a step, once the
/// effects that the step leads to, if any, were carried out.
pub open spec fn carried_through(
    step: (RunView, RequestView),
    store: StoreModel,
    key: GrantBearerView,
) -> (StoreModel, RequestView) {
    if step.1 is Perform {
        carried_out(step.0, store, key)
    } else {
        (store, step.1)
    }
}

/// A step that leads to effects, carried through on the store, comes to
/// what the effects come to on the store.
pub proof fn lemma_carried_through(
    run: RunView,
    effects: Seq<EffectView>,
    output: OutputView,
    store: StoreModel,
    key: GrantBearerView,
)
    requires
        !(run.stmt is Show),
    ensures
        carried_through(run.perform(effects, 0, output), store, key) == (
            store.run(effects).0,
            RequestView::Done(
                match store.run(effects).1 {
                    Ok(_) => Ok(output),
                    Err(e) => Err(e),
                },
            ),
        ),
{
    if effects.len() > 0 {
        assert(effects.skip(0) =~= effects);
        lemma_effects_are_run(run.perform(effects, 0, output).0, store, key);
    }
}

/// A grant statement that has got the time, carried through on the store:
/// where the access method does not allow the grant, the statement fails
/// and writes nothing; where it does and the key of the new grant is free,
/// the statement returns the grant, with the key in plaintext, and the
/// store holds its stored form under that key; where the key is taken,
/// the statement fails with a collision.
pub proof fn lemma_issuing_goes_through(
    run: RunView,
    store: StoreModel,
    now: Datetime,
    key: GrantBearerView,
)
    requires
        run.stage is Issuing,
        run.coherent(),
    ensures
        ({
            let level = run.stage->Issuing_0;
            let method = run.stage->Issuing_1;
            let subject = run.stmt->Grant_0.subject@;
            let grant = issued_grant(method.name, method.grant_duration, subject, key, now);
            let place = grant_key(level, method.name, key.id);
            let end = carried_through(run.step(ReplyView::Time(now), key), store, key);
            match spec_check(level, method.kind, subject) {
                Err(e) => end == (store, RequestView::Done(Err(e))),
                Ok(_) => if store.holds(place) {
                    end.1 == RequestView::Done(Err(Error::Collision))
                } else {
                    end == (
                        store.with(place, stored_form(grant)),
                        RequestView::Done(Ok(OutputView::Grant(grant))),
                    )
                },
            }
        }),
{
    let level = run.stage->Issuing_0;
    let method = run.stage->Issuing_1;
    let subject = run.stmt->Grant_0.subject@;
    let grant = issued_grant(method.name, method.grant_duration, subject, key, now);
    if spec_check(level, method.kind, subject) is Ok {
        lemma_carried_through(
            run,
            issue_effects(level, grant, run.actor@),
            OutputView::Grant(grant),
            store,
            key,
        );
        lemma_issue_inserts_or_collides(store, level, grant, run.actor@);
    }
}

/// A purge statement that has got the time, carried through on the store:
/// it returns the documents of the grants that are due, redacted, and the
/// store holds what it held before but for those grants.
pub proof fn lemma_purging_goes_through(
    run: RunView,
    store: StoreModel,
    now: Datetime,
    key: GrantBearerView,
)
    requires
        run.stage is Purging,
        run.coherent(),
    ensures
        ({
            let level = run.stage->Purging_0;
            let grants = run.stage->Purging_1;
            let stmt = run.stmt->Purge_0;
            let due = grants.filter(purge_rule(stmt.expired, stmt.revoked, stmt.grace, now));
            carried_through(run.step(ReplyView::Time(now), key), store, key) == (
                StoreModel { grants: store.grants.remove_keys(keys_of(level, stmt.ac@, due)) },
                RequestView::Done(
                    Ok(
                        OutputView::Value(
                            ValueView::Array(grant_documents(due.map_values(redaction()))),
                        ),
                    ),
                ),
            )
        }),
{
    let level = run.stage->Purging_0;
    let grants = run.stage->Purging_1;
    let stmt = run.stmt->Purge_0;
    let out = spec_purge(
        level,
        stmt.ac@,
        stmt.expired,
        stmt.revoked,
        stmt.grace,
        grants,
        now,
        run.actor@,
    );
    lemma_carried_through(
        run,
        out.effects,
        OutputView::Value(ValueView::Array(grant_documents(out.grants))),
        store,
        key,
    );
    lemma_purge_deletes_the_due(
        store,
        level,
        stmt.ac@,
        stmt.expired,
        stmt.revoked,
        stmt.grace,
        grants,
        now,
        run.actor@,
    );
}

/// A revoke statement that has got the time, carried through on the
/// store. Where it names a grant: a grant that is missing or revoked
/// already is a failure, and nothing is written; else the store holds the
/// grant with `now` as its revocation time. Where it names none: if the
/// condition could not be evaluated on a grant, nothing is written; else
/// the store holds the grants that are due with `now` as their revocation
/// time, one written after the other.
pub proof fn lemma_revoking_goes_through(
    run: RunView,
    store: StoreModel,
    now: Datetime,
    key: GrantBearerView,
)
    requires
        run.stage is Revoking,
        run.coherent(),
    ensures
        ({
            let level = run.stage->Revoking_0;
            let found = run.stage->Revoking_1;
            let stmt = run.stmt->Revoke_0;
            let end = carried_through(run.step(ReplyView::Time(now), key), store, key);
            match spec_revoke(
                level,
                stmt.ac@,
                text_view(stmt.gr),
                stmt.cond is Some,
                found,
                now,
                run.actor@,
            ) {
                Err(e) => end == (store, RequestView::Done(Err(e))),
                Ok(out) => end == (
                    match stmt.gr {
                        Some(id) => store.with(
                            grant_key(level, stmt.ac@, id@),
                            found[0].grant.revoked_at(now),
                        ),
                        None => revoked_in(
                            store,
                            level,
                            stmt.ac@,
                            now,
                            found.filter(revoke_rule(stmt.cond is Some)),
                        ),
                    },
                    RequestView::Done(
                        Ok(OutputView::Value(ValueView::Array(grant_documents(out.grants)))),
                    ),
                ),
            }
        }),
{
    let level = run.stage->Revoking_0;
    let found = run.stage->Revoking_1;
    let stmt = run.stmt->Revoke_0;
    let outcome = spec_revoke(
        level,
        stmt.ac@,
        text_view(stmt.gr),
        stmt.cond is Some,
        found,
        now,
        run.actor@,
    );
    if outcome is Ok {
        let out = outcome->Ok_0;
        lemma_carried_through(
            run,
            out.effects,
            OutputView::Value(ValueView::Array(grant_documents(out.grants))),
            store,
            key,
        );
        match stmt.gr {
            Some(id) => {
                lemma_revoke_writes_back(
                    store,
                    level,
                    stmt.ac@,
                    id@,
                    found[0].grant.revoked_at(now),
                    run.actor@,
                );
            },
            None => {
                lemma_revoke_all_run(
                    store,
                    level,
                    stmt.ac@,
                    now,
                    run.actor@,
                    found.filter(revoke_rule(stmt.cond is Some)),
                );
            },
        }
    }
}

} // verus!
