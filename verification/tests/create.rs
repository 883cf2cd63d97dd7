use access_grants::create::{
    check_grant, create_grant, create_grant_with_key, issue_grant, required_user, stored, Issued,
};
use access_grants::effect::{AuditEntry, Effect, GrantKey, Operation};
use access_grants::error::{Error, Unsupported};
use access_grants::grant::{AccessGrant, Grant, GrantBearer, GrantJwt, Subject, Thing, Uuid};
use access_grants::method::{
    AccessMethod, AccessType, BearerAccess, BearerAccessSubject, BearerAccessType, RecordAccess,
};
use access_grants::statement::AccessStatementGrant;
use access_grants::tenancy::Level;
use access_grants::time::{Datetime, Duration};

fn user() -> Subject {
    Subject::User(String::from("alice"))
}

fn record() -> Subject {
    Subject::Record(Thing { tb: String::from("person"), id: String::from("tobie") })
}

fn db() -> Level {
    Level::Db(String::from("ns"), String::from("db"))
}

fn ns() -> Level {
    Level::Ns(String::from("ns"))
}

fn method(kind: AccessType, grant_duration: Option<Duration>) -> AccessMethod {
    AccessMethod { name: String::from("api"), kind, grant_duration }
}

fn bearer_for(subject: BearerAccessSubject) -> AccessType {
    AccessType::Bearer(BearerAccess { kind: BearerAccessType::Bearer, subject })
}

fn record_with_refresh() -> AccessType {
    AccessType::Record(RecordAccess {
        bearer: Some(BearerAccess {
            kind: BearerAccessType::Refresh,
            subject: BearerAccessSubject::Record,
        }),
    })
}

fn statement(subject: Subject) -> AccessStatementGrant {
    AccessStatementGrant { ac: String::from("api"), base: None, subject }
}

fn fixed_key(prefix: &str) -> GrantBearer {
    GrantBearer::from_parts(prefix, "aB3dE6gH9jKl", "0123456789abcdefghijklmn")
}

#[test]
fn the_prefix_tells_the_kind_of_key() {
    assert_eq!(BearerAccessType::Bearer.prefix(), "surreal-bearer");
    assert_eq!(BearerAccessType::Refresh.prefix(), "surreal-refresh");
}

#[test]
fn no_grants_for_token_methods() {
    let m = method(AccessType::Jwt, None);
    for level in [Level::Root, ns(), db()] {
        for subject in [user(), record()] {
            assert_eq!(
                check_grant(&level, &m, &subject),
                Err(Error::Unimplemented(Unsupported::TokenGrant))
            );
        }
    }
}

#[test]
fn record_methods_refuse_users_at_every_level() {
    let m = method(record_with_refresh(), None);
    for level in [Level::Root, ns(), db()] {
        assert_eq!(check_grant(&level, &m, &user()), Err(Error::InvalidSubject));
    }
}

#[test]
fn record_methods_need_the_database_level() {
    let m = method(record_with_refresh(), None);
    assert_eq!(check_grant(&Level::Root, &m, &record()), Err(Error::LevelMismatch));
    assert_eq!(check_grant(&ns(), &m, &record()), Err(Error::LevelMismatch));
    assert_eq!(check_grant(&db(), &m, &record()), Ok(BearerAccessType::Refresh));
}

#[test]
fn record_methods_must_allow_bearer_grants() {
    let m = method(AccessType::Record(RecordAccess { bearer: None }), None);
    assert_eq!(check_grant(&db(), &m, &record()), Err(Error::MethodMismatch));
    assert_eq!(check_grant(&ns(), &m, &record()), Err(Error::LevelMismatch));
    assert_eq!(check_grant(&db(), &m, &user()), Err(Error::InvalidSubject));
}

#[test]
fn bearer_methods_take_the_subject_they_are_configured_for() {
    let for_users = method(bearer_for(BearerAccessSubject::User), None);
    let for_records = method(bearer_for(BearerAccessSubject::Record), None);
    assert_eq!(check_grant(&Level::Root, &for_users, &user()), Ok(BearerAccessType::Bearer));
    assert_eq!(check_grant(&ns(), &for_users, &user()), Ok(BearerAccessType::Bearer));
    assert_eq!(check_grant(&db(), &for_users, &user()), Ok(BearerAccessType::Bearer));
    assert_eq!(check_grant(&db(), &for_users, &record()), Err(Error::InvalidSubject));
    assert_eq!(check_grant(&db(), &for_records, &record()), Ok(BearerAccessType::Bearer));
    assert_eq!(check_grant(&db(), &for_records, &user()), Err(Error::InvalidSubject));
}

#[test]
fn a_record_as_subject_needs_the_database_level_first() {
    let for_users = method(bearer_for(BearerAccessSubject::User), None);
    let for_records = method(bearer_for(BearerAccessSubject::Record), None);
    assert_eq!(check_grant(&Level::Root, &for_records, &record()), Err(Error::LevelMismatch));
    assert_eq!(check_grant(&ns(), &for_records, &record()), Err(Error::LevelMismatch));
    assert_eq!(check_grant(&ns(), &for_users, &record()), Err(Error::LevelMismatch));
}

#[test]
fn only_a_user_has_to_exist() {
    let for_users = method(bearer_for(BearerAccessSubject::User), None);
    let for_records = method(bearer_for(BearerAccessSubject::Record), None);
    assert_eq!(required_user(&ns(), &for_users, &user()), Ok(Some(String::from("alice"))));
    assert_eq!(required_user(&db(), &for_records, &record()), Ok(None));
    assert_eq!(required_user(&db(), &method(record_with_refresh(), None), &record()), Ok(None));
    assert_eq!(required_user(&db(), &for_records, &user()), Err(Error::InvalidSubject));
    assert_eq!(
        required_user(&db(), &method(AccessType::Jwt, None), &user()),
        Err(Error::Unimplemented(Unsupported::TokenGrant))
    );
}

#[test]
fn an_issued_grant_is_named_after_its_key() {
    let m = method(bearer_for(BearerAccessSubject::User), None);
    let now = Datetime::new(1_700_000_000, 250);
    let issued = issue_grant(&db(), &m, &user(), fixed_key("surreal-bearer"), &now, "root");
    let expected = AccessGrant {
        id: String::from("aB3dE6gH9jKl"),
        ac: String::from("api"),
        creation: now,
        expiration: None,
        revocation: None,
        subject: user(),
        grant: Grant::Bearer(fixed_key("surreal-bearer")),
    };
    assert_eq!(issued.grant, expected);
}

#[test]
fn an_issued_grant_expires_after_the_grant_duration() {
    let m = method(bearer_for(BearerAccessSubject::User), Some(Duration::from_secs(3_600)));
    let now = Datetime::new(1_700_000_000, 250);
    let issued = issue_grant(&Level::Root, &m, &user(), fixed_key("surreal-bearer"), &now, "root");
    assert_eq!(issued.grant.creation, now);
    assert_eq!(issued.grant.expiration, Some(Datetime::new(1_700_003_600, 250)));
    assert_eq!(issued.grant.revocation, None);
}

#[test]
fn issuing_inserts_the_stored_form_and_logs() {
    let m = method(bearer_for(BearerAccessSubject::User), None);
    let now = Datetime::new(1_700_000_000, 0);
    let issued = issue_grant(&db(), &m, &user(), fixed_key("surreal-bearer"), &now, "root");
    let at_rest = AccessGrant {
        id: String::from("aB3dE6gH9jKl"),
        ac: String::from("api"),
        creation: now,
        expiration: None,
        revocation: None,
        subject: user(),
        grant: Grant::Bearer(GrantBearer {
            id: String::from("aB3dE6gH9jKl"),
            key: String::from("305296ac19eb6c109c63b133fce687c2dd74ee5f54d03fbe3b064a7eecb7f78a"),
        }),
    };
    let expected = vec![
        Effect::EnsureNamespace(String::from("ns")),
        Effect::EnsureDatabase(String::from("ns"), String::from("db")),
        Effect::Insert(
            GrantKey { level: db(), ac: String::from("api"), id: String::from("aB3dE6gH9jKl") },
            at_rest,
        ),
        Effect::Audit(AuditEntry {
            operation: Operation::Create,
            ac: String::from("api"),
            id: String::from("aB3dE6gH9jKl"),
            kind: String::from("bearer"),
            subject: String::from("alice"),
            actor: String::from("root"),
        }),
    ];
    assert_eq!(issued.effects, expected);
}

#[test]
fn the_containers_depend_on_the_level() {
    let m = method(bearer_for(BearerAccessSubject::User), None);
    let now = Datetime::new(5, 0);
    let at_root = issue_grant(&Level::Root, &m, &user(), fixed_key("p"), &now, "root");
    assert_eq!(at_root.effects.len(), 2);
    assert!(matches!(at_root.effects[0], Effect::Insert(_, _)));
    assert!(matches!(at_root.effects[1], Effect::Audit(_)));
    let at_ns = issue_grant(&ns(), &m, &user(), fixed_key("p"), &now, "root");
    assert_eq!(at_ns.effects.len(), 3);
    assert_eq!(at_ns.effects[0], Effect::EnsureNamespace(String::from("ns")));
    assert!(matches!(at_ns.effects[1], Effect::Insert(_, _)));
}

#[test]
fn the_stored_form_holds_the_digest_of_the_key() {
    let grant = AccessGrant {
        id: String::from("i"),
        ac: String::from("api"),
        creation: Datetime::new(1, 0),
        expiration: None,
        revocation: None,
        subject: user(),
        grant: Grant::Bearer(GrantBearer { id: String::from("i"), key: String::from("abc") }),
    };
    let at_rest = stored(&grant);
    assert_eq!(
        at_rest.grant,
        Grant::Bearer(GrantBearer {
            id: String::from("i"),
            key: String::from("ba7816bf8f01cfea414140de5dae2223b00361a396177a9cb410ff61f20015ad"),
        })
    );
    assert_eq!(at_rest.id, grant.id);
    assert_eq!(at_rest.subject, grant.subject);
}

#[test]
fn the_stored_form_of_other_grants_is_the_grant() {
    let grant = AccessGrant {
        id: String::from("i"),
        ac: String::from("api"),
        creation: Datetime::new(1, 0),
        expiration: None,
        revocation: None,
        subject: user(),
        grant: Grant::Jwt(GrantJwt { jti: Uuid(9), token: None }),
    };
    assert_eq!(stored(&grant), grant);
}

#[test]
fn a_statement_with_a_given_key_is_checked_first() {
    let now = Datetime::new(5, 0);
    let refused = create_grant_with_key(
        &statement(user()),
        &db(),
        &method(record_with_refresh(), None),
        fixed_key("surreal-refresh"),
        &now,
        "root",
    );
    assert_eq!(refused, Err(Error::InvalidSubject));
    let m = method(record_with_refresh(), None);
    let issued: Issued = create_grant_with_key(
        &statement(record()),
        &db(),
        &m,
        fixed_key("surreal-refresh"),
        &now,
        "root",
    )
    .unwrap();
    assert_eq!(issued.grant.subject, record());
    assert_eq!(
        issued.grant.grant,
        Grant::Bearer(GrantBearer {
            id: String::from("aB3dE6gH9jKl"),
            key: String::from("surreal-refresh-aB3dE6gH9jKl-0123456789abcdefghijklmn"),
        })
    );
}

#[test]
fn create_grant_draws_a_key_under_the_prefix_of_the_method() {
    let m = method(record_with_refresh(), Some(Duration::from_secs(60)));
    let now = Datetime::new(1_000, 0);
    let issued = create_grant(&statement(record()), &db(), &m, &now, "root").unwrap();
    let grant = &issued.grant;
    assert_eq!(grant.ac, "api");
    assert_eq!(grant.creation, now);
    assert_eq!(grant.expiration, Some(Datetime::new(1_060, 0)));
    assert_eq!(grant.revocation, None);
    assert_eq!(grant.subject, record());
    match &grant.grant {
        Grant::Bearer(bearer) => {
            assert_eq!(bearer.id, grant.id);
            assert_eq!(bearer.id.len(), 12);
            assert!(bearer.key.starts_with(&format!("surreal-refresh-{}-", bearer.id)));
            assert_eq!(bearer.key.len(), "surreal-refresh".len() + 1 + 12 + 1 + 24);
        }
        other => panic!("not a bearer grant: {:?}", other),
    }
    match &issued.effects[2] {
        Effect::Insert(key, at_rest) => {
            assert_eq!(key.id, grant.id);
            assert_eq!(key.ac, "api");
            assert_eq!(key.level, db());
            assert_eq!(*at_rest, stored(grant));
            assert_ne!(at_rest.grant, grant.grant);
        }
        other => panic!("not an insert: {:?}", other),
    }
}

#[test]
fn create_grant_fails_where_the_method_does_not_allow_it() {
    let now = Datetime::new(1_000, 0);
    assert_eq!(
        create_grant(&statement(user()), &db(), &method(AccessType::Jwt, None), &now, "root"),
        Err(Error::Unimplemented(Unsupported::TokenGrant))
    );
    assert_eq!(
        create_grant(&statement(record()), &Level::Root, &method(record_with_refresh(), None), &now, "root"),
        Err(Error::LevelMismatch)
    );
    assert_eq!(
        create_grant(&statement(record()), &ns(), &method(record_with_refresh(), None), &now, "root"),
        Err(Error::LevelMismatch)
    );
    assert_eq!(
        create_grant(&statement(user()), &db(), &method(record_with_refresh(), None), &now, "root"),
        Err(Error::InvalidSubject)
    );
    assert_eq!(
        create_grant(
            &statement(record()),
            &db(),
            &method(AccessType::Record(RecordAccess { bearer: None }), None),
            &now,
            "root"
        ),
        Err(Error::MethodMismatch)
    );
}

#[test]
fn two_statements_get_two_keys() {
    let m = method(bearer_for(BearerAccessSubject::User), None);
    let now = Datetime::new(1_000, 0);
    let a = create_grant(&statement(user()), &db(), &m, &now, "root").unwrap();
    let b = create_grant(&statement(user()), &db(), &m, &now, "root").unwrap();
    assert_ne!(a.grant.grant, b.grant.grant);
}

#[test]
fn effects_and_methods_can_be_cloned() {
    let m = method(record_with_refresh(), Some(Duration::from_secs(60)));
    assert_eq!(m.clone(), m);
    let issued = issue_grant(&db(), &m, &record(), fixed_key("surreal-refresh"), &Datetime::new(5, 0), "root");
    let copies: Vec<Effect> = issued.effects.iter().map(|effect| effect.clone()).collect();
    assert_eq!(copies, issued.effects);
    assert_eq!(copies.len(), 4);
}

#[test]
fn an_audit_entry_reads_as_a_line_of_the_log() {
    let entry = AuditEntry {
        operation: Operation::Create,
        ac: String::from("api"),
        id: String::from("aB3dE6gH9jKl"),
        kind: String::from("bearer"),
        subject: String::from("alice"),
        actor: String::from("root"),
    };
    assert_eq!(
        entry.message(),
        "Access method 'api' was used to create grant 'aB3dE6gH9jKl' of type 'bearer' for 'alice' by 'root'"
    );
    assert_eq!(entry.clone(), entry);
    let revoke = AuditEntry { operation: Operation::Revoke, ..entry.clone() };
    assert!(revoke.message().contains("' was used to revoke grant '"));
    let purge = AuditEntry { operation: Operation::Purge, ..entry.clone() };
    assert!(purge.message().contains("' was used to purge grant '"));
}
