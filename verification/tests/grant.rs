use access_grants::grant::{
    AccessGrant, Grant, GrantBearer, GrantJwt, GrantRecord, Subject, Thing, Uuid,
};
use access_grants::time::Datetime;

fn bearer(key: &str) -> Grant {
    Grant::Bearer(GrantBearer { id: String::from("aB3dE6gH9jKl"), key: String::from(key) })
}

fn grant_with(grant: Grant, expiration: Option<Datetime>, revocation: Option<Datetime>) -> AccessGrant {
    AccessGrant {
        id: String::from("aB3dE6gH9jKl"),
        ac: String::from("api"),
        creation: Datetime::new(1_000, 0),
        expiration,
        revocation,
        subject: Subject::User(String::from("alice")),
        grant,
    }
}

#[test]
fn redaction_replaces_a_bearer_key_by_the_marker() {
    let grant = grant_with(bearer("surreal-bearer-aB3dE6gH9jKl-secret"), None, None);
    let shown = grant.redacted();
    assert_eq!(shown, grant_with(bearer("[REDACTED]"), None, None));
    assert_eq!(grant, grant_with(bearer("surreal-bearer-aB3dE6gH9jKl-secret"), None, None));
}

#[test]
fn redaction_drops_the_token_of_a_jwt_grant() {
    let grant = grant_with(
        Grant::Jwt(GrantJwt { jti: Uuid(7), token: Some(String::from("eyJ")) }),
        None,
        None,
    );
    let expected = grant_with(Grant::Jwt(GrantJwt { jti: Uuid(7), token: None }), None, None);
    assert_eq!(grant.redacted(), expected);
}

#[test]
fn redaction_drops_the_token_of_a_record_grant() {
    let grant = grant_with(
        Grant::Record(GrantRecord { rid: Uuid(1), jti: Uuid(2), token: Some(String::from("eyJ")) }),
        Some(Datetime::new(2_000, 0)),
        Some(Datetime::new(1_500, 0)),
    );
    let expected = grant_with(
        Grant::Record(GrantRecord { rid: Uuid(1), jti: Uuid(2), token: None }),
        Some(Datetime::new(2_000, 0)),
        Some(Datetime::new(1_500, 0)),
    );
    assert_eq!(grant.redacted(), expected);
}

#[test]
fn redacting_twice_is_redacting_once() {
    let grants = vec![
        grant_with(bearer("surreal-bearer-aB3dE6gH9jKl-secret"), None, None),
        grant_with(Grant::Jwt(GrantJwt { jti: Uuid(7), token: Some(String::from("t")) }), None, None),
        grant_with(
            Grant::Record(GrantRecord { rid: Uuid(1), jti: Uuid(2), token: Some(String::from("t")) }),
            None,
            None,
        ),
    ];
    for grant in grants {
        assert_eq!(grant.redacted().redacted(), grant.redacted());
    }
}

#[test]
fn a_grant_expires_strictly_after_its_expiration_time() {
    let grant = grant_with(bearer("k"), Some(Datetime::new(2_000, 500)), None);
    assert!(!grant.is_expired(&Datetime::new(1_999, 0)));
    assert!(!grant.is_expired(&Datetime::new(2_000, 500)));
    assert!(grant.is_expired(&Datetime::new(2_000, 501)));
    assert!(grant.is_expired(&Datetime::new(2_001, 0)));
}

#[test]
fn a_grant_without_expiration_time_never_expires() {
    let grant = grant_with(bearer("k"), None, None);
    assert!(!grant.is_expired(&Datetime::new(i64::MAX, 999_999_999)));
}

#[test]
fn a_grant_is_revoked_once_it_has_a_revocation_time() {
    assert!(!grant_with(bearer("k"), None, None).is_revoked());
    assert!(grant_with(bearer("k"), None, Some(Datetime::new(1, 0))).is_revoked());
    assert!(grant_with(bearer("k"), None, Some(Datetime::new(i64::MAX, 0))).is_revoked());
}

#[test]
fn a_grant_is_active_when_neither_expired_nor_revoked() {
    let times = [Datetime::new(0, 0), Datetime::new(2_000, 0), Datetime::new(2_000, 1), Datetime::new(9_000, 0)];
    let grants = [
        grant_with(bearer("k"), None, None),
        grant_with(bearer("k"), Some(Datetime::new(2_000, 0)), None),
        grant_with(bearer("k"), None, Some(Datetime::new(1_500, 0))),
        grant_with(bearer("k"), Some(Datetime::new(2_000, 0)), Some(Datetime::new(1_500, 0))),
    ];
    for grant in &grants {
        for now in &times {
            assert_eq!(grant.is_active(now), !(grant.is_expired(now) || grant.is_revoked()));
        }
    }
    assert!(grants[0].is_active(&times[3]));
    assert!(grants[1].is_active(&times[1]));
    assert!(!grants[1].is_active(&times[2]));
    assert!(!grants[2].is_active(&times[0]));
}

#[test]
fn the_identifier_of_a_user_is_the_name() {
    assert_eq!(Subject::User(String::from("alice")).id(), "alice");
}

#[test]
fn the_identifier_of_a_record_is_table_and_key() {
    let thing = Thing { tb: String::from("person"), id: String::from("tobie") };
    assert_eq!(thing.to_raw(), "person:tobie");
    assert_eq!(Subject::Record(thing).id(), "person:tobie");
}

#[test]
fn the_three_kinds_of_grant_have_their_names() {
    assert_eq!(Grant::Jwt(GrantJwt { jti: Uuid(0), token: None }).variant(), "jwt");
    assert_eq!(
        Grant::Record(GrantRecord { rid: Uuid(0), jti: Uuid(0), token: None }).variant(),
        "record"
    );
    assert_eq!(bearer("k").variant(), "bearer");
}

#[test]
fn a_clone_is_equal_to_what_it_was_made_from() {
    let grant = grant_with(
        bearer("surreal-bearer-aB3dE6gH9jKl-secret"),
        Some(Datetime::new(2_000, 0)),
        Some(Datetime::new(1_500, 0)),
    );
    assert_eq!(grant.clone(), grant);
    let record = Subject::Record(Thing { tb: String::from("t"), id: String::from("i") });
    assert_eq!(record.clone(), record);
}
