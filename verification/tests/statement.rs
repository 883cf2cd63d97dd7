use access_grants::grant::{Subject, Thing};
use access_grants::statement::{
    AccessStatement, AccessStatementGrant, AccessStatementPurge, AccessStatementRevoke,
    AccessStatementShow, Cond,
};
use access_grants::tenancy::Base;
use access_grants::text::push_decimal;
use access_grants::time::Duration;

fn purge(expired: bool, revoked: bool, grace: Duration) -> AccessStatementPurge {
    AccessStatementPurge { ac: String::from("api"), base: None, expired, revoked, grace }
}

fn decimal(n: u64) -> String {
    let mut text = String::from("n=");
    push_decimal(&mut text, n);
    text
}

#[test]
fn numbers_are_written_in_decimal() {
    assert_eq!(decimal(0), "n=0");
    assert_eq!(decimal(7), "n=7");
    assert_eq!(decimal(10), "n=10");
    assert_eq!(decimal(1_000_000), "n=1000000");
    assert_eq!(decimal(u64::MAX), "n=18446744073709551615");
}

#[test]
fn a_duration_is_written_with_its_units() {
    assert_eq!(Duration::from_secs(0).to_string(), "0ns");
    assert_eq!(Duration::from_secs(1).to_string(), "1s");
    assert_eq!(Duration::from_secs(5_400).to_string(), "1h30m");
    assert_eq!(Duration::from_secs(3_600).to_string(), "1h");
    assert_eq!(Duration::from_secs(86_400 * 8).to_string(), "1w1d");
    assert_eq!(Duration::from_secs(86_400 * 366).to_string(), "1y1d");
    assert_eq!(Duration::from_secs(31_536_000 + 604_800 + 86_400 + 3_600 + 60 + 1).to_string(), "1y1w1d1h1m1s");
    assert_eq!(Duration { secs: 59, nanos: 1 }.to_string(), "59s1ns");
    assert_eq!(Duration { secs: 0, nanos: 1_500_000 }.to_string(), "1ms500\u{b5}s");
    assert_eq!(Duration { secs: 0, nanos: 999_999_999 }.to_string(), "999ms999\u{b5}s999ns");
    assert_eq!(Duration::from_secs(u64::MAX).to_string(), "584942417355y3w5d7h15s");
}

#[test]
fn a_level_is_written_by_its_keyword() {
    assert_eq!(Base::Root.to_string(), "ROOT");
    assert_eq!(Base::Ns.to_string(), "NAMESPACE");
    assert_eq!(Base::Db.to_string(), "DATABASE");
    assert_eq!(Base::Sc(String::from("users")).to_string(), "SCOPE users");
}

#[test]
fn a_condition_is_written_after_where() {
    assert_eq!(Cond(String::from("subject.user = 'alice'")).to_string(), "WHERE subject.user = 'alice'");
}

#[test]
fn a_grant_statement_names_its_subject() {
    let for_user = AccessStatementGrant {
        ac: String::from("api"),
        base: Some(Base::Db),
        subject: Subject::User(String::from("alice")),
    };
    assert_eq!(for_user.to_string(), "ACCESS api ON DATABASE GRANT FOR USER alice");
    let for_record = AccessStatementGrant {
        ac: String::from("api"),
        base: None,
        subject: Subject::Record(Thing { tb: String::from("person"), id: String::from("tobie") }),
    };
    assert_eq!(for_record.to_string(), "ACCESS api GRANT FOR RECORD person:tobie");
}

#[test]
fn a_show_statement_names_what_it_shows() {
    let mut stmt = AccessStatementShow { ac: String::from("api"), base: None, gr: None, cond: None };
    assert_eq!(stmt.to_string(), "ACCESS api SHOW ALL");
    stmt.cond = Some(Cond(String::from("subject.user = 'alice'")));
    assert_eq!(stmt.to_string(), "ACCESS api SHOW WHERE subject.user = 'alice'");
    stmt.gr = Some(String::from("aB3dE6gH9jKl"));
    stmt.base = Some(Base::Root);
    assert_eq!(stmt.to_string(), "ACCESS api ON ROOT SHOW GRANT aB3dE6gH9jKl");
}

#[test]
fn a_revoke_statement_names_what_it_revokes() {
    let mut stmt =
        AccessStatementRevoke { ac: String::from("api"), base: Some(Base::Ns), gr: None, cond: None };
    assert_eq!(stmt.to_string(), "ACCESS api ON NAMESPACE REVOKE ALL");
    stmt.cond = Some(Cond(String::from("true")));
    assert_eq!(stmt.to_string(), "ACCESS api ON NAMESPACE REVOKE WHERE true");
    stmt.gr = Some(String::from("aB3dE6gH9jKl"));
    assert_eq!(stmt.to_string(), "ACCESS api ON NAMESPACE REVOKE GRANT aB3dE6gH9jKl");
}

#[test]
fn a_purge_statement_names_its_kinds_and_grace() {
    assert_eq!(purge(true, false, Duration::from_secs(0)).to_string(), "ACCESS api PURGE EXPIRED");
    assert_eq!(purge(false, true, Duration::from_secs(0)).to_string(), "ACCESS api PURGE REVOKED");
    assert_eq!(
        purge(true, true, Duration::from_secs(3_600)).to_string(),
        "ACCESS api PURGE EXPIRED, REVOKED FOR 1h"
    );
    assert_eq!(purge(false, false, Duration::from_secs(0)).to_string(), "ACCESS api PURGE NONE");
    assert_eq!(
        purge(true, false, Duration { secs: 0, nanos: 1 }).to_string(),
        "ACCESS api PURGE EXPIRED FOR 1ns"
    );
}

#[test]
fn a_statement_is_written_as_its_kind() {
    let stmt = AccessStatement::Purge(purge(true, true, Duration::from_secs(90)));
    assert_eq!(stmt.to_string(), "ACCESS api PURGE EXPIRED, REVOKED FOR 1m30s");
    let stmt = AccessStatement::Show(AccessStatementShow::default());
    assert_eq!(stmt.to_string(), "ACCESS  SHOW ALL");
    let stmt = AccessStatement::Revoke(AccessStatementRevoke::default());
    assert_eq!(stmt.to_string(), "ACCESS  REVOKE ALL");
    let stmt = AccessStatement::Grant(AccessStatementGrant {
        ac: String::from("api"),
        base: Some(Base::Sc(String::from("s"))),
        subject: Subject::User(String::from("bob")),
    });
    assert_eq!(stmt.to_string(), "ACCESS api ON SCOPE s GRANT FOR USER bob");
}

#[test]
fn a_purge_statement_must_ask_for_something() {
    let grace = Duration::from_secs(60);
    assert_eq!(AccessStatementPurge::new(String::from("api"), None, false, false, grace), None);
    assert_eq!(
        AccessStatementPurge::new(String::from("api"), Some(Base::Ns), true, false, grace),
        Some(AccessStatementPurge {
            ac: String::from("api"),
            base: Some(Base::Ns),
            expired: true,
            revoked: false,
            grace,
        })
    );
    assert!(AccessStatementPurge::new(String::from("api"), None, false, true, grace).is_some());
    assert!(AccessStatementPurge::new(String::from("api"), None, true, true, grace).is_some());
}

#[test]
fn statements_can_be_cloned() {
    let grant = AccessStatement::Grant(AccessStatementGrant {
        ac: String::from("api"),
        base: Some(Base::Sc(String::from("s"))),
        subject: Subject::Record(Thing { tb: String::from("person"), id: String::from("tobie") }),
    });
    assert_eq!(grant.clone(), grant);
    let show = AccessStatement::Show(AccessStatementShow {
        ac: String::from("api"),
        base: None,
        gr: Some(String::from("aB3dE6gH9jKl")),
        cond: Some(Cond(String::from("true"))),
    });
    assert_eq!(show.clone(), show);
    let revoke = AccessStatement::Revoke(AccessStatementRevoke {
        ac: String::from("api"),
        base: Some(Base::Db),
        gr: None,
        cond: Some(Cond(String::from("x = 1"))),
    });
    assert_eq!(revoke.clone(), revoke);
    let stmt = AccessStatement::Purge(purge(true, false, Duration { secs: 3, nanos: 4 }));
    assert_eq!(stmt.clone(), stmt);
}
