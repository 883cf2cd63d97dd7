use access_grants::document::{Object, Value};
use access_grants::error::{Error, Missing};
use access_grants::grant::{AccessGrant, Grant, GrantBearer, Subject};
use access_grants::show::{
    compute_show, condition_input, passes_condition, show_grants, wants_verdicts, Scanned, Verdict,
};
use access_grants::statement::{AccessStatementShow, Cond};
use access_grants::time::Datetime;

fn grant(id: &str, key: &str) -> AccessGrant {
    AccessGrant {
        id: String::from(id),
        ac: String::from("api"),
        creation: Datetime::new(10, 0),
        expiration: None,
        revocation: None,
        subject: Subject::User(String::from("alice")),
        grant: Grant::Bearer(GrantBearer { id: String::from(id), key: String::from(key) }),
    }
}

fn scanned(id: &str, verdict: Verdict) -> Scanned {
    Scanned { grant: grant(id, "digest"), verdict }
}

fn show(gr: Option<&str>, cond: Option<&str>) -> AccessStatementShow {
    AccessStatementShow {
        ac: String::from("api"),
        base: None,
        gr: gr.map(String::from),
        cond: cond.map(|c| Cond(String::from(c))),
    }
}

#[test]
fn verdicts_are_wanted_for_a_scan_with_a_condition() {
    assert!(wants_verdicts(&show(None, Some("subject.user = 'alice'"))));
    assert!(!wants_verdicts(&show(None, None)));
    assert!(!wants_verdicts(&show(Some("a"), Some("true"))));
    assert!(!wants_verdicts(&show(Some("a"), None)));
}

#[test]
fn a_grant_passes_when_the_condition_holds_or_is_missing() {
    assert!(passes_condition(false, &Verdict::Unasked));
    assert!(passes_condition(false, &Verdict::Holds(false)));
    assert!(passes_condition(false, &Verdict::Holds(true)));
    assert!(passes_condition(true, &Verdict::Holds(true)));
    assert!(!passes_condition(true, &Verdict::Holds(false)));
    assert!(!passes_condition(true, &Verdict::Unasked));
}

#[test]
fn a_condition_sees_the_redacted_grant() {
    let doc = condition_input(&grant("aB3dE6gH9jKl", "surreal-bearer-aB3dE6gH9jKl-secret"));
    assert_eq!(doc, Value::Object(Object::from_grant(&grant("aB3dE6gH9jKl", "[REDACTED]"))));
}

#[test]
fn show_all_returns_every_grant_redacted() {
    let found = vec![scanned("b", Verdict::Unasked), scanned("a", Verdict::Unasked), scanned("c", Verdict::Unasked)];
    let shown = show_grants(&show(None, None), &found);
    assert_eq!(shown, vec![grant("b", "[REDACTED]"), grant("a", "[REDACTED]"), grant("c", "[REDACTED]")]);
}

#[test]
fn show_with_a_condition_returns_the_grants_that_meet_it() {
    let found = vec![
        scanned("b", Verdict::Holds(true)),
        scanned("a", Verdict::Holds(false)),
        scanned("d", Verdict::Unasked),
        scanned("c", Verdict::Holds(true)),
    ];
    let shown = show_grants(&show(None, Some("x")), &found);
    assert_eq!(shown, vec![grant("b", "[REDACTED]"), grant("c", "[REDACTED]")]);
}

#[test]
fn show_without_a_condition_ignores_verdicts() {
    let found = vec![scanned("b", Verdict::Holds(false)), scanned("a", Verdict::Holds(true))];
    let shown = show_grants(&show(None, None), &found);
    assert_eq!(shown.len(), 2);
}

#[test]
fn show_of_a_named_grant_returns_its_document() {
    let found = vec![Scanned { grant: grant("aB3dE6gH9jKl", "digest"), verdict: Verdict::Unasked }];
    let value = compute_show(&show(Some("aB3dE6gH9jKl"), None), &found);
    assert_eq!(value, Ok(Value::Object(Object::from_grant(&grant("aB3dE6gH9jKl", "[REDACTED]")))));
}

#[test]
fn show_of_a_missing_grant_fails() {
    let value = compute_show(&show(Some("aB3dE6gH9jKl"), None), &vec![]);
    assert_eq!(value, Err(Error::NotFound(Missing::Grant)));
}

#[test]
fn show_of_a_scan_returns_an_array_of_documents() {
    let found = vec![scanned("b", Verdict::Holds(true)), scanned("a", Verdict::Holds(false))];
    let value = compute_show(&show(None, Some("x")), &found);
    assert_eq!(
        value,
        Ok(Value::Array(vec![Value::Object(Object::from_grant(&grant("b", "[REDACTED]")))]))
    );
    assert_eq!(compute_show(&show(None, None), &vec![]), Ok(Value::Array(vec![])));
}

#[test]
fn a_named_grant_is_shown_whatever_the_verdict() {
    let found = vec![scanned("a", Verdict::Holds(false))];
    assert_eq!(
        compute_show(&show(Some("a"), Some("x")), &found),
        Ok(Value::Object(Object::from_grant(&grant("a", "[REDACTED]"))))
    );
}
