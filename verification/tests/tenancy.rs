use access_grants::error::{Error, Unsupported};
use access_grants::tenancy::{Base, Level, Selection};

fn selection(ns: Option<&str>, db: Option<&str>) -> Selection {
    Selection { ns: ns.map(String::from), db: db.map(String::from) }
}

#[test]
fn selected_base_follows_the_selection() {
    assert_eq!(selection(None, None).selected_base(), Ok(Base::Root));
    assert_eq!(selection(Some("ns"), None).selected_base(), Ok(Base::Ns));
    assert_eq!(selection(Some("ns"), Some("db")).selected_base(), Ok(Base::Db));
}

#[test]
fn a_database_without_namespace_is_no_selection() {
    assert_eq!(selection(None, Some("db")).selected_base(), Err(Error::LevelMismatch));
}

#[test]
fn a_named_base_wins_over_the_selection() {
    let sel = selection(Some("ns"), Some("db"));
    assert_eq!(sel.resolve_base(&Some(Base::Root)), Ok(Base::Root));
    assert_eq!(sel.resolve_base(&Some(Base::Ns)), Ok(Base::Ns));
    assert_eq!(sel.resolve_base(&None), Ok(Base::Db));
    assert_eq!(
        sel.resolve_base(&Some(Base::Sc(String::from("users")))),
        Ok(Base::Sc(String::from("users")))
    );
    assert_eq!(selection(None, Some("db")).resolve_base(&None), Err(Error::LevelMismatch));
}

#[test]
fn locate_takes_the_names_from_the_selection() {
    let sel = selection(Some("ns"), Some("db"));
    assert_eq!(sel.locate(&Base::Root), Ok(Level::Root));
    assert_eq!(sel.locate(&Base::Ns), Ok(Level::Ns(String::from("ns"))));
    assert_eq!(sel.locate(&Base::Db), Ok(Level::Db(String::from("ns"), String::from("db"))));
}

#[test]
fn locate_needs_the_names_of_the_level() {
    assert_eq!(selection(None, None).locate(&Base::Root), Ok(Level::Root));
    assert_eq!(selection(None, None).locate(&Base::Ns), Err(Error::LevelMismatch));
    assert_eq!(selection(Some("ns"), None).locate(&Base::Db), Err(Error::LevelMismatch));
    assert_eq!(selection(None, Some("db")).locate(&Base::Db), Err(Error::LevelMismatch));
}

#[test]
fn nothing_is_managed_below_a_database() {
    let sel = selection(Some("ns"), Some("db"));
    assert_eq!(
        sel.locate(&Base::Sc(String::from("users"))),
        Err(Error::Unimplemented(Unsupported::Level))
    );
}

#[test]
fn a_level_knows_its_base() {
    assert_eq!(Level::Root.base(), Base::Root);
    assert_eq!(Level::Ns(String::from("n")).base(), Base::Ns);
    assert_eq!(Level::Db(String::from("n"), String::from("d")).base(), Base::Db);
    assert!(Level::Db(String::from("n"), String::from("d")).is_database());
    assert!(!Level::Ns(String::from("n")).is_database());
    assert!(!Level::Root.is_database());
}

#[test]
fn only_a_collision_is_worth_a_retry() {
    assert!(Error::Collision.is_retryable());
    assert!(!Error::StoreFailure.is_retryable());
    assert!(!Error::Denied.is_retryable());
    assert!(!Error::AlreadyRevoked.is_retryable());
}

#[test]
fn a_collision_comes_with_advice_for_the_operator() {
    assert_eq!(
        Error::Collision.warning(),
        Some("A collision was found when attempting to create a new grant. Purging inactive grants is advised")
    );
    assert_eq!(Error::StoreFailure.warning(), None);
    assert_eq!(Error::AlreadyRevoked.warning(), None);
    assert_eq!(Error::InvalidSubject.warning(), None);
}
