use tumblr_sync::tumblr::scope::{InvalidScope, Scope};

#[test]
fn scope() {
    let strings = ["basic", "write", "offline_access"];
    println!("{:#?}", strings.map(|x| x.parse::<Scope>().unwrap()))
}

#[test]
fn scope_names_parse_to_their_scopes() {
    assert_eq!("basic".parse::<Scope>(), Ok(Scope::Basic));
    assert_eq!("write".parse::<Scope>(), Ok(Scope::Write));
    assert_eq!("offline_access".parse::<Scope>(), Ok(Scope::OfflineAccess));
    assert_eq!(Scope::from_str("write"), Ok(Scope::Write));
}

#[test]
fn unknown_scope_is_refused() {
    assert_eq!("admin".parse::<Scope>(), Err(InvalidScope));
    assert_eq!("".parse::<Scope>(), Err(InvalidScope));
    assert_eq!("Basic".parse::<Scope>(), Err(InvalidScope));
    assert_eq!(Scope::from_str("basic "), Err(InvalidScope));
}

#[test]
fn scope_name_round_trip() {
    for scope in [Scope::Basic, Scope::Write, Scope::OfflineAccess] {
        assert_eq!(Scope::from_str(scope.name()), Ok(scope));
    }
    assert_eq!(Scope::OfflineAccess.name(), "offline_access");
}
