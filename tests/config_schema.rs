use oidc_settings::config::OIDCConfig;
use oidc_settings::error::ConfigError;
use oidc_settings::name::ProviderName;
use oidc_settings::provider::OIDCProvider;
use oidc_settings::raw::RawValue;

fn text(s: &str) -> RawValue {
    RawValue::Str(s.to_string())
}

fn table(pairs: Vec<(&str, RawValue)>) -> RawValue {
    RawValue::Table(pairs.into_iter().map(|(k, v)| (k.to_string(), v)).collect())
}

fn entry(name: &str) -> RawValue {
    table(vec![
        ("client_id", text("id-1")),
        ("client_secret", text("secret-1")),
        ("url", text("https://accounts.example.com")),
        ("name", text(name)),
    ])
}

fn parse(raw: &RawValue) -> Result<OIDCConfig<()>, ConfigError> {
    OIDCConfig::parse(raw)
}

fn keys(raw: &RawValue) -> Vec<String> {
    match raw {
        RawValue::Table(fields) => fields.iter().map(|(k, _)| k.clone()).collect(),
        _ => panic!("not a table"),
    }
}

#[test]
fn missing_providers_key_gives_empty_list() {
    let c = parse(&table(vec![])).unwrap();
    assert!(c.providers().is_empty());
}

#[test]
fn default_config_is_empty() {
    let c: OIDCConfig<()> = OIDCConfig::default();
    assert!(c.providers().is_empty());
}

#[test]
fn unknown_root_key_is_rejected() {
    let raw = table(vec![("providers", RawValue::List(vec![])), ("unexpected_key", RawValue::Int(1))]);
    match parse(&raw) {
        Err(ConfigError::UnknownField { field, entry: None }) => assert_eq!(field, "unexpected_key"),
        other => panic!("unexpected result {:?}", other.err()),
    }
}

#[test]
fn missing_client_id_is_reported() {
    let bad = table(vec![
        ("client_secret", text("s")),
        ("url", text("https://example.com")),
        ("name", text("google")),
    ]);
    let raw = table(vec![("providers", RawValue::List(vec![bad]))]);
    match parse(&raw) {
        Err(ConfigError::MissingField { field, entry: 0 }) => assert_eq!(field, "client_id"),
        other => panic!("unexpected result {:?}", other.err()),
    }
}

#[test]
fn missing_fields_are_reported_in_declaration_order() {
    let bad = table(vec![("client_id", text("i")), ("client_secret", text("s"))]);
    match OIDCProvider::<()>::parse(&bad, 3) {
        Err(ConfigError::MissingField { field, entry: 3 }) => assert_eq!(field, "url"),
        other => panic!("unexpected result {:?}", other.err()),
    }
    let bad = table(vec![
        ("client_id", text("i")),
        ("client_secret", text("s")),
        ("url", text("https://example.com")),
    ]);
    match OIDCProvider::<()>::parse(&bad, 0) {
        Err(ConfigError::MissingField { field, entry: 0 }) => assert_eq!(field, "name"),
        other => panic!("unexpected result {:?}", other.err()),
    }
}

#[test]
fn malformed_url_is_rejected() {
    let bad = table(vec![
        ("client_id", text("i")),
        ("client_secret", text("s")),
        ("url", text("not a url")),
        ("name", text("okta")),
    ]);
    let raw = table(vec![("providers", RawValue::List(vec![bad]))]);
    match parse(&raw) {
        Err(ConfigError::InvalidUrl { value, entry: 0 }) => assert_eq!(value, "not a url"),
        other => panic!("unexpected result {:?}", other.err()),
    }
}

#[test]
fn relative_url_is_rejected() {
    let bad = table(vec![
        ("client_id", text("i")),
        ("client_secret", text("s")),
        ("url", text("/oauth/authorize")),
        ("name", text("okta")),
    ]);
    assert!(matches!(
        OIDCProvider::<()>::parse(&bad, 0),
        Err(ConfigError::InvalidUrl { entry: 0, .. })
    ));
}

#[test]
fn first_failing_entry_is_reported() {
    let bad = table(vec![("client_id", text("i")), ("url", text("https://example.com")), ("name", text("x"))]);
    let also_bad = table(vec![("name", text("y"))]);
    let raw = table(vec![("providers", RawValue::List(vec![entry("google"), bad, also_bad]))]);
    match parse(&raw) {
        Err(ConfigError::MissingField { field, entry: 1 }) => assert_eq!(field, "client_secret"),
        other => panic!("unexpected result {:?}", other.err()),
    }
}

#[test]
fn valid_entries_are_parsed_in_order() {
    let raw = table(vec![("providers", RawValue::List(vec![entry("Google"), entry("Duo")]))]);
    let c = parse(&raw).unwrap();
    let ps = c.providers();
    assert_eq!(ps.len(), 2);
    assert_eq!(ps[0].client_id, "id-1");
    assert_eq!(ps[0].client_secret, "secret-1");
    assert_eq!(ps[0].url, "https://accounts.example.com/");
    assert_eq!(ps[0].name, ProviderName::Google);
    assert_eq!(ps[1].name, ProviderName::Other("duo".to_string()));
    assert!(ps[0].metadata.is_none());
    assert!(ps[1].metadata.is_none());
}

#[test]
fn metadata_key_in_input_is_rejected() {
    let mut fields = match entry("google") {
        RawValue::Table(f) => f,
        _ => unreachable!(),
    };
    fields.push(("metadata".to_string(), table(vec![])));
    match OIDCProvider::<()>::parse(&RawValue::Table(fields), 0) {
        Err(ConfigError::UnknownField { field, entry: Some(0) }) => assert_eq!(field, "metadata"),
        other => panic!("unexpected result {:?}", other.err()),
    }
}

#[test]
fn duplicate_keys_are_rejected() {
    let raw = table(vec![("providers", RawValue::List(vec![])), ("providers", RawValue::List(vec![]))]);
    match parse(&raw) {
        Err(ConfigError::DuplicateField { field, entry: None }) => assert_eq!(field, "providers"),
        other => panic!("unexpected result {:?}", other.err()),
    }
    let e = table(vec![("name", text("a")), ("name", text("b"))]);
    match OIDCProvider::<()>::parse(&e, 2) {
        Err(ConfigError::DuplicateField { field, entry: Some(2) }) => assert_eq!(field, "name"),
        other => panic!("unexpected result {:?}", other.err()),
    }
}

#[test]
fn values_of_the_wrong_shape_are_rejected() {
    let raw = table(vec![("providers", text("google"))]);
    match parse(&raw) {
        Err(ConfigError::WrongType { field, entry: None }) => assert_eq!(field, "providers"),
        other => panic!("unexpected result {:?}", other.err()),
    }
    let e = table(vec![("client_id", RawValue::Int(7))]);
    match OIDCProvider::<()>::parse(&e, 0) {
        Err(ConfigError::WrongType { field, entry: Some(0) }) => assert_eq!(field, "client_id"),
        other => panic!("unexpected result {:?}", other.err()),
    }
    assert!(matches!(parse(&RawValue::Null), Err(ConfigError::NotATable { entry: None })));
    let raw = table(vec![("providers", RawValue::List(vec![entry("apple"), RawValue::Bool(true)]))]);
    assert!(matches!(parse(&raw), Err(ConfigError::NotATable { entry: Some(1) })));
}

#[test]
fn wire_form_round_trips() {
    let raw = table(vec![("providers", RawValue::List(vec![entry("MICROSOFT")]))]);
    let c = parse(&raw).unwrap();
    let wire = c.to_raw();
    assert_eq!(keys(&wire), vec!["providers".to_string()]);
    let again = parse(&wire).unwrap();
    assert_eq!(again.providers()[0].name, ProviderName::Microsoft);
    assert_eq!(again.providers()[0].url, "https://accounts.example.com/");
    match &again.providers()[0].to_raw() {
        RawValue::Table(fields) => match &fields[3].1 {
            RawValue::Str(s) => assert_eq!(s, "microsoft"),
            _ => panic!("name is not a string"),
        },
        _ => panic!("not a table"),
    }
}
