use oidc_settings::name::ProviderName;

fn round_trip(s: &str) -> String {
    ProviderName::decode(s).encode()
}

#[test]
fn known_names_in_any_casing() {
    let cases = [
        ("google", ProviderName::Google),
        ("Google", ProviderName::Google),
        ("GOOGLE", ProviderName::Google),
        ("slack", ProviderName::Slack),
        ("Slack", ProviderName::Slack),
        ("facebook", ProviderName::Facebook),
        ("FaceBook", ProviderName::Facebook),
        ("apple", ProviderName::Apple),
        ("APPLE", ProviderName::Apple),
        ("okta", ProviderName::Okta),
        ("Okta", ProviderName::Okta),
        ("microsoft", ProviderName::Microsoft),
        ("MicroSoft", ProviderName::Microsoft),
    ];
    for (input, expected) in cases {
        assert_eq!(ProviderName::decode(input), expected);
        assert_eq!(round_trip(input), input.to_lowercase());
    }
}

#[test]
fn unknown_names_fall_back_lowercased() {
    assert_eq!(ProviderName::decode("duo"), ProviderName::Other("duo".to_string()));
    assert_eq!(ProviderName::decode("OneLogin"), ProviderName::Other("onelogin".to_string()));
    assert_eq!(round_trip("duo"), "duo");
    assert_eq!(round_trip("OneLogin"), "onelogin");
}

#[test]
fn decode_is_total_and_trims_nothing() {
    assert_eq!(ProviderName::decode(""), ProviderName::Other(String::new()));
    assert_eq!(ProviderName::decode(" google"), ProviderName::Other(" google".to_string()));
    assert_eq!(ProviderName::decode("Google "), ProviderName::Other("google ".to_string()));
    assert_eq!(round_trip(""), "");
}

#[test]
fn from_str_never_fails() {
    assert_eq!(ProviderName::from_str("OKTA"), Ok(ProviderName::Okta));
    assert_eq!(ProviderName::from_str("Keycloak"), Ok(ProviderName::Other("keycloak".to_string())));
    let parsed: ProviderName = "Apple".parse().unwrap();
    assert_eq!(parsed, ProviderName::Apple);
}

#[test]
fn encode_emits_canonical_tags() {
    assert_eq!(ProviderName::Google.encode(), "google");
    assert_eq!(ProviderName::Slack.encode(), "slack");
    assert_eq!(ProviderName::Facebook.encode(), "facebook");
    assert_eq!(ProviderName::Apple.encode(), "apple");
    assert_eq!(ProviderName::Okta.encode(), "okta");
    assert_eq!(ProviderName::Microsoft.encode(), "microsoft");
    assert_eq!(ProviderName::Other("gitlab".to_string()).encode(), "gitlab");
}

#[test]
fn lowercased_text_maps_to_its_variant() {
    assert_eq!(ProviderName::from_lowercase("slack".to_string()), ProviderName::Slack);
    assert_eq!(
        ProviderName::from_lowercase("Slack".to_string()),
        ProviderName::Other("Slack".to_string())
    );
}

#[test]
fn non_ascii_names_are_lowercased() {
    assert_eq!(ProviderName::decode("ÅPPLE"), ProviderName::Other("åpple".to_string()));
}
