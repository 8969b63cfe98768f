use extauthz_cfzt::discovery::{
    discover_audience, discover_audience_provider, discover_audiences, discover_static_provider,
    split_commas, DiscoveryError, StaticAudienceProvider,
};

fn auds(p: &StaticAudienceProvider) -> Vec<String> {
    p.audiences().clone()
}

#[test]
fn provider_selection() {
    let p = discover_audience_provider("static", "app", "").unwrap();
    assert_eq!(auds(&p), vec!["app".to_string()]);

    let p = discover_audience_provider("STATIC", "", "a,b").unwrap();
    assert_eq!(auds(&p), vec!["a".to_string(), "b".to_string()]);

    let p = discover_audience_provider("Static", "one", "a,b").unwrap();
    assert_eq!(auds(&p), vec!["one".to_string()]);

    let e = discover_audience_provider("static", "", "").unwrap_err();
    assert_eq!(e, DiscoveryError::NoAudienceConfigured);
    assert_eq!(e.message(), "No audience configured for static provider");

    let e = discover_audience_provider("dynamic", "app", "").unwrap_err();
    assert_eq!(e, DiscoveryError::InvalidAudienceProvider);
    assert_eq!(e.message(), "Invalid audience provider");

    // the Kelvin sign is not an ASCII letter of "static"
    assert!(discover_audience_provider("\u{212a}static", "app", "").is_err());
    assert!(discover_audience_provider("statics", "app", "").is_err());
}

#[test]
fn audience_settings() {
    assert!(discover_audience("").is_none());
    assert_eq!(auds(&discover_audience("x").unwrap()), vec!["x".to_string()]);
    assert!(discover_audiences("").is_none());
    assert_eq!(
        auds(&discover_audiences(",a,,b,").unwrap()),
        vec!["".to_string(), "a".to_string(), "".to_string(), "b".to_string(), "".to_string()]
    );
    assert!(discover_static_provider("", "").is_err());
    assert_eq!(auds(&discover_static_provider("", "z").unwrap()), vec!["z".to_string()]);
}

#[test]
fn comma_split_matches_str_split() {
    for s in ["", ",", "a", "a,b", ",a,", "a b,c"] {
        let expected: Vec<String> = s.split(",").map(|x| x.to_string()).collect();
        assert_eq!(split_commas(s), expected);
    }
    let p = StaticAudienceProvider::new(vec!["q".to_string()]);
    assert_eq!(auds(&p), vec!["q".to_string()]);
    let p = StaticAudienceProvider::new_single_aud("r");
    assert_eq!(auds(&p), vec!["r".to_string()]);
}
