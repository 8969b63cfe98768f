use extauthz_cfzt::schema::{
    Configuration, StaticTeamValidatorConfiguration, TimeConstraintMode, ValidatorConfiguration,
};
use extauthz_cfzt::sockets::{ListenTarget, ListenerError};

fn config(listener: &str) -> Configuration {
    Configuration::new_single_team_configuration(
        listener,
        "molten",
        None,
        "0 0 0 * * *",
        &TimeConstraintMode::Strict,
        &TimeConstraintMode::Lax,
    )
}

#[test]
fn single_team_configuration() {
    let c = config("tcp://[::1]:10000");
    assert_eq!(c.listener, "tcp://[::1]:10000");
    assert_eq!(c.sync_schedule, "0 0 0 * * *");
    assert_eq!(c.nbf_validation, TimeConstraintMode::Strict);
    assert_eq!(c.exp_validation, TimeConstraintMode::Lax);
    assert_eq!(c.validator.get_default_team_name(), "molten");
    assert!(c.validator.requires_refresh());
    match &c.validator {
        ValidatorConfiguration::Team(t) => assert!(!t.is_static_keys()),
    }
}

#[test]
fn configuration_from_parts() {
    let v = ValidatorConfiguration::Team(StaticTeamValidatorConfiguration {
        team_name: "t".to_string(),
        static_keys: None,
    });
    let c = Configuration::new("unix:///s", v, "* * * * * *", &TimeConstraintMode::Lax, &TimeConstraintMode::Lax);
    assert_eq!(c.validator.get_default_team_name(), "t");
    assert_eq!(c.listener, "unix:///s");
}

#[test]
fn listener_targets() {
    assert_eq!(
        config("tcp://127.0.0.1:9000").listener_target().unwrap(),
        ListenTarget::Tcp("127.0.0.1:9000".to_string())
    );
    assert_eq!(
        config("tcp://example.com").listener_target().unwrap(),
        ListenTarget::Tcp("example.com:80".to_string())
    );
    assert_eq!(
        config("tcp://[::1]:10000").listener_target().unwrap(),
        ListenTarget::Tcp("[::1]:10000".to_string())
    );
    assert_eq!(
        config("unix:///tmp/extauthz.sock").listener_target().unwrap(),
        ListenTarget::Unix("/tmp/extauthz.sock".to_string())
    );
    match config("http://x:1").listener_target() {
        Err(ListenerError::InvalidScheme(s)) => assert_eq!(s, "http"),
        other => panic!("unexpected {:?}", other),
    }
    match config("not a url").listener_target() {
        Err(ListenerError::UrlParseError(_)) => {}
        other => panic!("unexpected {:?}", other),
    }
}

#[test]
fn static_keys_settings() {
    let c = StaticTeamValidatorConfiguration::from_settings("molten", None).unwrap();
    assert_eq!(c.team_name, "molten");
    assert!(!c.is_static_keys());

    let keys = r#"{"public_cert":{"kid":"foo"},"keys":[{"kid":"foo","alg":"RS256","use":"sig","e":"AQAB","n":"bar"}]}"#;
    let c = StaticTeamValidatorConfiguration::from_settings("molten", Some(keys)).unwrap();
    assert_eq!(c.team_name, "molten");
    assert!(c.is_static_keys());

    let e = StaticTeamValidatorConfiguration::from_settings("molten", Some("")).err().unwrap();
    assert!(e.starts_with("Error retrieving static keys: "));
    assert!(e.len() > "Error retrieving static keys: ".len());

    let e = StaticTeamValidatorConfiguration::from_settings("molten", Some(r#"{"keys":[]}"#)).err().unwrap();
    assert!(e.starts_with("Error retrieving static keys: "));
}
