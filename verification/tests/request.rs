use extauthz_cfzt::request::{
    Claim, ClaimError, JsonNumber, JsonValue, PrincipalAssertion, ServiceAssertion, UserAssertion,
};

fn s(x: &str) -> JsonValue {
    JsonValue::Str(x.to_string())
}

fn n(x: u64) -> JsonValue {
    JsonValue::Number(JsonNumber::PosInt(x))
}

fn user_members() -> Vec<(String, JsonValue)> {
    vec![
        ("aud".to_string(), JsonValue::Array(vec![s("app1"), s("app2")])),
        ("email".to_string(), s("me@example.com")),
        ("exp".to_string(), n(1717981439)),
        ("iat".to_string(), n(1717979639)),
        ("nbf".to_string(), n(1717979639)),
        ("iss".to_string(), s("https://molten.cloudflareaccess.com")),
        ("type".to_string(), s("app")),
        ("identity_nonce".to_string(), s("APXGFqlOi99SlUQw")),
        ("sub".to_string(), s("7208eea4")),
        (
            "custom".to_string(),
            JsonValue::Object(vec![
                ("email".to_string(), s("")),
                ("n".to_string(), n(3)),
                ("flag".to_string(), JsonValue::Bool(true)),
                ("list".to_string(), JsonValue::Array(vec![n(1), s("a")])),
                ("neg".to_string(), JsonValue::Number(JsonNumber::NegInt(-2))),
                ("f".to_string(), JsonValue::Number(JsonNumber::Float("1.5".to_string()))),
                ("nil".to_string(), JsonValue::Null),
            ]),
        ),
        ("country".to_string(), s("AU")),
    ]
}

fn without(members: &[(String, JsonValue)], key: &str) -> Vec<(String, JsonValue)> {
    members.iter().filter(|(k, _)| k != key).map(|(k, v)| (k.clone(), clone_json(v))).collect()
}

fn clone_json(v: &JsonValue) -> JsonValue {
    match v {
        JsonValue::Null => JsonValue::Null,
        JsonValue::Bool(b) => JsonValue::Bool(*b),
        JsonValue::Number(JsonNumber::PosInt(x)) => n(*x),
        JsonValue::Number(JsonNumber::NegInt(x)) => JsonValue::Number(JsonNumber::NegInt(*x)),
        JsonValue::Number(JsonNumber::Float(t)) => JsonValue::Number(JsonNumber::Float(t.clone())),
        JsonValue::Str(x) => s(x),
        JsonValue::Array(a) => JsonValue::Array(a.iter().map(clone_json).collect()),
        JsonValue::Object(o) => JsonValue::Object(o.iter().map(|(k, v)| (k.clone(), clone_json(v))).collect()),
    }
}

fn with(members: &[(String, JsonValue)], key: &str, value: JsonValue) -> Vec<(String, JsonValue)> {
    let mut m = without(members, key);
    m.push((key.to_string(), value));
    m
}

#[test]
fn user_assertion_from_claims() {
    let claims = JsonValue::Object(user_members());
    match PrincipalAssertion::from_claims_value(&claims).unwrap() {
        PrincipalAssertion::User(u) => {
            assert_eq!(u.aud, vec!["app1".to_string(), "app2".to_string()]);
            assert_eq!(u.email, "me@example.com");
            assert_eq!(u.exp, 1717981439);
            assert_eq!(u.iat, 1717979639);
            assert_eq!(u.nbf, 1717979639);
            assert_eq!(u.iss, "https://molten.cloudflareaccess.com");
            assert_eq!(u.typ, "app");
            assert_eq!(u.nonce, "APXGFqlOi99SlUQw");
            assert_eq!(u.sub, "7208eea4");
            assert_eq!(u.country, "AU");
            let expected: Vec<(String, String)> = vec![
                ("email", ""),
                ("n", "3"),
                ("flag", "true"),
                ("list", "[1,\"a\"]"),
                ("neg", "-2"),
                ("f", "1.5"),
                ("nil", "null"),
            ]
            .into_iter()
            .map(|(k, v)| (k.to_string(), v.to_string()))
            .collect();
            assert_eq!(u.custom, expected);
        }
        PrincipalAssertion::Service(_) => panic!("expected a user"),
    }
}

#[test]
fn service_assertion_from_claims() {
    let members = vec![
        ("sub".to_string(), s("")),
        ("aud".to_string(), JsonValue::Array(vec![s("svc")])),
        ("exp".to_string(), n(20)),
        ("iat".to_string(), n(10)),
        ("iss".to_string(), s("issuer")),
        ("type".to_string(), s("app")),
        ("common_name".to_string(), s("abc.access")),
    ];
    match PrincipalAssertion::from_claims_value(&JsonValue::Object(members)).unwrap() {
        PrincipalAssertion::Service(sa) => {
            assert_eq!(sa.aud, vec!["svc".to_string()]);
            assert_eq!(sa.exp, 20);
            assert_eq!(sa.iat, 10);
            assert_eq!(sa.iss, "issuer");
            assert_eq!(sa.typ, "app");
            assert_eq!(sa.common_name, "abc.access");
        }
        PrincipalAssertion::User(_) => panic!("expected a service"),
    }
}

fn user_err(members: Vec<(String, JsonValue)>) -> ClaimError {
    UserAssertion::from_claims_object(&members).unwrap_err()
}

#[test]
fn claim_errors_in_order() {
    let m = user_members();
    assert_eq!(user_err(without(&m, "aud")), ClaimError::Missing(Claim::Aud));
    assert_eq!(user_err(with(&m, "aud", s("x"))), ClaimError::AudMustBeArray);
    assert_eq!(user_err(with(&m, "aud", JsonValue::Array(vec![n(1)]))), ClaimError::AudienceMustBeStr);
    assert_eq!(user_err(without(&m, "email")), ClaimError::Missing(Claim::Email));
    assert_eq!(user_err(with(&m, "email", n(1))), ClaimError::ShouldBeStr(Claim::Email));
    assert_eq!(user_err(with(&m, "exp", s("1"))), ClaimError::ShouldBeInt(Claim::Exp));
    assert_eq!(
        user_err(with(&m, "iat", JsonValue::Number(JsonNumber::NegInt(-1)))),
        ClaimError::ShouldBeInt(Claim::Iat)
    );
    assert_eq!(user_err(without(&m, "nbf")), ClaimError::Missing(Claim::Nbf));
    assert_eq!(user_err(without(&m, "identity_nonce")), ClaimError::Missing(Claim::IdentityNonce));
    assert_eq!(user_err(without(&m, "country")), ClaimError::Missing(Claim::Country));
    assert_eq!(user_err(with(&m, "custom", s("x"))), ClaimError::CustomMustBeObj);
    // the first failing claim decides
    let both = with(&without(&m, "email"), "exp", s("x"));
    assert_eq!(user_err(both), ClaimError::Missing(Claim::Email));
    // a missing custom claim is no error
    let u = UserAssertion::from_claims_object(&without(&m, "custom")).unwrap();
    assert!(u.custom.is_empty());
    let sa = ServiceAssertion::from_claims_object(&m).unwrap_err();
    assert_eq!(sa, ClaimError::Missing(Claim::CommonName));
}

#[test]
fn principal_errors() {
    let r = PrincipalAssertion::from_claims_value(&s("x")).unwrap_err();
    assert_eq!(r, ClaimError::InvalidClaimsValue);
    assert_eq!(r.message(), "invalid claims value");
    let r = PrincipalAssertion::from_claims_value(&JsonValue::Object(vec![])).unwrap_err();
    assert_eq!(r, ClaimError::Missing(Claim::Sub));
    assert_eq!(r.message(), "sub claim missing");
    let r = PrincipalAssertion::from_claims_value(&JsonValue::Object(vec![("sub".to_string(), n(1))])).unwrap_err();
    assert_eq!(r, ClaimError::SubMustBeStr);
    assert_eq!(r.message(), "sub claim must be str");
    assert_eq!(ClaimError::ShouldBeStr(Claim::CommonName).message(), "common_name claim should be str");
    assert_eq!(ClaimError::ShouldBeInt(Claim::Exp).message(), "exp claim should be int");
    assert_eq!(ClaimError::AudMustBeArray.message(), "aud must be array");
    assert_eq!(ClaimError::AudienceMustBeStr.message(), "audience values must be str");
    assert_eq!(ClaimError::CustomMustBeObj.message(), "custom claim must be obj");
}

#[test]
fn custom_claim_texts_and_signed_integers() {
    let mut m = user_members();
    m = with(&m, "custom", JsonValue::Object(vec![
        ("team".to_string(), s("eng")),
        ("level".to_string(), n(3)),
        ("admin".to_string(), JsonValue::Bool(true)),
    ]));
    m = with(&m, "exp", JsonValue::Number(JsonNumber::NegInt(5)));
    let u = UserAssertion::from_claims_object(&m).unwrap();
    assert_eq!(u.exp, 5);
    let expected: Vec<(String, String)> = vec![("team", "eng"), ("level", "3"), ("admin", "true")]
        .into_iter()
        .map(|(k, v)| (k.to_string(), v.to_string()))
        .collect();
    assert_eq!(u.custom, expected);
}
