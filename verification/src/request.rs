//! Reading the claims of a validated token into a user or a service
//! principal: which claims are required, of which kind, and which error
//! comes first when one is not as required.
use vstd::prelude::*;
use crate::text::{chars_equal_str, decimal};

verus! {

#[verifier::external_type_specification]
#[verifier::external_body]
pub struct ExSerdeJsonValue(serde_json::Value);

/// A JSON number, as `serde_json` holds it.
#[derive(Debug, PartialEq)]
pub enum JsonNumber {
    /// A non-negative integer.
    PosInt(u64),
    /// A signed integer; `serde_json` holds only negative ones so, but a
    /// non-negative one is read as the same integer.
    NegInt(i64),
    /// A floating-point number, carried as its JSON text as `serde_json`
    /// writes it (a text that `serde_json` does not read back as JSON is
    /// written out as `null`).
    Float(String),
}

/// A JSON value.
#[derive(Debug)]
pub enum JsonValue {
    Null,
    Bool(bool),
    Number(JsonNumber),
    Str(String),
    Array(Vec<JsonValue>),
    /// The members of an object, in order.
    Object(Vec<(String, JsonValue)>),
}

/// Converts a value into `serde_json`'s representation, node for node: the
/// argument conversion of `json_text_of`, apart because it recurses.
#[verifier::external_body]
fn to_serde_value(value: &JsonValue) -> serde_json::Value {
    match value {
        JsonValue::Null => serde_json::Value::Null,
        JsonValue::Bool(b) => serde_json::Value::Bool(*b),
        JsonValue::Number(JsonNumber::PosInt(n)) => serde_json::Value::from(*n),
        JsonValue::Number(JsonNumber::NegInt(n)) => serde_json::Value::from(*n),
        JsonValue::Number(JsonNumber::Float(t)) => serde_json::from_str(t).unwrap_or(serde_json::Value::Null),
        JsonValue::Str(s) => serde_json::Value::String(s.clone()),
        JsonValue::Array(items) => serde_json::Value::Array(items.iter().map(to_serde_value).collect()),
        JsonValue::Object(members) => serde_json::Value::Object(
            members.iter().map(|(k, v)| (k.clone(), to_serde_value(v))).collect(),
        ),
    }
}

/// The compact JSON text of a value, as `serde_json` writes it.
pub uninterp spec fn json_text(value: JsonValue) -> Seq<char>;

/// The decimal text of an integer, with a minus sign when negative.
pub open spec fn integer_text(i: int) -> Seq<char> {
    if i < 0 {
        "-"@ + decimal((-i) as nat)
    } else {
        decimal(i as nat)
    }
}

/// Calls `serde_json::Value::to_string` on the value (after converting it
/// with `to_serde_value`). Claimed: the text is `json_text` of the value;
/// `null`, `true`, `false` and integers are written in their plain compact
/// form, as `serde_json`'s compact writer does; the text of strings, floats,
/// arrays and objects is left to `serde_json`.
#[verifier::external_body]
fn json_text_of(value: &JsonValue) -> (r: String)
    ensures
        r@ == json_text(*value),
        *value matches JsonValue::Null ==> r@ == "null"@,
        *value matches JsonValue::Bool(b) ==> r@ == (if b { "true"@ } else { "false"@ }),
        *value matches JsonValue::Number(JsonNumber::PosInt(n)) ==> r@ == integer_text(n as int),
        *value matches JsonValue::Number(JsonNumber::NegInt(n)) ==> r@ == integer_text(n as int),
{
    to_serde_value(value).to_string()
}

/// The claims read from a token.
#[derive(Debug, Clone, Copy, PartialEq, Eq, Structural)]
pub enum Claim {
    Aud,
    Email,
    Exp,
    Iat,
    Nbf,
    Iss,
    Type,
    IdentityNonce,
    Sub,
    Country,
    CommonName,
    Custom,
}

impl Claim {
    /// The member name of the claim.
    pub open spec fn spec_name(self) -> Seq<char> {
        match self {
            Claim::Aud => "aud"@,
            Claim::Email => "email"@,
            Claim::Exp => "exp"@,
            Claim::Iat => "iat"@,
            Claim::Nbf => "nbf"@,
            Claim::Iss => "iss"@,
            Claim::Type => "type"@,
            Claim::IdentityNonce => "identity_nonce"@,
            Claim::Sub => "sub"@,
            Claim::Country => "country"@,
            Claim::CommonName => "common_name"@,
            Claim::Custom => "custom"@,
        }
    }

    /// The member name of the claim.
    pub fn name(&self) -> (r: &'static str)
        ensures
            r@ == self.spec_name(),
    {
        match self {
            Claim::Aud => "aud",
            Claim::Email => "email",
            Claim::Exp => "exp",
            Claim::Iat => "iat",
            Claim::Nbf => "nbf",
            Claim::Iss => "iss",
            Claim::Type => "type",
            Claim::IdentityNonce => "identity_nonce",
            Claim::Sub => "sub",
            Claim::Country => "country",
            Claim::CommonName => "common_name",
            Claim::Custom => "custom",
        }
    }
}

/// Why the claims do not make an assertion.
#[derive(Debug, Clone, Copy, PartialEq, Eq, Structural)]
pub enum ClaimError {
    /// The claims are not an object.
    InvalidClaimsValue,
    /// The subject is not a string.
    SubMustBeStr,
    /// A required claim is absent.
    Missing(Claim),
    /// A claim that must be a string is not.
    ShouldBeStr(Claim),
    /// A claim that must be a non-negative integer is not.
    ShouldBeInt(Claim),
    /// The audience claim is not an array.
    AudMustBeArray,
    /// An audience is not a string.
    AudienceMustBeStr,
    /// The custom claim is not an object.
    CustomMustBeObj,
}

impl ClaimError {
    /// The error message.
    pub open spec fn spec_message(self) -> Seq<char> {
        match self {
            ClaimError::InvalidClaimsValue => "invalid claims value"@,
            ClaimError::SubMustBeStr => "sub claim must be str"@,
            ClaimError::Missing(c) => c.spec_name() + " claim missing"@,
            ClaimError::ShouldBeStr(c) => c.spec_name() + " claim should be str"@,
            ClaimError::ShouldBeInt(c) => c.spec_name() + " claim should be int"@,
            ClaimError::AudMustBeArray => "aud must be array"@,
            ClaimError::AudienceMustBeStr => "audience values must be str"@,
            ClaimError::CustomMustBeObj => "custom claim must be obj"@,
        }
    }

    /// The error message.
    pub fn message(&self) -> (r: String)
        ensures
            r@ == self.spec_message(),
    {
        let mut r = String::new();
        match self {
            ClaimError::InvalidClaimsValue => r.append("invalid claims value"),
            ClaimError::SubMustBeStr => r.append("sub claim must be str"),
            ClaimError::Missing(c) => {
                r.append(c.name());
                r.append(" claim missing");
            },
            ClaimError::ShouldBeStr(c) => {
                r.append(c.name());
                r.append(" claim should be str");
            },
            ClaimError::ShouldBeInt(c) => {
                r.append(c.name());
                r.append(" claim should be int");
            },
            ClaimError::AudMustBeArray => r.append("aud must be array"),
            ClaimError::AudienceMustBeStr => r.append("audience values must be str"),
            ClaimError::CustomMustBeObj => r.append("custom claim must be obj"),
        }
        r
    }
}

/// The value of the first member named `key`. A name that occurs twice
/// resolves to its first occurrence; an object read from `serde_json` holds
/// each name once.
pub open spec fn member(members: Seq<(String, JsonValue)>, key: Seq<char>) -> Option<JsonValue>
    decreases members.len(),
{
    if members.len() == 0 {
        None
    } else if members[0].0@ == key {
        Some(members[0].1)
    } else {
        member(members.drop_first(), key)
    }
}

/// A required string claim.
pub open spec fn str_claim(members: Seq<(String, JsonValue)>, claim: Claim) -> Result<Seq<char>, ClaimError> {
    match member(members, claim.spec_name()) {
        None => Err(ClaimError::Missing(claim)),
        Some(JsonValue::Str(s)) => Ok(s@),
        Some(_) => Err(ClaimError::ShouldBeStr(claim)),
    }
}

/// A required non-negative integer claim.
pub open spec fn int_claim(members: Seq<(String, JsonValue)>, claim: Claim) -> Result<u64, ClaimError> {
    match member(members, claim.spec_name()) {
        None => Err(ClaimError::Missing(claim)),
        Some(JsonValue::Number(JsonNumber::PosInt(n))) => Ok(n),
        Some(JsonValue::Number(JsonNumber::NegInt(n))) => if n >= 0 {
            Ok(n as u64)
        } else {
            Err(ClaimError::ShouldBeInt(claim))
        },
        Some(_) => Err(ClaimError::ShouldBeInt(claim)),
    }
}

/// Whether every item is a string.
pub open spec fn all_strings(items: Seq<JsonValue>) -> bool {
    forall|i: int| 0 <= i < items.len() ==> (#[trigger] items[i]) is Str
}

/// The texts of items that are all strings.
pub open spec fn string_items(items: Seq<JsonValue>) -> Seq<Seq<char>> {
    items.map_values(|v: JsonValue| match v {
        JsonValue::Str(s) => s@,
        _ => Seq::empty(),
    })
}

/// The audiences: an array of strings.
pub open spec fn audiences_claim(members: Seq<(String, JsonValue)>) -> Result<Seq<Seq<char>>, ClaimError> {
    match member(members, "aud"@) {
        None => Err(ClaimError::Missing(Claim::Aud)),
        Some(JsonValue::Array(items)) => if all_strings(items@) {
            Ok(string_items(items@))
        } else {
            Err(ClaimError::AudienceMustBeStr)
        },
        Some(_) => Err(ClaimError::AudMustBeArray),
    }
}

/// A custom claim value as text: a string as it stands, anything else as
/// its compact JSON text: `null`, `true`, `false`, an integer in decimal,
/// and floats, arrays and objects as `serde_json` writes them.
pub open spec fn forced_text(value: JsonValue) -> Seq<char> {
    match value {
        JsonValue::Str(s) => s@,
        JsonValue::Null => "null"@,
        JsonValue::Bool(b) => if b { "true"@ } else { "false"@ },
        JsonValue::Number(JsonNumber::PosInt(n)) => integer_text(n as int),
        JsonValue::Number(JsonNumber::NegInt(n)) => integer_text(n as int),
        _ => json_text(value),
    }
}

/// The custom claims, name and text for each member of the `custom` object,
/// in order; none when the claim is absent.
pub open spec fn custom_claims(members: Seq<(String, JsonValue)>) -> Result<Seq<(Seq<char>, Seq<char>)>, ClaimError> {
    match member(members, "custom"@) {
        None => Ok(Seq::empty()),
        Some(JsonValue::Object(custom)) => Ok(custom@.map_values(|m: (String, JsonValue)| (m.0@, forced_text(m.1)))),
        Some(_) => Err(ClaimError::CustomMustBeObj),
    }
}

/// The view of a user assertion.
pub struct UserAssertionView {
    pub aud: Seq<Seq<char>>,
    pub email: Seq<char>,
    pub exp: u64,
    pub iat: u64,
    pub nbf: u64,
    pub iss: Seq<char>,
    pub typ: Seq<char>,
    pub nonce: Seq<char>,
    pub sub: Seq<char>,
    pub country: Seq<char>,
    pub custom: Seq<(Seq<char>, Seq<char>)>,
}

/// The assertion about a user, read from a token.
#[derive(Debug)]
pub struct UserAssertion {
    pub aud: Vec<String>,
    pub email: String,
    pub exp: u64,
    pub iat: u64,
    pub nbf: u64,
    pub iss: String,
    pub typ: String,
    pub nonce: String,
    pub sub: String,
    pub country: String,
    /// The custom claims, name and text, in the order of the token's
    /// `custom` object: their names are distinct whenever the object's
    /// member names are, as in any object read by `serde_json`.
    pub custom: Vec<(String, String)>,
}

impl View for UserAssertion {
    type V = UserAssertionView;

    open spec fn view(&self) -> UserAssertionView {
        UserAssertionView {
            aud: self.aud@.map_values(|a: String| a@),
            email: self.email@,
            exp: self.exp,
            iat: self.iat,
            nbf: self.nbf,
            iss: self.iss@,
            typ: self.typ@,
            nonce: self.nonce@,
            sub: self.sub@,
            country: self.country@,
            custom: self.custom@.map_values(|p: (String, String)| (p.0@, p.1@)),
        }
    }
}

/// The user assertion that the members of a claims object make: claims
/// are read in the order audience, email, expiry, issued-at, not-before,
/// issuer, type, identity nonce, subject, country, custom, and the first
/// that is absent or of the wrong kind decides the error.
pub open spec fn user_assertion_of(m: Seq<(String, JsonValue)>) -> Result<UserAssertionView, ClaimError> {
    if audiences_claim(m) is Err { Err(audiences_claim(m)->Err_0) }
    else if str_claim(m, Claim::Email) is Err { Err(str_claim(m, Claim::Email)->Err_0) }
    else if int_claim(m, Claim::Exp) is Err { Err(int_claim(m, Claim::Exp)->Err_0) }
    else if int_claim(m, Claim::Iat) is Err { Err(int_claim(m, Claim::Iat)->Err_0) }
    else if int_claim(m, Claim::Nbf) is Err { Err(int_claim(m, Claim::Nbf)->Err_0) }
    else if str_claim(m, Claim::Iss) is Err { Err(str_claim(m, Claim::Iss)->Err_0) }
    else if str_claim(m, Claim::Type) is Err { Err(str_claim(m, Claim::Type)->Err_0) }
    else if str_claim(m, Claim::IdentityNonce) is Err { Err(str_claim(m, Claim::IdentityNonce)->Err_0) }
    else if str_claim(m, Claim::Sub) is Err { Err(str_claim(m, Claim::Sub)->Err_0) }
    else if str_claim(m, Claim::Country) is Err { Err(str_claim(m, Claim::Country)->Err_0) }
    else if custom_claims(m) is Err { Err(custom_claims(m)->Err_0) }
    else {
        Ok(UserAssertionView {
            aud: audiences_claim(m)->Ok_0,
            email: str_claim(m, Claim::Email)->Ok_0,
            exp: int_claim(m, Claim::Exp)->Ok_0,
            iat: int_claim(m, Claim::Iat)->Ok_0,
            nbf: int_claim(m, Claim::Nbf)->Ok_0,
            iss: str_claim(m, Claim::Iss)->Ok_0,
            typ: str_claim(m, Claim::Type)->Ok_0,
            nonce: str_claim(m, Claim::IdentityNonce)->Ok_0,
            sub: str_claim(m, Claim::Sub)->Ok_0,
            country: str_claim(m, Claim::Country)->Ok_0,
            custom: custom_claims(m)->Ok_0,
        })
    }
}

/// The view of a service assertion.
pub struct ServiceAssertionView {
    pub aud: Seq<Seq<char>>,
    pub exp: u64,
    pub iat: u64,
    pub iss: Seq<char>,
    pub typ: Seq<char>,
    pub common_name: Seq<char>,
}

/// The assertion about a service, read from a token.
#[derive(Debug)]
pub struct ServiceAssertion {
    pub aud: Vec<String>,
    pub exp: u64,
    pub iat: u64,
    pub iss: String,
    pub typ: String,
    pub common_name: String,
}

impl View for ServiceAssertion {
    type V = ServiceAssertionView;

    open spec fn view(&self) -> ServiceAssertionView {
        ServiceAssertionView {
            aud: self.aud@.map_values(|a: String| a@),
            exp: self.exp,
            iat: self.iat,
            iss: self.iss@,
            typ: self.typ@,
            common_name: self.common_name@,
        }
    }
}

/// The service assertion that the members of a claims object make: claims
/// are read in the order audience, expiry, issued-at, issuer, type, common
/// name, and the first that is absent or of the wrong kind decides the
/// error.
pub open spec fn service_assertion_of(m: Seq<(String, JsonValue)>) -> Result<ServiceAssertionView, ClaimError> {
    if audiences_claim(m) is Err { Err(audiences_claim(m)->Err_0) }
    else if int_claim(m, Claim::Exp) is Err { Err(int_claim(m, Claim::Exp)->Err_0) }
    else if int_claim(m, Claim::Iat) is Err { Err(int_claim(m, Claim::Iat)->Err_0) }
    else if str_claim(m, Claim::Iss) is Err { Err(str_claim(m, Claim::Iss)->Err_0) }
    else if str_claim(m, Claim::Type) is Err { Err(str_claim(m, Claim::Type)->Err_0) }
    else if str_claim(m, Claim::CommonName) is Err { Err(str_claim(m, Claim::CommonName)->Err_0) }
    else {
        Ok(ServiceAssertionView {
            aud: audiences_claim(m)->Ok_0,
            exp: int_claim(m, Claim::Exp)->Ok_0,
            iat: int_claim(m, Claim::Iat)->Ok_0,
            iss: str_claim(m, Claim::Iss)->Ok_0,
            typ: str_claim(m, Claim::Type)->Ok_0,
            common_name: str_claim(m, Claim::CommonName)->Ok_0,
        })
    }
}

/// The principal a token asserts.
#[derive(Debug)]
pub enum PrincipalAssertion {
    User(UserAssertion),
    Service(ServiceAssertion),
}

/// The view of a principal assertion.
pub enum PrincipalAssertionView {
    User(UserAssertionView),
    Service(ServiceAssertionView),
}

impl View for PrincipalAssertion {
    type V = PrincipalAssertionView;

    open spec fn view(&self) -> PrincipalAssertionView {
        match self {
            PrincipalAssertion::User(u) => PrincipalAssertionView::User(u@),
            PrincipalAssertion::Service(s) => PrincipalAssertionView::Service(s@),
        }
    }
}

/// The principal that a claims value asserts: the claims must be an object
/// with a string subject; an empty subject makes a service, any other a
/// user.
pub open spec fn principal_of(claims: JsonValue) -> Result<PrincipalAssertionView, ClaimError> {
    match claims {
        JsonValue::Object(m) => match member(m@, "sub"@) {
            None => Err(ClaimError::Missing(Claim::Sub)),
            Some(JsonValue::Str(sub)) => if sub@.len() == 0 {
                match service_assertion_of(m@) {
                    Ok(s) => Ok(PrincipalAssertionView::Service(s)),
                    Err(e) => Err(e),
                }
            } else {
                match user_assertion_of(m@) {
                    Ok(u) => Ok(PrincipalAssertionView::User(u)),
                    Err(e) => Err(e),
                }
            },
            Some(_) => Err(ClaimError::SubMustBeStr),
        },
        _ => Err(ClaimError::InvalidClaimsValue),
    }
}

/// Whether a claims outcome is the one `spec` describes.
pub open spec fn outcome_matches<T: View>(r: Result<T, ClaimError>, spec: Result<T::V, ClaimError>) -> bool {
    match r {
        Ok(v) => spec == Ok::<T::V, ClaimError>(v@),
        Err(e) => spec == Err::<T::V, ClaimError>(e),
    }
}

/// The value of the first member named `key`.
pub fn get_member<'a>(members: &'a Vec<(String, JsonValue)>, key: &str) -> (r: Option<&'a JsonValue>)
    ensures
        match r {
            Some(v) => member(members@, key@) == Some(*v),
            None => member(members@, key@) is None,
        },
{
    let mut i: usize = 0;
    assert(members@.skip(0) =~= members@);
    while i < members.len()
        invariant
            i <= members.len(),
            member(members@, key@) == member(members@.skip(i as int), key@),
        decreases members.len() - i,
    {
        let name = crate::text::chars_of(members[i].0.as_str());
        proof {
            assert(members@.skip(i as int).drop_first() =~= members@.skip(i + 1));
            assert(members@.skip(i as int)[0] == members@[i as int]);
        }
        if chars_equal_str(&name, key) {
            return Some(&members[i].1);
        }
        i = i + 1;
    }
    None
}

/// A required string claim.
fn get_required_str_claim(members: &Vec<(String, JsonValue)>, claim: Claim) -> (r: Result<String, ClaimError>)
    ensures
        outcome_matches(r, str_claim(members@, claim)),
{
    match get_member(members, claim.name()) {
        None => Err(ClaimError::Missing(claim)),
        Some(JsonValue::Str(s)) => Ok(s.clone()),
        Some(_) => Err(ClaimError::ShouldBeStr(claim)),
    }
}

/// A required non-negative integer claim.
fn get_required_int_claim(members: &Vec<(String, JsonValue)>, claim: Claim) -> (r: Result<u64, ClaimError>)
    ensures
        match r {
            Ok(n) => int_claim(members@, claim) == Ok::<u64, ClaimError>(n),
            Err(e) => int_claim(members@, claim) == Err::<u64, ClaimError>(e),
        },
{
    match get_member(members, claim.name()) {
        None => Err(ClaimError::Missing(claim)),
        Some(JsonValue::Number(JsonNumber::PosInt(n))) => Ok(*n),
        Some(JsonValue::Number(JsonNumber::NegInt(n))) => if *n >= 0 {
            Ok(*n as u64)
        } else {
            Err(ClaimError::ShouldBeInt(claim))
        },
        Some(_) => Err(ClaimError::ShouldBeInt(claim)),
    }
}

/// The audiences: an array of strings.
fn collect_audiences(members: &Vec<(String, JsonValue)>) -> (r: Result<Vec<String>, ClaimError>)
    ensures
        match r {
            Ok(v) => audiences_claim(members@) == Ok::<Seq<Seq<char>>, ClaimError>(v@.map_values(|a: String| a@)),
            Err(e) => audiences_claim(members@) == Err::<Seq<Seq<char>>, ClaimError>(e),
        },
{
    let items = match get_member(members, "aud") {
        None => {
            return Err(ClaimError::Missing(Claim::Aud));
        },
        Some(JsonValue::Array(items)) => items,
        Some(_) => {
            return Err(ClaimError::AudMustBeArray);
        },
    };
    let mut audiences: Vec<String> = Vec::new();
    let mut i: usize = 0;
    while i < items.len()
        invariant
            member(members@, "aud"@) == Some(JsonValue::Array(*items)),
            i <= items.len(),
            all_strings(items@.take(i as int)),
            audiences@.map_values(|a: String| a@) == string_items(items@.take(i as int)),
        decreases items.len() - i,
    {
        match &items[i] {
            JsonValue::Str(s) => {
                let ghost before = audiences@;
                audiences.push(s.clone());
                proof {
                    assert(items@.take(i + 1) =~= items@.take(i as int).push(items@[i as int]));
                    assert(audiences@.map_values(|a: String| a@) =~= before.map_values(|a: String| a@).push(s@));
                    assert(string_items(items@.take(i + 1)) =~= string_items(items@.take(i as int)).push(s@));
                }
            },
            _ => {
                proof {
                    assert(!(items@[i as int] is Str));
                }
                return Err(ClaimError::AudienceMustBeStr);
            },
        }
        i = i + 1;
    }
    proof {
        assert(items@.take(items.len() as int) =~= items@);
    }
    Ok(audiences)
}

/// A custom claim value as text.
fn force_as_string(value: &JsonValue) -> (r: String)
    ensures
        r@ == forced_text(*value),
{
    match value {
        JsonValue::Str(s) => s.clone(),
        _ => json_text_of(value),
    }
}

/// The custom claims.
fn get_custom_claims(members: &Vec<(String, JsonValue)>) -> (r: Result<Vec<(String, String)>, ClaimError>)
    ensures
        match r {
            Ok(v) => custom_claims(members@) == Ok::<Seq<(Seq<char>, Seq<char>)>, ClaimError>(
                v@.map_values(|p: (String, String)| (p.0@, p.1@)),
            ),
            Err(e) => custom_claims(members@) == Err::<Seq<(Seq<char>, Seq<char>)>, ClaimError>(e),
        },
{
    let custom = match get_member(members, "custom") {
        None => {
            let v: Vec<(String, String)> = Vec::new();
            assert(v@.map_values(|p: (String, String)| (p.0@, p.1@)) =~= Seq::<(Seq<char>, Seq<char>)>::empty());
            return Ok(v);
        },
        Some(JsonValue::Object(custom)) => custom,
        Some(_) => {
            return Err(ClaimError::CustomMustBeObj);
        },
    };
    let mut claims: Vec<(String, String)> = Vec::new();
    let mut i: usize = 0;
    while i < custom.len()
        invariant
            member(members@, "custom"@) == Some(JsonValue::Object(*custom)),
            i <= custom.len(),
            claims@.map_values(|p: (String, String)| (p.0@, p.1@))
                == custom@.take(i as int).map_values(|m: (String, JsonValue)| (m.0@, forced_text(m.1))),
        decreases custom.len() - i,
    {
        let ghost before = claims@;
        let name = custom[i].0.clone();
        let text = force_as_string(&custom[i].1);
        claims.push((name, text));
        proof {
            assert(custom@.take(i + 1) =~= custom@.take(i as int).push(custom@[i as int]));
            assert(claims@.map_values(|p: (String, String)| (p.0@, p.1@)) =~= before.map_values(
                |p: (String, String)| (p.0@, p.1@),
            ).push((custom@[i as int].0@, forced_text(custom@[i as int].1))));
            assert(custom@.take(i + 1).map_values(|m: (String, JsonValue)| (m.0@, forced_text(m.1)))
                =~= custom@.take(i as int).map_values(|m: (String, JsonValue)| (m.0@, forced_text(m.1))).push(
                (custom@[i as int].0@, forced_text(custom@[i as int].1))));
        }
        i = i + 1;
    }
    proof {
        assert(custom@.take(custom.len() as int) =~= custom@);
    }
    Ok(claims)
}

impl UserAssertion {
    /// The user assertion that the members of a claims object make.
    pub fn from_claims_object(members: &Vec<(String, JsonValue)>) -> (r: Result<UserAssertion, ClaimError>)
        ensures
            outcome_matches(r, user_assertion_of(members@)),
            r matches Ok(u) ==> {
                &&& holds_texts(member(members@, "aud"@), u@.aud)
                &&& holds_text(member(members@, "email"@), u.email@)
                &&& holds_count(member(members@, "exp"@), u.exp)
                &&& holds_count(member(members@, "iat"@), u.iat)
                &&& holds_count(member(members@, "nbf"@), u.nbf)
                &&& holds_text(member(members@, "iss"@), u.iss@)
                &&& holds_text(member(members@, "type"@), u.typ@)
                &&& holds_text(member(members@, "identity_nonce"@), u.nonce@)
                &&& holds_text(member(members@, "sub"@), u.sub@)
                &&& holds_text(member(members@, "country"@), u.country@)
                &&& holds_custom(member(members@, "custom"@), u@.custom)
            },
    {
        proof {
            lemma_user_assertion_reads_members(members@);
        }
        let aud = collect_audiences(members)?;
        let email = get_required_str_claim(members, Claim::Email)?;
        let exp = get_required_int_claim(members, Claim::Exp)?;
        let iat = get_required_int_claim(members, Claim::Iat)?;
        let nbf = get_required_int_claim(members, Claim::Nbf)?;
        let iss = get_required_str_claim(members, Claim::Iss)?;
        let typ = get_required_str_claim(members, Claim::Type)?;
        let nonce = get_required_str_claim(members, Claim::IdentityNonce)?;
        let sub = get_required_str_claim(members, Claim::Sub)?;
        let country = get_required_str_claim(members, Claim::Country)?;
        let custom = get_custom_claims(members)?;
        Ok(UserAssertion { aud, email, exp, iat, nbf, iss, typ, nonce, sub, country, custom })
    }
}

impl ServiceAssertion {
    /// The service assertion that the members of a claims object make.
    pub fn from_claims_object(members: &Vec<(String, JsonValue)>) -> (r: Result<ServiceAssertion, ClaimError>)
        ensures
            outcome_matches(r, service_assertion_of(members@)),
            r matches Ok(a) ==> {
                &&& holds_texts(member(members@, "aud"@), a@.aud)
                &&& holds_count(member(members@, "exp"@), a.exp)
                &&& holds_count(member(members@, "iat"@), a.iat)
                &&& holds_text(member(members@, "iss"@), a.iss@)
                &&& holds_text(member(members@, "type"@), a.typ@)
                &&& holds_text(member(members@, "common_name"@), a.common_name@)
            },
    {
        proof {
            lemma_service_assertion_reads_members(members@);
        }
        let aud = collect_audiences(members)?;
        let exp = get_required_int_claim(members, Claim::Exp)?;
        let iat = get_required_int_claim(members, Claim::Iat)?;
        let iss = get_required_str_claim(members, Claim::Iss)?;
        let typ = get_required_str_claim(members, Claim::Type)?;
        let common_name = get_required_str_claim(members, Claim::CommonName)?;
        Ok(ServiceAssertion { aud, exp, iat, iss, typ, common_name })
    }
}

impl PrincipalAssertion {
    /// The principal that a claims value asserts.
    pub fn from_claims_value(val: &JsonValue) -> (r: Result<PrincipalAssertion, ClaimError>)
        ensures
            outcome_matches(r, principal_of(*val)),
    {
        let members = match val {
            JsonValue::Object(m) => m,
            _ => {
                return Err(ClaimError::InvalidClaimsValue);
            },
        };
        let subject = match get_member(members, "sub") {
            None => {
                return Err(ClaimError::Missing(Claim::Sub));
            },
            Some(JsonValue::Str(s)) => s,
            Some(_) => {
                return Err(ClaimError::SubMustBeStr);
            },
        };
        if subject.as_str().is_empty() {
            return match ServiceAssertion::from_claims_object(members) {
                Ok(s) => Ok(PrincipalAssertion::Service(s)),
                Err(e) => Err(e),
            };
        }
        match UserAssertion::from_claims_object(members) {
            Ok(u) => Ok(PrincipalAssertion::User(u)),
            Err(e) => Err(e),
        }
    }
}

/// Whether the names of a sequence of name and value pairs are distinct.
pub open spec fn distinct_names<V>(pairs: Seq<(Seq<char>, V)>) -> bool {
    forall|i: int, j: int| 0 <= i < j < pairs.len() ==> #[trigger] pairs[i].0 != #[trigger] pairs[j].0
}

/// The custom claims name each member of the `custom` object once, in order:
/// when the object's member names are distinct, so are the claims' names.
pub proof fn lemma_custom_claim_names_distinct(members: Seq<(String, JsonValue)>, custom: Vec<(String, JsonValue)>)
    requires
        member(members, "custom"@) == Some(JsonValue::Object(custom)),
        distinct_names(custom@.map_values(|m: (String, JsonValue)| (m.0@, m.1))),
    ensures
        custom_claims(members) matches Ok(c) && distinct_names(c),
{
    let c = custom@.map_values(|m: (String, JsonValue)| (m.0@, forced_text(m.1)));
    let d = custom@.map_values(|m: (String, JsonValue)| (m.0@, m.1));
    assert forall|i: int, j: int| 0 <= i < j < c.len() implies #[trigger] c[i].0 != #[trigger] c[j].0 by {
        assert(c[i].0 == d[i].0);
        assert(c[j].0 == d[j].0);
    }
}

/// Whether a member value is the text `t`.
pub open spec fn holds_text(v: Option<JsonValue>, t: Seq<char>) -> bool {
    v matches Some(JsonValue::Str(s)) && s@ == t
}

/// Whether a member value is the non-negative integer `n`.
pub open spec fn holds_count(v: Option<JsonValue>, n: u64) -> bool {
    ||| v matches Some(JsonValue::Number(JsonNumber::PosInt(k))) && k == n
    ||| v matches Some(JsonValue::Number(JsonNumber::NegInt(k))) && k == n
}

/// Whether a member value is an array of exactly the texts `ts`, in order.
pub open spec fn holds_texts(v: Option<JsonValue>, ts: Seq<Seq<char>>) -> bool {
    v matches Some(JsonValue::Array(items)) && items@.len() == ts.len() && forall|i: int|
        0 <= i < ts.len() ==> holds_text(Some(#[trigger] items@[i]), ts[i])
}

/// Whether custom claims are those of a member value: none when the member
/// is absent, and otherwise one per member of the object, in order, with its
/// name, strings as they stand, `null`, booleans and integers in their plain
/// text.
pub open spec fn holds_custom(v: Option<JsonValue>, c: Seq<(Seq<char>, Seq<char>)>) -> bool {
    ||| v is None && c.len() == 0
    ||| v matches Some(JsonValue::Object(o)) && o@.len() == c.len() && forall|i: int| 0 <= i < c.len() ==> {
        &&& (#[trigger] c[i]).0 == o@[i].0@
        &&& o@[i].1 matches JsonValue::Str(s) ==> c[i].1 == s@
        &&& o@[i].1 matches JsonValue::Null ==> c[i].1 == "null"@
        &&& o@[i].1 matches JsonValue::Bool(b) ==> c[i].1 == (if b { "true"@ } else { "false"@ })
        &&& o@[i].1 matches JsonValue::Number(JsonNumber::PosInt(n)) ==> c[i].1 == decimal(n as nat)
        &&& o@[i].1 matches JsonValue::Number(JsonNumber::NegInt(n)) ==> c[i].1 == (if n < 0 {
            "-"@ + decimal((-n) as nat)
        } else {
            decimal(n as nat)
        })
    }
}

/// Whether the member for `claim` is present and of its kind: the audience
/// an array of strings, the expiry, issued-at and not-before times
/// non-negative integers, the custom claims absent or an object, the others
/// strings.
pub open spec fn claim_ok(m: Seq<(String, JsonValue)>, claim: Claim) -> bool {
    let v = member(m, claim.spec_name());
    match claim {
        Claim::Aud => v matches Some(JsonValue::Array(items)) && forall|i: int|
            0 <= i < items@.len() ==> (#[trigger] items@[i]) is Str,
        Claim::Exp | Claim::Iat | Claim::Nbf => {
            ||| v matches Some(JsonValue::Number(JsonNumber::PosInt(_)))
            ||| v matches Some(JsonValue::Number(JsonNumber::NegInt(k))) && k >= 0
        },
        Claim::Custom => v is None || v matches Some(JsonValue::Object(_)),
        _ => v matches Some(JsonValue::Str(_)),
    }
}

/// The claim an error is about.
pub open spec fn error_claim(e: ClaimError) -> Option<Claim> {
    match e {
        ClaimError::Missing(c) => Some(c),
        ClaimError::ShouldBeStr(c) => Some(c),
        ClaimError::ShouldBeInt(c) => Some(c),
        ClaimError::AudMustBeArray => Some(Claim::Aud),
        ClaimError::AudienceMustBeStr => Some(Claim::Aud),
        ClaimError::CustomMustBeObj => Some(Claim::Custom),
        _ => None,
    }
}

/// Whether an error on a required claim describes its member truly: absent,
/// or present but not of the claim's kind.
pub open spec fn error_describes(m: Seq<(String, JsonValue)>, e: ClaimError) -> bool {
    match e {
        ClaimError::Missing(c) => member(m, c.spec_name()) is None,
        ClaimError::ShouldBeStr(c) => member(m, c.spec_name()) is Some && !(member(m, c.spec_name()) matches Some(JsonValue::Str(_))),
        ClaimError::ShouldBeInt(c) => member(m, c.spec_name()) is Some && !claim_ok(m, c),
        ClaimError::AudMustBeArray => member(m, "aud"@) is Some && !(member(m, "aud"@) matches Some(JsonValue::Array(_))),
        ClaimError::AudienceMustBeStr => member(m, "aud"@) matches Some(JsonValue::Array(items)) && exists|i: int|
            0 <= i < items@.len() && !((#[trigger] items@[i]) is Str),
        ClaimError::CustomMustBeObj => member(m, "custom"@) is Some && !(member(m, "custom"@) matches Some(JsonValue::Object(_))),
        _ => false,
    }
}

/// The position of a claim in the order in which a user's claims are read.
pub open spec fn user_claim_rank(c: Claim) -> int {
    match c {
        Claim::Aud => 0,
        Claim::Email => 1,
        Claim::Exp => 2,
        Claim::Iat => 3,
        Claim::Nbf => 4,
        Claim::Iss => 5,
        Claim::Type => 6,
        Claim::IdentityNonce => 7,
        Claim::Sub => 8,
        Claim::Country => 9,
        Claim::Custom => 10,
        _ => -1,
    }
}

/// The position of a claim in the order in which a service's claims are read.
pub open spec fn service_claim_rank(c: Claim) -> int {
    match c {
        Claim::Aud => 0,
        Claim::Exp => 1,
        Claim::Iat => 2,
        Claim::Iss => 3,
        Claim::Type => 4,
        Claim::CommonName => 5,
        _ => -1,
    }
}

/// The member names of the claims.
pub proof fn lemma_claim_member_names()
    ensures
        Claim::Aud.spec_name() == "aud"@,
        Claim::Email.spec_name() == "email"@,
        Claim::Exp.spec_name() == "exp"@,
        Claim::Iat.spec_name() == "iat"@,
        Claim::Nbf.spec_name() == "nbf"@,
        Claim::Iss.spec_name() == "iss"@,
        Claim::Type.spec_name() == "type"@,
        Claim::IdentityNonce.spec_name() == "identity_nonce"@,
        Claim::Sub.spec_name() == "sub"@,
        Claim::Country.spec_name() == "country"@,
        Claim::CommonName.spec_name() == "common_name"@,
        Claim::Custom.spec_name() == "custom"@,
{
}

/// A user assertion holds exactly what the claims object's members hold:
/// each field is the value of the member of its own name.
pub proof fn lemma_user_assertion_reads_members(m: Seq<(String, JsonValue)>)
    ensures
        user_assertion_of(m) matches Ok(u) ==> {
            &&& holds_texts(member(m, "aud"@), u.aud)
            &&& holds_text(member(m, "email"@), u.email)
            &&& holds_count(member(m, "exp"@), u.exp)
            &&& holds_count(member(m, "iat"@), u.iat)
            &&& holds_count(member(m, "nbf"@), u.nbf)
            &&& holds_text(member(m, "iss"@), u.iss)
            &&& holds_text(member(m, "type"@), u.typ)
            &&& holds_text(member(m, "identity_nonce"@), u.nonce)
            &&& holds_text(member(m, "sub"@), u.sub)
            &&& holds_text(member(m, "country"@), u.country)
            &&& holds_custom(member(m, "custom"@), u.custom)
        },
{
    if user_assertion_of(m) is Ok {
        lemma_audiences_read(m);
        lemma_custom_read(m);
    }
}

/// A service assertion holds exactly what the claims object's members hold.
pub proof fn lemma_service_assertion_reads_members(m: Seq<(String, JsonValue)>)
    ensures
        service_assertion_of(m) matches Ok(a) ==> {
            &&& holds_texts(member(m, "aud"@), a.aud)
            &&& holds_count(member(m, "exp"@), a.exp)
            &&& holds_count(member(m, "iat"@), a.iat)
            &&& holds_text(member(m, "iss"@), a.iss)
            &&& holds_text(member(m, "type"@), a.typ)
            &&& holds_text(member(m, "common_name"@), a.common_name)
        },
{
    if service_assertion_of(m) is Ok {
        lemma_audiences_read(m);
    }
}

proof fn lemma_audiences_read(m: Seq<(String, JsonValue)>)
    ensures
        audiences_claim(m) matches Ok(a) ==> holds_texts(member(m, "aud"@), a),
{
    if audiences_claim(m) is Ok {
        if let Some(JsonValue::Array(items)) = member(m, "aud"@) {
            assert forall|i: int| 0 <= i < items@.len() implies holds_text(Some(#[trigger] items@[i]), string_items(items@)[i]) by {
                assert(items@[i] is Str);
            }
        }
    }
}

proof fn lemma_custom_read(m: Seq<(String, JsonValue)>)
    ensures
        custom_claims(m) matches Ok(c) ==> holds_custom(member(m, "custom"@), c),
{
    reveal_strlit("null");
    reveal_strlit("true");
    reveal_strlit("false");
}

proof fn lemma_str_claim_kind(m: Seq<(String, JsonValue)>, c: Claim)
    requires
        !(c is Aud || c is Exp || c is Iat || c is Nbf || c is Custom),
    ensures
        str_claim(m, c) is Ok <==> claim_ok(m, c),
        str_claim(m, c) matches Err(e) ==> error_describes(m, e) && error_claim(e) == Some(c),
{
}

proof fn lemma_int_claim_kind(m: Seq<(String, JsonValue)>, c: Claim)
    requires
        c is Exp || c is Iat || c is Nbf,
    ensures
        int_claim(m, c) is Ok <==> claim_ok(m, c),
        int_claim(m, c) matches Err(e) ==> error_describes(m, e) && error_claim(e) == Some(c),
{
}

proof fn lemma_audiences_kind(m: Seq<(String, JsonValue)>)
    ensures
        audiences_claim(m) is Ok <==> claim_ok(m, Claim::Aud),
        audiences_claim(m) matches Err(e) ==> error_describes(m, e) && error_claim(e) == Some(Claim::Aud),
{
    if let Some(JsonValue::Array(items)) = member(m, "aud"@) {
        if !all_strings(items@) {
            let i = choose|i: int| 0 <= i < items@.len() && !(#[trigger] items@[i] is Str);
            assert(!(items@[i] is Str));
        }
    }
}

proof fn lemma_custom_kind(m: Seq<(String, JsonValue)>)
    ensures
        custom_claims(m) is Ok <==> claim_ok(m, Claim::Custom),
        custom_claims(m) matches Err(e) ==> error_describes(m, e) && error_claim(e) == Some(Claim::Custom),
{
}

/// A user assertion is made exactly when every claim is present and of its
/// kind; otherwise the error names the first claim, in the order audience,
/// email, expiry, issued-at, not-before, issuer, type, identity nonce,
/// subject, country, custom, that is not, and says truly what is wrong with
/// it.
#[verifier::rlimit(50)]
pub proof fn lemma_user_assertion_errors(m: Seq<(String, JsonValue)>)
    ensures
        user_assertion_of(m) is Ok <==> (forall|c: Claim| user_claim_rank(c) >= 0 ==> #[trigger] claim_ok(m, c)),
        user_assertion_of(m) matches Err(e) ==> {
            &&& error_describes(m, e)
            &&& error_claim(e) matches Some(ec) && user_claim_rank(ec) >= 0 && !claim_ok(m, ec)
            &&& forall|c: Claim| 0 <= user_claim_rank(c) < user_claim_rank(error_claim(e)->0) ==> #[trigger] claim_ok(m, c)
        },
{
    lemma_audiences_kind(m);
    lemma_str_claim_kind(m, Claim::Email);
    lemma_int_claim_kind(m, Claim::Exp);
    lemma_int_claim_kind(m, Claim::Iat);
    lemma_int_claim_kind(m, Claim::Nbf);
    lemma_str_claim_kind(m, Claim::Iss);
    lemma_str_claim_kind(m, Claim::Type);
    lemma_str_claim_kind(m, Claim::IdentityNonce);
    lemma_str_claim_kind(m, Claim::Sub);
    lemma_str_claim_kind(m, Claim::Country);
    lemma_custom_kind(m);
    let r = user_assertion_of(m);
    if r is Ok {
        assert forall|c: Claim| user_claim_rank(c) >= 0 implies #[trigger] claim_ok(m, c) by {
            match c {
                Claim::CommonName => {},
                _ => {},
            }
        }
    } else {
        let e = r->Err_0;
        let k = user_claim_rank(error_claim(e)->0);
        assert forall|c: Claim| 0 <= user_claim_rank(c) < k implies #[trigger] claim_ok(m, c) by {
            match c {
                Claim::CommonName => {},
                _ => {},
            }
        }
        if forall|c: Claim| user_claim_rank(c) >= 0 ==> #[trigger] claim_ok(m, c) {
            assert(claim_ok(m, error_claim(e)->0));
        }
    }
}

/// A service assertion is made exactly when each of its claims is present
/// and of its kind; otherwise the error names the first claim, in the order
/// audience, expiry, issued-at, issuer, type, common name, that is not, and
/// says truly what is wrong with it.
#[verifier::rlimit(50)]
pub proof fn lemma_service_assertion_errors(m: Seq<(String, JsonValue)>)
    ensures
        service_assertion_of(m) is Ok <==> (forall|c: Claim| service_claim_rank(c) >= 0 ==> #[trigger] claim_ok(m, c)),
        service_assertion_of(m) matches Err(e) ==> {
            &&& error_describes(m, e)
            &&& error_claim(e) matches Some(ec) && service_claim_rank(ec) >= 0 && !claim_ok(m, ec)
            &&& forall|c: Claim| 0 <= service_claim_rank(c) < service_claim_rank(error_claim(e)->0) ==> #[trigger] claim_ok(m, c)
        },
{
    lemma_audiences_kind(m);
    lemma_int_claim_kind(m, Claim::Exp);
    lemma_int_claim_kind(m, Claim::Iat);
    lemma_str_claim_kind(m, Claim::Iss);
    lemma_str_claim_kind(m, Claim::Type);
    lemma_str_claim_kind(m, Claim::CommonName);
    let r = service_assertion_of(m);
    if r is Ok {
        assert forall|c: Claim| service_claim_rank(c) >= 0 implies #[trigger] claim_ok(m, c) by {
            match c {
                Claim::Aud => {},
                _ => {},
            }
        }
    } else {
        let e = r->Err_0;
        let k = service_claim_rank(error_claim(e)->0);
        assert forall|c: Claim| 0 <= service_claim_rank(c) < k implies #[trigger] claim_ok(m, c) by {
            match c {
                Claim::Aud => {},
                _ => {},
            }
        }
        if forall|c: Claim| service_claim_rank(c) >= 0 ==> #[trigger] claim_ok(m, c) {
            assert(claim_ok(m, error_claim(e)->0));
        }
    }
}

/// The principal of a claims value: anything but an object is refused as an
/// invalid claims value; an object without a subject, or with one that is
/// not a string, is refused for it; an empty subject makes a service and any
/// other a user, whose fields are the values of the members of their names.
pub proof fn lemma_principal_by_subject(claims: JsonValue)
    ensures
        !(claims is Object) ==> principal_of(claims) == Err::<PrincipalAssertionView, ClaimError>(ClaimError::InvalidClaimsValue),
        claims matches JsonValue::Object(m) ==> {
            &&& member(m@, "sub"@) is None ==> principal_of(claims) == Err::<PrincipalAssertionView, ClaimError>(ClaimError::Missing(Claim::Sub))
            &&& (member(m@, "sub"@) is Some && !(member(m@, "sub"@) matches Some(JsonValue::Str(_))))
                ==> principal_of(claims) == Err::<PrincipalAssertionView, ClaimError>(ClaimError::SubMustBeStr)
            &&& principal_of(claims) matches Ok(PrincipalAssertionView::Service(s)) ==> {
                &&& holds_text(member(m@, "sub"@), Seq::empty())
                &&& holds_texts(member(m@, "aud"@), s.aud)
                &&& holds_count(member(m@, "exp"@), s.exp)
                &&& holds_count(member(m@, "iat"@), s.iat)
                &&& holds_text(member(m@, "iss"@), s.iss)
                &&& holds_text(member(m@, "type"@), s.typ)
                &&& holds_text(member(m@, "common_name"@), s.common_name)
            }
            &&& principal_of(claims) matches Ok(PrincipalAssertionView::User(u)) ==> {
                &&& u.sub.len() > 0
                &&& holds_texts(member(m@, "aud"@), u.aud)
                &&& holds_text(member(m@, "email"@), u.email)
                &&& holds_count(member(m@, "exp"@), u.exp)
                &&& holds_count(member(m@, "iat"@), u.iat)
                &&& holds_count(member(m@, "nbf"@), u.nbf)
                &&& holds_text(member(m@, "iss"@), u.iss)
                &&& holds_text(member(m@, "type"@), u.typ)
                &&& holds_text(member(m@, "identity_nonce"@), u.nonce)
                &&& holds_text(member(m@, "sub"@), u.sub)
                &&& holds_text(member(m@, "country"@), u.country)
                &&& holds_custom(member(m@, "custom"@), u.custom)
            }
        },
{
    if let JsonValue::Object(m) = claims {
        lemma_user_assertion_reads_members(m@);
        lemma_service_assertion_reads_members(m@);
        if let Some(JsonValue::Str(sub)) = member(m@, "sub"@) {
            if sub@.len() == 0 {
                assert(sub@ =~= Seq::<char>::empty());
            }
        }
    }
}

} // verus!
