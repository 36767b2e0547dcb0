use cfzt_extauthz::server::claims::{find_claim, Claim, ClaimShape, ClaimValue, ClaimsPayload};
use cfzt_extauthz::server::json::{force_as_string, read_claims, read_value};
use cfzt_extauthz::server::request::{
    ClaimName, ClaimType, ClaimsError, Malformation, PrincipalAssertion, ServiceAssertion,
    UserAssertion,
};

fn json(text: &str) -> serde_json::Value {
    serde_json::from_str(text).unwrap()
}

fn parse(text: &str) -> Result<PrincipalAssertion, ClaimsError> {
    PrincipalAssertion::from_claims_value(&json(text))
}

fn without(text: &str, key: &str) -> serde_json::Value {
    let mut value = json(text);
    assert!(value.as_object_mut().unwrap().remove(key).is_some());
    value
}

fn with(text: &str, key: &str, replacement: &str) -> serde_json::Value {
    let mut value = json(text);
    value.as_object_mut().unwrap().insert(key.to_string(), json(replacement));
    value
}

fn pairs(items: &[(&str, &str)]) -> Vec<(String, String)> {
    items.iter().map(|(k, v)| (k.to_string(), v.to_string())).collect()
}

fn text_claim(name: &str, text: &str) -> Claim {
    Claim {
        name: name.to_string(),
        value: ClaimValue { shape: ClaimShape::Text, text: text.to_string() },
    }
}

fn number_claim(name: &str, number: u64) -> Claim {
    Claim {
        name: name.to_string(),
        value: ClaimValue { shape: ClaimShape::Unsigned(number), text: number.to_string() },
    }
}

fn list_claim(name: &str, items: &[Option<&str>]) -> Claim {
    Claim {
        name: name.to_string(),
        value: ClaimValue {
            shape: ClaimShape::List(items.iter().map(|i| i.map(|s| s.to_string())).collect()),
            text: "[]".to_string(),
        },
    }
}

fn expect_error(result: Result<PrincipalAssertion, ClaimsError>) -> ClaimsError {
    match result {
        Err(error) => error,
        Ok(_) => panic!("expected an error"),
    }
}

const USER: &str = r#"{
    "aud": ["first", "second"],
    "email": "me@example.com",
    "exp": 1717981439,
    "iat": 1717979639,
    "nbf": 1717979638,
    "iss": "https://team.example.com",
    "type": "app",
    "identity_nonce": "APXGFqlOi99SlUQw",
    "sub": "7208eea4-4098-5a31-9053-f09b81c281fd",
    "country": "AU"
}"#;

const SERVICE: &str = r#"{
    "aud": ["only"],
    "exp": 20,
    "iat": 10,
    "iss": "https://team.example.com",
    "type": "app",
    "common_name": "a-service.access",
    "sub": ""
}"#;

#[test]
fn user_claims_give_a_user() {
    match parse(USER) {
        Ok(PrincipalAssertion::User(user)) => {
            assert_eq!(user.aud, vec!["first".to_string(), "second".to_string()]);
            assert_eq!(user.email, "me@example.com");
            assert_eq!(user.exp, 1717981439);
            assert_eq!(user.iat, 1717979639);
            assert_eq!(user.nbf, 1717979638);
            assert_eq!(user.iss, "https://team.example.com");
            assert_eq!(user.typ, "app");
            assert_eq!(user.nonce, "APXGFqlOi99SlUQw");
            assert_eq!(user.sub, "7208eea4-4098-5a31-9053-f09b81c281fd");
            assert_eq!(user.country, "AU");
            assert!(user.custom.is_empty());
        }
        _ => panic!("expected a user"),
    }
}

#[test]
fn other_claims_of_a_user_are_kept_as_text() {
    let mut value = json(USER);
    let object = value.as_object_mut().unwrap();
    object.insert("a_flag".to_string(), json("true"));
    object.insert("b_custom".to_string(), json(r#"{"email": ""}"#));
    object.insert("c_level".to_string(), json("3"));
    object.insert("d_list".to_string(), json(r#"[1, "a", null]"#));
    object.insert("e_note".to_string(), json(r#""plain text""#));
    object.insert("f_nothing".to_string(), json("null"));
    object.insert("g_negative".to_string(), json("-12"));
    object.insert("h_quote".to_string(), json(r#""say \"hi\"""#));
    let user = match PrincipalAssertion::from_claims_value(&value) {
        Ok(PrincipalAssertion::User(user)) => user,
        _ => panic!("expected a user"),
    };
    let mut custom = user.custom.clone();
    custom.sort();
    assert_eq!(
        custom,
        pairs(&[
            ("a_flag", "true"),
            ("b_custom", r#"{"email":""}"#),
            ("c_level", "3"),
            ("d_list", r#"[1,"a",null]"#),
            ("e_note", "plain text"),
            ("f_nothing", "null"),
            ("g_negative", "-12"),
            ("h_quote", r#"say "hi""#),
        ])
    );
    assert_eq!(user.email, "me@example.com");
    assert_eq!(user.exp, 1717981439);
}

#[test]
fn custom_claims_come_in_the_order_of_the_object() {
    let mut value = json(USER);
    value.as_object_mut().unwrap().insert("zeta".to_string(), json("1"));
    value.as_object_mut().unwrap().insert("common_name".to_string(), json("\"x\""));
    let expected: Vec<(String, String)> = value
        .as_object()
        .unwrap()
        .iter()
        .filter(|(key, _)| *key == "zeta" || *key == "common_name")
        .map(|(key, item)| (key.clone(), item.as_str().map(String::from).unwrap_or(item.to_string())))
        .collect();
    assert_eq!(expected.len(), 2);
    match PrincipalAssertion::from_claims_value(&value) {
        Ok(PrincipalAssertion::User(user)) => assert_eq!(user.custom, expected),
        _ => panic!("expected a user"),
    }
}

#[test]
fn a_claim_called_custom_is_a_custom_claim_like_any_other() {
    let value = with(USER, "custom", r#"{"email": "x", "depth": {"n": 1}}"#);
    match PrincipalAssertion::from_claims_value(&value) {
        Ok(PrincipalAssertion::User(user)) => {
            assert_eq!(user.custom.len(), 1);
            assert_eq!(user.custom[0].0, "custom");
            assert_eq!(json(&user.custom[0].1), json(r#"{"email": "x", "depth": {"n": 1}}"#));
        }
        _ => panic!("expected a user"),
    }
}

#[test]
fn service_claims_give_a_service() {
    match parse(SERVICE) {
        Ok(PrincipalAssertion::Service(service)) => {
            assert_eq!(service.aud, vec!["only".to_string()]);
            assert_eq!(service.exp, 20);
            assert_eq!(service.iat, 10);
            assert_eq!(service.iss, "https://team.example.com");
            assert_eq!(service.typ, "app");
            assert_eq!(service.common_name, "a-service.access");
        }
        _ => panic!("expected a service"),
    }
}

#[test]
fn an_empty_subject_never_gives_a_user() {
    let value = with(USER, "sub", "\"\"");
    assert_eq!(
        expect_error(PrincipalAssertion::from_claims_value(&value)),
        ClaimsError::ClaimMissing(ClaimName::CommonName)
    );
    let value = with(&value.to_string(), "common_name", "\"svc\"");
    assert!(matches!(
        PrincipalAssertion::from_claims_value(&value),
        Ok(PrincipalAssertion::Service(_))
    ));
}

#[test]
fn a_subject_of_one_blank_gives_a_user() {
    let value = with(USER, "sub", "\" \"");
    match PrincipalAssertion::from_claims_value(&value) {
        Ok(PrincipalAssertion::User(user)) => assert_eq!(user.sub, " "),
        _ => panic!("expected a user"),
    }
}

#[test]
fn a_value_that_is_no_object_is_malformed() {
    for text in ["[1, 2]", "\"sub\"", "null", "true", "17", "[{\"sub\": \"x\"}]"] {
        assert_eq!(
            expect_error(parse(text)),
            ClaimsError::MalformedClaims(Malformation::NotAnObject)
        );
    }
}

#[test]
fn a_missing_subject_is_malformed() {
    assert_eq!(
        expect_error(PrincipalAssertion::from_claims_value(&without(USER, "sub"))),
        ClaimsError::MalformedClaims(Malformation::SubjectMissing)
    );
    assert_eq!(
        expect_error(parse("{}")),
        ClaimsError::MalformedClaims(Malformation::SubjectMissing)
    );
}

#[test]
fn a_subject_that_is_no_string_is_malformed() {
    for replacement in ["7", "null", "[\"x\"]", "{\"id\": \"x\"}", "false"] {
        assert_eq!(
            expect_error(PrincipalAssertion::from_claims_value(&with(USER, "sub", replacement))),
            ClaimsError::MalformedClaims(Malformation::SubjectNotText)
        );
    }
}

#[test]
fn a_missing_claim_of_a_user_is_named() {
    for (key, claim) in [
        ("aud", ClaimName::Aud),
        ("email", ClaimName::Email),
        ("exp", ClaimName::Exp),
        ("iat", ClaimName::Iat),
        ("nbf", ClaimName::Nbf),
        ("iss", ClaimName::Iss),
        ("type", ClaimName::Type),
        ("identity_nonce", ClaimName::IdentityNonce),
        ("country", ClaimName::Country),
    ] {
        let error = expect_error(PrincipalAssertion::from_claims_value(&without(USER, key)));
        assert_eq!(error, ClaimsError::ClaimMissing(claim));
        assert_eq!(error.message(), format!("{key} claim missing"));
    }
}

#[test]
fn a_missing_claim_of_a_service_is_named() {
    for (key, claim) in [
        ("aud", ClaimName::Aud),
        ("exp", ClaimName::Exp),
        ("iat", ClaimName::Iat),
        ("iss", ClaimName::Iss),
        ("type", ClaimName::Type),
        ("common_name", ClaimName::CommonName),
    ] {
        let error = expect_error(PrincipalAssertion::from_claims_value(&without(SERVICE, key)));
        assert_eq!(error, ClaimsError::ClaimMissing(claim));
        assert_eq!(error.message(), format!("{key} claim missing"));
    }
}

#[test]
fn a_service_needs_no_claim_of_a_user_alone() {
    for key in ["email", "nbf", "identity_nonce", "country"] {
        let value = with(&with(USER, "sub", "\"\"").to_string(), "common_name", "\"svc\"");
        let value = without(&value.to_string(), key);
        assert!(matches!(
            PrincipalAssertion::from_claims_value(&value),
            Ok(PrincipalAssertion::Service(_))
        ));
    }
}

#[test]
fn the_first_claim_at_fault_is_the_one_reported() {
    let value = without(&without(USER, "country").to_string(), "email");
    assert_eq!(
        expect_error(PrincipalAssertion::from_claims_value(&value)),
        ClaimsError::ClaimMissing(ClaimName::Email)
    );
    let value = with(&without(USER, "iss").to_string(), "exp", "\"soon\"");
    assert_eq!(
        expect_error(PrincipalAssertion::from_claims_value(&value)),
        ClaimsError::WrongType(ClaimName::Exp, ClaimType::Int)
    );
}

#[test]
fn a_string_claim_of_another_type_is_named() {
    for (key, claim) in [
        ("email", ClaimName::Email),
        ("iss", ClaimName::Iss),
        ("type", ClaimName::Type),
        ("identity_nonce", ClaimName::IdentityNonce),
        ("country", ClaimName::Country),
    ] {
        for replacement in ["1", "null", "[\"x\"]", "{}", "true"] {
            let error =
                expect_error(PrincipalAssertion::from_claims_value(&with(USER, key, replacement)));
            assert_eq!(error, ClaimsError::WrongType(claim, ClaimType::Str));
            assert_eq!(error.message(), format!("{key} claim should be str"));
        }
    }
}

#[test]
fn a_number_claim_of_another_type_is_named() {
    for (key, claim) in [("exp", ClaimName::Exp), ("iat", ClaimName::Iat), ("nbf", ClaimName::Nbf)] {
        for replacement in ["\"12\"", "-1", "1.5", "null", "[1]", "18446744073709551616"] {
            let error =
                expect_error(PrincipalAssertion::from_claims_value(&with(USER, key, replacement)));
            assert_eq!(error, ClaimsError::WrongType(claim, ClaimType::Int));
            assert_eq!(error.message(), format!("{key} claim should be int"));
        }
    }
}

#[test]
fn the_largest_number_is_a_number() {
    match PrincipalAssertion::from_claims_value(&with(USER, "exp", "18446744073709551615")) {
        Ok(PrincipalAssertion::User(user)) => assert_eq!(user.exp, u64::MAX),
        _ => panic!("expected a user"),
    }
    match PrincipalAssertion::from_claims_value(&with(USER, "iat", "0")) {
        Ok(PrincipalAssertion::User(user)) => assert_eq!(user.iat, 0),
        _ => panic!("expected a user"),
    }
}

#[test]
fn audiences_must_be_an_array_of_strings() {
    for replacement in ["\"first\"", "1", "null", "{\"0\": \"first\"}"] {
        let error =
            expect_error(PrincipalAssertion::from_claims_value(&with(USER, "aud", replacement)));
        assert_eq!(error, ClaimsError::WrongType(ClaimName::Aud, ClaimType::Array));
        assert_eq!(error.message(), "aud claim should be array");
    }
    for replacement in ["[1]", "[\"first\", null]", "[[\"first\"]]", "[\"a\", \"b\", 3]"] {
        let error =
            expect_error(PrincipalAssertion::from_claims_value(&with(SERVICE, "aud", replacement)));
        assert_eq!(error, ClaimsError::WrongType(ClaimName::Aud, ClaimType::ArrayOfStr));
        assert_eq!(error.message(), "aud claim should be array of str");
    }
}

#[test]
fn an_empty_array_of_audiences_is_an_array_of_strings() {
    match PrincipalAssertion::from_claims_value(&with(USER, "aud", "[]")) {
        Ok(PrincipalAssertion::User(user)) => assert!(user.aud.is_empty()),
        _ => panic!("expected a user"),
    }
}

#[test]
fn malformed_claims_have_their_messages() {
    assert_eq!(
        ClaimsError::MalformedClaims(Malformation::NotAnObject).message(),
        "invalid claims value"
    );
    assert_eq!(
        ClaimsError::MalformedClaims(Malformation::SubjectMissing).message(),
        "sub claim missing"
    );
    assert_eq!(
        ClaimsError::MalformedClaims(Malformation::SubjectNotText).message(),
        "sub claim must be str"
    );
    assert_eq!(
        ClaimsError::ClaimMissing(ClaimName::CommonName).message(),
        "common_name claim missing"
    );
    assert_eq!(
        ClaimsError::WrongType(ClaimName::IdentityNonce, ClaimType::Str).message(),
        "identity_nonce claim should be str"
    );
}

#[test]
fn claim_names_are_those_of_the_payload() {
    assert_eq!(ClaimName::Aud.as_str(), "aud");
    assert_eq!(ClaimName::Email.as_str(), "email");
    assert_eq!(ClaimName::Exp.as_str(), "exp");
    assert_eq!(ClaimName::Iat.as_str(), "iat");
    assert_eq!(ClaimName::Nbf.as_str(), "nbf");
    assert_eq!(ClaimName::Iss.as_str(), "iss");
    assert_eq!(ClaimName::Type.as_str(), "type");
    assert_eq!(ClaimName::IdentityNonce.as_str(), "identity_nonce");
    assert_eq!(ClaimName::Sub.as_str(), "sub");
    assert_eq!(ClaimName::Country.as_str(), "country");
    assert_eq!(ClaimName::CommonName.as_str(), "common_name");
    assert_eq!(ClaimType::Str.as_str(), "str");
    assert_eq!(ClaimType::Int.as_str(), "int");
    assert_eq!(ClaimType::Array.as_str(), "array");
    assert_eq!(ClaimType::ArrayOfStr.as_str(), "array of str");
}

#[test]
fn a_value_is_forced_to_text() {
    assert_eq!(force_as_string(&json("\"text\"")), "text");
    assert_eq!(force_as_string(&json("\"\"")), "");
    assert_eq!(force_as_string(&json("12")), "12");
    assert_eq!(force_as_string(&json("-3")), "-3");
    assert_eq!(force_as_string(&json("true")), "true");
    assert_eq!(force_as_string(&json("null")), "null");
    assert_eq!(force_as_string(&json("[1, [2], \"x\"]")), "[1,[2],\"x\"]");
    assert_eq!(force_as_string(&json("{\"k\": \"v\"}")), "{\"k\":\"v\"}");
}

#[test]
fn values_are_read_by_their_shape() {
    let text = read_value(&json("\"hello\""));
    assert!(matches!(text.shape, ClaimShape::Text));
    assert_eq!(text.text, "hello");
    let number = read_value(&json("42"));
    assert!(matches!(number.shape, ClaimShape::Unsigned(42)));
    assert_eq!(number.text, "42");
    let negative = read_value(&json("-42"));
    assert!(matches!(negative.shape, ClaimShape::Other));
    assert_eq!(negative.text, "-42");
    let list = read_value(&json("[\"a\", 1, \"b\"]"));
    match &list.shape {
        ClaimShape::List(items) => {
            assert_eq!(items, &vec![Some("a".to_string()), None, Some("b".to_string())])
        }
        _ => panic!("expected a list"),
    }
    assert_eq!(list.text, "[\"a\",1,\"b\"]");
    for other in ["null", "true", "{\"a\": 1}", "1.25"] {
        assert!(matches!(read_value(&json(other)).shape, ClaimShape::Other));
    }
}

#[test]
fn a_payload_is_read_member_by_member() {
    let value = json(r#"{"a": "x", "b": 2}"#);
    match read_claims(&value) {
        ClaimsPayload::Object(claims) => {
            assert_eq!(claims.len(), 2);
            let names: Vec<&String> = value.as_object().unwrap().keys().collect();
            assert_eq!(&claims[0].name, names[0]);
            assert_eq!(&claims[1].name, names[1]);
            let a = find_claim(&claims, "a").unwrap();
            assert!(matches!(a.shape, ClaimShape::Text));
            assert_eq!(a.text, "x");
            let b = find_claim(&claims, "b").unwrap();
            assert!(matches!(b.shape, ClaimShape::Unsigned(2)));
            assert!(find_claim(&claims, "c").is_none());
            assert!(find_claim(&claims, "A").is_none());
        }
        ClaimsPayload::NotAnObject => panic!("expected an object"),
    }
    assert!(matches!(read_claims(&json("{}")), ClaimsPayload::Object(claims) if claims.is_empty()));
    assert!(matches!(read_claims(&json("[]")), ClaimsPayload::NotAnObject));
}

#[test]
fn a_payload_written_by_hand_is_parsed_like_one_that_was_read() {
    let claims = vec![
        text_claim("sub", "someone"),
        list_claim("aud", &[Some("one"), Some("two")]),
        text_claim("email", "a@b.c"),
        number_claim("exp", 3),
        number_claim("iat", 1),
        number_claim("nbf", 2),
        text_claim("iss", "issuer"),
        text_claim("type", "app"),
        text_claim("identity_nonce", "nonce"),
        text_claim("country", "NZ"),
        number_claim("extra", 9),
    ];
    match PrincipalAssertion::from_claims(&ClaimsPayload::Object(claims)) {
        Ok(PrincipalAssertion::User(user)) => {
            assert_eq!(user.aud, vec!["one".to_string(), "two".to_string()]);
            assert_eq!(user.sub, "someone");
            assert_eq!((user.exp, user.iat, user.nbf), (3, 1, 2));
            assert_eq!(user.custom, pairs(&[("extra", "9")]));
        }
        _ => panic!("expected a user"),
    }
    assert_eq!(
        expect_error(PrincipalAssertion::from_claims(&ClaimsPayload::NotAnObject)),
        ClaimsError::MalformedClaims(Malformation::NotAnObject)
    );
}

#[test]
fn the_first_of_two_claims_of_one_name_is_the_one_found() {
    let claims = vec![text_claim("k", "first"), text_claim("k", "second")];
    assert_eq!(find_claim(&claims, "k").unwrap().text, "first");
}

#[test]
fn users_and_services_are_built_from_claims_alone() {
    let object = match read_claims(&json(USER)) {
        ClaimsPayload::Object(object) => object,
        ClaimsPayload::NotAnObject => panic!("expected an object"),
    };
    assert!(UserAssertion::from_claims_object(&object).is_ok());
    assert!(matches!(
        ServiceAssertion::from_claims_object(&object),
        Err(ClaimsError::ClaimMissing(ClaimName::CommonName))
    ));
    let object = match read_claims(&json(SERVICE)) {
        ClaimsPayload::Object(object) => object,
        ClaimsPayload::NotAnObject => panic!("expected an object"),
    };
    assert!(ServiceAssertion::from_claims_object(&object).is_ok());
    assert!(matches!(
        UserAssertion::from_claims_object(&object),
        Err(ClaimsError::ClaimMissing(ClaimName::Email))
    ));
}
