use oidc_verifier::claims::{
    check_audience, check_policy, check_validity, read_claims, PolicyConstraints, VerifiedClaims,
};
use oidc_verifier::error::{PolicyError, VerificationError};
use oidc_verifier::json::{Json, Member};
use oidc_verifier::keys::{jwks_url, read_entry, KeySet, KeySetStore, SigningKey};
use oidc_verifier::token::{segment_bounds, TokenHeader};
use oidc_verifier::verify::TokenVerifier;

fn text(value: &str) -> Json {
    Json::Text(value.to_string())
}

fn object(members: Vec<(&str, Json)>) -> Json {
    Json::Object(
        members.into_iter().map(|(name, value)| Member { name: name.to_string(), value }).collect(),
    )
}

fn payload() -> Vec<(&'static str, Json)> {
    vec![
        ("sub", text("repo:acme/app:ref:refs/heads/main")),
        ("repository", text("acme/app")),
        ("repository_owner", text("acme")),
        ("job_workflow_ref", text("acme/app/.github/workflows/ci.yml@refs/heads/main")),
        ("iat", Json::Number(Some(1_000))),
        ("exp", Json::Number(Some(2_000))),
    ]
}

fn claims() -> VerifiedClaims {
    read_claims(&object(payload())).unwrap()
}

#[test]
fn segments_are_found_at_the_dots() {
    assert_eq!(segment_bounds("a.b.c"), Some((1, 3)));
    assert_eq!(segment_bounds("AZaz09-_.header.sig"), Some((8, 15)));
    assert_eq!(segment_bounds(".."), Some((0, 1)));
    assert_eq!(segment_bounds("ab..cd"), Some((2, 3)));
}

#[test]
fn other_shapes_have_no_segments() {
    for token in ["", ".", "abc", "a.b", "a.b.c.d", "...", "a b.c.d", "a.b.c=", "a+b.c.d", "a/b.c.d"]
    {
        assert_eq!(segment_bounds(token), None, "{token}");
    }
    assert_eq!(segment_bounds("a.b.\u{e9}"), None);
    assert_eq!(segment_bounds("a.b.c\n"), None);
}

#[test]
fn member_is_the_first_of_its_name() {
    let document = object(vec![("a", text("1")), ("b", Json::Number(Some(2))), ("a", text("3"))]);
    assert_eq!(document.text_member("a"), Some(&"1".to_string()));
    assert_eq!(document.number_member("b"), Some(2));
    assert_eq!(document.number_member("a"), None);
    assert_eq!(document.text_member("b"), None);
    assert!(document.member("c").is_none());
    assert!(text("a").member("a").is_none());
    assert!(Json::Array(vec![text("a")]).member("a").is_none());
}

#[test]
fn values_are_read_by_their_kind() {
    assert_eq!(text("a").as_text(), Some(&"a".to_string()));
    assert_eq!(text("7").as_number(), None);
    assert_eq!(Json::Number(Some(7)).as_number(), Some(7));
    assert_eq!(Json::Number(None).as_number(), None);
    assert_eq!(Json::Number(Some(7)).as_text(), None);
    assert_eq!(Json::Array(vec![Json::Null, Json::Bool(true)]).as_array().map(|v| v.len()), Some(2));
    assert!(Json::Null.as_array().is_none());
    assert!(object(vec![]).as_array().is_none());
}

#[test]
fn entry_needs_identifier_modulus_and_exponent() {
    let full = object(vec![("kty", text("RSA")), ("kid", text("k1")), ("n", text("N")), ("e", text("E"))]);
    let key = read_entry(&full).unwrap();
    assert_eq!(key.kid, "k1");
    assert_eq!(key.kty, Some("RSA".to_string()));
    assert_eq!(key.modulus, "N");
    assert_eq!(key.exponent, "E");
    let untyped = read_entry(&object(vec![("kid", text("k1")), ("n", text("N")), ("e", text("E"))]));
    assert_eq!(untyped.unwrap().kty, None);
    assert!(read_entry(&object(vec![("n", text("N")), ("e", text("E"))])).is_none());
    assert!(read_entry(&object(vec![("kid", text("k1")), ("e", text("E"))])).is_none());
    assert!(read_entry(&object(vec![("kid", text("k1")), ("n", text("N"))])).is_none());
    assert!(read_entry(&object(vec![("kid", Json::Number(Some(1))), ("n", text("N")), ("e", text("E"))])).is_none());
    assert!(read_entry(&text("k1")).is_none());
}

#[test]
fn key_set_is_read_from_the_keys_array() {
    let body = "{\"keys\":[{\"kty\":\"RSA\",\"kid\":\"k1\",\"n\":\"N1\",\"e\":\"AQAB\",\"use\":\"sig\"},\
                {\"kid\":\"k2\",\"n\":\"N2\",\"e\":\"AQAB\"}]}";
    let keys = KeySet::parse(body).unwrap();
    assert_eq!(keys.len(), 2);
    let first = keys.get(0).unwrap();
    assert_eq!(first.kid, "k1");
    assert_eq!(first.kty, Some("RSA".to_string()));
    assert_eq!(first.modulus, "N1");
    assert_eq!(first.exponent, "AQAB");
    let second = keys.get(1).unwrap();
    assert_eq!(second.kid, "k2");
    assert_eq!(second.kty, None);
    assert_eq!(second.modulus, "N2");
    assert!(keys.get(2).is_none());
    assert_eq!(keys.find("k2").unwrap().modulus, "N2");
    assert_eq!(keys.find("k1").unwrap().modulus, "N1");
    assert!(keys.find("k3").is_none());
    assert!(keys.find("K1").is_none());
    assert!(keys.find("").is_none());
}

#[test]
fn key_is_selected_by_the_header() {
    let keys = KeySet::parse("{\"keys\":[{\"kid\":\"k1\",\"n\":\"N1\",\"e\":\"AQAB\"}]}").unwrap();
    let header = |kid: Option<&str>| TokenHeader {
        alg: "RS256".to_string(),
        kid: kid.map(|k| k.to_string()),
    };
    assert_eq!(keys.select(&header(Some("k1"))).unwrap().modulus, "N1");
    assert_eq!(keys.select(&header(Some("unknown"))).err(), Some(VerificationError::KeyNotFound));
    assert_eq!(keys.select(&header(Some(""))).err(), Some(VerificationError::KeyNotFound));
    assert_eq!(keys.select(&header(None)).err(), Some(VerificationError::MissingKeyId));
    assert_eq!(KeySet::new().select(&header(None)).err(), Some(VerificationError::MissingKeyId));
}

#[test]
fn key_set_with_no_entries_is_empty() {
    let keys = KeySet::parse("{\"keys\":[]}").unwrap();
    assert_eq!(keys.len(), 0);
    assert!(keys.find("k1").is_none());
    assert_eq!(KeySet::new().len(), 0);
}

#[test]
fn document_without_keys_array_is_a_format_error() {
    for body in ["", "not json", "{\"keys\":", "[]", "{}", "{\"keys\":{}}", "{\"keys\":\"k1\"}", "{\"Keys\":[]}", "null"] {
        assert_eq!(KeySet::parse(body).err(), Some(VerificationError::Format), "{body}");
    }
    assert_eq!(KeySet::from_json(&Json::Null).err(), Some(VerificationError::Format));
    assert_eq!(
        KeySet::from_json(&object(vec![("keys", text("k1"))])).err(),
        Some(VerificationError::Format)
    );
}

#[test]
fn unusable_entries_are_passed_over() {
    let body = "{\"keys\":[7,{\"kid\":\"ec\",\"kty\":\"EC\",\"x\":\"X\",\"y\":\"Y\"},\
                {\"kid\":\"k1\",\"n\":\"N1\",\"e\":\"AQAB\"},{\"n\":\"N2\",\"e\":\"AQAB\"}]}";
    let keys = KeySet::parse(body).unwrap();
    assert_eq!(keys.len(), 1);
    assert_eq!(keys.get(0).unwrap().kid, "k1");
    assert!(keys.find("ec").is_none());
}

#[test]
fn identifiers_stay_unique() {
    let body = "{\"keys\":[{\"kid\":\"k1\",\"n\":\"N1\",\"e\":\"AQAB\"},\
                {\"kid\":\"k2\",\"n\":\"N2\",\"e\":\"AQAB\"},{\"kid\":\"k1\",\"n\":\"N3\",\"e\":\"AQAB\"}]}";
    let keys = KeySet::parse(body).unwrap();
    assert_eq!(keys.len(), 2);
    assert_eq!(keys.find("k1").unwrap().modulus, "N1");
    let key = |kid: &str, modulus: &str| SigningKey {
        kid: kid.to_string(),
        kty: None,
        modulus: modulus.to_string(),
        exponent: "AQAB".to_string(),
    };
    let keys = KeySet::new().with_key(key("a", "1")).with_key(key("b", "2")).with_key(key("a", "3"));
    assert_eq!(keys.len(), 2);
    assert_eq!(keys.get(0).unwrap().modulus, "1");
    assert_eq!(keys.get(1).unwrap().kid, "b");
}

#[test]
fn numbers_other_than_unsigned_integers_are_not_read() {
    let body = "{\"keys\":[],\"a\":-1,\"b\":1.5,\"c\":18446744073709551615,\"d\":18446744073709551616}";
    assert!(KeySet::parse(body).is_ok());
    let store = KeySetStore::load("{\"keys\":[{\"kid\":\"k1\",\"n\":\"N1\",\"e\":\"AQAB\"}]}").unwrap();
    assert_eq!(store.snapshot().len(), 1);
    assert_eq!(store.snapshot().find("k1").unwrap().exponent, "AQAB");
    assert_eq!(KeySetStore::load("{}").err(), Some(VerificationError::Format));
    assert_eq!(KeySetStore::new(KeySet::new()).snapshot().len(), 0);
}

#[test]
fn key_set_address_is_well_known() {
    assert_eq!(
        jwks_url("https://token.actions.githubusercontent.com"),
        "https://token.actions.githubusercontent.com/.well-known/jwks"
    );
    assert_eq!(jwks_url(""), "/.well-known/jwks");
}

#[test]
fn claims_need_every_field() {
    let claims = claims();
    assert_eq!(claims.sub, "repo:acme/app:ref:refs/heads/main");
    assert_eq!(claims.repository, "acme/app");
    assert_eq!(claims.repository_owner, "acme");
    assert_eq!(claims.job_workflow_ref, "acme/app/.github/workflows/ci.yml@refs/heads/main");
    assert_eq!(claims.iat, 1_000);
    for missing in ["sub", "repository", "repository_owner", "job_workflow_ref", "iat"] {
        let rest = payload().into_iter().filter(|(name, _)| *name != missing).collect();
        assert!(read_claims(&object(rest)).is_none(), "{missing}");
    }
    let mut mistyped = payload();
    mistyped[4] = ("iat", text("1000"));
    assert!(read_claims(&object(mistyped)).is_none());
    let mut negative = payload();
    negative[4] = ("iat", Json::Number(None));
    assert!(read_claims(&object(negative)).is_none());
    assert!(read_claims(&Json::Array(vec![])).is_none());
}

#[test]
fn validity_period_has_a_leeway() {
    let document = object(payload());
    assert_eq!(TokenVerifier::new(None).leeway, 0);
    assert!(!check_validity(&document, 2_010, TokenVerifier::new(None).leeway));
    assert!(check_validity(&document, 1_999, 0));
    assert!(check_validity(&document, 2_000, 0));
    assert!(!check_validity(&document, 2_001, 0));
    assert!(check_validity(&document, 2_060, 60));
    assert!(!check_validity(&document, 2_061, 60));
    assert!(check_validity(&document, u64::MAX, u64::MAX));
    assert!(!check_validity(&document, u64::MAX, 0));
    let mut later = payload();
    later.push(("nbf", Json::Number(Some(1_500))));
    let document = object(later);
    assert!(!check_validity(&document, 1_439, 60));
    assert!(check_validity(&document, 1_440, 60));
    assert!(check_validity(&document, 1_500, 0));
    assert!(!check_validity(&document, 1_499, 0));
    assert!(check_validity(&document, 0, u64::MAX));
}

#[test]
fn validity_period_must_be_given_in_seconds() {
    let without: Vec<(&str, Json)> =
        payload().into_iter().filter(|(name, _)| *name != "exp").collect();
    assert!(!check_validity(&object(without), 0, 0));
    let mut mistyped = payload();
    mistyped[5] = ("exp", text("2000"));
    assert!(!check_validity(&object(mistyped), 0, 0));
    let mut fractional = payload();
    fractional[5] = ("exp", Json::Number(None));
    assert!(!check_validity(&object(fractional), 0, 0));
    let mut mistyped = payload();
    mistyped.push(("nbf", text("soon")));
    assert!(!check_validity(&object(mistyped), 1_000, 0));
    let mut null = payload();
    null.push(("nbf", Json::Null));
    assert!(!check_validity(&object(null), 1_000, 0));
}

#[test]
fn audience_is_a_string_or_an_array() {
    let expected = "https://github.com/acme".to_string();
    let with = |aud: Json| {
        let mut members = payload();
        members.push(("aud", aud));
        object(members)
    };
    assert!(check_audience(&with(text("https://github.com/acme")), &expected));
    assert!(!check_audience(&with(text("https://github.com/acme/")), &expected));
    assert!(!check_audience(&with(text("")), &expected));
    assert!(check_audience(
        &with(Json::Array(vec![Json::Null, text("x"), text("https://github.com/acme")])),
        &expected
    ));
    assert!(!check_audience(&with(Json::Array(vec![text("x"), text("y")])), &expected));
    assert!(!check_audience(&with(Json::Array(vec![])), &expected));
    assert!(!check_audience(
        &with(Json::Array(vec![Json::Array(vec![text("https://github.com/acme")])])),
        &expected
    ));
    assert!(!check_audience(&with(Json::Null), &expected));
    assert!(!check_audience(&object(payload()), &expected));
}

#[test]
fn policy_compares_exactly() {
    let claims = claims();
    let policy = |organization: Option<&str>, repository: Option<&str>| PolicyConstraints {
        organization: organization.map(|s| s.to_string()),
        repository: repository.map(|s| s.to_string()),
    };
    assert_eq!(check_policy(&claims, &policy(None, None)), None);
    assert_eq!(check_policy(&claims, &policy(Some("acme"), None)), None);
    assert_eq!(check_policy(&claims, &policy(None, Some("acme/app"))), None);
    assert_eq!(check_policy(&claims, &policy(Some("acme"), Some("acme/app"))), None);
    assert_eq!(
        check_policy(&claims, &policy(Some("Acme"), None)),
        Some(PolicyError::OrganizationMismatch)
    );
    assert_eq!(
        check_policy(&claims, &policy(Some(""), Some("acme/app"))),
        Some(PolicyError::OrganizationMismatch)
    );
    assert_eq!(
        check_policy(&claims, &policy(Some("other"), Some("other/app"))),
        Some(PolicyError::OrganizationMismatch)
    );
    assert_eq!(
        check_policy(&claims, &policy(Some("acme"), Some("acme/app2"))),
        Some(PolicyError::RepositoryMismatch)
    );
    assert_eq!(
        check_policy(&claims, &policy(None, Some("app"))),
        Some(PolicyError::RepositoryMismatch)
    );
}

#[test]
fn payload_is_assessed_in_a_fixed_order() {
    let constraints = |organization: &str| PolicyConstraints {
        organization: Some(organization.to_string()),
        repository: None,
    };
    let verifier = TokenVerifier::new(Some("audience".to_string()));
    let mut addressed = payload();
    addressed.push(("aud", text("audience")));
    let addressed = object(addressed);
    let accepted = verifier.assess(&addressed, &constraints("acme"), 1_500).unwrap();
    assert_eq!(accepted.repository, "acme/app");
    assert_eq!(
        verifier.assess(&addressed, &constraints("other"), 1_500).err(),
        Some(VerificationError::Policy(PolicyError::OrganizationMismatch))
    );
    let unaddressed = object(payload());
    assert_eq!(
        verifier.assess(&unaddressed, &constraints("other"), 1_500).err(),
        Some(VerificationError::Audience)
    );
    assert_eq!(
        verifier.assess(&unaddressed, &constraints("other"), 3_000).err(),
        Some(VerificationError::Signature)
    );
    let incomplete = object(vec![("exp", Json::Number(Some(1)))]);
    assert_eq!(
        verifier.assess(&incomplete, &constraints("other"), 3_000).err(),
        Some(VerificationError::Format)
    );
    let mut lenient = TokenVerifier::new(None);
    lenient.insecure_skip_validity = true;
    assert!(lenient.assess(&unaddressed, &constraints("acme"), 3_000).is_ok());
    let timeless: Vec<(&str, Json)> =
        payload().into_iter().filter(|(name, _)| *name != "exp").collect();
    assert!(lenient.assess(&object(timeless), &constraints("acme"), 3_000).is_ok());
}

#[test]
fn every_error_has_its_message() {
    assert_eq!(VerificationError::Fetch.message(), "Failed to fetch JWKS");
    assert_eq!(VerificationError::Format.message(), "Invalid token format. Expected a JWT.");
    assert_eq!(VerificationError::KeyNotFound.message(), "Matching key not found in JWKS");
    assert_eq!(VerificationError::MissingKeyId.message(), "Token does not name a signing key");
    assert_eq!(VerificationError::Signature.message(), "Failed to decode token");
    assert_eq!(VerificationError::Audience.message(), "Token is not for the expected audience");
    assert_eq!(
        VerificationError::Policy(PolicyError::OrganizationMismatch).message(),
        "Token is not from the expected organization"
    );
    assert_eq!(
        VerificationError::Policy(PolicyError::RepositoryMismatch).message(),
        "Token is not from the expected repository"
    );
    assert_eq!(
        VerificationError::KeyNotFound.rejection(),
        "Invalid token: Matching key not found in JWKS"
    );
}
