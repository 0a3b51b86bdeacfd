use hmac::{Hmac, Mac};
use sha2::{Digest, Sha256};
use sxg_acme::account::{
    account_request, check_account_setup, finalize_payload, new_account_payload, new_account_request,
    new_order_payload, resolve_eab, AccountSetupParams,
};
use sxg_acme::directory::{Directory, DirectoryMeta};
use sxg_acme::error::AcmeError;
use sxg_acme::jws::{assemble_jws, signing_input, create_external_account_binding, key_authorization, Algorithm, EcPublicKey, KeyRef, Signer, sign_request, build_header};
use sxg_acme::nonce::{should_retry, NonceSource};
use sxg_acme::order::{authorization_status_from_text, order_status_from_text, select_http_challenge, Action, AuthorizationStatus, Challenge, Order, OrderStatus};

struct HmacSigner(Vec<u8>);

impl Signer for HmacSigner {
    fn sign(&self, _alg: Algorithm, message: &[u8]) -> Option<Vec<u8>> {
        let mut mac = Hmac::<Sha256>::new_from_slice(&self.0).ok()?;
        mac.update(message);
        Some(mac.finalize().into_bytes().to_vec())
    }
}

struct FailingSigner;

impl Signer for FailingSigner {
    fn sign(&self, _alg: Algorithm, _message: &[u8]) -> Option<Vec<u8>> {
        None
    }
}

fn b64(b: &[u8]) -> String {
    base64::encode_config(b, base64::URL_SAFE_NO_PAD)
}

fn sample_key() -> EcPublicKey {
    EcPublicKey { x: vec![1; 32], y: vec![2; 32] }
}

fn entries(v: &[(&str, &str)]) -> Vec<(String, String)> {
    v.iter().map(|(a, b)| (a.to_string(), b.to_string())).collect()
}

fn no_meta() -> DirectoryMeta {
    DirectoryMeta { terms_of_service: None, external_account_required: false }
}

fn sample_directory() -> Directory {
    Directory::from_entries(
        &entries(&[
            ("newNonce", "https://acme.example/new-nonce"),
            ("newAccount", "https://acme.example/new-account"),
            ("newOrder", "https://acme.example/new-order"),
            ("keyChange", "https://acme.example/key-change"),
        ]),
        DirectoryMeta { terms_of_service: Some("https://acme.example/tos".to_string()), external_account_required: false },
    )
    .unwrap()
}

fn decode_text(s: &str) -> String {
    String::from_utf8(base64::decode_config(s, base64::URL_SAFE_NO_PAD).unwrap()).unwrap()
}

#[test]
fn key_authorization_from_token_and_thumbprint() {
    let jwk = sample_key().jwk();
    let thumbprint = Sha256::digest(jwk.as_bytes()).to_vec();
    let mut order = Order::new("https://acme.example/order/1".to_string(), vec!["https://acme.example/authz/1".to_string()], "https://acme.example/finalize/1".to_string());
    assert_eq!(order.get_challenge_token_and_answer(&sample_key()), None);
    order.record_authorization(0, AuthorizationStatus::Pending, Some(Challenge { url: "https://acme.example/chall/1".to_string(), token: "tok-123".to_string() }));
    let (token, answer) = order.get_challenge_token_and_answer(&sample_key()).unwrap();
    assert_eq!(sample_key().thumbprint(), thumbprint);
    assert_eq!(order.challenge_answer_with_thumbprint(&[0xff, 0xfe]).unwrap().1, "tok-123.__4");
    assert_eq!(token, "tok-123");
    assert_eq!(answer, "tok-123.kOFKxjJdOqJD5G4Yuw-cxHe64VGyxKEO_hoV83QfGj0");
    assert_eq!(answer, format!("tok-123.{}", b64(&thumbprint)));
    assert_eq!(key_authorization("t", &[0xff, 0xfe]), "t.__4");
}

#[test]
fn jwk_is_canonical() {
    assert_eq!(
        sample_key().jwk(),
        format!("{{\"crv\":\"P-256\",\"kty\":\"EC\",\"x\":\"{}\",\"y\":\"{}\"}}", b64(&[1; 32]), b64(&[2; 32]))
    );
}

#[test]
fn nonces_are_never_reused() {
    let mut source = NonceSource::new();
    assert!(!source.has_cached());
    assert_eq!(source.take(), None);
    let mut seen: Vec<String> = Vec::new();
    for k in 0..10 {
        source.receive(format!("nonce-{}", k));
        // A nonce that was spent already is never cached again.
        if let Some(prev) = seen.last() {
            source.receive(prev.clone());
        }
        let n = source.take().unwrap();
        assert!(!seen.contains(&n));
        seen.push(n);
        assert_eq!(source.take(), None);
    }
    assert_eq!(seen.len(), 10);
}

#[test]
fn processing_order_is_left_alone() {
    let mut order = Order::new("https://acme.example/order/1".to_string(), vec![], "https://acme.example/finalize/1".to_string());
    order.record_order(OrderStatus::Processing, None, None);
    for _ in 0..2 {
        match order.update_state() {
            Ok(Action::PollOrder(u)) => assert_eq!(u, "https://acme.example/order/1"),
            other => panic!("unexpected {:?}", other),
        }
    }
    assert!(!order.finalize_sent);
}

#[test]
fn finalize_is_sent_once() {
    let mut order = Order::new("https://acme.example/order/1".to_string(), vec![], "https://acme.example/finalize/1".to_string());
    order.record_order(OrderStatus::Ready, None, None);
    match order.update_state() {
        Ok(Action::Finalize(u)) => assert_eq!(u, "https://acme.example/finalize/1"),
        other => panic!("unexpected {:?}", other),
    }
    assert!(matches!(order.update_state(), Ok(Action::PollOrder(_))));
}

#[test]
fn directory_missing_new_account() {
    let r = Directory::from_entries(
        &entries(&[("newNonce", "https://a/nonce"), ("newOrder", "https://a/order")]),
        no_meta(),
    );
    assert!(matches!(r, Err(AcmeError::Protocol(_))));
    let r = Directory::from_entries(&entries(&[("newAccount", "https://a/acct")]), no_meta());
    assert!(matches!(r, Err(AcmeError::Protocol(_))));
}

#[test]
fn directory_complete() {
    let d = sample_directory();
    assert_eq!(d.new_nonce.as_deref(), Some("https://acme.example/new-nonce"));
    assert_eq!(d.new_account, "https://acme.example/new-account");
    assert_eq!(d.new_order, "https://acme.example/new-order");
    assert_eq!(d.terms_of_service.as_deref(), Some("https://acme.example/tos"));
    assert!(!d.external_account_required);
}

#[test]
fn eab_signature_matches_reference() {
    let signer = HmacSigner(b"secret-mac-key-0123456789abcdef!".to_vec());
    let j = create_external_account_binding(Algorithm::HS256, "kid-1", "https://acme.example/new-account", &sample_key(), &signer).unwrap();
    assert_eq!(j.protected, "eyJhbGciOiJIUzI1NiIsImtpZCI6ImtpZC0xIiwidXJsIjoiaHR0cHM6Ly9hY21lLmV4YW1wbGUvbmV3LWFjY291bnQifQ");
    assert_eq!(j.payload, "eyJjcnYiOiJQLTI1NiIsImt0eSI6IkVDIiwieCI6IkFRRUJBUUVCQVFFQkFRRUJBUUVCQVFFQkFRRUJBUUVCQVFFQkFRRUJBUUUiLCJ5IjoiQWdJQ0FnSUNBZ0lDQWdJQ0FnSUNBZ0lDQWdJQ0FnSUNBZ0lDQWdJQ0FnSSJ9");
    assert_eq!(j.signature, "nMrXpl5Br_MavUtOE8rzzc42HVuxDO43WMnaxTBm7v4");
    assert_eq!(
        j.to_json(),
        format!("{{\"protected\":\"{}\",\"payload\":\"{}\",\"signature\":\"{}\"}}", j.protected, j.payload, j.signature)
    );
}

#[test]
fn eab_needs_both_options() {
    assert!(matches!(resolve_eab(Some("kid".to_string()), None), Err(AcmeError::Configuration(_))));
    assert!(matches!(resolve_eab(None, Some("c2VjcmV0".to_string())), Err(AcmeError::Configuration(_))));
    assert!(matches!(resolve_eab(None, None), Ok(None)));
    assert!(matches!(resolve_eab(Some("kid".to_string()), Some("not base64!".to_string())), Err(AcmeError::Configuration(_))));
    let k = resolve_eab(Some("kid".to_string()), Some("c2VjcmV0".to_string())).unwrap().unwrap();
    assert_eq!(k.key_id, "kid");
    assert_eq!(k.mac_key, b"secret".to_vec());
}

#[test]
fn account_setup_checks() {
    let mut d = sample_directory();
    assert!(check_account_setup(&d, false).is_ok());
    d.external_account_required = true;
    assert!(matches!(check_account_setup(&d, false), Err(AcmeError::Configuration(_))));
    assert!(check_account_setup(&d, true).is_ok());
}

#[test]
fn header_escapes_and_names_key() {
    let h = build_header(Algorithm::ES256, &KeyRef::Kid("https://a/acct/\"1\"".to_string()), Some("n\\1"), "https://a/x\n");
    assert_eq!(h, "{\"alg\":\"ES256\",\"kid\":\"https://a/acct/\\\"1\\\"\",\"nonce\":\"n\\\\1\",\"url\":\"https://a/x\\u000a\"}");
    let h = build_header(Algorithm::ES256, &KeyRef::Jwk("{}".to_string()), Some("n"), "u");
    assert_eq!(h, "{\"alg\":\"ES256\",\"jwk\":{},\"nonce\":\"n\",\"url\":\"u\"}");
}

#[test]
fn signing_failure_is_reported() {
    assert!(sign_request(&FailingSigner, Algorithm::ES256, &KeyRef::Kid("k".to_string()), Some("n"), "u", None).is_none());
    assert!(matches!(account_request(&FailingSigner, "a", "n", "u", None), Err(AcmeError::Signing(_))));
}

#[test]
fn payloads() {
    assert_eq!(new_order_payload("example.org"), "{\"identifiers\":[{\"type\":\"dns\",\"value\":\"example.org\"}]}");
    assert_eq!(finalize_payload(&[0xff, 0xfe]), "{\"csr\":\"__4\"}");
    assert_eq!(new_account_payload("a@b.c", None), "{\"contact\":[\"mailto:a@b.c\"],\"termsOfServiceAgreed\":true}");
}

#[test]
fn order_failure_carries_reason() {
    let mut order = Order::new("o".to_string(), vec![], "f".to_string());
    order.record_order(OrderStatus::Invalid, None, Some("dns lookup failed".to_string()));
    match order.update_state() {
        Err(AcmeError::OrderFailed(m)) => assert_eq!(m, "dns lookup failed"),
        other => panic!("unexpected {:?}", other),
    }
}

#[test]
fn issuance_end_to_end() {
    let signer = HmacSigner(vec![7; 32]);
    let d = sample_directory();
    let mut nonces = NonceSource::new();
    nonces.receive("n-0".to_string());
    let params = AccountSetupParams {
        directory_url: "https://acme.example/directory".to_string(),
        agreed_terms_of_service: "https://acme.example/tos".to_string(),
        external_account_binding: None,
        email: "admin@example.org".to_string(),
        domain: "example.org".to_string(),
        public_key: sample_key(),
        cert_request_der: vec![1, 2, 3],
    };
    let n = nonces.take().unwrap();
    let req = new_account_request(&signer, &d, &params, &n).unwrap();
    let header = decode_text(&req.protected);
    assert!(header.starts_with("{\"alg\":\"ES256\",\"jwk\":{\"crv\":\"P-256\""));
    assert!(header.ends_with(",\"nonce\":\"n-0\",\"url\":\"https://acme.example/new-account\"}"));
    assert_eq!(decode_text(&req.payload), "{\"contact\":[\"mailto:admin@example.org\"],\"termsOfServiceAgreed\":true}");

    // The simulated server creates the order with one authorization.
    let mut order = Order::new(
        "https://acme.example/order/1".to_string(),
        vec!["https://acme.example/authz/1".to_string()],
        "https://acme.example/finalize/1".to_string(),
    );
    match order.update_state() {
        Ok(Action::FetchAuthorization(u)) => assert_eq!(u, "https://acme.example/authz/1"),
        other => panic!("unexpected {:?}", other),
    }
    order.record_authorization(0, AuthorizationStatus::Pending, Some(Challenge { url: "https://acme.example/chall/1".to_string(), token: "tok".to_string() }));
    match order.update_state() {
        Ok(Action::AcceptChallenge(u)) => assert_eq!(u, "https://acme.example/chall/1"),
        other => panic!("unexpected {:?}", other),
    }
    // The challenge was accepted: the authorization is fetched again for its status.
    match order.update_state() {
        Ok(Action::FetchAuthorization(u)) => assert_eq!(u, "https://acme.example/authz/1"),
        other => panic!("unexpected {:?}", other),
    }
    order.record_authorization(0, AuthorizationStatus::Valid, Some(Challenge { url: "https://acme.example/chall/1".to_string(), token: "tok".to_string() }));
    assert!(matches!(order.update_state(), Ok(Action::PollOrder(_))));
    order.record_order(OrderStatus::Ready, None, None);
    match order.update_state() {
        Ok(Action::Finalize(u)) => assert_eq!(u, "https://acme.example/finalize/1"),
        other => panic!("unexpected {:?}", other),
    }
    nonces.receive("n-1".to_string());
    let n = nonces.take().unwrap();
    let fin = finalize_payload(&params.cert_request_der);
    let req = account_request(&signer, "https://acme.example/acct/1", &n, "https://acme.example/finalize/1", Some(&fin)).unwrap();
    assert_eq!(decode_text(&req.payload), "{\"csr\":\"AQID\"}");
    order.record_order(OrderStatus::Valid, Some("https://acme.example/cert/1".to_string()), None);
    match order.update_state() {
        Ok(Action::DownloadCertificate(u)) => assert_eq!(u, "https://acme.example/cert/1"),
        other => panic!("unexpected {:?}", other),
    }
    let pem = "-----BEGIN CERTIFICATE-----\nAAAA\n-----END CERTIFICATE-----\n".to_string();
    order.record_certificate(pem.clone());
    assert!(matches!(order.update_state(), Ok(Action::Done)));
    let state = order.read_current_state();
    assert_eq!(state.certificates, vec![pem]);
}

#[test]
fn eab_incomplete_fails_before_network() {
    // Only the key id: rejected from the options alone.
    let r = resolve_eab(Some("kid-1".to_string()), None);
    match r {
        Err(e) => {
            assert!(e.is_configuration());
            assert!(e.message().contains("eab-mac-key"));
        },
        Ok(_) => panic!("accepted an incomplete binding"),
    }
}

#[test]
fn bad_nonce_is_retried_with_fresh_nonce() {
    let signer = HmacSigner(vec![9; 32]);
    let mut nonces = NonceSource::new();
    nonces.receive("first".to_string());
    let first = nonces.take().unwrap();
    let a = account_request(&signer, "https://a/acct/1", &first, "https://a/order", Some("{}")).unwrap();
    // The server rejects it and hands over a fresh nonce.
    assert!(should_retry(1, "urn:ietf:params:acme:error:badNonce"));
    assert!(!should_retry(2, "urn:ietf:params:acme:error:badNonce"));
    assert!(!should_retry(1, "urn:ietf:params:acme:error:malformed"));
    nonces.receive("first".to_string());
    assert!(!nonces.has_cached());
    nonces.receive("second".to_string());
    let second = nonces.take().unwrap();
    assert_ne!(first, second);
    let b = account_request(&signer, "https://a/acct/1", &second, "https://a/order", Some("{}")).unwrap();
    assert_ne!(a.protected, b.protected);
    assert!(decode_text(&b.protected).contains("\"nonce\":\"second\""));
}

#[test]
fn signing_input_and_assembly() {
    assert_eq!(signing_input("abc", "def"), "abc.def");
    assert_eq!(signing_input("abc", ""), "abc.");
    let j = assemble_jws("p".to_string(), "q".to_string(), &[0xff, 0xfe]);
    assert_eq!(j.protected, "p");
    assert_eq!(j.payload, "q");
    assert_eq!(j.signature, "__4");
}

#[test]
fn eab_signature_covers_signing_input() {
    let key = b"secret-mac-key-0123456789abcdef!".to_vec();
    let j = create_external_account_binding(Algorithm::HS256, "kid-1", "https://acme.example/new-account", &sample_key(), &HmacSigner(key.clone())).unwrap();
    let mut mac = Hmac::<Sha256>::new_from_slice(&key).unwrap();
    mac.update(signing_input(&j.protected, &j.payload).as_bytes());
    assert_eq!(j.signature, b64(&mac.finalize().into_bytes()));
    assert_eq!(decode_text(&j.protected), "{\"alg\":\"HS256\",\"kid\":\"kid-1\",\"url\":\"https://acme.example/new-account\"}");
    assert_eq!(decode_text(&j.payload), sample_key().jwk());
}

#[test]
fn status_names() {
    assert_eq!(order_status_from_text("pending"), OrderStatus::Pending);
    assert_eq!(order_status_from_text("ready"), OrderStatus::Ready);
    assert_eq!(order_status_from_text("processing"), OrderStatus::Processing);
    assert_eq!(order_status_from_text("valid"), OrderStatus::Valid);
    assert_eq!(order_status_from_text("invalid"), OrderStatus::Invalid);
    assert_eq!(order_status_from_text("Valid"), OrderStatus::Invalid);
    assert_eq!(authorization_status_from_text("pending"), AuthorizationStatus::Pending);
    assert_eq!(authorization_status_from_text("valid"), AuthorizationStatus::Valid);
    assert_eq!(authorization_status_from_text("expired"), AuthorizationStatus::Invalid);
}

#[test]
fn http_challenge_is_selected() {
    let t = |a: &str, b: &str, c: &str| (a.to_string(), b.to_string(), c.to_string());
    let c = select_http_challenge(vec![t("dns-01", "u1", "t1"), t("http-01", "u2", "t2"), t("http-01", "u3", "t3")]).unwrap();
    assert_eq!((c.url.as_str(), c.token.as_str()), ("u2", "t2"));
    assert!(select_http_challenge(vec![t("tls-alpn-01", "u", "t")]).is_none());
    assert!(select_http_challenge(vec![]).is_none());
}

#[test]
fn accepted_authorization_is_refetched_until_settled() {
    let mut order = Order::new("o".to_string(), vec!["a1".to_string(), "a2".to_string()], "f".to_string());
    order.record_authorization(0, AuthorizationStatus::Pending, Some(Challenge { url: "c1".to_string(), token: "t1".to_string() }));
    assert!(matches!(order.update_state(), Ok(Action::AcceptChallenge(u)) if u == "c1"));
    assert!(matches!(order.update_state(), Ok(Action::FetchAuthorization(u)) if u == "a1"));
    order.record_authorization(0, AuthorizationStatus::Valid, None);
    assert!(matches!(order.update_state(), Ok(Action::FetchAuthorization(u)) if u == "a2"));
}
