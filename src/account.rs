use vstd::prelude::*;

use crate::directory::Directory;
use crate::encoding::{append_json_escaped, b64url_decode, b64url_decoded, b64url_encode, b64url_of, json_escape};
use crate::error::AcmeError;
use crate::jws::{sign_request, Algorithm, EcPublicKey, Jws, KeyRef, Signer, jws_text};

verus! {

/// The key of an external account binding, as the authority issued it.
pub struct EabKey {
    pub key_id: String,
    pub mac_key: Vec<u8>,
}

/// What account creation needs.
pub struct AccountSetupParams {
    pub directory_url: String,
    pub agreed_terms_of_service: String,
    pub external_account_binding: Option<Jws>,
    pub email: String,
    pub domain: String,
    pub public_key: EcPublicKey,
    pub cert_request_der: Vec<u8>,
}

/// An account at the authority, with the order it placed.
#[derive(Debug)]
pub struct Account {
    pub directory_url: String,
    pub account_url: String,
    pub order_url: String,
}

/// Checks the external-account-binding options: both the key id and the
/// base64 MAC key, or neither. One without the other, or a MAC key that is not
/// base64, is a configuration error.
pub fn resolve_eab(key_id: Option<String>, mac_key: Option<String>) -> (r: Result<Option<EabKey>, AcmeError>)
    ensures
        match (key_id, mac_key) {
            (Some(k), Some(m)) => match b64url_decoded(m@) {
                Some(d) => r matches Ok(Some(e)) && e.key_id == k && e.mac_key@ == d,
                None => r matches Err(e) && e is Configuration,
            },
            (None, None) => r matches Ok(None),
            _ => r matches Err(e) && e is Configuration,
        },
{
    match (key_id, mac_key) {
        (Some(key_id), Some(mac_key)) => match b64url_decode(mac_key.as_str()) {
            Some(mac_key) => Ok(Some(EabKey { key_id, mac_key })),
            None => Err(AcmeError::Configuration(String::from_str("the eab-mac-key is not base64url"))),
        },
        (None, None) => Ok(None),
        _ => Err(
            AcmeError::Configuration(
                String::from_str(
                    "To use External Account Binding, please provide both \"eab-key-id\" and \"eab-mac-key\".",
                ),
            ),
        ),
    }
}

/// Whether the account can be created as configured: with an external
/// account binding where the directory demands one.
pub open spec fn setup_allowed(d: &Directory, has_eab: bool) -> bool {
    d.external_account_required ==> has_eab
}

/// Checks the account setup against the directory, before any request.
pub fn check_account_setup(d: &Directory, has_eab: bool) -> (r: Result<(), AcmeError>)
    ensures
        r is Ok <==> setup_allowed(d, has_eab),
        r matches Err(e) ==> e is Configuration,
{
    if d.external_account_required && !has_eab {
        return Err(AcmeError::Configuration(String::from_str("the authority requires an external account binding")));
    }
    Ok(())
}

/// The body of a new-account request.
pub open spec fn new_account_payload_text(email: Seq<char>, eab: Option<Seq<char>>) -> Seq<char> {
    "{\"contact\":[\"mailto:"@ + json_escape(email) + "\"],\"termsOfServiceAgreed\":true"@ + match eab {
        Some(j) => ",\"externalAccountBinding\":"@ + j,
        None => Seq::empty(),
    } + "}"@
}

/// The body of a new-order request for one domain.
pub open spec fn new_order_payload_text(domain: Seq<char>) -> Seq<char> {
    "{\"identifiers\":[{\"type\":\"dns\",\"value\":\""@ + json_escape(domain) + "\"}]}"@
}

/// The body of a finalize request.
pub open spec fn finalize_payload_text(der: Seq<u8>) -> Seq<char> {
    "{\"csr\":\""@ + b64url_of(der) + "\"}"@
}

/// Builds the body of a new-account request, with the binding if any.
pub fn new_account_payload(email: &str, eab: Option<&Jws>) -> (r: String)
    requires
        email@.len() < usize::MAX,
    ensures
        r@ == new_account_payload_text(
            email@,
            match eab { Some(j) => Some(jws_text(j.protected@, j.payload@, j.signature@)), None => None },
        ),
{
    let mut r = String::from_str("{\"contact\":[\"mailto:");
    append_json_escaped(&mut r, email);
    r.append("\"],\"termsOfServiceAgreed\":true");
    match eab {
        Some(j) => {
            r.append(",\"externalAccountBinding\":");
            let t = j.to_json();
            r.append(t.as_str());
        },
        None => {},
    }
    r.append("}");
    r
}

/// Builds the body of a new-order request for `domain`.
pub fn new_order_payload(domain: &str) -> (r: String)
    requires
        domain@.len() < usize::MAX,
    ensures
        r@ == new_order_payload_text(domain@),
{
    let mut r = String::from_str("{\"identifiers\":[{\"type\":\"dns\",\"value\":\"");
    append_json_escaped(&mut r, domain);
    r.append("\"}]}");
    r
}

/// Builds the body of a finalize request from the DER of the certificate
/// signing request.
pub fn finalize_payload(der: &[u8]) -> (r: String)
    ensures
        r@ == finalize_payload_text(der@),
{
    let mut r = String::from_str("{\"csr\":\"");
    let t = b64url_encode(der);
    r.append(t.as_str());
    r.append("\"}");
    r
}

/// The signed new-account request: it names the account key itself, spends
/// `nonce`, and goes to the directory's new-account endpoint. Fails with a
/// configuration error exactly where the setup is not allowed, and with a
/// signing error where the signer fails.
pub fn new_account_request<S: Signer>(
    signer: &S,
    d: &Directory,
    params: &AccountSetupParams,
    nonce: &str,
) -> (r: Result<Jws, AcmeError>)
    requires
        nonce@.len() < usize::MAX,
        d.new_account@.len() < usize::MAX,
        params.email@.len() < usize::MAX,
    ensures
        !setup_allowed(d, params.external_account_binding is Some) ==> (r matches Err(e) && e is Configuration),
        r matches Ok(j) ==> {
            &&& setup_allowed(d, params.external_account_binding is Some)
            &&& j.signs(
                Algorithm::ES256,
                "\"jwk\":"@ + crate::jws::jwk_text(params.public_key.x@, params.public_key.y@),
                Some(nonce@),
                d.new_account@,
                Some(new_account_payload_text(
                    params.email@,
                    match params.external_account_binding {
                        Some(j) => Some(jws_text(j.protected@, j.payload@, j.signature@)),
                        None => None,
                    },
                )),
            )
        },
        r matches Err(e) ==> (e is Configuration <==> !setup_allowed(d, params.external_account_binding is Some)),
        r matches Err(e) ==> (e is Configuration || e is Signing),
{
    check_account_setup(d, params.external_account_binding.is_some())?;
    let payload = new_account_payload(params.email.as_str(), params.external_account_binding.as_ref());
    let key = KeyRef::Jwk(params.public_key.jwk());
    match sign_request(signer, Algorithm::ES256, &key, Some(nonce), d.new_account.as_str(), Some(payload.as_str())) {
        Some(j) => Ok(j),
        None => Err(AcmeError::Signing(String::from_str("the account key could not sign"))),
    }
}

/// A request signed with the account key, naming the account URL, spending
/// `nonce`, and going to `url`; `payload` is none for a status check.
pub fn account_request<S: Signer>(
    signer: &S,
    account_url: &str,
    nonce: &str,
    url: &str,
    payload: Option<&str>,
) -> (r: Result<Jws, AcmeError>)
    requires
        account_url@.len() < usize::MAX,
        nonce@.len() < usize::MAX,
        url@.len() < usize::MAX,
    ensures
        r matches Ok(j) ==> j.signs(
            Algorithm::ES256,
            crate::jws::kid_member(account_url@),
            Some(nonce@),
            url@,
            match payload { Some(p) => Some(p@), None => None },
        ),
        r matches Err(e) ==> e is Signing,
{
    let key = KeyRef::Kid(account_url.to_string());
    match sign_request(signer, Algorithm::ES256, &key, Some(nonce), url, payload) {
        Some(j) => Ok(j),
        None => Err(AcmeError::Signing(String::from_str("the account key could not sign"))),
    }
}

} // verus!
