use vstd::prelude::*;
use vstd::utf8::encode_utf8;

use sha2::Digest;

use crate::encoding::{append_json_escaped, b64url_encode, b64url_of, json_escape};

verus! {

/// A signature algorithm of the JSON Web Signature family.
#[derive(Debug, Clone, Copy, PartialEq, Eq, Structural)]
pub enum Algorithm {
    /// ECDSA over P-256 with SHA-256: the account key.
    ES256,
    /// HMAC with SHA-256: the external-account-binding key.
    HS256,
}

impl Algorithm {
    /// The algorithm's name in a protected header.
    pub open spec fn spec_name(self) -> Seq<char> {
        match self {
            Algorithm::ES256 => "ES256"@,
            Algorithm::HS256 => "HS256"@,
        }
    }

    /// The algorithm's name in a protected header.
    pub fn name(&self) -> (r: &'static str)
        ensures
            r@ == self.spec_name(),
    {
        match self {
            Algorithm::ES256 => "ES256",
            Algorithm::HS256 => "HS256",
        }
    }
}

/// A capability bound to a private key: it signs bytes with an algorithm, or
/// fails.
pub trait Signer {
    fn sign(&self, alg: Algorithm, message: &[u8]) -> Option<Vec<u8>>;
}

/// A public key of the P-256 curve, by its two coordinates.
#[derive(Debug)]
pub struct EcPublicKey {
    pub x: Vec<u8>,
    pub y: Vec<u8>,
}

/// The JSON Web Key of a P-256 public key with the coordinates `x` and `y`,
/// its members in the canonical order that a key thumbprint hashes.
pub open spec fn jwk_text(x: Seq<u8>, y: Seq<u8>) -> Seq<char> {
    "{\"crv\":\"P-256\",\"kty\":\"EC\",\"x\":\""@ + b64url_of(x) + "\",\"y\":\""@ + b64url_of(y)
        + "\"}"@
}

/// The SHA-256 digest of a byte string.
pub uninterp spec fn sha256_of(bytes: Seq<u8>) -> Seq<u8>;

/// Relies on `sha2::Sha256::digest`: the 32-byte SHA-256 digest of the bytes.
#[verifier::external_body]
fn sha256(bytes: &[u8]) -> (r: Vec<u8>)
    ensures
        r@ == sha256_of(bytes@),
        r@.len() == 32,
{
    sha2::Sha256::digest(bytes).to_vec()
}

/// The thumbprint of a P-256 public key: the SHA-256 digest of its canonical
/// JSON Web Key.
pub open spec fn thumbprint_of(x: Seq<u8>, y: Seq<u8>) -> Seq<u8> {
    sha256_of(encode_utf8(jwk_text(x, y)))
}

impl EcPublicKey {
    /// The key's thumbprint.
    pub fn thumbprint(&self) -> (r: Vec<u8>)
        ensures
            r@ == thumbprint_of(self.x@, self.y@),
    {
        let jwk = self.jwk();
        sha256(jwk.as_str().as_bytes())
    }

    /// The key as a JSON Web Key, in canonical member order.
    pub fn jwk(&self) -> (r: String)
        ensures
            r@ == jwk_text(self.x@, self.y@),
    {
        let mut r = String::from_str("{\"crv\":\"P-256\",\"kty\":\"EC\",\"x\":\"");
        let x = b64url_encode(self.x.as_slice());
        r.append(x.as_str());
        r.append("\",\"y\":\"");
        let y = b64url_encode(self.y.as_slice());
        r.append(y.as_str());
        r.append("\"}");
        r
    }
}

/// How a signed request names its key.
pub enum KeyRef {
    /// The key itself, as the JSON of a JSON Web Key: for the request that
    /// creates the account.
    Jwk(String),
    /// The key's identifier: the account URL, or the key id of an external
    /// account binding.
    Kid(String),
}

/// The member of a protected header that names a key by its identifier.
pub open spec fn kid_member(kid: Seq<char>) -> Seq<char> {
    "\"kid\":\""@ + json_escape(kid) + "\""@
}

/// The member of a protected header that names the key.
pub open spec fn key_member(key: KeyRef) -> Seq<char> {
    match key {
        KeyRef::Jwk(j) => "\"jwk\":"@ + j@,
        KeyRef::Kid(k) => kid_member(k@),
    }
}

/// The member of a protected header that carries the nonce, if any.
pub open spec fn nonce_member(nonce: Option<Seq<char>>) -> Seq<char> {
    match nonce {
        Some(n) => ",\"nonce\":\""@ + json_escape(n) + "\""@,
        None => Seq::empty(),
    }
}

/// The protected header of a signed request: the algorithm, the key, the
/// nonce (absent only in an external account binding) and the target URL.
pub open spec fn header_text(alg: Algorithm, key: Seq<char>, nonce: Option<Seq<char>>, url: Seq<char>) -> Seq<char> {
    "{\"alg\":\""@ + alg.spec_name() + "\","@ + key + nonce_member(nonce)
        + ",\"url\":\""@ + json_escape(url) + "\"}"@
}

/// The encoded payload: the base64 of the body, or nothing for a request
/// without a body.
pub open spec fn payload_text(payload: Option<Seq<char>>) -> Seq<char> {
    match payload {
        Some(p) => b64url_of(encode_utf8(p)),
        None => Seq::empty(),
    }
}

/// The JSON body of a signed request.
pub open spec fn jws_text(protected: Seq<char>, payload: Seq<char>, signature: Seq<char>) -> Seq<char> {
    "{\"protected\":\""@ + protected + "\",\"payload\":\""@ + payload + "\",\"signature\":\""@
        + signature + "\"}"@
}

/// The text that the signature of a request covers: the encoded header, a
/// dot, and the encoded payload.
pub open spec fn signing_input_text(protected: Seq<char>, payload: Seq<char>) -> Seq<char> {
    protected + "."@ + payload
}

/// Builds the text that the signature of a request covers.
pub fn signing_input(protected: &str, payload: &str) -> (r: String)
    ensures
        r@ == signing_input_text(protected@, payload@),
{
    let mut r = protected.to_string();
    r.append(".");
    r.append(payload);
    r
}

/// Puts a signed request together from its encoded header and payload and the
/// signature bytes.
pub fn assemble_jws(protected: String, payload: String, sig: &[u8]) -> (r: Jws)
    ensures
        r.protected == protected,
        r.payload == payload,
        r.signature@ == b64url_of(sig@),
{
    let signature = b64url_encode(sig);
    Jws { protected, payload, signature }
}

/// Whether a key reference can be written into a header.
pub open spec fn key_fits(key: &KeyRef) -> bool {
    match key {
        KeyRef::Jwk(_) => true,
        KeyRef::Kid(k) => k@.len() < usize::MAX,
    }
}

/// A signed request: protected header, payload and signature, each encoded.
pub struct Jws {
    pub protected: String,
    pub payload: String,
    pub signature: String,
}

impl Jws {
    /// Whether this is the signed request with header `header_text(alg, key,
    /// nonce, url)` (`key` the member that names the key) and body `payload`.
    pub open spec fn signs(self, alg: Algorithm, key: Seq<char>, nonce: Option<Seq<char>>, url: Seq<char>, payload: Option<Seq<char>>) -> bool {
        &&& self.protected@ == b64url_of(encode_utf8(header_text(alg, key, nonce, url)))
        &&& self.payload@ == payload_text(payload)
    }


    /// The request as the JSON body that the server takes.
    pub fn to_json(&self) -> (r: String)
        ensures
            r@ == jws_text(self.protected@, self.payload@, self.signature@),
    {
        let mut r = String::from_str("{\"protected\":\"");
        r.append(self.protected.as_str());
        r.append("\",\"payload\":\"");
        r.append(self.payload.as_str());
        r.append("\",\"signature\":\"");
        r.append(self.signature.as_str());
        r.append("\"}");
        r
    }
}

/// Builds the protected header of a signed request.
pub fn build_header(alg: Algorithm, key: &KeyRef, nonce: Option<&str>, url: &str) -> (r: String)
    requires
        key_fits(key),
        nonce matches Some(n) ==> n@.len() < usize::MAX,
        url@.len() < usize::MAX,
    ensures
        r@ == header_text(alg, key_member(*key), match nonce { Some(n) => Some(n@), None => None }, url@),
{
    let mut r = String::from_str("{\"alg\":\"");
    r.append(alg.name());
    r.append("\",");
    match key {
        KeyRef::Jwk(j) => {
            r.append("\"jwk\":");
            r.append(j.as_str());
        },
        KeyRef::Kid(k) => {
            r.append("\"kid\":\"");
            append_json_escaped(&mut r, k.as_str());
            r.append("\"");
        },
    }
    match nonce {
        Some(n) => {
            r.append(",\"nonce\":\"");
            append_json_escaped(&mut r, n);
            r.append("\"");
        },
        None => {},
    }
    r.append(",\"url\":\"");
    append_json_escaped(&mut r, url);
    r.append("\"}");
    proof {
        let ghost nv = match nonce { Some(n) => Some(n@), None => None };
        assert(r@ =~= header_text(alg, key_member(*key), nv, url@));
    }
    r
}

/// Signs a request for `url`: the header names `key` and carries `nonce`,
/// the body is `payload` (none for a status check). The signer is handed the
/// bytes of `signing_input` over the encoded header and payload, and its
/// answer goes through `assemble_jws`. Fails only where the signer fails.
pub fn sign_request<S: Signer>(
    signer: &S,
    alg: Algorithm,
    key: &KeyRef,
    nonce: Option<&str>,
    url: &str,
    payload: Option<&str>,
) -> (r: Option<Jws>)
    requires
        key_fits(key),
        nonce matches Some(n) ==> n@.len() < usize::MAX,
        url@.len() < usize::MAX,
    ensures
        r matches Some(j) ==> j.signs(
            alg,
            key_member(*key),
            match nonce { Some(n) => Some(n@), None => None },
            url@,
            match payload { Some(p) => Some(p@), None => None },
        ),
{
    let header = build_header(alg, key, nonce, url);
    let protected = b64url_encode(header.as_str().as_bytes());
    let payload_b64 = match payload {
        Some(p) => b64url_encode(p.as_bytes()),
        None => String::new(),
    };
    let input = signing_input(protected.as_str(), payload_b64.as_str());
    let sig = signer.sign(alg, input.as_str().as_bytes());
    match sig {
        Some(sig) => {
            let j = assemble_jws(protected, payload_b64, sig.as_slice());
            Some(j)
        },
        None => None,
    }
}

/// The external account binding of a new account: a request signed with the
/// key that the authority issued, naming its key id, aimed at the new-account
/// endpoint, whose body is the account's public key.
pub fn create_external_account_binding<S: Signer>(
    alg: Algorithm,
    key_id: &str,
    new_account_url: &str,
    public_key: &EcPublicKey,
    signer: &S,
) -> (r: Option<Jws>)
    requires
        key_id@.len() < usize::MAX,
        new_account_url@.len() < usize::MAX,
    ensures
        r matches Some(j) ==> j.signs(
            alg,
            kid_member(key_id@),
            None,
            new_account_url@,
            Some(jwk_text(public_key.x@, public_key.y@)),
        ),
{
    let key = KeyRef::Kid(key_id.to_string());
    let jwk = public_key.jwk();
    sign_request(signer, alg, &key, None, new_account_url, Some(jwk.as_str()))
}

/// The answer that the validation responder serves for a challenge token:
/// the token, a dot, and the base64 of the account key's thumbprint.
pub open spec fn key_authorization_text(token: Seq<char>, thumbprint: Seq<u8>) -> Seq<char> {
    token + "."@ + b64url_of(thumbprint)
}

/// The key authorization of a challenge token, from the SHA-256 thumbprint of
/// the account key (the digest of its canonical JSON Web Key).
pub fn key_authorization(token: &str, thumbprint: &[u8]) -> (r: String)
    ensures
        r@ == key_authorization_text(token@, thumbprint@),
{
    let mut r = token.to_string();
    r.append(".");
    let t = b64url_encode(thumbprint);
    r.append(t.as_str());
    r
}

} // verus!
