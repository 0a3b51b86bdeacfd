use vstd::prelude::*;

verus! {

/// The options of the certificate-issuance command.
pub struct Opts {
    /// The local port of the challenge responder.
    pub port: u16,
    /// The directory URL of the certificate authority.
    pub acme_server: String,
    pub email: String,
    pub domain: String,
    pub acme_account_private_key_file: String,
    pub sxg_private_key_file: String,
    pub sxg_cert_request_file: String,
    pub agreed_terms_of_service: String,
    pub eab_mac_key: Option<String>,
    pub eab_key_id: Option<String>,
}

} // verus!
