use vstd::prelude::*;

use crate::account::Account;
use crate::config::{parse_pem_blocks, pem_blocks_of, ConfigError, ConfigInput};
use crate::text::text_eq;

verus! {

/// The options of the configuration generator.
pub struct Opts {
    /// A YAML file holding all configuration values.
    pub input: String,
    /// A YAML file holding the generated values.
    pub artifact: String,
    /// No longer log in to worker service providers.
    pub use_ci_mode: bool,
}

/// The operator's input to the configuration generator.
pub struct Config {
    pub sxg_worker: ConfigInput,
    pub certificates: SxgCertConfig,
}

/// Where the signed-exchange certificate comes from.
pub enum SxgCertConfig {
    /// Files of a certificate and its issuer, issued beforehand.
    PreIssued { cert_file: String, issuer_file: String },
    /// An account to create at a certificate authority.
    CreateAcmeAccount(AcmeConfig),
}

/// The settings of account creation at a certificate authority.
pub struct AcmeConfig {
    pub server_url: String,
    pub contact_email: String,
    pub agreed_terms_of_service: String,
    pub sxg_cert_request_file: String,
    pub eab: Option<EabConfig>,
}

/// An external account binding key, its MAC key in base64.
pub struct EabConfig {
    pub base64_mac_key: String,
    pub key_id: String,
}

/// What the generator keeps between runs.
pub struct Artifact {
    pub acme_account: Option<Account>,
    pub acme_private_key_instruction: Option<String>,
    pub cloudflare_kv_namespace_id: Option<String>,
}

impl Default for Artifact {
    fn default() -> (r: Artifact)
        ensures
            r.acme_account is None,
            r.acme_private_key_instruction is None,
            r.cloudflare_kv_namespace_id is None,
    {
        Artifact { acme_account: None, acme_private_key_instruction: None, cloudflare_kv_namespace_id: None }
    }
}

/// `s` with each carriage return that precedes a line feed removed.
pub open spec fn crlf_to_lf(s: Seq<char>) -> Seq<char>
    decreases s.len(),
{
    if s.len() == 0 {
        s
    } else if s.len() >= 2 && s[0] == '\r' && s[1] == '\n' {
        seq!['\n'] + crlf_to_lf(s.subrange(2, s.len() as int))
    } else {
        seq![s[0]] + crlf_to_lf(s.drop_first())
    }
}

/// Translates Windows line endings to Unix ones.
pub fn unix_line_endings(s: &str) -> (r: String)
    requires
        s@.len() < usize::MAX,
    ensures
        r@ == crlf_to_lf(s@),
{
    let n = s.unicode_len();
    let mut r = String::new();
    let mut i: usize = 0;
    assert(s@.subrange(0, n as int) =~= s@);
    while i < n
        invariant
            n == s@.len(),
            n < usize::MAX,
            i <= n,
            crlf_to_lf(s@) == r@ + crlf_to_lf(s@.subrange(i as int, n as int)),
        decreases n - i,
    {
        let ghost rest = s@.subrange(i as int, n as int);
        if i + 1 < n && s.get_char(i) == '\r' && s.get_char(i + 1) == '\n' {
            r.append("\n");
            proof {
                reveal_strlit("\n");
                assert(rest.subrange(2, rest.len() as int) =~= s@.subrange(i + 2, n as int));
                assert(r@ + crlf_to_lf(s@.subrange(i + 2, n as int)) =~= (r@.drop_last() + seq!['\n'])
                    + crlf_to_lf(s@.subrange(i + 2, n as int)));
            }
            i = i + 2;
        } else {
            r.append(s.substring_char(i, i + 1));
            proof {
                assert(rest.drop_first() =~= s@.subrange(i + 1, n as int));
                assert(s@.subrange(i as int, i + 1) =~= seq![rest[0]]);
            }
            i = i + 1;
        }
    }
    r
}

/// Whether PEM blocks are exactly one certificate.
pub open spec fn single_certificate(blocks: Seq<(Seq<char>, Seq<u8>)>) -> bool {
    blocks.len() == 1 && blocks[0].0 == "CERTIFICATE"@
}

/// Checks the text of a certificate file: with Unix line endings it must be
/// exactly one certificate PEM block. Returns that text.
pub fn check_certificate_pem(text: &str) -> (r: Result<String, ConfigError>)
    requires
        text@.len() < usize::MAX,
    ensures
        match pem_blocks_of(crlf_to_lf(text@)) {
            None => r == Err::<String, ConfigError>(ConfigError::MalformedPem),
            Some(b) => if single_certificate(b) {
                r matches Ok(t) && t@ == crlf_to_lf(text@)
            } else {
                r == Err::<String, ConfigError>(ConfigError::NotSingleCertificate)
            },
        },
{
    let text = unix_line_endings(text);
    match parse_pem_blocks(text.as_str()) {
        None => Err(ConfigError::MalformedPem),
        Some(blocks) => {
            if blocks.len() == 1 && text_eq(blocks[0].0.as_str(), "CERTIFICATE") {
                Ok(text)
            } else {
                Err(ConfigError::NotSingleCertificate)
            }
        },
    }
}

} // verus!
