use vstd::prelude::*;

use crate::text::{
    ascii_lower, text_eq, to_ascii_lower, trim_slashes, trim_slashes_of, trim_start_slashes,
    trim_start_slashes_of,
};

verus! {

/// The settings of the signed-exchange worker, as the operator writes them.
/// The header-name lists may hold a name more than once; `Config::new`
/// lowercases them and keeps each name once.
pub struct ConfigInput {
    pub cert_url_basename: String,
    pub forward_request_headers: Vec<String>,
    pub html_host: String,
    pub private_key_base64: String,
    pub strip_request_headers: Vec<String>,
    pub strip_response_headers: Vec<String>,
    pub reserved_path: String,
    pub respond_debug_info: bool,
    pub validity_url_basename: String,
    pub worker_host: String,
}

/// The worker settings together with the values computed from them.
pub struct Config {
    pub input: ConfigInput,
    pub cert_der: Vec<u8>,
    pub cert_url: String,
    pub issuer_der: Vec<u8>,
    pub validity_url: String,
}

/// Why a worker configuration could not be built.
#[derive(Debug, PartialEq, Eq, Structural)]
pub enum ConfigError {
    /// The text is not a sequence of PEM blocks.
    MalformedPem,
    /// No PEM block carries the expected tag.
    MissingPemBlock,
    /// The text holds something other than exactly one certificate block.
    NotSingleCertificate,
}

/// The texts of a list of strings.
pub open spec fn views_of(v: Seq<String>) -> Seq<Seq<char>> {
    v.map_values(|s: String| s@)
}

/// Whether no text occurs twice in `s`.
pub open spec fn all_distinct(s: Seq<Seq<char>>) -> bool {
    forall|i: int, j: int| 0 <= i < j < s.len() ==> s[i] != s[j]
}

/// The lowercase header names: the lowercase of each name of `names`, each once.
pub open spec fn lowercase_set(names: Seq<Seq<char>>) -> Set<Seq<char>> {
    Set::new(|t: Seq<char>| exists|i: int| 0 <= i < names.len() && t == ascii_lower(names[i]))
}

/// `https://{host}/{reserved_path}/{basename}`, with the slashes around the
/// reserved path and in front of the basename removed.
pub open spec fn url_of(host: Seq<char>, reserved_path: Seq<char>, basename: Seq<char>) -> Seq<char> {
    "https://"@ + host + "/"@ + trim_slashes(reserved_path) + "/"@ + trim_start_slashes(basename)
}

/// The contents of the first block of `blocks` whose tag is `tag`.
pub open spec fn first_der(blocks: Seq<(Seq<char>, Seq<u8>)>, tag: Seq<char>) -> Option<Seq<u8>>
    decreases blocks.len(),
{
    if blocks.len() == 0 {
        None
    } else if blocks[0].0 == tag {
        Some(blocks[0].1)
    } else {
        first_der(blocks.drop_first(), tag)
    }
}

/// The tag and contents of each block of a list of PEM blocks.
pub open spec fn blocks_view(v: Seq<(String, Vec<u8>)>) -> Seq<(Seq<char>, Seq<u8>)> {
    v.map_values(|p: (String, Vec<u8>)| (p.0@, p.1@))
}

/// The blocks that the PEM parser reads from a text, each as tag and contents;
/// `None` where the text is not PEM.
pub uninterp spec fn pem_blocks_of(text: Seq<char>) -> Option<Seq<(Seq<char>, Seq<u8>)>>;

/// Relies on `pem::parse_many`: it returns the blocks of the text in order, or
/// an error.
#[verifier::external_body]
pub(crate) fn parse_pem_blocks(text: &str) -> (r: Option<Vec<(String, Vec<u8>)>>)
    ensures
        match r {
            Some(v) => pem_blocks_of(text@) == Some(blocks_view(v@)),
            None => pem_blocks_of(text@) is None,
        },
{
    pem::parse_many(text).ok().map(|v| v.into_iter().map(|p| (p.tag, p.contents)).collect())
}

/// Lowercases each header name and keeps each resulting name once, in the
/// order of first appearance.
pub fn lowercase_all(names: Vec<String>) -> (r: Vec<String>)
    ensures
        all_distinct(views_of(r@)),
        views_of(r@).to_set() == lowercase_set(views_of(names@)),
{
    let mut r: Vec<String> = Vec::new();
    let mut i: usize = 0;
    while i < names.len()
        invariant
            i <= names.len(),
            all_distinct(views_of(r@)),
            views_of(r@).to_set() == lowercase_set(views_of(names@.subrange(0, i as int))),
        decreases names.len() - i,
    {
        let lower = to_ascii_lower(names[i].as_str());
        let mut found = false;
        let mut j: usize = 0;
        while j < r.len()
            invariant
                j <= r.len(),
                all_distinct(views_of(r@)),
                found ==> views_of(r@).contains(lower@),
                !found ==> forall|k: int| 0 <= k < j ==> r@[k]@ != lower@,
            decreases r.len() - j,
        {
            if !found && text_eq(r[j].as_str(), lower.as_str()) {
                found = true;
                assert(views_of(r@)[j as int] == lower@);
            }
            j = j + 1;
        }
        let ghost before = views_of(r@);
        assert(!found ==> forall|k: int| 0 <= k < before.len() ==> before[k] != lower@);
        let ghost prefix = views_of(names@.subrange(0, i as int));
        let ghost next = views_of(names@.subrange(0, i + 1));
        if !found {
            r.push(lower);
        }
        proof {
            assert(next =~= prefix.push(names@[i as int]@));
            assert forall|t: Seq<char>| #[trigger] lowercase_set(next).contains(t) == views_of(r@).to_set().contains(t) by {
                if lowercase_set(next).contains(t) {
                    let k = choose|k: int| 0 <= k < next.len() && t == ascii_lower(next[k]);
                    if k < prefix.len() {
                        assert(lowercase_set(prefix).contains(t));
                        assert(before.to_set().contains(t));
                        let m = choose|m: int| 0 <= m < before.len() && before[m] == t;
                        assert(views_of(r@)[m] == t);
                    } else {
                        if found {
                            let m = choose|m: int| 0 <= m < before.len() && before[m] == lower@;
                            assert(views_of(r@)[m] == t);
                        } else {
                            assert(views_of(r@)[before.len() as int] == t);
                        }
                    }
                }
                if views_of(r@).to_set().contains(t) {
                    let m = choose|m: int| 0 <= m < views_of(r@).len() && views_of(r@)[m] == t;
                    if m < before.len() {
                        assert(before.to_set().contains(before[m]));
                        assert(lowercase_set(prefix).contains(t));
                        let k = choose|k: int| 0 <= k < prefix.len() && t == ascii_lower(prefix[k]);
                        assert(next[k] == prefix[k]);
                    } else {
                        assert(t == ascii_lower(next[i as int]));
                    }
                }
            }
            assert(lowercase_set(next) =~= views_of(r@).to_set());
            if !found {
                assert forall|a: int, b: int| 0 <= a < b < views_of(r@).len() implies
                    views_of(r@)[a] != views_of(r@)[b] by {
                    if b == before.len() {
                        assert(views_of(r@)[b] == lower@);
                        assert(views_of(r@)[a] == before[a]);
                        assert(before[a] != lower@);
                    } else {
                        assert(before[a] == views_of(r@)[a]);
                        assert(before[b] == views_of(r@)[b]);
                    }
                }
            }
        }
        i = i + 1;
    }
    assert(names@.subrange(0, names.len() as int) =~= names@);
    r
}

/// Builds `https://{host}/{reserved_path}/{basename}`, dropping the slashes
/// around `reserved_path` and in front of `basename`.
pub fn create_url(host: &str, reserved_path: &str, basename: &str) -> (r: String)
    requires
        reserved_path@.len() < usize::MAX,
        basename@.len() < usize::MAX,
    ensures
        r@ == url_of(host@, reserved_path@, basename@),
{
    let reserved_path = trim_slashes_of(reserved_path);
    let basename = trim_start_slashes_of(basename);
    let mut r = String::from_str("https://");
    r.append(host);
    r.append("/");
    r.append(reserved_path);
    r.append("/");
    r.append(basename);
    r
}

/// The contents of the first block whose tag is `expected_tag`.
pub fn find_der(blocks: &Vec<(String, Vec<u8>)>, expected_tag: &str) -> (r: Option<Vec<u8>>)
    ensures
        match r {
            Some(d) => first_der(blocks_view(blocks@), expected_tag@) == Some(d@),
            None => first_der(blocks_view(blocks@), expected_tag@) is None,
        },
{
    let mut i: usize = 0;
    assert(blocks_view(blocks@).subrange(0, blocks.len() as int) =~= blocks_view(blocks@));
    while i < blocks.len()
        invariant
            i <= blocks.len(),
            first_der(blocks_view(blocks@), expected_tag@) == first_der(
                blocks_view(blocks@).subrange(i as int, blocks.len() as int),
                expected_tag@,
            ),
        decreases blocks.len() - i,
    {
        let ghost rest = blocks_view(blocks@).subrange(i as int, blocks.len() as int);
        if text_eq(blocks[i].0.as_str(), expected_tag) {
            return Some(blocks[i].1.clone());
        }
        assert(rest.drop_first() =~= blocks_view(blocks@).subrange(i + 1, blocks.len() as int));
        i = i + 1;
    }
    None
}

/// Whether `pem_text` is PEM with a block whose tag is exactly `tag`.
pub open spec fn has_pem_block(pem_text: Seq<char>, tag: Seq<char>) -> bool {
    pem_blocks_of(pem_text) matches Some(b) && first_der(b, tag) is Some
}

/// The contents of the first PEM block of `pem_text` whose tag is exactly
/// `expected_tag`. Such a block must be there: `try_get_der` tests for it.
pub fn get_der(pem_text: &str, expected_tag: &str) -> (r: Vec<u8>)
    requires
        has_pem_block(pem_text@, expected_tag@),
    ensures
        pem_blocks_of(pem_text@) matches Some(b) && first_der(b, expected_tag@) == Some(r@),
{
    match parse_pem_blocks(pem_text) {
        Some(blocks) => match find_der(&blocks, expected_tag) {
            Some(d) => d,
            None => Vec::new(),
        },
        None => Vec::new(),
    }
}

/// The contents of the first PEM block of `pem_text` whose tag is exactly
/// `expected_tag`, or the error: `MalformedPem` for a text that is not PEM,
/// `MissingPemBlock` where no block has the tag.
pub fn try_get_der(pem_text: &str, expected_tag: &str) -> (r: Result<Vec<u8>, ConfigError>)
    ensures
        match pem_blocks_of(pem_text@) {
            None => r == Err::<Vec<u8>, ConfigError>(ConfigError::MalformedPem),
            Some(b) => match first_der(b, expected_tag@) {
                Some(d) => r is Ok && r->Ok_0@ == d,
                None => r == Err::<Vec<u8>, ConfigError>(ConfigError::MissingPemBlock),
            },
        },
{
    match parse_pem_blocks(pem_text) {
        None => Err(ConfigError::MalformedPem),
        Some(blocks) => match find_der(&blocks, expected_tag) {
            Some(_) => Ok(get_der(pem_text, expected_tag)),
            None => Err(ConfigError::MissingPemBlock),
        },
    }
}

/// Whether the settings' texts fit the machine's lengths.
pub open spec fn input_fits(input: &ConfigInput) -> bool {
    &&& input.reserved_path@.len() < usize::MAX
    &&& input.cert_url_basename@.len() < usize::MAX
    &&& input.validity_url_basename@.len() < usize::MAX
}

/// Whether `c` is the configuration built from `input` and the two PEM texts.
pub open spec fn built_from(c: Config, input: ConfigInput, cert_pem: Seq<char>, issuer_pem: Seq<char>) -> bool {
    &&& pem_blocks_of(cert_pem) matches Some(b) && first_der(b, "CERTIFICATE"@) == Some(c.cert_der@)
    &&& pem_blocks_of(issuer_pem) matches Some(b) && first_der(b, "CERTIFICATE"@) == Some(c.issuer_der@)
    &&& c.cert_url@ == url_of(input.worker_host@, input.reserved_path@, input.cert_url_basename@)
    &&& c.validity_url@ == url_of(input.html_host@, input.reserved_path@, input.validity_url_basename@)
    &&& views_of(c.input.forward_request_headers@).to_set() == lowercase_set(views_of(input.forward_request_headers@))
    &&& views_of(c.input.strip_request_headers@).to_set() == lowercase_set(views_of(input.strip_request_headers@))
    &&& views_of(c.input.strip_response_headers@).to_set() == lowercase_set(views_of(input.strip_response_headers@))
    &&& all_distinct(views_of(c.input.forward_request_headers@))
    &&& all_distinct(views_of(c.input.strip_request_headers@))
    &&& all_distinct(views_of(c.input.strip_response_headers@))
    &&& c.input.cert_url_basename == input.cert_url_basename
    &&& c.input.html_host == input.html_host
    &&& c.input.private_key_base64 == input.private_key_base64
    &&& c.input.reserved_path == input.reserved_path
    &&& c.input.respond_debug_info == input.respond_debug_info
    &&& c.input.validity_url_basename == input.validity_url_basename
    &&& c.input.worker_host == input.worker_host
}

impl Config {
    /// Builds the configuration: the header names lowercased, both URLs
    /// computed, and the certificate and issuer read from their PEM texts,
    /// each of which must hold a `CERTIFICATE` block (`try_new` tests for it).
    pub fn new(input: ConfigInput, cert_pem: &str, issuer_pem: &str) -> (r: Config)
        requires
            input_fits(&input),
            has_pem_block(cert_pem@, "CERTIFICATE"@),
            has_pem_block(issuer_pem@, "CERTIFICATE"@),
        ensures
            built_from(r, input, cert_pem@, issuer_pem@),
    {
        let cert_der = get_der(cert_pem, "CERTIFICATE");
        let issuer_der = get_der(issuer_pem, "CERTIFICATE");
        let cert_url = create_url(input.worker_host.as_str(), input.reserved_path.as_str(), input.cert_url_basename.as_str());
        let validity_url = create_url(input.html_host.as_str(), input.reserved_path.as_str(), input.validity_url_basename.as_str());
        let ConfigInput {
            cert_url_basename,
            forward_request_headers,
            html_host,
            private_key_base64,
            strip_request_headers,
            strip_response_headers,
            reserved_path,
            respond_debug_info,
            validity_url_basename,
            worker_host,
        } = input;
        Config {
            input: ConfigInput {
                cert_url_basename,
                forward_request_headers: lowercase_all(forward_request_headers),
                html_host,
                private_key_base64,
                strip_request_headers: lowercase_all(strip_request_headers),
                strip_response_headers: lowercase_all(strip_response_headers),
                reserved_path,
                respond_debug_info,
                validity_url_basename,
                worker_host,
            },
            cert_der,
            cert_url,
            issuer_der,
            validity_url,
        }
    }

    /// Builds the configuration as `new` does where both PEM texts hold a
    /// `CERTIFICATE` block, and otherwise returns the error of the first text
    /// that does not, as `try_get_der` names it.
    pub fn try_new(input: ConfigInput, cert_pem: &str, issuer_pem: &str) -> (r: Result<Config, ConfigError>)
        requires
            input_fits(&input),
        ensures
            match r {
                Ok(c) => built_from(c, input, cert_pem@, issuer_pem@),
                Err(e) => {
                    ||| pem_blocks_of(cert_pem@) is None && e == ConfigError::MalformedPem
                    ||| pem_blocks_of(cert_pem@) matches Some(b) && first_der(b, "CERTIFICATE"@) is None && e == ConfigError::MissingPemBlock
                    ||| has_pem_block(cert_pem@, "CERTIFICATE"@) && pem_blocks_of(issuer_pem@) is None && e == ConfigError::MalformedPem
                    ||| has_pem_block(cert_pem@, "CERTIFICATE"@) && (pem_blocks_of(issuer_pem@) matches Some(b) && first_der(b, "CERTIFICATE"@) is None && e == ConfigError::MissingPemBlock)
                },
            },
            r is Ok <==> has_pem_block(cert_pem@, "CERTIFICATE"@) && has_pem_block(issuer_pem@, "CERTIFICATE"@),
    {
        try_get_der(cert_pem, "CERTIFICATE")?;
        try_get_der(issuer_pem, "CERTIFICATE")?;
        Ok(Config::new(input, cert_pem, issuer_pem))
    }

    /// The settings that this configuration was built from.
    pub fn input(&self) -> (r: &ConfigInput)
        ensures
            r == &self.input,
    {
        &self.input
    }
}

} // verus!
