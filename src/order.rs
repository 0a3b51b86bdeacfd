use vstd::prelude::*;

use crate::error::AcmeError;
use crate::jws::{key_authorization, key_authorization_text, thumbprint_of, EcPublicKey};
use crate::text::text_eq;

verus! {

/// The status of an order.
#[derive(Debug, Clone, Copy, PartialEq, Eq, Structural)]
pub enum OrderStatus {
    Pending,
    Ready,
    Processing,
    Valid,
    Invalid,
}

/// The status of an authorization.
#[derive(Debug, Clone, Copy, PartialEq, Eq, Structural)]
pub enum AuthorizationStatus {
    Pending,
    Valid,
    Invalid,
}

/// The HTTP challenge of an authorization.
#[derive(Debug)]
pub struct Challenge {
    pub url: String,
    pub token: String,
}

/// One authorization of an order, as far as it is known.
#[derive(Debug)]
pub struct Authorization {
    pub url: String,
    pub status: AuthorizationStatus,
    /// The HTTP challenge, once the authorization has been fetched.
    pub challenge: Option<Challenge>,
    /// Whether the client has told the server to check the challenge.
    pub challenge_accepted: bool,
}

/// An order, as far as it is known, with the certificates downloaded so far.
#[derive(Debug)]
pub struct Order {
    pub url: String,
    pub status: OrderStatus,
    pub authorizations: Vec<Authorization>,
    pub finalize_url: String,
    pub certificate_url: Option<String>,
    /// Whether the finalize request has been sent.
    pub finalize_sent: bool,
    pub certificates: Vec<String>,
    /// The reason that the server gave for an `invalid` order.
    pub error: Option<String>,
}

/// The request that the caller is to send next.
#[derive(Debug)]
pub enum Action {
    /// Fetch the authorization at this URL (an empty-payload signed request):
    /// for its challenge, or, once the challenge was accepted, for its new
    /// status (after a wait).
    FetchAuthorization(String),
    /// Tell the server to check the challenge at this URL (payload `{}`).
    AcceptChallenge(String),
    /// Send the certificate signing request to this finalize URL.
    Finalize(String),
    /// Download the certificate at this URL (an empty-payload signed request).
    DownloadCertificate(String),
    /// Wait, then fetch the order at this URL for its new status.
    PollOrder(String),
    /// The certificate is there; nothing is left to do.
    Done,
}

/// What an authorization is to the state machine.
pub struct AuthModel {
    pub status: AuthorizationStatus,
    pub has_challenge: bool,
    pub accepted: bool,
}

/// What an order is to the state machine.
pub struct OrderModel {
    pub status: OrderStatus,
    pub auths: Seq<AuthModel>,
    pub finalize_sent: bool,
    pub has_certificate_url: bool,
    pub n_certificates: nat,
}

/// The kind of step that the state machine takes.
pub enum Step {
    Fetch(int),
    Accept(int),
    Finalize,
    Download,
    Poll,
    Done,
    Fail,
}

/// Whether the authorization's challenge is known and has this token.
pub open spec fn has_token(a: Authorization, token: String) -> bool {
    a.challenge matches Some(c) && c.token == token
}

pub open spec fn auth_model(a: Authorization) -> AuthModel {
    AuthModel { status: a.status, has_challenge: a.challenge is Some, accepted: a.challenge_accepted }
}

/// Whether the authorization is still pending: its challenge is to be
/// accepted, or its new status is to be fetched.
pub open spec fn is_open(a: AuthModel) -> bool {
    a.status == AuthorizationStatus::Pending
}

/// The first authorization at or after `i` that is still pending.
pub open spec fn first_open_from(auths: Seq<AuthModel>, i: int) -> Option<int>
    decreases auths.len() - i,
{
    if i < 0 || i >= auths.len() {
        None
    } else if is_open(auths[i]) {
        Some(i)
    } else {
        first_open_from(auths, i + 1)
    }
}

/// One step of the state machine: the order after it and what was done.
pub open spec fn step(m: OrderModel) -> (OrderModel, Step) {
    match m.status {
        OrderStatus::Pending => match first_open_from(m.auths, 0) {
            Some(i) => if m.auths[i].has_challenge && !m.auths[i].accepted {
                (
                    OrderModel {
                        auths: m.auths.update(
                            i,
                            AuthModel { accepted: true, ..m.auths[i] },
                        ),
                        ..m
                    },
                    Step::Accept(i),
                )
            } else {
                (m, Step::Fetch(i))
            },
            None => (m, Step::Poll),
        },
        OrderStatus::Ready => if !m.finalize_sent {
            (OrderModel { finalize_sent: true, ..m }, Step::Finalize)
        } else {
            (m, Step::Poll)
        },
        OrderStatus::Processing => (m, Step::Poll),
        OrderStatus::Valid => if m.n_certificates > 0 {
            (m, Step::Done)
        } else if m.has_certificate_url {
            (m, Step::Download)
        } else {
            (m, Step::Poll)
        },
        OrderStatus::Invalid => (m, Step::Fail),
    }
}

/// Driving the state machine twice with no news from the server in between
/// sends no second finalize request, and while the order is `processing` it
/// changes nothing and only polls.
pub proof fn lemma_update_idempotent(m: OrderModel)
    ensures
        !(step(step(m).0).1 is Finalize),
        m.status == OrderStatus::Processing ==> step(m).0 == m && step(m).1 is Poll,
        step(m).0.status == m.status,
        step(m).0.n_certificates == m.n_certificates,
{
}

/// When none from the `i`-th to before the `k`-th is pending, the search may start at the `k`-th.
proof fn lemma_first_open_from(auths: Seq<AuthModel>, i: int, k: int)
    requires
        0 <= i <= k <= auths.len(),
        forall|j: int| i <= j < k ==> !is_open(auths[j]),
    ensures
        first_open_from(auths, i) == first_open_from(auths, k),
    decreases k - i,
{
    if i < k {
        lemma_first_open_from(auths, i + 1, k);
    }
}

impl Order {
    /// What the order is to the state machine.
    pub open spec fn model(self) -> OrderModel {
        OrderModel {
            status: self.status,
            auths: self.authorizations@.map_values(|a: Authorization| auth_model(a)),
            finalize_sent: self.finalize_sent,
            has_certificate_url: self.certificate_url is Some,
            n_certificates: self.certificates@.len(),
        }
    }

    /// A new order at `url`, `pending`, with its authorizations not yet
    /// fetched.
    pub fn new(url: String, authorization_urls: Vec<String>, finalize_url: String) -> (r: Order)
        ensures
            r.url == url,
            r.finalize_url == finalize_url,
            r.status == OrderStatus::Pending,
            r.authorizations@.len() == authorization_urls@.len(),
            forall|k: int| 0 <= k < authorization_urls@.len() ==> {
                &&& (#[trigger] r.authorizations@[k]).url == authorization_urls@[k]
                &&& r.authorizations@[k].status == AuthorizationStatus::Pending
                &&& r.authorizations@[k].challenge is None
                &&& !r.authorizations@[k].challenge_accepted
            },
            r.certificate_url is None,
            !r.finalize_sent,
            r.certificates@.len() == 0,
            r.error is None,
    {
        let mut authorizations: Vec<Authorization> = Vec::new();
        let mut urls = authorization_urls;
        let ghost all = urls@;
        let mut i: usize = 0;
        let n = urls.len();
        // Take the URLs out from the back and put them in front-first order.
        let mut rev: Vec<String> = Vec::new();
        while urls.len() > 0
            invariant
                urls@.len() + rev@.len() == n,
                n == all.len(),
                urls@ == all.subrange(0, urls@.len() as int),
                forall|k: int| 0 <= k < rev@.len() ==> rev@[k] == all[n - 1 - k],
            decreases urls.len(),
        {
            let u = urls.pop().unwrap();
            rev.push(u);
        }
        while rev.len() > 0
            invariant
                i as int + rev@.len() == n,
                n == all.len(),
                authorizations@.len() == i,
                forall|k: int| 0 <= k < rev@.len() ==> rev@[k] == all[n - 1 - k],
                forall|k: int| 0 <= k < i ==> {
                    &&& (#[trigger] authorizations@[k]).url == all[k]
                    &&& authorizations@[k].status == AuthorizationStatus::Pending
                    &&& authorizations@[k].challenge is None
                    &&& !authorizations@[k].challenge_accepted
                },
            decreases rev.len(),
        {
            let u = rev.pop().unwrap();
            authorizations.push(
                Authorization {
                    url: u,
                    status: AuthorizationStatus::Pending,
                    challenge: None,
                    challenge_accepted: false,
                },
            );
            i = i + 1;
        }
        Order {
            url,
            status: OrderStatus::Pending,
            authorizations,
            finalize_url,
            certificate_url: None,
            finalize_sent: false,
            certificates: Vec::new(),
            error: None,
        }
    }

    /// The index of the first authorization that is still pending.
    fn first_open(&self) -> (r: Option<usize>)
        ensures
            match r {
                Some(i) => i < self.authorizations@.len() && first_open_from(self.model().auths, 0) == Some(i as int),
                None => first_open_from(self.model().auths, 0) is None,
            },
    {
        let ghost auths = self.model().auths;
        let mut i: usize = 0;
        while i < self.authorizations.len()
            invariant
                auths == self.model().auths,
                auths.len() == self.authorizations@.len(),
                i <= auths.len(),
                forall|j: int| 0 <= j < i ==> !is_open(auths[j]),
            decreases self.authorizations.len() - i,
        {
            let a = &self.authorizations[i];
            if a.status == AuthorizationStatus::Pending {
                proof {
                    lemma_first_open_from(auths, 0, i as int);
                }
                assert(auths[i as int] == auth_model(self.authorizations@[i as int]));
                return Some(i);
            }
            assert(auths[i as int] == auth_model(self.authorizations@[i as int]));
            i = i + 1;
        }
        proof {
            lemma_first_open_from(auths, 0, i as int);
        }
        None
    }

    /// Takes one step: decides, from the freshest known state, the request
    /// that the caller is to send next, and records it. An `invalid` order is
    /// an order-failed error with the server's reason.
    pub fn update_state(&mut self) -> (r: Result<Action, AcmeError>)
        ensures
            final(self).model() == step(old(self).model()).0,
            final(self).url == old(self).url,
            final(self).finalize_url == old(self).finalize_url,
            final(self).certificate_url == old(self).certificate_url,
            final(self).certificates == old(self).certificates,
            final(self).error == old(self).error,
            final(self).authorizations@.len() == old(self).authorizations@.len(),
            forall|k: int| 0 <= k < old(self).authorizations@.len() ==> {
                &&& (#[trigger] final(self).authorizations@[k]).url == old(self).authorizations@[k].url
                &&& final(self).authorizations@[k].challenge == old(self).authorizations@[k].challenge
            },
            match step(old(self).model()).1 {
                Step::Fetch(i) => r matches Ok(Action::FetchAuthorization(u)) && u == old(self).authorizations@[i].url,
                Step::Accept(i) => r matches Ok(Action::AcceptChallenge(u))
                    && old(self).authorizations@[i].challenge matches Some(c) && u == c.url,
                Step::Finalize => r matches Ok(Action::Finalize(u)) && u == old(self).finalize_url,
                Step::Download => r matches Ok(Action::DownloadCertificate(u))
                    && old(self).certificate_url == Some(u),
                Step::Poll => r matches Ok(Action::PollOrder(u)) && u == old(self).url,
                Step::Done => r matches Ok(Action::Done),
                Step::Fail => r matches Err(AcmeError::OrderFailed(_)),
            },
    {
        let ghost m = self.model();
        match self.status {
            OrderStatus::Pending => match self.first_open() {
                Some(i) => {
                    assert(m.auths[i as int] == auth_model(self.authorizations@[i as int]));
                    let ghost before = self.authorizations@;
                    let mut a = self.authorizations.remove(i);
                    let accepted = a.challenge_accepted;
                    match &a.challenge {
                        Some(c) if !accepted => {
                            let u = c.url.clone();
                            a.challenge_accepted = true;
                            self.authorizations.insert(i, a);
                            proof {
                                assert(self.authorizations@ =~= before.update(i as int, self.authorizations@[i as int]));
                                assert(self.model().auths =~= step(m).0.auths);
                            }
                            Ok(Action::AcceptChallenge(u))
                        },
                        _ => {
                            let u = a.url.clone();
                            self.authorizations.insert(i, a);
                            assert(self.authorizations@ =~= before);
                            Ok(Action::FetchAuthorization(u))
                        },
                    }
                },
                None => Ok(Action::PollOrder(self.url.clone())),
            },
            OrderStatus::Ready => {
                if !self.finalize_sent {
                    self.finalize_sent = true;
                    Ok(Action::Finalize(self.finalize_url.clone()))
                } else {
                    Ok(Action::PollOrder(self.url.clone()))
                }
            },
            OrderStatus::Processing => Ok(Action::PollOrder(self.url.clone())),
            OrderStatus::Valid => {
                if self.certificates.len() > 0 {
                    Ok(Action::Done)
                } else {
                    match &self.certificate_url {
                        Some(u) => Ok(Action::DownloadCertificate(u.clone())),
                        None => Ok(Action::PollOrder(self.url.clone())),
                    }
                }
            },
            OrderStatus::Invalid => {
                let reason = match &self.error {
                    Some(e) => e.clone(),
                    None => String::from_str("the order is invalid"),
                };
                Err(AcmeError::OrderFailed(reason))
            },
        }
    }

    /// Records what the server answered for the order: its status, the
    /// certificate URL once there is one, and the reason of a failure.
    pub fn record_order(&mut self, status: OrderStatus, certificate_url: Option<String>, error: Option<String>)
        ensures
            final(self).status == status,
            final(self).certificate_url == certificate_url,
            final(self).error == error,
            final(self).url == old(self).url,
            final(self).finalize_url == old(self).finalize_url,
            final(self).authorizations == old(self).authorizations,
            final(self).finalize_sent == old(self).finalize_sent,
            final(self).certificates == old(self).certificates,
    {
        self.status = status;
        self.certificate_url = certificate_url;
        self.error = error;
    }

    /// Records what the server answered for the `index`-th authorization: its
    /// status and its HTTP challenge.
    pub fn record_authorization(&mut self, index: usize, status: AuthorizationStatus, challenge: Option<Challenge>)
        requires
            index < old(self).authorizations@.len(),
        ensures
            final(self).authorizations@.len() == old(self).authorizations@.len(),
            final(self).authorizations@[index as int].url == old(self).authorizations@[index as int].url,
            final(self).authorizations@[index as int].status == status,
            final(self).authorizations@[index as int].challenge == challenge,
            final(self).authorizations@[index as int].challenge_accepted == old(self).authorizations@[index as int].challenge_accepted,
            forall|k: int| 0 <= k < old(self).authorizations@.len() && k != index ==>
                #[trigger] final(self).authorizations@[k] == old(self).authorizations@[k],
            final(self).status == old(self).status,
            final(self).url == old(self).url,
            final(self).finalize_url == old(self).finalize_url,
            final(self).certificate_url == old(self).certificate_url,
            final(self).finalize_sent == old(self).finalize_sent,
            final(self).certificates == old(self).certificates,
            final(self).error == old(self).error,
    {
        let a = self.authorizations.remove(index);
        let Authorization { url, status: _, challenge: _, challenge_accepted } = a;
        self.authorizations.insert(index, Authorization { url, status, challenge, challenge_accepted });
    }

    /// Appends a downloaded certificate chain (PEM text).
    pub fn record_certificate(&mut self, pem: String)
        ensures
            final(self).certificates@ == old(self).certificates@.push(pem),
            final(self).status == old(self).status,
            final(self).url == old(self).url,
            final(self).finalize_url == old(self).finalize_url,
            final(self).certificate_url == old(self).certificate_url,
            final(self).authorizations == old(self).authorizations,
            final(self).finalize_sent == old(self).finalize_sent,
            final(self).error == old(self).error,
    {
        self.certificates.push(pem);
    }

    /// The order as currently known, with the certificates downloaded so far.
    pub fn read_current_state(&self) -> (r: &Order)
        ensures
            r == self,
    {
        self
    }

    /// The token of the first authorization whose challenge is known, with its
    /// key authorization: the token, a dot, and the base64 of the SHA-256
    /// thumbprint of the account key. `None` until a challenge is known.
    pub fn get_challenge_token_and_answer(&self, account_key: &EcPublicKey) -> (r: Option<(String, String)>)
        ensures
            r is None <==> forall|k: int| 0 <= k < self.authorizations@.len() ==> (#[trigger] self.authorizations@[k]).challenge is None,
            r matches Some((token, answer)) ==> {
                &&& exists|k: int| 0 <= k < self.authorizations@.len()
                    && has_token(#[trigger] self.authorizations@[k], token)
                    && forall|j: int| 0 <= j < k ==> (#[trigger] self.authorizations@[j]).challenge is None
                &&& answer@ == key_authorization_text(token@, thumbprint_of(account_key.x@, account_key.y@))
            },
    {
        let thumbprint = account_key.thumbprint();
        self.challenge_answer_with_thumbprint(thumbprint.as_slice())
    }

    /// The token of the first authorization whose challenge is known, with its
    /// key authorization computed from a given key thumbprint; `None` until a
    /// challenge is known.
    pub fn challenge_answer_with_thumbprint(&self, thumbprint: &[u8]) -> (r: Option<(String, String)>)
        ensures
            r is None <==> forall|k: int| 0 <= k < self.authorizations@.len() ==> (#[trigger] self.authorizations@[k]).challenge is None,
            r matches Some((token, answer)) ==> {
                &&& exists|k: int| 0 <= k < self.authorizations@.len()
                    && has_token(#[trigger] self.authorizations@[k], token)
                    && forall|j: int| 0 <= j < k ==> (#[trigger] self.authorizations@[j]).challenge is None
                &&& answer@ == key_authorization_text(token@, thumbprint@)
            },
    {
        let mut i: usize = 0;
        while i < self.authorizations.len()
            invariant
                i <= self.authorizations@.len(),
                forall|j: int| 0 <= j < i ==> (#[trigger] self.authorizations@[j]).challenge is None,
            decreases self.authorizations.len() - i,
        {
            match &self.authorizations[i].challenge {
                Some(c) => {
                    let token = c.token.clone();
                    let answer = key_authorization(token.as_str(), thumbprint);
                    assert(has_token(self.authorizations@[i as int], token));
                    return Some((token, answer));
                },
                None => {},
            }
            i = i + 1;
        }
        None
    }
}

/// The order status that the server names by `s`; a name it does not
/// define counts as `invalid`.
pub open spec fn order_status_of(s: Seq<char>) -> OrderStatus {
    if s == "pending"@ {
        OrderStatus::Pending
    } else if s == "ready"@ {
        OrderStatus::Ready
    } else if s == "processing"@ {
        OrderStatus::Processing
    } else if s == "valid"@ {
        OrderStatus::Valid
    } else {
        OrderStatus::Invalid
    }
}

/// Reads an order status from the server's name for it.
pub fn order_status_from_text(s: &str) -> (r: OrderStatus)
    ensures
        r == order_status_of(s@),
{
    if text_eq(s, "pending") {
        OrderStatus::Pending
    } else if text_eq(s, "ready") {
        OrderStatus::Ready
    } else if text_eq(s, "processing") {
        OrderStatus::Processing
    } else if text_eq(s, "valid") {
        OrderStatus::Valid
    } else {
        OrderStatus::Invalid
    }
}

/// The authorization status that the server names by `s`: `deactivated`,
/// `expired`, `revoked` and unknown names count as `invalid`.
pub open spec fn authorization_status_of(s: Seq<char>) -> AuthorizationStatus {
    if s == "pending"@ {
        AuthorizationStatus::Pending
    } else if s == "valid"@ {
        AuthorizationStatus::Valid
    } else {
        AuthorizationStatus::Invalid
    }
}

/// Reads an authorization status from the server's name for it.
pub fn authorization_status_from_text(s: &str) -> (r: AuthorizationStatus)
    ensures
        r == authorization_status_of(s@),
{
    if text_eq(s, "pending") {
        AuthorizationStatus::Pending
    } else if text_eq(s, "valid") {
        AuthorizationStatus::Valid
    } else {
        AuthorizationStatus::Invalid
    }
}

/// Whether a challenge, given as type, URL and token, is of the HTTP type.
pub open spec fn is_http_challenge(c: (String, String, String)) -> bool {
    c.0@ == "http-01"@
}

/// Picks the first HTTP challenge of an authorization, from its challenges
/// given as type, URL and token.
pub fn select_http_challenge(challenges: Vec<(String, String, String)>) -> (r: Option<Challenge>)
    ensures
        r is None <==> forall|k: int| 0 <= k < challenges@.len() ==> !is_http_challenge(#[trigger] challenges@[k]),
        r matches Some(c) ==> exists|k: int|
            0 <= k < challenges@.len() && is_http_challenge(#[trigger] challenges@[k])
                && c.url == challenges@[k].1 && c.token == challenges@[k].2
                && forall|j: int| 0 <= j < k ==> !is_http_challenge(#[trigger] challenges@[j]),
{
    let ghost all = challenges@;
    let mut rest = challenges;
    let mut i: usize = 0;
    let n = rest.len();
    while i < n
        invariant
            n == all.len(),
            i <= n,
            rest@ == all,
            all == challenges@,
            forall|j: int| 0 <= j < i ==> !is_http_challenge(#[trigger] all[j]),
        decreases n - i,
    {
        if text_eq(rest[i].0.as_str(), "http-01") {
            let picked = rest.remove(i);
            assert(picked == all[i as int]);
            assert(is_http_challenge(all[i as int]));
            let (_, url, token) = picked;
            return Some(Challenge { url, token });
        }
        i = i + 1;
    }
    None
}

} // verus!
