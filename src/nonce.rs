use vstd::prelude::*;

use crate::config::{all_distinct, views_of};
use crate::text::text_eq;

verus! {

/// The anti-replay tokens of one session: the freshest one the server sent
/// and not yet spent, and every one already spent.
pub struct NonceSource {
    cached: Option<String>,
    used: Vec<String>,
}

/// What a nonce source holds: the cached nonce and the spent ones, in order.
pub struct NonceState {
    pub cached: Option<Seq<char>>,
    pub used: Seq<Seq<char>>,
}

/// Whether a nonce source is consistent: no nonce spent twice, and the cached
/// one not spent.
pub open spec fn nonce_state_wf(s: NonceState) -> bool {
    &&& all_distinct(s.used)
    &&& s.cached matches Some(n) ==> !s.used.contains(n)
}

/// The state after the server hands over `nonce`: it is cached unless it was
/// spent already.
pub open spec fn after_receive(s: NonceState, nonce: Seq<char>) -> NonceState {
    if s.used.contains(nonce) {
        s
    } else {
        NonceState { cached: Some(nonce), used: s.used }
    }
}

/// The nonce that the next request spends, and the state after.
pub open spec fn after_take(s: NonceState) -> (Option<Seq<char>>, NonceState) {
    match s.cached {
        Some(n) => (Some(n), NonceState { cached: None, used: s.used.push(n) }),
        None => (None, s),
    }
}

/// A consistent state stays consistent when a nonce comes in or is spent.
pub proof fn lemma_nonce_state_wf_kept(s: NonceState, nonce: Seq<char>)
    requires
        nonce_state_wf(s),
    ensures
        nonce_state_wf(after_receive(s, nonce)),
        nonce_state_wf(after_take(s).1),
{
    let t = after_take(s).1;
    if let Some(n) = s.cached {
        assert forall|i: int, j: int| 0 <= i < j < t.used.len() implies t.used[i] != t.used[j] by {
            if j == s.used.len() {
                assert(s.used[i] == t.used[i]);
            } else {
                assert(s.used[i] == t.used[i]);
                assert(s.used[j] == t.used[j]);
            }
        }
    }
}

/// Two requests never spend the same nonce: whatever the server hands over
/// between them, a nonce spent once is not handed out again.
pub proof fn lemma_nonce_not_reused(s: NonceState, between: Seq<Seq<char>>)
    requires
        nonce_state_wf(s),
        after_take(s).0 is Some,
    ensures
        ({
            let first = after_take(s).0->Some_0;
            let later = receive_all(after_take(s).1, between);
            &&& nonce_state_wf(later)
            &&& later.used.contains(first)
            &&& after_take(later).0 != Some(first)
        }),
    decreases between.len(),
{
    lemma_nonce_state_wf_kept(s, Seq::empty());
    let first = after_take(s).0->Some_0;
    let t = after_take(s).1;
    assert(t.used[t.used.len() - 1] == first);
    lemma_receive_all_keeps(after_take(s).1, between, first);
}

/// The state after the server hands over each nonce of `nonces` in turn.
pub open spec fn receive_all(s: NonceState, nonces: Seq<Seq<char>>) -> NonceState
    decreases nonces.len(),
{
    if nonces.len() == 0 {
        s
    } else {
        after_receive(receive_all(s, nonces.drop_last()), nonces.last())
    }
}

proof fn lemma_receive_all_keeps(s: NonceState, nonces: Seq<Seq<char>>, spent: Seq<char>)
    requires
        nonce_state_wf(s),
        s.used.contains(spent),
    ensures
        nonce_state_wf(receive_all(s, nonces)),
        receive_all(s, nonces).used == s.used,
        receive_all(s, nonces).cached != Some(spent),
    decreases nonces.len(),
{
    if nonces.len() > 0 {
        lemma_receive_all_keeps(s, nonces.drop_last(), spent);
        lemma_nonce_state_wf_kept(receive_all(s, nonces.drop_last()), nonces.last());
    }
}

impl NonceSource {
    /// What the source holds.
    pub closed spec fn state(&self) -> NonceState {
        NonceState {
            cached: match self.cached {
                Some(n) => Some(n@),
                None => None,
            },
            used: views_of(self.used@),
        }
    }

    /// A source with nothing cached and nothing spent.
    pub fn new() -> (r: NonceSource)
        ensures
            r.state().cached is None,
            r.state().used.len() == 0,
            nonce_state_wf(r.state()),
    {
        let r = NonceSource { cached: None, used: Vec::new() };
        assert(views_of(r.used@) =~= Seq::<Seq<char>>::empty());
        r
    }

    /// Whether a nonce is cached, so that a request needs no dedicated fetch.
    pub fn has_cached(&self) -> (r: bool)
        ensures
            r == (self.state().cached is Some),
    {
        self.cached.is_some()
    }

    /// Takes a nonce that the server sent (in a response header, or from the
    /// new-nonce endpoint). One already spent is ignored.
    pub fn receive(&mut self, nonce: String)
        requires
            nonce_state_wf(old(self).state()),
        ensures
            final(self).state() == after_receive(old(self).state(), nonce@),
            nonce_state_wf(final(self).state()),
    {
        proof {
            lemma_nonce_state_wf_kept(self.state(), nonce@);
        }
        let mut i: usize = 0;
        while i < self.used.len()
            invariant
                i <= self.used.len(),
                nonce_state_wf(self.state()),
                forall|k: int| 0 <= k < i ==> self.used@[k]@ != nonce@,
            decreases self.used.len() - i,
        {
            if text_eq(self.used[i].as_str(), nonce.as_str()) {
                assert(self.state().used[i as int] == nonce@);
                return;
            }
            i = i + 1;
        }
        assert(!self.state().used.contains(nonce@)) by {
            if self.state().used.contains(nonce@) {
                let k = choose|k: int| 0 <= k < self.state().used.len() && self.state().used[k] == nonce@;
                assert(self.used@[k]@ == nonce@);
            }
        }
        self.cached = Some(nonce);
    }

    /// Spends the cached nonce: it is handed out once and recorded as spent.
    /// `None` where nothing is cached: the caller fetches a fresh nonce first.
    pub fn take(&mut self) -> (r: Option<String>)
        requires
            nonce_state_wf(old(self).state()),
        ensures
            (match r { Some(n) => Some(n@), None => None }, final(self).state()) == after_take(old(self).state()),
            nonce_state_wf(final(self).state()),
    {
        proof {
            lemma_nonce_state_wf_kept(self.state(), Seq::empty());
        }
        match self.cached.take() {
            Some(n) => {
                let ghost before = self.used@;
                self.used.push(n.clone());
                assert(views_of(self.used@) =~= views_of(before).push(n@));
                Some(n)
            },
            None => None,
        }
    }
}

/// The problem type with which the server rejects a request for its nonce.
pub open spec fn bad_nonce_type() -> Seq<char> {
    "urn:ietf:params:acme:error:badNonce"@
}

/// Whether a request rejected with `problem_type` after `attempts` tries is
/// sent once more: only after the first try, and only for a bad nonce.
pub open spec fn retry_allowed(attempts: int, problem_type: Seq<char>) -> bool {
    attempts == 1 && problem_type == bad_nonce_type()
}

/// A request whose first try the server rejects for its nonce is sent exactly
/// once more, and that second try spends a nonce other than the first one,
/// whatever nonces the server hands over in between.
pub proof fn lemma_bad_nonce_retried_with_fresh_nonce(s: NonceState, between: Seq<Seq<char>>)
    requires
        nonce_state_wf(s),
        after_take(s).0 is Some,
    ensures
        retry_allowed(1, bad_nonce_type()),
        !retry_allowed(2, bad_nonce_type()),
        after_take(receive_all(after_take(s).1, between)).0 != after_take(s).0,
{
    lemma_nonce_not_reused(s, between);
}

/// Whether a request that the server rejected with `problem_type`, after
/// `attempts` tries, is to be sent once more with a fresh nonce: only a bad
/// nonce is retried, and only once.
pub fn should_retry(attempts: u64, problem_type: &str) -> (r: bool)
    ensures
        r == retry_allowed(attempts as int, problem_type@),
{
    attempts == 1 && text_eq(problem_type, "urn:ietf:params:acme:error:badNonce")
}

} // verus!
