//! Pending link requests, keyed by an unguessable token, with lazy expiry.
//!
//! Tokens are drawn by the caller from a source of randomness and handed in;
//! time is handed in as seconds. Expiry is never written by a timer: a
//! request still marked `Pending` reads as `Expired` once its time is up.
use vstd::prelude::*;

verus! {

/// How long a pending request stays usable, in seconds.
pub const TTL_SECONDS: u64 = 600;

#[derive(Clone, Copy, Debug, PartialEq, Eq, Structural)]
pub enum RequestState {
    Pending,
    Completed,
    Expired,
    Cancelled,
}

/// One attempt of a chat user to link a wiki account.
#[derive(Clone, Copy, Debug, PartialEq, Eq, Structural)]
pub struct AuthRequest {
    pub token: u128,
    pub chat_user_id: u64,
    pub created_at: u64,
    pub state: RequestState,
}

/// Result of completing a request.
#[derive(Clone, Copy, Debug, PartialEq, Eq, Structural)]
pub enum CompleteOutcome {
    /// The request was pending and is now consumed; it belongs to this chat
    /// user.
    Completed(u64),
    AlreadyCompleted,
    Expired,
    NotFound,
}

#[derive(Clone, Copy, Debug, PartialEq, Eq, Structural)]
pub enum StartError {
    /// The freshly drawn token is already in use; draw another.
    TokenInUse,
}

/// Whether the time of a request is up at `now`.
pub open spec fn is_expired_at(r: AuthRequest, now: u64) -> bool {
    now as int > r.created_at as int + TTL_SECONDS as int
}

/// The request as it reads at `now`: a pending one whose time is up reads as
/// expired.
pub open spec fn effective(r: AuthRequest, now: u64) -> AuthRequest {
    if r.state == RequestState::Pending && is_expired_at(r, now) {
        AuthRequest { state: RequestState::Expired, ..r }
    } else {
        r
    }
}

pub open spec fn has_token(s: Seq<AuthRequest>, token: u128) -> bool {
    exists|i: int| 0 <= i < s.len() && #[trigger] s[i].token == token
}

pub open spec fn token_index(s: Seq<AuthRequest>, token: u128) -> int {
    choose|i: int| 0 <= i < s.len() && #[trigger] s[i].token == token
}

pub open spec fn is_pending_of(r: AuthRequest, chat_user_id: u64) -> bool {
    r.chat_user_id == chat_user_id && r.state == RequestState::Pending
}

pub open spec fn has_pending(s: Seq<AuthRequest>, chat_user_id: u64) -> bool {
    exists|i: int| 0 <= i < s.len() && #[trigger] is_pending_of(s[i], chat_user_id)
}

pub open spec fn pending_index(s: Seq<AuthRequest>, chat_user_id: u64) -> int {
    choose|i: int| 0 <= i < s.len() && #[trigger] is_pending_of(s[i], chat_user_id)
}

/// Tokens are unique, and each chat user has at most one stored pending
/// request.
pub open spec fn requests_wf(s: Seq<AuthRequest>) -> bool {
    &&& forall|i: int, j: int|
        0 <= i < s.len() && 0 <= j < s.len() && i != j ==> #[trigger] s[i].token
            != #[trigger] s[j].token
    &&& forall|i: int, j: int|
        0 <= i < s.len() && 0 <= j < s.len() && i != j && s[i].state == RequestState::Pending
            && s[j].state == RequestState::Pending ==> #[trigger] s[i].chat_user_id
            != #[trigger] s[j].chat_user_id
}

/// What a lookup of a token returns at `now`; `None` when it is unknown.
pub open spec fn spec_lookup_token(s: Seq<AuthRequest>, token: u128, now: u64) -> Option<
    AuthRequest,
> {
    if has_token(s, token) {
        Some(effective(s[token_index(s, token)], now))
    } else {
        None
    }
}

/// What completing a token at `now` does: only a pending request whose time
/// is not up is consumed.
pub open spec fn spec_complete(s: Seq<AuthRequest>, token: u128, now: u64) -> (
    Seq<AuthRequest>,
    CompleteOutcome,
) {
    if !has_token(s, token) {
        (s, CompleteOutcome::NotFound)
    } else {
        let i = token_index(s, token);
        let r = s[i];
        match r.state {
            RequestState::Pending => if is_expired_at(r, now) {
                (s, CompleteOutcome::Expired)
            } else {
                (
                    s.update(i, AuthRequest { state: RequestState::Completed, ..r }),
                    CompleteOutcome::Completed(r.chat_user_id),
                )
            },
            RequestState::Completed => (s, CompleteOutcome::AlreadyCompleted),
            RequestState::Expired => (s, CompleteOutcome::Expired),
            RequestState::Cancelled => (s, CompleteOutcome::NotFound),
        }
    }
}

/// A fresh pending request.
pub open spec fn new_request(chat_user_id: u64, now: u64, token: u128) -> AuthRequest {
    AuthRequest { token, chat_user_id, created_at: now, state: RequestState::Pending }
}

/// What starting a link at `now` does: a pending request whose time is not up
/// is refreshed and keeps its token; one whose time is up is marked expired
/// and a new one is made with `fresh_token`, as when there is none.
pub open spec fn spec_start(s: Seq<AuthRequest>, chat_user_id: u64, now: u64, fresh_token: u128) -> (
    Seq<AuthRequest>,
    Result<u128, StartError>,
) {
    if has_pending(s, chat_user_id) && !is_expired_at(
        s[pending_index(s, chat_user_id)],
        now,
    ) {
        let i = pending_index(s, chat_user_id);
        (s.update(i, AuthRequest { created_at: now, ..s[i] }), Ok(s[i].token))
    } else if has_token(s, fresh_token) {
        (s, Err(StartError::TokenInUse))
    } else if has_pending(s, chat_user_id) {
        let i = pending_index(s, chat_user_id);
        (
            s.update(i, AuthRequest { state: RequestState::Expired, ..s[i] }).push(
                new_request(chat_user_id, now, fresh_token),
            ),
            Ok(fresh_token),
        )
    } else {
        (s.push(new_request(chat_user_id, now, fresh_token)), Ok(fresh_token))
    }
}

proof fn lemma_token_index_unique(s: Seq<AuthRequest>, token: u128, i: int)
    requires
        requests_wf(s),
        0 <= i < s.len(),
        s[i].token == token,
    ensures
        has_token(s, token),
        token_index(s, token) == i,
{
}

proof fn lemma_pending_index_unique(s: Seq<AuthRequest>, chat_user_id: u64, i: int)
    requires
        requests_wf(s),
        0 <= i < s.len(),
        is_pending_of(s[i], chat_user_id),
    ensures
        has_pending(s, chat_user_id),
        pending_index(s, chat_user_id) == i,
{
}

/// The link requests, in the order they were made.
pub struct LinkRequestRegistry {
    requests: Vec<AuthRequest>,
}

impl View for LinkRequestRegistry {
    type V = Seq<AuthRequest>;

    closed spec fn view(&self) -> Seq<AuthRequest> {
        self.requests@
    }
}

impl LinkRequestRegistry {
    pub open spec fn wf(&self) -> bool {
        requests_wf(self@)
    }

    pub fn new() -> (r: LinkRequestRegistry)
        ensures
            r.wf(),
            r@ == Seq::<AuthRequest>::empty(),
    {
        LinkRequestRegistry { requests: Vec::new() }
    }

    /// The number of requests held.
    pub fn len(&self) -> (r: usize)
        ensures
            r == self@.len(),
    {
        self.requests.len()
    }

    fn find_token(&self, token: u128) -> (r: Option<usize>)
        requires
            self.wf(),
        ensures
            match r {
                Some(i) => i < self@.len() && self@[i as int].token == token && token_index(
                    self@,
                    token,
                ) == i,
                None => !has_token(self@, token),
            },
    {
        let mut i: usize = 0;
        while i < self.requests.len()
            invariant
                i <= self@.len(),
                self.wf(),
                self@ == self.requests@,
                forall|j: int| 0 <= j < i ==> #[trigger] self@[j].token != token,
            decreases self@.len() - i,
        {
            if self.requests[i].token == token {
                proof {
                    lemma_token_index_unique(self@, token, i as int);
                }
                return Some(i);
            }
            i = i + 1;
        }
        None
    }

    fn find_pending(&self, chat_user_id: u64) -> (r: Option<usize>)
        requires
            self.wf(),
        ensures
            match r {
                Some(i) => i < self@.len() && is_pending_of(self@[i as int], chat_user_id)
                    && pending_index(self@, chat_user_id) == i,
                None => !has_pending(self@, chat_user_id),
            },
    {
        let mut i: usize = 0;
        while i < self.requests.len()
            invariant
                i <= self@.len(),
                self.wf(),
                self@ == self.requests@,
                forall|j: int| 0 <= j < i ==> !#[trigger] is_pending_of(self@[j], chat_user_id),
            decreases self@.len() - i,
        {
            let r = self.requests[i];
            if r.chat_user_id == chat_user_id && r.state == RequestState::Pending {
                proof {
                    lemma_pending_index_unique(self@, chat_user_id, i as int);
                }
                return Some(i);
            }
            i = i + 1;
        }
        None
    }

    /// The request of a token as it reads at `now`, or `None` when the token
    /// is unknown.
    pub fn lookup(&self, token: u128, now: u64) -> (r: Option<AuthRequest>)
        requires
            self.wf(),
        ensures
            r == spec_lookup_token(self@, token, now),
    {
        match self.find_token(token) {
            None => None,
            Some(i) => {
                let r = self.requests[i];
                if r.state == RequestState::Pending && now as u128 > r.created_at as u128
                    + TTL_SECONDS as u128 {
                    Some(AuthRequest { state: RequestState::Expired, ..r })
                } else {
                    Some(r)
                }
            },
        }
    }

    /// Consumes a pending request whose time is not up, at most once: every
    /// later call on the same token reports `AlreadyCompleted`.
    pub fn complete(&mut self, token: u128, now: u64) -> (r: CompleteOutcome)
        requires
            old(self).wf(),
        ensures
            final(self).wf(),
            (final(self)@, r) == spec_complete(old(self)@, token, now),
    {
        match self.find_token(token) {
            None => CompleteOutcome::NotFound,
            Some(i) => {
                let r = self.requests[i];
                match r.state {
                    RequestState::Pending => {
                        if now as u128 > r.created_at as u128 + TTL_SECONDS as u128 {
                            CompleteOutcome::Expired
                        } else {
                            self.requests.set(i, AuthRequest { state: RequestState::Completed, ..r });
                            assert(requests_wf(self@));
                            CompleteOutcome::Completed(r.chat_user_id)
                        }
                    },
                    RequestState::Completed => CompleteOutcome::AlreadyCompleted,
                    RequestState::Expired => CompleteOutcome::Expired,
                    RequestState::Cancelled => CompleteOutcome::NotFound,
                }
            },
        }
    }

    /// Starts a link for a chat user. A pending request of the user whose time
    /// is not up is refreshed and its token returned; otherwise a new request
    /// is made under `fresh_token`, which must not be in use, and a pending one
    /// whose time is up is marked expired.
    pub fn start(&mut self, chat_user_id: u64, now: u64, fresh_token: u128) -> (r: Result<
        u128,
        StartError,
    >)
        requires
            old(self).wf(),
            old(self)@.len() < usize::MAX,
        ensures
            final(self).wf(),
            (final(self)@, r) == spec_start(old(self)@, chat_user_id, now, fresh_token),
    {
        let pending = self.find_pending(chat_user_id);
        if let Some(i) = pending {
            let r = self.requests[i];
            if now as u128 <= r.created_at as u128 + TTL_SECONDS as u128 {
                self.requests.set(i, AuthRequest { created_at: now, ..r });
                assert(requests_wf(self@));
                return Ok(r.token);
            }
        }
        if self.find_token(fresh_token).is_some() {
            return Err(StartError::TokenInUse);
        }
        let ghost s0 = self@;
        if let Some(i) = pending {
            let r = self.requests[i];
            self.requests.set(i, AuthRequest { state: RequestState::Expired, ..r });
        }
        let ghost s1 = self@;
        assert(requests_wf(s1));
        assert(forall|j: int| 0 <= j < s1.len() ==> !#[trigger] is_pending_of(s1[j], chat_user_id))
            by {
            if let Some(i) = pending {
                assert(forall|j: int|
                    0 <= j < s0.len() && j != i ==> !#[trigger] is_pending_of(s0[j], chat_user_id));
            } else {
                assert(forall|j: int|
                    0 <= j < s0.len() ==> !#[trigger] is_pending_of(s0[j], chat_user_id));
            }
        }
        assert(forall|j: int| 0 <= j < s1.len() ==> #[trigger] s1[j].token != fresh_token) by {
            assert(forall|j: int| 0 <= j < s0.len() ==> #[trigger] s0[j].token != fresh_token);
        }
        self.requests.push(
            AuthRequest {
                token: fresh_token,
                chat_user_id,
                created_at: now,
                state: RequestState::Pending,
            },
        );
        let ghost s2 = self@;
        assert(s2.len() == s1.len() + 1 && s2.last() == new_request(chat_user_id, now, fresh_token));
        assert forall|i: int, j: int|
            0 <= i < s2.len() && 0 <= j < s2.len() && i != j implies #[trigger] s2[i].token
            != #[trigger] s2[j].token by {
            if i < s1.len() && j < s1.len() {
                assert(s2[i] == s1[i] && s2[j] == s1[j]);
            } else if i < s1.len() {
                assert(s2[i] == s1[i]);
            } else {
                assert(s2[j] == s1[j]);
            }
        }
        assert forall|i: int, j: int|
            0 <= i < s2.len() && 0 <= j < s2.len() && i != j && s2[i].state
                == RequestState::Pending && s2[j].state
                == RequestState::Pending implies #[trigger] s2[i].chat_user_id
            != #[trigger] s2[j].chat_user_id by {
            if i < s1.len() && j < s1.len() {
                assert(s2[i] == s1[i] && s2[j] == s1[j]);
            } else if i < s1.len() {
                assert(s2[i] == s1[i]);
                assert(!is_pending_of(s1[i], chat_user_id));
            } else {
                assert(s2[j] == s1[j]);
                assert(!is_pending_of(s1[j], chat_user_id));
            }
        }
        Ok(fresh_token)
    }
}

/// Once the time of a request that was never consumed is up, a lookup of its
/// token reads `Expired`, and so it still does after a call of `complete` on
/// that token.
pub proof fn lemma_lookup_after_ttl(s: Seq<AuthRequest>, token: u128, now: u64)
    requires
        requests_wf(s),
        has_token(s, token),
        s[token_index(s, token)].state == RequestState::Pending || s[token_index(s, token)].state
            == RequestState::Expired,
        is_expired_at(s[token_index(s, token)], now),
    ensures
        spec_lookup_token(s, token, now) matches Some(r) && r.state == RequestState::Expired,
        spec_complete(s, token, now) == (s, CompleteOutcome::Expired),
        spec_lookup_token(spec_complete(s, token, now).0, token, now) matches Some(r) && r.state
            == RequestState::Expired,
{
}

/// Completing keeps tokens unique and at most one pending request per user.
pub proof fn lemma_complete_wf(s: Seq<AuthRequest>, token: u128, now: u64)
    requires
        requests_wf(s),
    ensures
        requests_wf(spec_complete(s, token, now).0),
{
}

/// A token is consumed at most once: after a completion succeeds, every later
/// completion of the same token, at any time, reports `AlreadyCompleted` and
/// changes nothing.
pub proof fn lemma_complete_single_use(s: Seq<AuthRequest>, token: u128, now: u64, later: u64)
    requires
        requests_wf(s),
        spec_complete(s, token, now).1 is Completed,
    ensures
        spec_complete(spec_complete(s, token, now).0, token, later) == (
            spec_complete(s, token, now).0,
            CompleteOutcome::AlreadyCompleted,
        ),
{
    let s1 = spec_complete(s, token, now).0;
    let i = token_index(s, token);
    lemma_complete_wf(s, token, now);
    assert(s1[i].token == token);
    lemma_token_index_unique(s1, token, i);
}

} // verus!
