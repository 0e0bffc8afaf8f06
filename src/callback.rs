//! The verification callback: the wiki provider redirects the user here with
//! the request's token and a proof code. The code is exchanged outside for a
//! wiki account id; what is decided after that is here.
use crate::registry::{
    lemma_complete_single_use, requests_wf, spec_complete, AuthRequest, CompleteOutcome,
    LinkRequestRegistry,
};
use crate::store::{spec_commit, CommitOutcome, LinkStore, LinkedAccount};
use vstd::prelude::*;

verus! {

/// The proof code could not be exchanged for a wiki account.
#[derive(Clone, Copy, Debug, PartialEq, Eq, Structural)]
pub enum ExchangeError {
    Failed,
}

/// What the user is shown after a callback.
#[derive(Clone, Copy, Debug, PartialEq, Eq, Structural)]
pub enum CallbackOutcome {
    /// The link was committed.
    Linked(LinkedAccount),
    /// The request was consumed, but the user already had a link.
    AlreadyLinked,
    /// The token was consumed before, e.g. by a reload of the page.
    AlreadyCompleted,
    /// The token is unknown or was cancelled: the flow must be restarted.
    InvalidToken,
    /// The time of the request is up: the flow must be restarted.
    ExpiredToken,
    /// The proof code could not be exchanged: the user may retry.
    IdentityFetchFailed,
}

/// What a callback does to the requests and the links, and what it reports.
pub open spec fn spec_callback(
    requests: Seq<AuthRequest>,
    links: Map<u64, LinkedAccount>,
    token: u128,
    exchanged: Result<u64, ExchangeError>,
    now: u64,
) -> (Seq<AuthRequest>, Map<u64, LinkedAccount>, CallbackOutcome) {
    match exchanged {
        Err(_) => (requests, links, CallbackOutcome::IdentityFetchFailed),
        Ok(wiki_account_id) => {
            let (requests1, completed) = spec_complete(requests, token, now);
            match completed {
                CompleteOutcome::NotFound => (requests1, links, CallbackOutcome::InvalidToken),
                CompleteOutcome::Expired => (requests1, links, CallbackOutcome::ExpiredToken),
                CompleteOutcome::AlreadyCompleted => (
                    requests1,
                    links,
                    CallbackOutcome::AlreadyCompleted,
                ),
                CompleteOutcome::Completed(chat_user_id) => {
                    let (links1, committed) = spec_commit(links, chat_user_id, wiki_account_id, now);
                    match committed {
                        CommitOutcome::Committed => (
                            requests1,
                            links1,
                            CallbackOutcome::Linked(links1[chat_user_id]),
                        ),
                        CommitOutcome::AlreadyLinked => (
                            requests1,
                            links1,
                            CallbackOutcome::AlreadyLinked,
                        ),
                    }
                },
            }
        },
    }
}

/// The HTTP status of each outcome: success and the idempotent replies are
/// 200, the rest tell the client to restart or retry the flow.
pub open spec fn spec_http_status(o: CallbackOutcome) -> u16 {
    match o {
        CallbackOutcome::Linked(_) => 200,
        CallbackOutcome::AlreadyLinked => 200,
        CallbackOutcome::AlreadyCompleted => 200,
        CallbackOutcome::InvalidToken => 404,
        CallbackOutcome::ExpiredToken => 410,
        CallbackOutcome::IdentityFetchFailed => 400,
    }
}

impl CallbackOutcome {
    pub fn http_status(&self) -> (r: u16)
        ensures
            r == spec_http_status(*self),
    {
        match self {
            CallbackOutcome::Linked(_) => 200,
            CallbackOutcome::AlreadyLinked => 200,
            CallbackOutcome::AlreadyCompleted => 200,
            CallbackOutcome::InvalidToken => 404,
            CallbackOutcome::ExpiredToken => 410,
            CallbackOutcome::IdentityFetchFailed => 400,
        }
    }
}

/// Handles one callback. A failed exchange changes nothing; otherwise the
/// token is consumed, and only when that succeeds is the link committed.
pub fn handle_callback(
    registry: &mut LinkRequestRegistry,
    store: &mut LinkStore,
    token: u128,
    exchanged: Result<u64, ExchangeError>,
    now: u64,
) -> (r: CallbackOutcome)
    requires
        old(registry).wf(),
        old(store).wf(),
    ensures
        final(registry).wf(),
        final(store).wf(),
        final(store).configs() == old(store).configs(),
        (final(registry)@, final(store)@, r) == spec_callback(
            old(registry)@,
            old(store)@,
            token,
            exchanged,
            now,
        ),
{
    let wiki_account_id = match exchanged {
        Err(_) => return CallbackOutcome::IdentityFetchFailed,
        Ok(w) => w,
    };
    match registry.complete(token, now) {
        CompleteOutcome::NotFound => CallbackOutcome::InvalidToken,
        CompleteOutcome::Expired => CallbackOutcome::ExpiredToken,
        CompleteOutcome::AlreadyCompleted => CallbackOutcome::AlreadyCompleted,
        CompleteOutcome::Completed(chat_user_id) => {
            match store.commit(chat_user_id, wiki_account_id, now) {
                CommitOutcome::Committed => CallbackOutcome::Linked(
                    LinkedAccount { chat_user_id, wiki_account_id, linked_at: now },
                ),
                CommitOutcome::AlreadyLinked => CallbackOutcome::AlreadyLinked,
            }
        },
    }
}

/// A replayed callback (a reload, or a second delivery racing the first)
/// never commits again: once a callback has consumed its token, every later
/// callback with that token leaves the requests and the links as they are and
/// reports `AlreadyCompleted`, or `IdentityFetchFailed` when its exchange fails.
pub proof fn lemma_callback_replay(
    requests: Seq<AuthRequest>,
    links: Map<u64, LinkedAccount>,
    token: u128,
    exchanged: Result<u64, ExchangeError>,
    now: u64,
    replayed: Result<u64, ExchangeError>,
    later: u64,
)
    requires
        requests_wf(requests),
        spec_callback(requests, links, token, exchanged, now).2 is Linked || spec_callback(
            requests,
            links,
            token,
            exchanged,
            now,
        ).2 is AlreadyLinked,
    ensures
        ({
            let (requests1, links1, _) = spec_callback(requests, links, token, exchanged, now);
            let (requests2, links2, outcome) = spec_callback(
                requests1,
                links1,
                token,
                replayed,
                later,
            );
            &&& requests2 == requests1
            &&& links2 == links1
            &&& outcome == (if replayed is Ok {
                CallbackOutcome::AlreadyCompleted
            } else {
                CallbackOutcome::IdentityFetchFailed
            })
        }),
{
    lemma_complete_single_use(requests, token, now, later);
}

} // verus!
