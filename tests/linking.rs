use wikiauthbot::callback::{handle_callback, CallbackOutcome, ExchangeError};
use wikiauthbot::reactor::{
    compose_welcome, plan_member_joined, Identity, ResolveError, Template, WELCOME_REACTION,
};
use wikiauthbot::registry::{
    CompleteOutcome, LinkRequestRegistry, RequestState, StartError, TTL_SECONDS,
};
use wikiauthbot::store::{CommitOutcome, CommunityConfig, LinkStore, LinkedAccount};

const USER: u64 = 1001;
const COMMUNITY: u64 = 77;
const CHANNEL: u64 = 555;
const ROLE: u64 = 999;
const TOKEN: u128 = 0x1234_5678_9abc_def0_1122_3344_5566_7788;
const MINUTE: u64 = 60;
const START: u64 = 1_700_000_000;

fn store_with_community() -> LinkStore {
    let mut store = LinkStore::new();
    store.set_community_config(CommunityConfig {
        community_id: COMMUNITY,
        welcome_channel: Some(CHANNEL),
        authenticated_role: Some(ROLE),
        locale: "en".to_string(),
    });
    store
}

fn example_identity() -> Identity {
    Identity {
        canonical_name: "ExampleUser".to_string(),
        profile_url: "https://meta.wikimedia.org/wiki/User:ExampleUser".to_string(),
    }
}

#[test]
fn ttl_is_ten_minutes() {
    assert_eq!(TTL_SECONDS, 600);
}

#[test]
fn start_issues_the_fresh_token() {
    let mut reg = LinkRequestRegistry::new();
    assert_eq!(reg.start(USER, START, TOKEN), Ok(TOKEN));
    let r = reg.lookup(TOKEN, START).unwrap();
    assert_eq!(r.chat_user_id, USER);
    assert_eq!(r.created_at, START);
    assert_eq!(r.state, RequestState::Pending);
}

#[test]
fn start_again_refreshes_and_reuses_the_token() {
    let mut reg = LinkRequestRegistry::new();
    reg.start(USER, START, TOKEN).unwrap();
    assert_eq!(reg.start(USER, START + 8 * MINUTE, TOKEN + 1), Ok(TOKEN));
    assert!(reg.lookup(TOKEN + 1, START + 8 * MINUTE).is_none());
    // the refreshed request is still usable past the first deadline
    let r = reg.lookup(TOKEN, START + 15 * MINUTE).unwrap();
    assert_eq!(r.state, RequestState::Pending);
    assert_eq!(r.created_at, START + 8 * MINUTE);
}

#[test]
fn start_after_expiry_supersedes_the_old_request() {
    let mut reg = LinkRequestRegistry::new();
    reg.start(USER, START, TOKEN).unwrap();
    assert_eq!(reg.start(USER, START + 11 * MINUTE, TOKEN + 1), Ok(TOKEN + 1));
    assert_eq!(reg.lookup(TOKEN, START + 11 * MINUTE).unwrap().state, RequestState::Expired);
    assert_eq!(
        reg.lookup(TOKEN + 1, START + 11 * MINUTE).unwrap().state,
        RequestState::Pending
    );
    // the old token is now stored as expired, even when read at an early time
    assert_eq!(reg.lookup(TOKEN, START).unwrap().state, RequestState::Expired);
}

#[test]
fn start_rejects_a_token_in_use() {
    let mut reg = LinkRequestRegistry::new();
    reg.start(USER, START, TOKEN).unwrap();
    assert_eq!(reg.start(USER + 1, START, TOKEN), Err(StartError::TokenInUse));
    assert!(reg.lookup(TOKEN, START).unwrap().chat_user_id == USER);
}

#[test]
fn lookup_of_unknown_token_is_none() {
    let reg = LinkRequestRegistry::new();
    assert!(reg.lookup(TOKEN, START).is_none());
}

#[test]
fn lookup_at_exactly_ttl_is_still_pending() {
    let mut reg = LinkRequestRegistry::new();
    reg.start(USER, START, TOKEN).unwrap();
    assert_eq!(reg.lookup(TOKEN, START + TTL_SECONDS).unwrap().state, RequestState::Pending);
    assert_eq!(
        reg.lookup(TOKEN, START + TTL_SECONDS + 1).unwrap().state,
        RequestState::Expired
    );
}

#[test]
fn lookup_after_ttl_reads_expired_even_after_complete() {
    let mut reg = LinkRequestRegistry::new();
    reg.start(USER, START, TOKEN).unwrap();
    let late = START + 11 * MINUTE;
    assert_eq!(reg.lookup(TOKEN, late).unwrap().state, RequestState::Expired);
    assert_eq!(reg.complete(TOKEN, late), CompleteOutcome::Expired);
    assert_eq!(reg.lookup(TOKEN, late).unwrap().state, RequestState::Expired);
}

#[test]
fn complete_twice_is_already_completed() {
    let mut reg = LinkRequestRegistry::new();
    reg.start(USER, START, TOKEN).unwrap();
    assert_eq!(reg.complete(TOKEN, START + MINUTE), CompleteOutcome::Completed(USER));
    assert_eq!(reg.complete(TOKEN, START + 2 * MINUTE), CompleteOutcome::AlreadyCompleted);
    assert_eq!(reg.complete(TOKEN, START + 60 * MINUTE), CompleteOutcome::AlreadyCompleted);
    assert_eq!(reg.lookup(TOKEN, START + 60 * MINUTE).unwrap().state, RequestState::Completed);
}

#[test]
fn complete_unknown_token_is_not_found() {
    let mut reg = LinkRequestRegistry::new();
    assert_eq!(reg.complete(TOKEN, START), CompleteOutcome::NotFound);
}

#[test]
fn commit_then_lookup() {
    let mut store = LinkStore::new();
    assert_eq!(store.commit(USER, 12345, START), CommitOutcome::Committed);
    assert_eq!(
        store.lookup(USER),
        Some(LinkedAccount { chat_user_id: USER, wiki_account_id: 12345, linked_at: START })
    );
    assert_eq!(store.lookup(USER + 1), None);
}

#[test]
fn commit_for_linked_user_is_rejected_and_row_unchanged() {
    let mut store = LinkStore::new();
    store.commit(USER, 12345, START);
    assert_eq!(store.commit(USER, 67890, START + 1), CommitOutcome::AlreadyLinked);
    assert_eq!(
        store.lookup(USER),
        Some(LinkedAccount { chat_user_id: USER, wiki_account_id: 12345, linked_at: START })
    );
}

#[test]
fn lookup_is_stable_until_unlink() {
    let mut store = LinkStore::new();
    store.commit(USER, 12345, START);
    let first = store.lookup(USER);
    store.commit(USER + 1, 1, START + 5);
    store.commit(USER, 2, START + 6);
    assert_eq!(store.lookup(USER), first);
    assert_eq!(store.lookup(USER), first);
    assert!(store.unlink(USER));
    assert_eq!(store.lookup(USER), None);
    assert!(!store.unlink(USER));
    assert!(store.lookup(USER + 1).is_some());
}

#[test]
fn community_config_is_read_back() {
    let store = store_with_community();
    let c = store.community_config(COMMUNITY).unwrap();
    assert_eq!(c.welcome_channel, Some(CHANNEL));
    assert_eq!(c.authenticated_role, Some(ROLE));
    assert_eq!(c.locale, "en");
    assert!(store.community_config(COMMUNITY + 1).is_none());
}

#[test]
fn scenario_link_then_welcome_with_auth() {
    let mut reg = LinkRequestRegistry::new();
    let mut store = store_with_community();
    let token = reg.start(USER, START, TOKEN).unwrap();
    let at = START + 5 * MINUTE;
    let out = handle_callback(&mut reg, &mut store, token, Ok(12345), at);
    assert_eq!(
        out,
        CallbackOutcome::Linked(LinkedAccount {
            chat_user_id: USER,
            wiki_account_id: 12345,
            linked_at: at
        })
    );
    assert_eq!(out.http_status(), 200);
    assert_eq!(store.lookup(USER).unwrap().wiki_account_id, 12345);

    let plan = plan_member_joined(&store, COMMUNITY, USER).unwrap();
    assert_eq!(plan.channel, CHANNEL);
    assert_eq!(plan.grant_role, Some(ROLE));
    assert_eq!(plan.resolve, Some(12345));
    let msg = compose_welcome(plan, Some(Ok(example_identity())));
    assert_eq!(msg.template, Template::WelcomeHasAuth);
    assert_eq!(msg.template.name(), "welcome_has_auth");
    assert_eq!(msg.name.as_deref(), Some("ExampleUser"));
    assert_eq!(
        msg.user_link.as_deref(),
        Some("https://meta.wikimedia.org/wiki/User:ExampleUser")
    );
    assert_eq!(msg.channel, CHANNEL);
    assert_eq!(msg.locale, "en");
}

#[test]
fn scenario_callback_past_ttl_is_expired() {
    let mut reg = LinkRequestRegistry::new();
    let mut store = store_with_community();
    let token = reg.start(USER, START, TOKEN).unwrap();
    let out = handle_callback(&mut reg, &mut store, token, Ok(12345), START + 11 * MINUTE);
    assert_eq!(out, CallbackOutcome::ExpiredToken);
    assert_eq!(out.http_status(), 410);
    assert_eq!(store.lookup(USER), None);
}

#[test]
fn scenario_racing_callbacks_commit_once() {
    let mut reg = LinkRequestRegistry::new();
    let mut store = store_with_community();
    let token = reg.start(USER, START, TOKEN).unwrap();
    let first = handle_callback(&mut reg, &mut store, token, Ok(12345), START + MINUTE);
    let second = handle_callback(&mut reg, &mut store, token, Ok(12345), START + MINUTE);
    assert!(matches!(first, CallbackOutcome::Linked(_)));
    assert_eq!(second, CallbackOutcome::AlreadyCompleted);
    assert_eq!(second.http_status(), 200);
    assert_eq!(
        store.lookup(USER),
        Some(LinkedAccount {
            chat_user_id: USER,
            wiki_account_id: 12345,
            linked_at: START + MINUTE
        })
    );
}

#[test]
fn scenario_resolve_failure_still_grants_role() {
    let mut store = store_with_community();
    store.commit(USER, 12345, START);
    let plan = plan_member_joined(&store, COMMUNITY, USER).unwrap();
    assert_eq!(plan.grant_role, Some(ROLE));
    let msg = compose_welcome(plan, Some(Err(ResolveError::Failed)));
    assert_eq!(msg.template, Template::WelcomeHasAuthFailed);
    assert_eq!(msg.template.name(), "welcome_has_auth_failed");
    assert!(msg.name.is_none());
    assert!(msg.user_link.is_none());
}

#[test]
fn welcome_for_unlinked_member() {
    let store = store_with_community();
    let plan = plan_member_joined(&store, COMMUNITY, USER).unwrap();
    assert_eq!(plan.grant_role, None);
    assert_eq!(plan.resolve, None);
    let msg = compose_welcome(plan, None);
    assert_eq!(msg.template, Template::Welcome);
    assert_eq!(msg.template.name(), "welcome");
    assert_eq!(WELCOME_REACTION, '\u{1F44B}');
}

#[test]
fn no_welcome_without_channel_or_config() {
    let mut store = LinkStore::new();
    assert!(plan_member_joined(&store, COMMUNITY, USER).is_none());
    store.set_community_config(CommunityConfig {
        community_id: COMMUNITY,
        welcome_channel: None,
        authenticated_role: Some(ROLE),
        locale: "de".to_string(),
    });
    assert!(plan_member_joined(&store, COMMUNITY, USER).is_none());
}

#[test]
fn callback_with_failed_exchange_changes_nothing() {
    let mut reg = LinkRequestRegistry::new();
    let mut store = LinkStore::new();
    reg.start(USER, START, TOKEN).unwrap();
    let out = handle_callback(&mut reg, &mut store, TOKEN, Err(ExchangeError::Failed), START);
    assert_eq!(out, CallbackOutcome::IdentityFetchFailed);
    assert_eq!(out.http_status(), 400);
    assert_eq!(reg.lookup(TOKEN, START).unwrap().state, RequestState::Pending);
    assert_eq!(store.lookup(USER), None);
}

#[test]
fn callback_with_unknown_token_is_invalid() {
    let mut reg = LinkRequestRegistry::new();
    let mut store = LinkStore::new();
    let out = handle_callback(&mut reg, &mut store, TOKEN, Ok(1), START);
    assert_eq!(out, CallbackOutcome::InvalidToken);
    assert_eq!(out.http_status(), 404);
}

#[test]
fn callback_for_already_linked_user_consumes_token() {
    let mut reg = LinkRequestRegistry::new();
    let mut store = LinkStore::new();
    store.commit(USER, 1, START);
    reg.start(USER, START, TOKEN).unwrap();
    let out = handle_callback(&mut reg, &mut store, TOKEN, Ok(2), START + 1);
    assert_eq!(out, CallbackOutcome::AlreadyLinked);
    assert_eq!(reg.lookup(TOKEN, START + 1).unwrap().state, RequestState::Completed);
    assert_eq!(store.lookup(USER).unwrap().wiki_account_id, 1);
}
