//! The reaction to a member joining a community. The decisions are here; the
//! role grant, the identity lookup, rendering and sending happen outside, in
//! that order: `plan_member_joined`, then the grant (whose failure is only
//! logged), then the lookup, whose result `compose_welcome` turns into
//! exactly one message.
use crate::store::{spec_lookup, CommunityConfig, LinkStore, LinkedAccount};
use vstd::prelude::*;

verus! {

/// The reaction attached to every welcome message (a waving hand).
pub const WELCOME_REACTION: char = '\u{1F44B}';

/// The canonical account data the wiki identity service returns.
#[derive(Clone, Debug)]
pub struct Identity {
    pub canonical_name: String,
    pub profile_url: String,
}

/// The wiki identity service could not resolve the account.
#[derive(Clone, Copy, Debug, PartialEq, Eq, Structural)]
pub enum ResolveError {
    Failed,
}

/// The message templates of a welcome.
#[derive(Clone, Copy, Debug, PartialEq, Eq, Structural)]
pub enum Template {
    /// For a member without a link.
    Welcome,
    /// For a linked member, with the account's name and profile link.
    WelcomeHasAuth,
    /// For a linked member whose account could not be resolved.
    WelcomeHasAuthFailed,
}

pub open spec fn spec_template_name(t: Template) -> Seq<char> {
    match t {
        Template::Welcome => "welcome"@,
        Template::WelcomeHasAuth => "welcome_has_auth"@,
        Template::WelcomeHasAuthFailed => "welcome_has_auth_failed"@,
    }
}

impl Template {
    /// The name under which the template is stored.
    pub fn name(&self) -> (r: &'static str)
        ensures
            r@ == spec_template_name(*self),
    {
        proof {
            reveal_strlit("welcome");
            reveal_strlit("welcome_has_auth");
            reveal_strlit("welcome_has_auth_failed");
        }
        match self {
            Template::Welcome => "welcome",
            Template::WelcomeHasAuth => "welcome_has_auth",
            Template::WelcomeHasAuthFailed => "welcome_has_auth_failed",
        }
    }
}

/// What to do for a member who joined a community with a welcome channel.
#[derive(Clone, Debug)]
pub struct WelcomePlan {
    pub channel: u64,
    pub locale: String,
    /// The role to grant before the message is sent.
    pub grant_role: Option<u64>,
    /// The wiki account to resolve for the message; `None` for a member
    /// without a link.
    pub resolve: Option<u64>,
}

/// The one message sent for a joined member.
#[derive(Clone, Debug)]
pub struct WelcomeMessage {
    pub channel: u64,
    pub locale: String,
    pub template: Template,
    pub name: Option<String>,
    pub user_link: Option<String>,
}

/// The plan for a member who joined: nothing without a welcome channel; a
/// plain welcome without a link; otherwise the configured role and a lookup
/// of the linked account.
pub open spec fn spec_plan(
    configs: Map<u64, CommunityConfig>,
    links: Map<u64, LinkedAccount>,
    community_id: u64,
    chat_user_id: u64,
) -> Option<WelcomePlan> {
    if !configs.contains_key(community_id) {
        None
    } else {
        let config = configs[community_id];
        match config.welcome_channel {
            None => None,
            Some(channel) => match spec_lookup(links, chat_user_id) {
                None => Some(
                    WelcomePlan { channel, locale: config.locale, grant_role: None, resolve: None },
                ),
                Some(link) => Some(
                    WelcomePlan {
                        channel,
                        locale: config.locale,
                        grant_role: config.authenticated_role,
                        resolve: Some(link.wiki_account_id),
                    },
                ),
            },
        }
    }
}

/// The message for a plan, given what the identity lookup returned (`None`
/// when none was made).
pub open spec fn spec_compose(
    plan: WelcomePlan,
    resolved: Option<Result<Identity, ResolveError>>,
) -> WelcomeMessage {
    let template = if plan.resolve is None {
        Template::Welcome
    } else if resolved matches Some(Ok(_)) {
        Template::WelcomeHasAuth
    } else {
        Template::WelcomeHasAuthFailed
    };
    let (name, user_link) = if template == Template::WelcomeHasAuth {
        let id = resolved->Some_0->Ok_0;
        (Some(id.canonical_name), Some(id.profile_url))
    } else {
        (None, None)
    };
    WelcomeMessage { channel: plan.channel, locale: plan.locale, template, name, user_link }
}

/// Decides what a member's arrival in a community calls for.
pub fn plan_member_joined(store: &LinkStore, community_id: u64, chat_user_id: u64) -> (r: Option<
    WelcomePlan,
>)
    ensures
        r == spec_plan(store.configs(), store@, community_id, chat_user_id),
{
    let config = match store.community_config(community_id) {
        None => return None,
        Some(c) => c,
    };
    let channel = match config.welcome_channel {
        None => return None,
        Some(ch) => ch,
    };
    let locale = config.locale.clone();
    match store.lookup(chat_user_id) {
        None => Some(WelcomePlan { channel, locale, grant_role: None, resolve: None }),
        Some(link) => Some(
            WelcomePlan {
                channel,
                locale,
                grant_role: config.authenticated_role,
                resolve: Some(link.wiki_account_id),
            },
        ),
    }
}

/// Builds the one message of a plan. A failed identity lookup degrades the
/// message; it never drops it.
pub fn compose_welcome(plan: WelcomePlan, resolved: Option<Result<Identity, ResolveError>>) -> (r:
    WelcomeMessage)
    ensures
        r == spec_compose(plan, resolved),
{
    let WelcomePlan { channel, locale, grant_role: _, resolve } = plan;
    if resolve.is_none() {
        return WelcomeMessage {
            channel,
            locale,
            template: Template::Welcome,
            name: None,
            user_link: None,
        };
    }
    match resolved {
        Some(Ok(id)) => WelcomeMessage {
            channel,
            locale,
            template: Template::WelcomeHasAuth,
            name: Some(id.canonical_name),
            user_link: Some(id.profile_url),
        },
        _ => WelcomeMessage {
            channel,
            locale,
            template: Template::WelcomeHasAuthFailed,
            name: None,
            user_link: None,
        },
    }
}

/// A linked member of a community with a welcome channel is granted the
/// configured role, and is greeted whatever the identity lookup returns: with
/// the account's name when it succeeds, with the degraded variant when it
/// fails.
pub proof fn lemma_linked_member_greeted(
    configs: Map<u64, CommunityConfig>,
    links: Map<u64, LinkedAccount>,
    community_id: u64,
    chat_user_id: u64,
    resolved: Result<Identity, ResolveError>,
)
    requires
        configs.contains_key(community_id),
        configs[community_id].welcome_channel is Some,
        links.contains_key(chat_user_id),
    ensures
        ({
            let plan = spec_plan(configs, links, community_id, chat_user_id)->Some_0;
            let msg = spec_compose(plan, Some(resolved));
            &&& spec_plan(configs, links, community_id, chat_user_id) is Some
            &&& plan.grant_role == configs[community_id].authenticated_role
            &&& plan.resolve == Some(links[chat_user_id].wiki_account_id)
            &&& msg.template == (if resolved is Ok {
                Template::WelcomeHasAuth
            } else {
                Template::WelcomeHasAuthFailed
            })
        }),
{
}

} // verus!
