//! The durable association between chat users and wiki accounts, and the
//! read-only per-community configuration.
use std::collections::HashMap;
use vstd::prelude::*;
use vstd::std_specs::hash::group_hash_axioms;

verus! {

broadcast use group_hash_axioms;

/// A committed link: created once, never overwritten.
#[derive(Clone, Copy, Debug, PartialEq, Eq, Structural)]
pub struct LinkedAccount {
    pub chat_user_id: u64,
    pub wiki_account_id: u64,
    pub linked_at: u64,
}

/// Result of an attempt to commit a link.
#[derive(Clone, Copy, Debug, PartialEq, Eq, Structural)]
pub enum CommitOutcome {
    Committed,
    AlreadyLinked,
}

/// What a commit does to the links, as a map from chat user to link.
pub open spec fn spec_commit(
    links: Map<u64, LinkedAccount>,
    chat_user_id: u64,
    wiki_account_id: u64,
    now: u64,
) -> (Map<u64, LinkedAccount>, CommitOutcome) {
    if links.contains_key(chat_user_id) {
        (links, CommitOutcome::AlreadyLinked)
    } else {
        (
            links.insert(
                chat_user_id,
                LinkedAccount { chat_user_id, wiki_account_id, linked_at: now },
            ),
            CommitOutcome::Committed,
        )
    }
}

/// What a lookup of a chat user returns.
pub open spec fn spec_lookup(links: Map<u64, LinkedAccount>, chat_user_id: u64) -> Option<
    LinkedAccount,
> {
    if links.contains_key(chat_user_id) {
        Some(links[chat_user_id])
    } else {
        None
    }
}

/// Per-community settings, maintained outside the linking core.
#[derive(Clone, Debug)]
pub struct CommunityConfig {
    pub community_id: u64,
    /// The channel where newcomers are greeted; no greeting without one.
    pub welcome_channel: Option<u64>,
    /// The role granted to members with a committed link.
    pub authenticated_role: Option<u64>,
    pub locale: String,
}

/// The links, keyed by chat user, and the community settings, keyed by
/// community.
pub struct LinkStore {
    links: HashMap<u64, LinkedAccount>,
    configs: HashMap<u64, CommunityConfig>,
}

impl View for LinkStore {
    type V = Map<u64, LinkedAccount>;

    closed spec fn view(&self) -> Map<u64, LinkedAccount> {
        self.links@
    }
}

impl LinkStore {
    /// The community settings, keyed by community.
    pub closed spec fn configs(&self) -> Map<u64, CommunityConfig> {
        self.configs@
    }

    /// Every link is filed under its own chat user, every setting under its
    /// own community.
    pub open spec fn wf(&self) -> bool {
        &&& forall|u: u64| #[trigger] self@.contains_key(u) ==> self@[u].chat_user_id == u
        &&& forall|c: u64| #[trigger]
            self.configs().contains_key(c) ==> self.configs()[c].community_id == c
    }

    pub fn new() -> (r: LinkStore)
        ensures
            r.wf(),
            r@ == Map::<u64, LinkedAccount>::empty(),
            r.configs() == Map::<u64, CommunityConfig>::empty(),
    {
        LinkStore { links: HashMap::new(), configs: HashMap::new() }
    }

    /// Inserts the link if the user has none; otherwise leaves the store as it
    /// was and reports `AlreadyLinked`.
    pub fn commit(&mut self, chat_user_id: u64, wiki_account_id: u64, now: u64) -> (r:
        CommitOutcome)
        requires
            old(self).wf(),
        ensures
            final(self).wf(),
            (final(self)@, r) == spec_commit(old(self)@, chat_user_id, wiki_account_id, now),
            final(self).configs() == old(self).configs(),
    {
        if self.links.contains_key(&chat_user_id) {
            CommitOutcome::AlreadyLinked
        } else {
            let link = LinkedAccount { chat_user_id, wiki_account_id, linked_at: now };
            self.links.insert(chat_user_id, link);
            assert forall|u: u64| #[trigger] self@.contains_key(u) implies self@[u].chat_user_id
                == u by {
                if u != chat_user_id {
                    assert(old(self)@.contains_key(u));
                }
            }
            CommitOutcome::Committed
        }
    }

    /// The link of a chat user, if any; reads only.
    pub fn lookup(&self, chat_user_id: u64) -> (r: Option<LinkedAccount>)
        ensures
            r == spec_lookup(self@, chat_user_id),
    {
        match self.links.get(&chat_user_id) {
            Some(l) => Some(*l),
            None => None,
        }
    }

    /// Removes the link of a chat user; tells whether there was one.
    pub fn unlink(&mut self, chat_user_id: u64) -> (r: bool)
        requires
            old(self).wf(),
        ensures
            final(self).wf(),
            r == old(self)@.contains_key(chat_user_id),
            final(self)@ == old(self)@.remove(chat_user_id),
            final(self).configs() == old(self).configs(),
    {
        let removed = self.links.remove(&chat_user_id);
        assert forall|u: u64| #[trigger] self@.contains_key(u) implies self@[u].chat_user_id
            == u by {
            assert(old(self)@.contains_key(u));
        }
        removed.is_some()
    }

    /// Records the settings of a community, replacing earlier ones.
    pub fn set_community_config(&mut self, config: CommunityConfig)
        requires
            old(self).wf(),
        ensures
            final(self).wf(),
            final(self)@ == old(self)@,
            final(self).configs() == old(self).configs().insert(config.community_id, config),
    {
        let ghost c0 = config;
        self.configs.insert(config.community_id, config);
        assert forall|c: u64| #[trigger] self.configs().contains_key(c) implies self.configs()[
            c].community_id == c by {
            if c != c0.community_id {
                assert(old(self).configs().contains_key(c));
            }
        }
        assert forall|u: u64| #[trigger] self@.contains_key(u) implies self@[u].chat_user_id
            == u by {
            assert(old(self)@.contains_key(u));
        }
    }

    /// The settings of a community, if it has any.
    pub fn community_config(&self, community_id: u64) -> (r: Option<&CommunityConfig>)
        ensures
            r == (if self.configs().contains_key(community_id) {
                Some(&self.configs()[community_id])
            } else {
                None::<&CommunityConfig>
            }),
    {
        self.configs.get(&community_id)
    }
}

/// A commit for a user who already has a link is rejected with
/// `AlreadyLinked`, and the links, that user's row among them, stay as they
/// were.
pub proof fn lemma_commit_existing_rejected(
    links: Map<u64, LinkedAccount>,
    chat_user_id: u64,
    wiki_account_id: u64,
    now: u64,
)
    requires
        links.contains_key(chat_user_id),
    ensures
        spec_commit(links, chat_user_id, wiki_account_id, now).1 == CommitOutcome::AlreadyLinked,
        spec_commit(links, chat_user_id, wiki_account_id, now).0 == links,
        spec_lookup(spec_commit(links, chat_user_id, wiki_account_id, now).0, chat_user_id)
            == spec_lookup(links, chat_user_id),
{
}

/// Once a user has a link, a lookup keeps returning that same link whatever
/// commit comes next, and whatever user other than this one is unlinked.
pub proof fn lemma_lookup_stable(
    links: Map<u64, LinkedAccount>,
    chat_user_id: u64,
    other_user: u64,
    wiki_account_id: u64,
    now: u64,
)
    requires
        spec_lookup(links, chat_user_id) is Some,
    ensures
        spec_lookup(spec_commit(links, other_user, wiki_account_id, now).0, chat_user_id)
            == spec_lookup(links, chat_user_id),
        other_user != chat_user_id ==> spec_lookup(links.remove(other_user), chat_user_id)
            == spec_lookup(links, chat_user_id),
{
}

} // verus!
