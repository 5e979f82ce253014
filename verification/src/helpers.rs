//! Telling messages apart, routing reactions, and the bot's replies to
//! being mentioned.
use crate::config::UccbotConfig;
use crate::text::{before_char, cat3, contains_seq, contains_str, decimal, split_once_char, str_eq, u64_to_decimal};
use rand::Rng;
use vstd::prelude::*;

verus! {

/// `rand::thread_rng().gen_range(0, n)`: an index below `n`; which one is
/// left to chance.
#[verifier::external_body]
pub fn random_below(n: usize) -> (r: usize)
    requires
        n > 0,
    ensures
        r < n,
{
    rand::thread_rng().gen_range(0, n)
}

/// What kind of message a reaction was added to.
#[derive(Debug, PartialEq, Eq, Clone, Copy, Structural)]
pub enum MessageType {
    Motion,
    Role,
    RoleReactMessage,
    Poll,
    Misc,
}

/// What the bot reads of a message to tell its kind: its id, its text, and
/// the titles of its embeds.
pub struct MessageInfo {
    pub id: u64,
    pub content: String,
    pub embed_titles: Vec<Option<String>>,
}

/// A message's kind: a role-reaction message by id; without embeds, `Role`
/// when its first word is `Role`; with embeds, by the first word of the first
/// embed's title, `Motion` or `Poll`; otherwise `Misc`.
pub open spec fn spec_message_type(config: &UccbotConfig, message: &MessageInfo) -> MessageType {
    if config.spec_is_role_message(message.id) {
        MessageType::RoleReactMessage
    } else if message.embed_titles@.len() == 0 {
        if before_char(message.content@, ' ') == "Role"@ {
            MessageType::Role
        } else {
            MessageType::Misc
        }
    } else {
        let word = before_char(message.embed_titles@[0]->0@, ' ');
        if word == "Motion"@ {
            MessageType::Motion
        } else if word == "Poll"@ {
            MessageType::Poll
        } else {
            MessageType::Misc
        }
    }
}

/// The kind of a message. A message with embeds whose first embed has no
/// title is left out: reading its title would panic.
pub fn get_message_type(config: &UccbotConfig, message: &MessageInfo) -> (r: MessageType)
    requires
        !config.spec_is_role_message(message.id) && message.embed_titles@.len() > 0
            ==> message.embed_titles@[0] is Some,
    ensures
        r == spec_message_type(config, message),
{
    if config.is_role_message(message.id) {
        return MessageType::RoleReactMessage;
    }
    if message.embed_titles.len() == 0 {
        let (word, _) = split_once_char(message.content.as_str(), ' ');
        return if str_eq(word.as_str(), "Role") {
            MessageType::Role
        } else {
            MessageType::Misc
        };
    }
    let title = match &message.embed_titles[0] {
        Some(t) => t,
        None => {
            return MessageType::Misc;
        },
    };
    let (word, _) = split_once_char(title.as_str(), ' ');
    if str_eq(word.as_str(), "Motion") {
        MessageType::Motion
    } else if str_eq(word.as_str(), "Poll") {
        MessageType::Poll
    } else {
        MessageType::Misc
    }
}

/// Where a reaction event goes.
#[derive(Debug, PartialEq, Eq, Clone, Copy, Structural)]
pub enum ReactionRoute {
    /// To the role-reaction handling.
    RoleReaction,
    /// To the motion's vote handling.
    Motion,
    /// Nowhere.
    Ignore,
}

/// Reactions on a role-reaction message go to role handling unless the bot
/// made them; otherwise only reactions by others on the bot's own motions go
/// to vote handling.
pub open spec fn spec_route_reaction(
    config: &UccbotConfig,
    kind: MessageType,
    reactor: u64,
    author: u64,
) -> ReactionRoute {
    if kind == MessageType::RoleReactMessage && reactor != config.bot_id {
        ReactionRoute::RoleReaction
    } else if author != config.bot_id || reactor == config.bot_id {
        ReactionRoute::Ignore
    } else if kind == MessageType::Motion {
        ReactionRoute::Motion
    } else {
        ReactionRoute::Ignore
    }
}

/// Where an added or removed reaction by `reactor` on a message by `author`
/// of kind `kind` goes.
pub fn route_reaction(config: &UccbotConfig, kind: MessageType, reactor: u64, author: u64) -> (r:
    ReactionRoute)
    ensures
        r == spec_route_reaction(config, kind, reactor, author),
        reactor == config.bot_id ==> r == ReactionRoute::Ignore,
{
    match kind {
        MessageType::RoleReactMessage if reactor != config.bot_id => ReactionRoute::RoleReaction,
        _ if author != config.bot_id || reactor == config.bot_id => ReactionRoute::Ignore,
        MessageType::Motion => ReactionRoute::Motion,
        _ => ReactionRoute::Ignore,
    }
}

/// Whether a message mentions the bot, as `<@!id>` or `<@id>`.
pub open spec fn spec_mentions_bot(content: Seq<char>, bot_id: u64) -> bool {
    contains_seq(content, "<@!"@ + decimal(bot_id as nat) + ">"@) || contains_seq(
        content,
        "<@"@ + decimal(bot_id as nat) + ">"@,
    )
}

/// Whether a message mentions the bot.
pub fn mentions_bot(content: &str, bot_id: u64) -> (r: bool)
    ensures
        r == spec_mentions_bot(content@, bot_id),
{
    let id = u64_to_decimal(bot_id);
    let nick = cat3("<@!", id.as_str(), ">");
    let plain = cat3("<@", id.as_str(), ">");
    contains_str(content, nick.as_str()) || contains_str(content, plain.as_str())
}

/// Whether the configuration's list of mention responses, if it has one, is
/// non-empty (choosing from an empty list panics).
pub open spec fn responses_usable(config: &UccbotConfig) -> bool {
    match config.mention_responses {
        Some(list) => list@.len() > 0,
        None => true,
    }
}

/// The reply to a mention: the response at `index`, where responses are
/// configured.
pub fn sassy_at(config: &UccbotConfig, index: usize) -> (r: Option<String>)
    requires
        match config.mention_responses {
            Some(list) => index < list@.len(),
            None => true,
        },
    ensures
        match config.mention_responses {
            Some(list) => r matches Some(s) && s@ == list@[index as int]@,
            None => r is None,
        },
{
    match &config.mention_responses {
        Some(list) => Some(list[index].clone()),
        None => None,
    }
}

/// The reply to a mention: one of the configured responses, picked at
/// random, or none where none are configured.
pub fn sassy(config: &UccbotConfig) -> (r: Option<String>)
    requires
        responses_usable(config),
    ensures
        match config.mention_responses {
            Some(list) => r matches Some(s) && list@.map_values(|x: String| x@).contains(s@),
            None => r is None,
        },
{
    match &config.mention_responses {
        Some(list) => {
            let i = random_below(list.len());
            let r = sassy_at(config, i);
            assert(list@.map_values(|x: String| x@)[i as int] == list@[i as int]@);
            r
        },
        None => None,
    }
}

} // verus!
