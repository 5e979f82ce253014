//! Reactions as the bot reads them: custom guild emoji or Unicode emoji, and
//! the text that stands for each.
use crate::text::{cat, decimal, str_eq, u64_to_decimal};
use vstd::prelude::*;

verus! {

/// A reaction's emoji.
pub enum ReactionKind {
    /// A guild's custom emoji.
    Custom { id: u64, name: Option<String>, animated: bool },
    /// A Unicode emoji.
    Unicode(String),
    /// A kind of reaction the bot does not know, with its debug rendering.
    Unrecognised(String),
}

/// A guild's custom emoji.
pub struct GuildEmoji {
    pub id: u64,
    pub name: String,
    pub animated: bool,
}

/// The text standing for a reaction: a custom emoji's name (or its id where
/// it has none), a Unicode emoji itself.
pub open spec fn spec_react_string(react: ReactionKind) -> Seq<char> {
    match react {
        ReactionKind::Custom { id, name, .. } => match name {
            Some(n) => n@,
            None => decimal(id as nat),
        },
        ReactionKind::Unicode(s) => s@,
        ReactionKind::Unrecognised(d) => "Unrecognised reaction type: "@ + d@,
    }
}

/// The text standing for a reaction.
pub fn get_string_from_react(react: &ReactionKind) -> (r: String)
    ensures
        r@ == spec_react_string(*react),
{
    match react {
        ReactionKind::Custom { id, name, .. } => match name {
            Some(n) => n.clone(),
            None => u64_to_decimal(*id),
        },
        ReactionKind::Unicode(s) => s.clone(),
        ReactionKind::Unrecognised(d) => cat("Unrecognised reaction type: ", d.as_str()),
    }
}

/// The reaction for a text, among a guild's custom emoji.
pub fn get_react_from_string(string: String, emojis: &Vec<GuildEmoji>) -> (r: ReactionKind)
    ensures
        match r {
            ReactionKind::Custom { id, name, animated } => exists|i: int|
                0 <= i < emojis@.len() && #[trigger] emojis@[i].name@ == string@ && (forall|j: int|
                    0 <= j < i ==> #[trigger] emojis@[j].name@ != string@) && id == emojis@[i].id
                    && name == Some(emojis@[i].name) && animated == emojis@[i].animated,
            ReactionKind::Unicode(s) => s@ == string@ && forall|i: int|
                0 <= i < emojis@.len() ==> #[trigger] emojis@[i].name@ != string@,
            ReactionKind::Unrecognised(_) => false,
        },
{
    let mut i: usize = 0;
    while i < emojis.len()
        invariant
            i <= emojis@.len(),
            forall|j: int| 0 <= j < i ==> #[trigger] emojis@[j].name@ != string@,
        decreases emojis@.len() - i,
    {
        if str_eq(emojis[i].name.as_str(), string.as_str()) {
            return ReactionKind::Custom {
                id: emojis[i].id,
                name: Some(emojis[i].name.clone()),
                animated: emojis[i].animated,
            };
        }
        i = i + 1;
    }
    ReactionKind::Unicode(string)
}

} // verus!
