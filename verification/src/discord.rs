//! Discord message markup: mentions, bold/italic/monospace text, code blocks
//! and links, as serenity's `MessageBuilder` writes them, and the parts of an
//! embed the bot fills in.
use crate::text::{cat3, decimal, replace_all, replace_str, u64_to_decimal};
use vstd::prelude::*;

verus! {

/// `<@id>`, how serenity mentions a user or member.
pub open spec fn user_mention(id: u64) -> Seq<char> {
    "<@"@ + decimal(id as nat) + ">"@
}

/// `<@&id>`, how serenity mentions a role.
pub open spec fn role_mention(id: u64) -> Seq<char> {
    "<@&"@ + decimal(id as nat) + ">"@
}

/// `<#id>`, how serenity mentions a channel.
pub open spec fn channel_mention(id: u64) -> Seq<char> {
    "<#"@ + decimal(id as nat) + ">"@
}

/// `**s**` (`push_bold`).
pub open spec fn bold(s: Seq<char>) -> Seq<char> {
    "**"@ + s + "**"@
}

/// `_s_` (`push_italic`).
pub open spec fn italic(s: Seq<char>) -> Seq<char> {
    "_"@ + s + "_"@
}

/// `` `s` `` (`push_mono`).
pub open spec fn mono(s: Seq<char>) -> Seq<char> {
    "`"@ + s + "`"@
}

/// A code block without a language (`push_codeblock(s, None)`).
pub open spec fn codeblock(s: Seq<char>) -> Seq<char> {
    "```\n"@ + s + "\n```"@
}

/// `[name](url)` (`push_named_link`).
pub open spec fn named_link(name: Seq<char>, url: Seq<char>) -> Seq<char> {
    "["@ + name + "]("@ + url + ")"@
}

/// Text with invite links broken, right-to-left marks and zero-width
/// characters blanked, and `@everyone` and `@here` made not to ping, each
/// replacement made over the whole text in this order.
pub open spec fn safe_text(s: Seq<char>) -> Seq<char> {
    let s = replace_all(s, "discord.gg"@, "discord\u{2024}gg"@);
    let s = replace_all(s, "discord.me"@, "discord\u{2024}me"@);
    let s = replace_all(s, "discordlist.net"@, "discordlist\u{2024}net"@);
    let s = replace_all(s, "discordservers.com"@, "discordservers\u{2024}com"@);
    let s = replace_all(s, "discord.com/invite"@, "discord\u{2024}com/invite"@);
    let s = replace_all(s, "discordapp.com/invite"@, "discordapp\u{2024}com/invite"@);
    let s = replace_all(s, "\u{202E}"@, " "@);
    let s = replace_all(s, "\u{200F}"@, " "@);
    let s = replace_all(s, "\u{202B}"@, " "@);
    let s = replace_all(s, "\u{200B}"@, " "@);
    let s = replace_all(s, "\u{200D}"@, " "@);
    let s = replace_all(s, "\u{200C}"@, " "@);
    let s = replace_all(s, "@everyone"@, "@\u{200B}everyone"@);
    replace_all(s, "@here"@, "@\u{200B}here"@)
}

/// A code block without a language holding `content` made safe, with
/// triple backticks in it blanked (`push_codeblock_safe(content, None)`).
pub open spec fn spec_codeblock_safe(content: Seq<char>) -> Seq<char> {
    "```\n"@ + replace_all(safe_text(content), "```"@, " "@) + "\n```"@
}

pub fn user_mention_text(id: u64) -> (r: String)
    ensures
        r@ == user_mention(id),
{
    let d = u64_to_decimal(id);
    cat3("<@", d.as_str(), ">")
}

pub fn role_mention_text(id: u64) -> (r: String)
    ensures
        r@ == role_mention(id),
{
    let d = u64_to_decimal(id);
    cat3("<@&", d.as_str(), ">")
}

pub fn channel_mention_text(id: u64) -> (r: String)
    ensures
        r@ == channel_mention(id),
{
    let d = u64_to_decimal(id);
    cat3("<#", d.as_str(), ">")
}

pub fn bold_text(s: &str) -> (r: String)
    ensures
        r@ == bold(s@),
{
    cat3("**", s, "**")
}

pub fn italic_text(s: &str) -> (r: String)
    ensures
        r@ == italic(s@),
{
    cat3("_", s, "_")
}

pub fn mono_text(s: &str) -> (r: String)
    ensures
        r@ == mono(s@),
{
    cat3("`", s, "`")
}

pub fn codeblock_text(s: &str) -> (r: String)
    ensures
        r@ == codeblock(s@),
{
    cat3("```\n", s, "\n```")
}

pub fn named_link_text(name: &str, url: &str) -> (r: String)
    ensures
        r@ == named_link(name@, url@),
{
    let mut r = cat3("[", name, "](");
    r.append(url);
    r.append(")");
    r
}

/// `content` made safe to post: the replacements of `safe_text`, in order.
pub fn safe_text_str(content: &str) -> (r: String)
    ensures
        r@ == safe_text(content@),
{
    proof {
        reveal_strlit("discord.gg");
        reveal_strlit("discord.me");
        reveal_strlit("discordlist.net");
        reveal_strlit("discordservers.com");
        reveal_strlit("discord.com/invite");
        reveal_strlit("discordapp.com/invite");
        reveal_strlit("\u{202E}");
        reveal_strlit("\u{200F}");
        reveal_strlit("\u{202B}");
        reveal_strlit("\u{200B}");
        reveal_strlit("\u{200D}");
        reveal_strlit("\u{200C}");
        reveal_strlit("@everyone");
        reveal_strlit("@here");
    }
    let s = replace_str(content, "discord.gg", "discord\u{2024}gg");
    let s = replace_str(s.as_str(), "discord.me", "discord\u{2024}me");
    let s = replace_str(s.as_str(), "discordlist.net", "discordlist\u{2024}net");
    let s = replace_str(s.as_str(), "discordservers.com", "discordservers\u{2024}com");
    let s = replace_str(s.as_str(), "discord.com/invite", "discord\u{2024}com/invite");
    let s = replace_str(s.as_str(), "discordapp.com/invite", "discordapp\u{2024}com/invite");
    let s = replace_str(s.as_str(), "\u{202E}", " ");
    let s = replace_str(s.as_str(), "\u{200F}", " ");
    let s = replace_str(s.as_str(), "\u{202B}", " ");
    let s = replace_str(s.as_str(), "\u{200B}", " ");
    let s = replace_str(s.as_str(), "\u{200D}", " ");
    let s = replace_str(s.as_str(), "\u{200C}", " ");
    let s = replace_str(s.as_str(), "@everyone", "@\u{200B}everyone");
    replace_str(s.as_str(), "@here", "@\u{200B}here")
}

/// A code block without a language holding `content` made safe, with triple
/// backticks blanked: what serenity's `push_codeblock_safe(content, None)`
/// writes.
pub fn codeblock_safe_text(content: &str) -> (r: String)
    ensures
        r@ == spec_codeblock_safe(content@),
{
    let safe = safe_text_str(content);
    proof {
        reveal_strlit("```");
    }
    let inner = replace_str(safe.as_str(), "```", " ");
    cat3("```\n", inner.as_str(), "\n```")
}

/// The colours the bot gives its embeds.
#[derive(Debug, PartialEq, Eq, Clone, Copy, Structural)]
pub enum EmbedColour {
    Gold,
    Blue,
    Teal,
    Red,
    LightGrey,
    LighterGrey,
}

/// A field of an embed.
pub struct EmbedField {
    pub name: String,
    pub value: String,
    pub inline: bool,
}

/// The spec view of an embed field.
pub open spec fn field_view(f: EmbedField) -> (Seq<char>, Seq<char>, bool) {
    (f.name@, f.value@, f.inline)
}

pub open spec fn fields_view(fs: Seq<EmbedField>) -> Seq<(Seq<char>, Seq<char>, bool)> {
    fs.map_values(|f: EmbedField| field_view(f))
}

/// A field with the given name, value and inline flag.
pub fn field(name: String, value: String, inline: bool) -> (r: EmbedField)
    ensures
        field_view(r) == (name@, value@, inline),
{
    EmbedField { name, value, inline }
}

} // verus!
