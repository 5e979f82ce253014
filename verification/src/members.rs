//! Member accounts: linking a Discord user to a club account, the member
//! record and its nickname, and the texts that welcome new members.
use crate::config::UccbotConfig;
use crate::directory::{LDAPUser, TLA};
use crate::discord::{
    channel_mention, channel_mention_text, mono, mono_text, user_mention, user_mention_text,
};
use crate::helpers::random_below;
use crate::text::{cat, cat3, str_eq};
use crate::tokens::{token_error_text, TokenError};
use vstd::prelude::*;

verus! {

/// A member's record.
pub struct Member {
    pub discord_id: i64,
    pub tla: Option<String>,
    pub username: String,
    pub member_since: Option<String>,
    pub name: Option<String>,
    pub biography: Option<String>,
    pub github: Option<String>,
    pub photo: Option<String>,
    pub website: Option<String>,
    pub study: Option<String>,
}

pub open spec fn opt_view(o: Option<String>) -> Option<Seq<char>> {
    match o {
        Some(s) => Some(s@),
        None => None,
    }
}

/// What `str::to_uppercase` returns for the text.
pub uninterp spec fn spec_to_uppercase(s: Seq<char>) -> Seq<char>;

/// `str::to_uppercase` (Unicode upper-case mapping). Its result is named.
#[verifier::external_body]
pub(crate) fn to_uppercase(s: &str) -> (r: String)
    ensures
        r@ == spec_to_uppercase(s@),
{
    s.to_uppercase()
}

/// The nickname for `username` with the TLA `tla`, given `upper`, the
/// username upper-cased: the username, and the TLA in brackets where it
/// differs from `upper`.
pub open spec fn nickname_with(username: Seq<char>, tla: Option<Seq<char>>, upper: Seq<char>) -> Seq<
    char,
> {
    match tla {
        Some(t) => if upper == t {
            username
        } else {
            username + " ["@ + t + "]"@
        },
        None => username,
    }
}

/// The nickname a member gets: the username, and the TLA in brackets where
/// it differs from the upper-cased username.
pub open spec fn spec_member_nickname(username: Seq<char>, tla: Option<Seq<char>>) -> Seq<char> {
    nickname_with(username, tla, spec_to_uppercase(username))
}

/// The nickname for `username` and `tla`, given the username upper-cased.
pub fn nickname_given_upper(username: &str, tla: &Option<String>, upper: &str) -> (r: String)
    ensures
        r@ == nickname_with(username@, opt_view(*tla), upper@),
{
    match tla {
        Some(t) => {
            if str_eq(upper, t.as_str()) {
                username.to_owned()
            } else {
                let mut r = cat3(username, " [", t.as_str());
                r.append("]");
                r
            }
        },
        None => username.to_owned(),
    }
}

/// The nickname a member gets.
pub fn member_nickname(member: &Member) -> (r: String)
    ensures
        r@ == spec_member_nickname(member.username@, opt_view(member.tla)),
{
    let upper = to_uppercase(member.username.as_str());
    nickname_given_upper(member.username.as_str(), &member.tla, upper.as_str())
}

/// The record of a newly verified member: the Discord id (as the database's
/// signed integer), the username, the LDAP display name and the TLA where
/// those were found, and nothing else yet.
pub fn new_member_record(
    discord_id: u64,
    username: &str,
    ldap_user: &Option<LDAPUser>,
    tla: &Option<TLA>,
) -> (r: Member)
    ensures
        r.discord_id == discord_id as i64,
        r.username@ == username@,
        opt_view(r.name) == match ldap_user {
            Some(u) => Some(u.name@),
            None => None,
        },
        opt_view(r.tla) == match tla {
            Some(t) => opt_view(t.tla),
            None => None,
        },
        r.member_since is None,
        r.biography is None,
        r.github is None,
        r.photo is None,
        r.website is None,
        r.study is None,
{
    let name = match ldap_user {
        Some(u) => Some(u.name.clone()),
        None => None,
    };
    let t = match tla {
        Some(t) => match &t.tla {
            Some(s) => Some(s.clone()),
            None => None,
        },
        None => None,
    };
    Member {
        discord_id: discord_id as i64,
        tla: t,
        username: username.to_owned(),
        member_since: None,
        name,
        biography: None,
        github: None,
        photo: None,
        website: None,
        study: None,
    }
}

/// The account names that cannot be registered.
pub open spec fn spec_is_reserved_name(name: Seq<char>) -> bool {
    name == "committee"@ || name == "committee-only"@ || name == "ucc"@ || name == "ucc-announce"@
        || name == "tech"@ || name == "wheel"@ || name == "door"@ || name == "coke"@
}

/// Whether `name` is reserved.
pub fn is_reserved_name(name: &str) -> (r: bool)
    ensures
        r == spec_is_reserved_name(name@),
{
    str_eq(name, "committee") || str_eq(name, "committee-only") || str_eq(name, "ucc") || str_eq(
        name,
        "ucc-announce",
    ) || str_eq(name, "tech") || str_eq(name, "wheel") || str_eq(name, "door") || str_eq(
        name,
        "coke",
    )
}

/// The replies to an attempt to register a taken or reserved name.
pub open spec fn sass_lines() -> Seq<Seq<char>> {
    seq![
        "Please. As if I'd fall for that."@,
        "Did you really think a stunt like that would work?"@,
        "Nothing slips past me."@,
        "Did you even read the first line of !help?"@,
        "I never treated you this badly."@,
    ]
}

/// The sassy reply at `index` in the list.
pub fn sass_line(index: usize) -> (r: String)
    requires
        index < 5,
    ensures
        r@ == sass_lines()[index as int],
{
    if index == 0 {
        String::from_str("Please. As if I'd fall for that.")
    } else if index == 1 {
        String::from_str("Did you really think a stunt like that would work?")
    } else if index == 2 {
        String::from_str("Nothing slips past me.")
    } else if index == 3 {
        String::from_str("Did you even read the first line of !help?")
    } else {
        String::from_str("I never treated you this badly.")
    }
}

/// One of the sassy replies, picked at random.
pub fn random_sass() -> (r: String)
    ensures
        sass_lines().contains(r@),
{
    let i = random_below(5);
    let r = sass_line(i);
    assert(r@ == sass_lines()[i as int]);
    r
}

/// What `!register <name>` leads to.
#[derive(Debug, PartialEq, Eq)]
pub enum RegisterOutcome {
    /// Explain the command.
    Usage(String),
    /// The name is reserved or taken: reply with sass.
    Sass,
    /// No such account: say so.
    NotFound(String),
    /// Send the link email, after this reply.
    Proceed(String),
}

pub open spec fn register_view(o: RegisterOutcome) -> (int, Seq<char>) {
    match o {
        RegisterOutcome::Usage(s) => (0, s@),
        RegisterOutcome::Sass => (1, Seq::empty()),
        RegisterOutcome::NotFound(s) => (2, s@),
        RegisterOutcome::Proceed(s) => (3, s@),
    }
}

/// Registering: an empty name gets the usage, a reserved or taken name gets
/// sass, an account unknown to LDAP is reported, and otherwise the link
/// email is announced.
pub open spec fn spec_register(
    prefix: Seq<char>,
    account_name: Seq<char>,
    taken: bool,
    ldap_found: bool,
) -> (int, Seq<char>) {
    if account_name.len() == 0 {
        (0, "Usage: "@ + prefix + "register <username>"@)
    } else if spec_is_reserved_name(account_name) || taken {
        (1, Seq::empty())
    } else if !ldap_found {
        (2, "I couldn't find an account with the username '"@ + account_name + "'"@)
    } else {
        (3, "Ok "@ + account_name + ", see the email I've just sent you to complete the link"@)
    }
}

/// What `!register <account_name>` leads to, given whether the name is
/// already registered and whether LDAP knows it (each read only where the
/// steps before it did not decide).
pub fn register(config: &UccbotConfig, account_name: &str, taken: bool, ldap_found: bool) -> (r:
    RegisterOutcome)
    ensures
        register_view(r) == spec_register(config.command_prefix@, account_name@, taken, ldap_found),
{
    if account_name.is_empty() {
        RegisterOutcome::Usage(cat3("Usage: ", config.command_prefix.as_str(), "register <username>"))
    } else if is_reserved_name(account_name) || taken {
        RegisterOutcome::Sass
    } else if !ldap_found {
        RegisterOutcome::NotFound(
            cat3("I couldn't find an account with the username '", account_name, "'"),
        )
    } else {
        RegisterOutcome::Proceed(
            cat3(
                "Ok ",
                account_name,
                ", see the email I've just sent you to complete the link",
            ),
        )
    }
}

/// The body of the email that carries a link token.
pub open spec fn spec_link_email(prefix: Seq<char>, account_name: Seq<char>, token: Seq<char>) -> Seq<
    char,
> {
    "<h3>Link your Discord account</h3><p>Hi "@ + account_name
        + ", to complete the link, go to the discord server and enter<pre>"@ + prefix + "verify "@
        + token + "</pre></p><sub>The UCC discord bot</sub>"@
}

/// The body of the email that carries a link token.
pub fn link_email_body(config: &UccbotConfig, account_name: &str, token: &str) -> (r: String)
    ensures
        r@ == spec_link_email(config.command_prefix@, account_name@, token@),
{
    let mut r = cat3("<h3>Link your Discord account</h3><p>Hi ", account_name, ", to complete the link, go to the discord server and enter<pre>");
    r.append(config.command_prefix.as_str());
    r.append("verify ");
    r.append(token);
    r.append("</pre></p><sub>The UCC discord bot</sub>");
    r
}

/// The address a link email goes to.
pub fn email_address(account_name: &str) -> (r: String)
    ensures
        r@ == account_name@ + "@ucc.asn.au"@,
{
    cat(account_name, "@ucc.asn.au")
}

/// The reply to a successful verification.
pub open spec fn spec_verified_text(prefix: Seq<char>, username: Seq<char>) -> Seq<char> {
    "Verification was sucessful "@ + username
        + ". To proide a friendly introduction to yourself consider doing "@ + mono(
        prefix + "set bio <info>"@,
    )
}

pub fn verified_text(config: &UccbotConfig, username: &str) -> (r: String)
    ensures
        r@ == spec_verified_text(config.command_prefix@, username@),
{
    let mut r = cat3("Verification was sucessful ", username, ". To proide a friendly introduction to yourself consider doing ");
    let cmd = cat(config.command_prefix.as_str(), "set bio <info>");
    let m = mono_text(cmd.as_str());
    r.append(m.as_str());
    r
}

/// The reply to a refused verification.
pub fn verification_error_text(e: TokenError) -> (r: String)
    ensures
        r@ == "Verification error: "@ + token_error_text(e),
{
    let t = e.to_string();
    cat("Verification error: ", t.as_str())
}

/// The welcome posted in the welcome channel for a new member.
pub open spec fn spec_welcome_text(config: &UccbotConfig, member: u64) -> Seq<char> {
    "Nice to see you here "@ + user_mention(member) + "! Would you care to introduce yourself?\n"@
        + "If you're not sure where to start, perhaps you could tell us about your projects, your first computer\u{2026}\n"@
        + "You should also know that we follow the Freenode Channel Guidelines: https://freenode.net/changuide, and try to avoid defamatory content.\n"@
        + "Make sure to check out \n"@ + channel_mention(config.readme_channel)
        + " to get yourself some roles for directed pings \u{1F60A}, and \n"@ + mono(
        config.command_prefix@ + "register username"@,
    ) + " to link to your UCC account.\n"@
}

/// The welcome for a new member.
pub fn welcome_text(config: &UccbotConfig, member: u64) -> (r: String)
    ensures
        r@ == spec_welcome_text(config, member),
{
    let m = user_mention_text(member);
    let mut r = cat3("Nice to see you here ", m.as_str(), "! Would you care to introduce yourself?\n");
    r.append("If you're not sure where to start, perhaps you could tell us about your projects, your first computer\u{2026}\n");
    r.append("You should also know that we follow the Freenode Channel Guidelines: https://freenode.net/changuide, and try to avoid defamatory content.\n");
    r.append("Make sure to check out \n");
    let c = channel_mention_text(config.readme_channel);
    r.append(c.as_str());
    r.append(" to get yourself some roles for directed pings \u{1F60A}, and \n");
    let cmd = cat(config.command_prefix.as_str(), "register username");
    let mo = mono_text(cmd.as_str());
    r.append(mo.as_str());
    r.append(" to link to your UCC account.\n");
    r
}

/// The note in the main channel about a new member.
pub fn say_hi_text(config: &UccbotConfig, display_name: &str) -> (r: String)
    ensures
        r@ == "Say hi to "@ + display_name@ + " in "@ + channel_mention(config.welcome_channel),
{
    let c = channel_mention_text(config.welcome_channel);
    let mut r = cat3("Say hi to ", display_name, " in ");
    r.append(c.as_str());
    r
}

} // verus!
