//! The small commands: `source`, `say`, `cowsay`, and the welcome messages in
//! the readme channel.
use crate::discord::{
    codeblock_safe_text, italic, italic_text, named_link, named_link_text, spec_codeblock_safe,
};
use crate::helpers::random_below;
use crate::text::{cat, cat3, is_blank, is_blank_str};
use vstd::prelude::*;

verus! {

/// The reply to `source`.
pub open spec fn spec_source_text() -> Seq<char> {
    "You want to look at my insides!? Eurgh.\nJust kidding, you can go over "@ + italic(
        "every inch"@,
    ) + " of me here: https://github.com/uwapcs/discord-bot \u{1F609}"@
}

/// The reply to `source`.
pub fn source_text() -> (r: String)
    ensures
        r@ == spec_source_text(),
{
    let it = italic_text("every inch");
    cat3(
        "You want to look at my insides!? Eurgh.\nJust kidding, you can go over ",
        it.as_str(),
        " of me here: https://github.com/uwapcs/discord-bot \u{1F609}",
    )
}

/// Which mentions `say` makes harmless in what it repeats.
pub struct SayCleaning {
    pub clean_role: bool,
    pub clean_user: bool,
    pub clean_channel: bool,
    pub clean_here: bool,
    pub clean_everyone: bool,
    pub show_discriminator: bool,
    /// The guild whose member names user mentions are shown as.
    pub display_as_member_of: Option<u64>,
}

/// `say` repeats its argument with user and role mentions, `@here` and
/// `@everyone` defused and channel mentions left as they are; in a guild,
/// users are shown by their names in that guild.
pub fn say_cleaning(guild: Option<u64>) -> (r: SayCleaning)
    ensures
        r.clean_role,
        r.clean_user,
        !r.clean_channel,
        r.clean_here,
        r.clean_everyone,
        r.show_discriminator,
        r.display_as_member_of == guild,
{
    SayCleaning {
        clean_role: true,
        clean_user: true,
        clean_channel: false,
        clean_here: true,
        clean_everyone: true,
        show_discriminator: true,
        display_as_member_of: guild,
    }
}

/// What `cowsay` runs.
#[derive(Debug, PartialEq, Eq)]
pub enum CowsayPlan {
    /// `cowsay` with this single argument.
    Say(String),
    /// `fortune` piped into `cowsay` with a randomly chosen cow.
    Fortune,
}

/// `cowsay <text>` says the text in single quotes; with nothing to say, a
/// cow recites a fortune.
pub fn cowsay_plan(content: &str) -> (r: CowsayPlan)
    ensures
        !is_blank(content@) ==> (r matches CowsayPlan::Say(a) && a@ == "'"@ + content@ + "'"@),
        is_blank(content@) ==> r == CowsayPlan::Fortune,
{
    if !is_blank_str(content) {
        CowsayPlan::Say(cat3("'", content, "'"))
    } else {
        CowsayPlan::Fortune
    }
}

/// The cows a fortune is recited by.
pub open spec fn cow_names() -> Seq<Seq<char>> {
    seq![
        "www"@,
        "hellokitty"@,
        "bud-frogs"@,
        "koala"@,
        "suse"@,
        "three-eyes"@,
        "pony-smaller"@,
        "sheep"@,
        "vader"@,
        "cower"@,
        "moofasa"@,
        "elephant"@,
        "flaming-sheep"@,
        "skeleton"@,
        "snowman"@,
        "tux"@,
        "apt"@,
        "moose"@,
    ]
}

/// The path of a cow file.
pub open spec fn cow_path(name: Seq<char>) -> Seq<char> {
    "/usr/share/cowsay/cows/"@ + name + ".cow"@
}

fn cow_name(i: usize) -> (r: String)
    requires
        i < 18,
    ensures
        r@ == cow_names()[i as int],
{
    let r = if i == 0 {
        "www"
    } else if i == 1 {
        "hellokitty"
    } else if i == 2 {
        "bud-frogs"
    } else if i == 3 {
        "koala"
    } else if i == 4 {
        "suse"
    } else if i == 5 {
        "three-eyes"
    } else if i == 6 {
        "pony-smaller"
    } else if i == 7 {
        "sheep"
    } else if i == 8 {
        "vader"
    } else if i == 9 {
        "cower"
    } else if i == 10 {
        "moofasa"
    } else if i == 11 {
        "elephant"
    } else if i == 12 {
        "flaming-sheep"
    } else if i == 13 {
        "skeleton"
    } else if i == 14 {
        "snowman"
    } else if i == 15 {
        "tux"
    } else if i == 16 {
        "apt"
    } else {
        "moose"
    };
    r.to_owned()
}

/// The cow file for the cow at `index` in the list.
pub fn cow_file_at(index: usize) -> (r: String)
    requires
        index < 18,
    ensures
        r@ == cow_path(cow_names()[index as int]),
{
    let name = cow_name(index);
    cat3("/usr/share/cowsay/cows/", name.as_str(), ".cow")
}

/// The cow file of a randomly chosen cow.
pub fn random_cow_file() -> (r: String)
    ensures
        exists|i: int| 0 <= i < 18 && r@ == cow_path(#[trigger] cow_names()[i]),
{
    let i = random_below(18);
    cow_file_at(i)
}

/// The message that shows `cowsay`'s output: a code block with the output
/// made safe to post.
pub fn cowsay_message(output: &str) -> (r: String)
    ensures
        r@ == spec_codeblock_safe(output@),
{
    codeblock_safe_text(output)
}

/// The readme channel's welcome embed.
pub struct WelcomeEmbed {
    pub author_name: String,
    pub author_url: String,
    pub title: String,
    pub description: String,
    pub rules: String,
    pub github: String,
}

/// The welcome embed's description.
pub open spec fn spec_welcome_description() -> Seq<char> {
    named_link("**PCS Website**"@, "https://pcs.org.au/about"@)
        + "\n\nYou don't need to be a member to be here (although it definitely helps); so just sit back, relax, and enjoy!\n"@
}

/// The welcome embed's GitHub field.
pub open spec fn spec_welcome_github() -> Seq<char> {
    named_link("Constitution"@, "https://github.com/uwapcs/constitution"@) + named_link(
        "\nMinutes"@,
        "https://github.com/uwapcs/minutes"@,
    ) + named_link("\nBot"@, "https://github.com/uwapcs/discord-bot"@)
}

/// The readme channel's welcome embed.
pub fn welcome_embed() -> (r: WelcomeEmbed)
    ensures
        r.author_name@ == "PCS Bot"@,
        r.author_url@ == "https://github.com/uwapcs/discord-bot"@,
        r.title@ == "Welcome to the PCS Discord!"@,
        r.description@ == spec_welcome_description(),
        r.rules@
            == "We'd appreciate it if you'd follow the Freenode Channel Guidelines\nhttps://freenode.org/changuide"@,
        r.github@ == spec_welcome_github(),
{
    let link = named_link_text("**PCS Website**", "https://pcs.org.au/about");
    let description = cat(
        link.as_str(),
        "\n\nYou don't need to be a member to be here (although it definitely helps); so just sit back, relax, and enjoy!\n",
    );
    let c = named_link_text("Constitution", "https://github.com/uwapcs/constitution");
    let m = named_link_text("\nMinutes", "https://github.com/uwapcs/minutes");
    let b = named_link_text("\nBot", "https://github.com/uwapcs/discord-bot");
    let github = cat3(c.as_str(), m.as_str(), b.as_str());
    WelcomeEmbed {
        author_name: String::from_str("PCS Bot"),
        author_url: String::from_str("https://github.com/uwapcs/discord-bot"),
        title: String::from_str("Welcome to the PCS Discord!"),
        description,
        rules: String::from_str(
            "We'd appreciate it if you'd follow the Freenode Channel Guidelines\nhttps://freenode.org/changuide",
        ),
        github,
    }
}

/// The second welcome message: the permanent invite.
pub fn invite_text() -> (r: String)
    ensures
        r@ == "**Permanent discord link**: https://discord.gg/2WaTYnj"@,
{
    String::from_str("**Permanent discord link**: https://discord.gg/2WaTYnj")
}

} // verus!
