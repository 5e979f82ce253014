use uccbot::commands::{cow_file_at, cowsay_message, cowsay_plan, invite_text, random_cow_file, say_cleaning, source_text, welcome_embed, CowsayPlan};
use uccbot::config::{ReactionMapping, UccbotConfig, VoteKind};
use uccbot::discord::{bold_text, channel_mention_text, codeblock_safe_text, codeblock_text, italic_text, mono_text, named_link_text, role_mention_text, user_mention_text};
use uccbot::helpers::{get_message_type, mentions_bot, route_reaction, sassy, sassy_at, MessageInfo, MessageType, ReactionRoute};
use uccbot::react::{get_react_from_string, get_string_from_react, GuildEmoji, ReactionKind};
use uccbot::roles::{bot_needs_to_react, member_role_changes, plan_role_sync, GuildMember, RoleReactors};

fn config() -> UccbotConfig {
    UccbotConfig {
        server_id: 1,
        main_channel: 2,
        welcome_channel: 3,
        announcement_channel: 4,
        readme_channel: 5,
        bot_id: 99,
        vote_pool_size: 7,
        vote_role: 6,
        tiebreaker_role: 7,
        unregistered_member_role: 8,
        registered_member_role: 9,
        command_prefix: "!".to_string(),
        for_vote: "👍".to_string(),
        against_vote: "👎".to_string(),
        abstain_vote: "🙊".to_string(),
        approve_react: "⬆".to_string(),
        disapprove_react: "⬇".to_string(),
        unsure_react: "❔".to_string(),
        react_role_messages: vec![
            ReactionMapping::from_pairs(
                10,
                vec![("rust".to_string(), 100), ("🐍".to_string(), 101), ("rust".to_string(), 102)],
            ),
            ReactionMapping::from_pairs(10, vec![("rust".to_string(), 200)]),
            ReactionMapping::from_pairs(11, vec![("go".to_string(), 300)]),
        ],
        mention_responses: Some(vec!["hi".to_string(), "what".to_string()]),
        bind_address: String::new(),
        ldap_pass: String::new(),
    }
}

#[test]
fn allowed_reacts_in_order() {
    let c = config();
    assert_eq!(c.allowed_reacts(), vec!["👍", "👎", "🙊", "⬆", "⬇", "❔"]);
    assert!(c.is_allowed_react("❔"));
    assert!(!c.is_allowed_react("🎉"));
    assert_eq!(c.vote_kind("🙊"), Some(VoteKind::Abstain));
    assert_eq!(c.vote_kind("⬆"), None);
}

#[test]
fn reaction_mapping_insert_keeps_first_place() {
    let c = config();
    let m = &c.react_role_messages[0];
    assert_eq!(m.entries(), vec![("rust".to_string(), 102), ("🐍".to_string(), 101)]);
    assert_eq!(m.role_for("rust"), Some(102));
    assert_eq!(m.role_for("go"), None);
    assert!(m.grants_role("🐍"));
    assert!(!m.grants_role("go"));
}

#[test]
fn role_for_reaction_uses_first_mapping_of_message() {
    let c = config();
    assert_eq!(c.role_for_reaction(10, "rust"), Some(102));
    assert_eq!(c.role_for_reaction(11, "go"), Some(300));
    assert_eq!(c.role_for_reaction(11, "rust"), None);
    assert_eq!(c.role_for_reaction(12, "go"), None);
    assert!(c.is_role_message(11));
    assert!(!c.is_role_message(12));
}

#[test]
fn markup() {
    assert_eq!(user_mention_text(42), "<@42>");
    assert_eq!(role_mention_text(42), "<@&42>");
    assert_eq!(channel_mention_text(42), "<#42>");
    assert_eq!(bold_text("a"), "**a**");
    assert_eq!(italic_text("a"), "_a_");
    assert_eq!(mono_text("a"), "`a`");
    assert_eq!(codeblock_text("a"), "```\na\n```");
    assert_eq!(named_link_text("n", "u"), "[n](u)");
    assert_eq!(codeblock_safe_text("join discord.gg/x @everyone"), "```\njoin discord\u{2024}gg/x @\u{200B}everyone\n```");
}

fn message(id: u64, content: &str, titles: Vec<Option<&str>>) -> MessageInfo {
    MessageInfo {
        id,
        content: content.to_string(),
        embed_titles: titles.into_iter().map(|t| t.map(|s| s.to_string())).collect(),
    }
}

#[test]
fn message_types() {
    let c = config();
    assert_eq!(get_message_type(&c, &message(10, "Role x", vec![])), MessageType::RoleReactMessage);
    assert_eq!(get_message_type(&c, &message(1, "Role x", vec![])), MessageType::Role);
    assert_eq!(get_message_type(&c, &message(1, "Roles", vec![])), MessageType::Misc);
    assert_eq!(get_message_type(&c, &message(1, "", vec![Some("Motion to x")])), MessageType::Motion);
    assert_eq!(get_message_type(&c, &message(1, "", vec![Some("Poll x")])), MessageType::Poll);
    assert_eq!(get_message_type(&c, &message(1, "", vec![Some("Motions")])), MessageType::Misc);
}

#[test]
fn reaction_routes() {
    let c = config();
    assert_eq!(route_reaction(&c, MessageType::RoleReactMessage, 5, 1), ReactionRoute::RoleReaction);
    assert_eq!(route_reaction(&c, MessageType::RoleReactMessage, 99, 99), ReactionRoute::Ignore);
    assert_eq!(route_reaction(&c, MessageType::Motion, 5, 99), ReactionRoute::Motion);
    assert_eq!(route_reaction(&c, MessageType::Motion, 99, 99), ReactionRoute::Ignore);
    assert_eq!(route_reaction(&c, MessageType::Motion, 5, 6), ReactionRoute::Ignore);
    assert_eq!(route_reaction(&c, MessageType::Poll, 5, 99), ReactionRoute::Ignore);
}

#[test]
fn mentions_and_sass() {
    assert!(mentions_bot("hey <@!99> there", 99));
    assert!(mentions_bot("<@99>", 99));
    assert!(!mentions_bot("<@999>", 99));
    let c = config();
    assert_eq!(sassy_at(&c, 1), Some("what".to_string()));
    let s = sassy(&c).unwrap();
    assert!(s == "hi" || s == "what");
    let mut quiet = config();
    quiet.mention_responses = None;
    assert_eq!(sassy(&quiet), None);
}

#[test]
fn react_strings() {
    assert_eq!(get_string_from_react(&ReactionKind::Unicode("👍".to_string())), "👍");
    assert_eq!(
        get_string_from_react(&ReactionKind::Custom { id: 5, name: Some("party".to_string()), animated: false }),
        "party"
    );
    assert_eq!(get_string_from_react(&ReactionKind::Custom { id: 5, name: None, animated: false }), "5");
    assert_eq!(
        get_string_from_react(&ReactionKind::Unrecognised("X".to_string())),
        "Unrecognised reaction type: X"
    );
    let emojis = vec![
        GuildEmoji { id: 1, name: "party".to_string(), animated: true },
        GuildEmoji { id: 2, name: "party".to_string(), animated: false },
    ];
    match get_react_from_string("party".to_string(), &emojis) {
        ReactionKind::Custom { id, name, animated } => {
            assert_eq!(id, 1);
            assert_eq!(name, Some("party".to_string()));
            assert!(animated);
        }
        _ => panic!("expected a custom emoji"),
    }
    match get_react_from_string("👍".to_string(), &emojis) {
        ReactionKind::Unicode(s) => assert_eq!(s, "👍"),
        _ => panic!("expected a unicode emoji"),
    }
}

#[test]
fn role_sync_plan() {
    let members = vec![
        GuildMember { user_id: 1, roles: vec![100] },
        GuildMember { user_id: 99, roles: vec![] },
        GuildMember { user_id: 2, roles: vec![101] },
    ];
    let entries = vec![
        RoleReactors { role: 100, reactors: vec![2, 99] },
        RoleReactors { role: 101, reactors: vec![1, 2] },
    ];
    let plan = plan_role_sync(99, &members, &entries);
    assert_eq!(plan.len(), 2);
    assert_eq!(plan[0].user_id, 1);
    assert_eq!(plan[0].add, vec![101]);
    assert_eq!(plan[0].remove, vec![100]);
    assert_eq!(plan[1].user_id, 2);
    assert_eq!(plan[1].add, vec![100]);
    assert!(plan[1].remove.is_empty());
    let one = member_role_changes(3, &vec![100, 101], &entries);
    assert!(one.add.is_empty());
    assert_eq!(one.remove, vec![100, 101]);
    assert!(!bot_needs_to_react(&vec![99], 99));
    assert!(bot_needs_to_react(&vec![1], 99));
}

#[test]
fn small_commands() {
    assert_eq!(
        source_text(),
        "You want to look at my insides!? Eurgh.\nJust kidding, you can go over _every inch_ of me here: https://github.com/uwapcs/discord-bot 😉"
    );
    assert_eq!(cowsay_plan("moo"), CowsayPlan::Say("'moo'".to_string()));
    assert_eq!(cowsay_plan(" \t"), CowsayPlan::Fortune);
    assert_eq!(cow_file_at(0), "/usr/share/cowsay/cows/www.cow");
    assert_eq!(cow_file_at(17), "/usr/share/cowsay/cows/moose.cow");
    let f = random_cow_file();
    assert!(f.starts_with("/usr/share/cowsay/cows/") && f.ends_with(".cow"));
    assert_eq!(cowsay_message("moo ``` @here"), "```\nmoo   @\u{200B}here\n```");
    let w = welcome_embed();
    assert_eq!(w.title, "Welcome to the PCS Discord!");
    assert!(w.description.starts_with("[**PCS Website**](https://pcs.org.au/about)\n\n"));
    assert_eq!(
        w.github,
        "[Constitution](https://github.com/uwapcs/constitution)[\nMinutes](https://github.com/uwapcs/minutes)[\nBot](https://github.com/uwapcs/discord-bot)"
    );
    assert_eq!(invite_text(), "**Permanent discord link**: https://discord.gg/2WaTYnj");
}

#[test]
fn the_bots_own_reactions_are_ignored() {
    let c = config();
    for kind in [
        MessageType::Motion,
        MessageType::Role,
        MessageType::RoleReactMessage,
        MessageType::Poll,
        MessageType::Misc,
    ] {
        assert_eq!(route_reaction(&c, kind, 99, 99), ReactionRoute::Ignore);
        assert_eq!(route_reaction(&c, kind, 99, 5), ReactionRoute::Ignore);
    }
}

#[test]
fn say_cleans_mentions() {
    let in_guild = say_cleaning(Some(42));
    assert!(in_guild.clean_role && in_guild.clean_user && !in_guild.clean_channel);
    assert_eq!(in_guild.display_as_member_of, Some(42));
    let direct = say_cleaning(None);
    assert!(direct.clean_role && direct.clean_user && !direct.clean_channel);
    assert!(direct.clean_here && direct.clean_everyone && direct.show_discriminator);
    assert_eq!(direct.display_as_member_of, None);
}

#[test]
fn safe_code_blocks_match_serenity() {
    for text in [
        "",
        "moo",
        "join discord.gg/abc and discord.com/invite/x",
        "a\u{202E}b\u{200B}c @everyone @here",
        "``` nested ```` ticks",
        "discordapp.com/invite/q discordlist.net discordservers.com discord.me",
    ] {
        let expected = serenity::utils::MessageBuilder::new()
            .push_codeblock_safe(text, None)
            .build();
        assert_eq!(codeblock_safe_text(text), expected);
    }
}
