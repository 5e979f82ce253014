use uccbot::config::{UccbotConfig};
use uccbot::directory::{ldap_exists, ldap_user_from_results, tla_search, LDAPUser, LdapEntry, TLA};
use uccbot::members::{
    email_address, is_reserved_name, link_email_body, member_nickname, new_member_record,
    nickname_given_upper,
    random_sass, register, say_hi_text, verification_error_text, verified_text, welcome_text,
    Member, RegisterOutcome,
};
use uccbot::profile::{
    field_usage, github_photo, github_photo_from, normalized_url_from, plan_stored,
    set_info_request, url_fix_candidate, SetInfoRequest, no_profile_text, plan_clear_info, plan_set_info, profile_embed,
    profile_field, profile_query, set_info_usage, tla_fallback, ClearInfoPlan, ProfileField,
    ProfileQuery, SetInfoPlan,
};
use uccbot::text::{i64_to_decimal, u64_to_decimal, replace_str, split_once_char, contains_str, is_blank_str};
use uccbot::discord::codeblock_safe_text;
use uccbot::tokens::TokenError;
use uccbot::voting::first_line_text;

fn config() -> UccbotConfig {
    UccbotConfig {
        server_id: 1,
        main_channel: 2,
        welcome_channel: 3,
        announcement_channel: 4,
        readme_channel: 5,
        bot_id: 99,
        vote_pool_size: 7,
        vote_role: 6,
        tiebreaker_role: 7,
        unregistered_member_role: 8,
        registered_member_role: 9,
        command_prefix: "!".to_string(),
        for_vote: "👍".to_string(),
        against_vote: "👎".to_string(),
        abstain_vote: "🙊".to_string(),
        approve_react: "⬆".to_string(),
        disapprove_react: "⬇".to_string(),
        unsure_react: "❔".to_string(),
        react_role_messages: vec![],
        mention_responses: None,
        bind_address: String::new(),
        ldap_pass: String::new(),
    }
}

fn member(username: &str, tla: Option<&str>) -> Member {
    Member {
        discord_id: 42,
        tla: tla.map(|s| s.to_string()),
        username: username.to_string(),
        member_since: None,
        name: Some("Bob Bobson".to_string()),
        biography: Some("hi".to_string()),
        github: None,
        photo: Some("https://x/y.png".to_string()),
        website: Some("https://bob.example".to_string()),
        study: None,
    }
}

#[test]
fn text_helpers() {
    assert_eq!(u64_to_decimal(0), "0");
    assert_eq!(u64_to_decimal(18446744073709551615), "18446744073709551615");
    assert_eq!(i64_to_decimal(-9223372036854775808), "-9223372036854775808");
    assert_eq!(i64_to_decimal(-1), "-1");
    assert_eq!(replace_str("githubgithub", "github", "git"), "gitgit");
    assert_eq!(replace_str("aaa", "aa", "b"), "ba");
    assert_eq!(split_once_char("a b c", ' '), ("a".to_string(), Some("b c".to_string())));
    assert_eq!(split_once_char("abc", ' '), ("abc".to_string(), None));
    assert!(contains_str("hello", "ell"));
    assert!(!contains_str("hello", "elo"));
    assert!(is_blank_str(" \u{3000}\n"));
    assert!(!is_blank_str(" x "));
    assert_eq!(first_line_text("a\r\nb"), "a");
    assert_eq!(first_line_text("a\rb"), "a\rb");
    assert_eq!(first_line_text("\nb"), "");
}

#[test]
fn nicknames() {
    assert_eq!(member_nickname(&member("bob", Some("BOB"))), "bob");
    assert_eq!(member_nickname(&member("bob", Some("BBB"))), "bob [BBB]");
    assert_eq!(member_nickname(&member("bob", None)), "bob");
}

#[test]
fn new_record() {
    let ldap = Some(LDAPUser { username: "bob".to_string(), name: "Bob B".to_string(), when_created: String::new() });
    let tla = Some(TLA { tla: Some("BOB".to_string()), name: "Bob B".to_string(), username: "bob".to_string() });
    let m = new_member_record(42, "bob", &ldap, &tla);
    assert_eq!(m.discord_id, 42);
    assert_eq!(m.name, Some("Bob B".to_string()));
    assert_eq!(m.tla, Some("BOB".to_string()));
    assert_eq!(m.photo, None);
    let m2 = new_member_record(u64::MAX, "x", &None, &None);
    assert_eq!(m2.discord_id, -1);
    assert_eq!(m2.name, None);
}

#[test]
fn registering() {
    let c = config();
    assert_eq!(register(&c, "", false, true), RegisterOutcome::Usage("Usage: !register <username>".to_string()));
    assert_eq!(register(&c, "wheel", false, true), RegisterOutcome::Sass);
    assert_eq!(register(&c, "bob", true, true), RegisterOutcome::Sass);
    assert_eq!(
        register(&c, "bob", false, false),
        RegisterOutcome::NotFound("I couldn't find an account with the username 'bob'".to_string())
    );
    assert_eq!(
        register(&c, "bob", false, true),
        RegisterOutcome::Proceed("Ok bob, see the email I've just sent you to complete the link".to_string())
    );
    assert!(is_reserved_name("committee-only"));
    assert!(!is_reserved_name("committee-x"));
    assert!(random_sass().len() > 0);
    assert_eq!(
        link_email_body(&c, "bob", "TOKEN"),
        "<h3>Link your Discord account</h3><p>Hi bob, to complete the link, go to the discord server and enter<pre>!verify TOKEN</pre></p><sub>The UCC discord bot</sub>"
    );
    assert_eq!(email_address("bob"), "bob@ucc.asn.au");
}

#[test]
fn verification_texts() {
    let c = config();
    assert_eq!(
        verified_text(&c, "bob"),
        "Verification was sucessful bob. To proide a friendly introduction to yourself consider doing `!set bio <info>`"
    );
    assert_eq!(verification_error_text(TokenError::TokenExpired), "Verification error: TokenExpired");
}

#[test]
fn welcome_texts() {
    let c = config();
    let w = welcome_text(&c, 42);
    assert!(w.starts_with("Nice to see you here <@42>! Would you care to introduce yourself?\n"));
    assert!(w.contains("Make sure to check out \n<#5> to get yourself"));
    assert!(w.ends_with("`!register username` to link to your UCC account.\n"));
    assert_eq!(say_hi_text(&c, "Bob"), "Say hi to Bob in <#3>");
}

#[test]
fn directory_results() {
    let entry = LdapEntry {
        attrs: vec![
            ("name".to_string(), vec!["bob".to_string()]),
            ("displayName".to_string(), vec!["Bob ".to_string(), "Bobson".to_string()]),
        ],
    };
    let u = ldap_user_from_results(&vec![entry]).unwrap();
    assert_eq!(u.username, "bob");
    assert_eq!(u.name, "Bob Bobson");
    assert_eq!(u.when_created, "");
    assert!(!ldap_exists(&vec![]));
    let two = vec![LdapEntry { attrs: vec![] }, LdapEntry { attrs: vec![] }];
    assert!(!ldap_exists(&two));
}

#[test]
fn tla_output() {
    let t = tla_search("TLA: [BOB]\nName: Bob Bobson\nLogin: bob\n").unwrap();
    assert_eq!(t.tla, Some("BOB".to_string()));
    assert_eq!(t.name, "Bob Bobson");
    assert_eq!(t.username, "bob");
    let none = tla_search("TLA: [???]\nName: X\nLogin: x\n").unwrap();
    assert_eq!(none.tla, None);
    assert!(tla_search("no such user\n").is_none());
}

#[test]
fn profiles() {
    assert_eq!(profile_query("  "), ProfileQuery::Author);
    assert_eq!(profile_query("bob"), ProfileQuery::Username("bob".to_string()));
    assert_eq!(tla_fallback("bob"), Some("BOB".to_string()));
    assert_eq!(tla_fallback("bobby"), None);
    let e = profile_embed(&member("bob", Some("BOB")));
    assert_eq!(e.title, Some("Bob Bobson".to_string()));
    assert_eq!(e.thumbnail, Some("https://x/y.png".to_string()));
    let names: Vec<&str> = e.fields.iter().map(|f| f.name.as_str()).collect();
    assert_eq!(names, vec!["Username", "TLA", "Bio", "Website"]);
    assert!(e.fields[0].inline && e.fields[1].inline && !e.fields[2].inline);
}

#[test]
fn set_info_plans() {
    assert_eq!(plan_set_info(" "), SetInfoPlan::Usage);
    assert_eq!(plan_set_info("bio"), SetInfoPlan::FieldUsage("bio".to_string()));
    assert_eq!(plan_set_info("colour red"), SetInfoPlan::FieldUsage("colour".to_string()));
    assert_eq!(plan_set_info("bio I like cake"), SetInfoPlan::Store(ProfileField::Bio, "I like cake".to_string()));
    assert_eq!(
        plan_set_info("github bob"),
        SetInfoPlan::Store(ProfileField::Git, "https://github.com/bob".to_string())
    );
    assert_eq!(
        plan_set_info("git https://gitlab.com/bob"),
        SetInfoPlan::Store(ProfileField::Git, "https://gitlab.com/bob".to_string())
    );
    assert_eq!(
        plan_set_info("web bob.example"),
        SetInfoPlan::Store(ProfileField::Web, "https://bob.example".to_string())
    );
    assert_eq!(plan_set_info("photo bad host"), SetInfoPlan::InvalidUrl);
    assert_eq!(profile_field("study"), Some(ProfileField::Study));
    assert_eq!(profile_field("github"), None);
}

#[test]
fn github_photos() {
    assert_eq!(github_photo("https://github.com/bob"), Some("https://github.com/bob.png".to_string()));
    assert_eq!(github_photo("https://gitlab.com/bob"), None);
}

#[test]
fn usage_embeds() {
    let c = config();
    let u = set_info_usage(&c);
    assert_eq!(u.description, Some("`!set <field> <info>` or `!clear <field>`".to_string()));
    assert_eq!(u.fields.len(), 5);
    assert_eq!(u.fields[4].name, "Studying");
    let f = field_usage(&c, "git");
    assert_eq!(f.fields[0].name, "Git Forge Profile");
    assert_eq!(f.fields[0].value, "`!set git <info>` or `!clear git`\nA url to your git{hub,lab} account");
    let g = field_usage(&c, "xyz");
    assert_eq!(g.fields[0].name, "???");
    assert_eq!(no_profile_text(&c), "You don't seem to have a profile. !register to get one");
}

#[test]
fn clear_info_plans() {
    assert_eq!(plan_clear_info(""), ClearInfoPlan::Usage);
    assert_eq!(plan_clear_info("web"), ClearInfoPlan::Clear(ProfileField::Web));
    assert_eq!(plan_clear_info("github"), ClearInfoPlan::Nothing);
}

#[test]
fn nickname_from_a_given_upper_case() {
    let none: Option<String> = None;
    assert_eq!(nickname_given_upper("bob", &Some("BOB".to_string()), "BOB"), "bob");
    assert_eq!(nickname_given_upper("bob", &Some("BOB".to_string()), "XYZ"), "bob [BOB]");
    assert_eq!(nickname_given_upper("bob", &none, "BOB"), "bob");
}

#[test]
fn url_values_from_given_checks() {
    assert_eq!(url_fix_candidate(ProfileField::Git, "alice", Some(true)), "https://github.com/alice");
    assert_eq!(url_fix_candidate(ProfileField::Git, "a.b/c", Some(false)), "https://a.b/c");
    assert_eq!(url_fix_candidate(ProfileField::Web, "alice", Some(true)), "https://alice");
    assert_eq!(
        normalized_url_from(ProfileField::Git, "alice", false, Some(true), true),
        Some("https://github.com/alice".to_string())
    );
    assert_eq!(
        normalized_url_from(ProfileField::Web, "https://x.org", true, None, false),
        Some("https://x.org".to_string())
    );
    assert_eq!(normalized_url_from(ProfileField::Photo, "x", false, None, false), None);
}

#[test]
fn set_info_requests_and_stored_values() {
    assert_eq!(set_info_request("  "), SetInfoRequest::Usage);
    assert_eq!(set_info_request("github alice"), SetInfoRequest::Assign(ProfileField::Git, "alice".to_string()));
    assert_eq!(set_info_request("web"), SetInfoRequest::FieldUsage("web".to_string()));
    assert_eq!(
        plan_stored(ProfileField::Git, "alice".to_string(), Some("https://github.com/alice".to_string())),
        SetInfoPlan::Store(ProfileField::Git, "https://github.com/alice".to_string())
    );
    assert_eq!(plan_stored(ProfileField::Web, "x".to_string(), None), SetInfoPlan::InvalidUrl);
    assert_eq!(
        plan_stored(ProfileField::Bio, "hi".to_string(), None),
        SetInfoPlan::Store(ProfileField::Bio, "hi".to_string())
    );
}

#[test]
fn photos_from_given_host_and_segment() {
    let gh = Some("github.com".to_string());
    assert_eq!(github_photo_from(&gh, &Some("alice".to_string())), Some("https://github.com/alice.png".to_string()));
    assert_eq!(github_photo_from(&gh, &None), None);
    assert_eq!(github_photo_from(&Some("gitlab.com".to_string()), &Some("alice".to_string())), None);
}

#[test]
fn safe_code_blocks() {
    assert_eq!(codeblock_safe_text("join discord.gg/x"), "```\njoin discord\u{2024}gg/x\n```");
    assert_eq!(codeblock_safe_text("a\u{202E}b @everyone"), "```\na b @\u{200B}everyone\n```");
}

#[test]
fn photo_only_for_git_without_a_photo() {
    let none: Option<String> = None;
    // the URL checks are outside calls, so these run through url
    assert_eq!(
        uccbot::profile::photo_to_store(ProfileField::Git, "https://github.com/alice", &none),
        Some("https://github.com/alice.png".to_string())
    );
    assert_eq!(
        uccbot::profile::photo_to_store(ProfileField::Git, "https://github.com/alice", &Some("p".to_string())),
        None
    );
    assert_eq!(uccbot::profile::photo_to_store(ProfileField::Web, "https://github.com/alice", &none), None);
    assert_eq!(uccbot::profile::photo_to_store(ProfileField::Git, "https://gitlab.com/alice", &none), None);
}

#[test]
fn sass_lines_by_index() {
    assert_eq!(uccbot::members::sass_line(0), "Please. As if I'd fall for that.");
    assert_eq!(uccbot::members::sass_line(4), "I never treated you this badly.");
}
