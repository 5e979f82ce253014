use uccbot::config::{ReactionMapping, UccbotConfig, VoteKind};
use uccbot::discord::EmbedColour;
use uccbot::voting::{
    contains_user, find_status_field, motion, motion_announcement, motion_status,
    move_something, other_vote_reacts, plan_motion_update, poll, poll_announcement,
    status_update, vote_react_action, votes_field, CommandOutcome, MotionCache, MotionStatus,
    MotionVotes, VoteReactAction,
};

fn config() -> UccbotConfig {
    UccbotConfig {
        server_id: 1,
        main_channel: 2,
        welcome_channel: 3,
        announcement_channel: 4,
        readme_channel: 5,
        bot_id: 99,
        vote_pool_size: 7,
        vote_role: 269817189966544896,
        tiebreaker_role: 7,
        unregistered_member_role: 8,
        registered_member_role: 9,
        command_prefix: "!".to_string(),
        for_vote: "👍".to_string(),
        against_vote: "👎".to_string(),
        abstain_vote: "🙊".to_string(),
        approve_react: "⬆".to_string(),
        disapprove_react: "⬇".to_string(),
        unsure_react: "❔".to_string(),
        react_role_messages: vec![ReactionMapping::from_pairs(
            10,
            vec![("rust".to_string(), 100)],
        )],
        mention_responses: None,
        bind_address: String::new(),
        ldap_pass: String::new(),
    }
}

fn votes(f: &[u64], a: &[u64], b: &[u64]) -> MotionVotes {
    MotionVotes::new(f.to_vec(), a.to_vec(), b.to_vec())
}

#[test]
fn adding_a_vote_moves_the_voter_last() {
    let mut v = votes(&[99, 1, 2], &[99], &[99]);
    v.add_vote(VoteKind::For, 1);
    assert_eq!(v.for_votes, vec![99, 2, 1]);
    assert_eq!(v.against_votes, vec![99]);
    v.add_vote(VoteKind::For, 1);
    assert_eq!(v.for_votes, vec![99, 2, 1]);
}

#[test]
fn removing_a_vote_undoes_adding_it() {
    let mut v = votes(&[99, 2], &[99], &[99]);
    v.add_vote(VoteKind::Against, 5);
    assert_eq!(v.against_votes, vec![99, 5]);
    v.remove_vote(VoteKind::Against, 5);
    assert_eq!(v.against_votes, vec![99]);
    assert_eq!(v.for_votes, vec![99, 2]);
}

#[test]
fn reactions_count_only_when_they_are_votes() {
    let c = config();
    let mut v = votes(&[99], &[99], &[99]);
    v.record_reaction(&c, "👎", 3);
    v.record_reaction(&c, "⬆", 4);
    assert_eq!(v.against_votes, vec![99, 3]);
    assert_eq!(v.for_votes, vec![99]);
    v.withdraw_reaction(&c, "👎", 3);
    assert_eq!(v.against_votes, vec![99]);
}

#[test]
fn status_follows_the_vote_pool() {
    // pool of 7: four for votes pass, three do not
    let four = votes(&[99, 1, 2, 3, 4], &[99], &[99]);
    assert_eq!(motion_status(7, &four, (false, false, false)), MotionStatus::Passed);
    let three = votes(&[99, 1, 2, 3], &[99], &[99]);
    assert_eq!(motion_status(7, &three, (false, false, false)), MotionStatus::UnderConsideration);
    let split = votes(&[99], &[99, 1, 2], &[99, 3, 4]);
    assert_eq!(motion_status(7, &split, (false, false, false)), MotionStatus::Failed);
}

#[test]
fn tiebreaker_counts_a_quarter() {
    // pool of 6: three for votes are not more than half, with a tiebreaker they are
    let three = votes(&[99, 1, 2, 3], &[99], &[99]);
    assert_eq!(motion_status(6, &three, (false, false, false)), MotionStatus::UnderConsideration);
    assert_eq!(motion_status(6, &three, (true, false, false)), MotionStatus::Passed);
    let against = votes(&[99], &[99, 1, 2], &[99, 3]);
    assert_eq!(motion_status(6, &against, (false, false, false)), MotionStatus::UnderConsideration);
    assert_eq!(motion_status(6, &against, (false, true, false)), MotionStatus::Failed);
}

#[test]
fn status_texts_and_colours() {
    assert_eq!(MotionStatus::Passed.text(), "Passed");
    assert_eq!(MotionStatus::Failed.text(), "Failed");
    assert_eq!(MotionStatus::UnderConsideration.text(), "Under Consideration");
    assert_eq!(MotionStatus::Passed.colour(), EmbedColour::Teal);
    assert_eq!(MotionStatus::Failed.colour(), EmbedColour::Red);
    assert_eq!(MotionStatus::UnderConsideration.colour(), EmbedColour::Gold);
}

#[test]
fn unchanged_status_keeps_the_field() {
    let u = status_update("Under Consideration", "Under Consideration", "Motion to eat");
    assert_eq!(u.field_value, "Under Consideration");
    assert_eq!(u.announcement, None);
}

#[test]
fn changed_status_is_announced() {
    let u = status_update("Passed", "Under Consideration\r\n_was_ Failed", "Motion to eat");
    assert_eq!(u.field_value, "Passed\n_was_ Under Consideration\r\n_was_ Failed");
    assert_eq!(
        u.announcement,
        Some("**Motion to eat** is now **Passed**_ (was Under Consideration)_".to_string())
    );
}

#[test]
fn votes_field_shows_counts_less_the_bot() {
    let v = votes(&[99, 1, 2], &[99], &[]);
    let f = votes_field(7, &v);
    assert_eq!(f.name, "Votes (1/7)");
    assert_eq!(f.value, "For: 2\nAgainst: 0\nAbstain: -1");
    assert!(f.inline);
}

#[test]
fn motion_update_plan() {
    let c = config();
    let v = votes(&[99, 1, 2, 3, 4], &[99], &[99]);
    let u = plan_motion_update(&c, &v, (false, false, false), "Under Consideration", "Motion to x");
    assert_eq!(u.status, MotionStatus::Passed);
    assert_eq!(u.colour, EmbedColour::Teal);
    assert_eq!(u.status_field.field_value, "Passed\n_was_ Under Consideration");
    assert_eq!(u.votes_field.name, "Votes (4/7)");
}

#[test]
fn status_field_is_found_by_name() {
    let fields = vec![
        ("Votes".to_string(), "x".to_string()),
        ("Status".to_string(), "Passed".to_string()),
        ("Status".to_string(), "Failed".to_string()),
    ];
    assert_eq!(find_status_field(&fields), Some("Passed".to_string()));
    assert_eq!(find_status_field(&vec![]), None);
}

#[test]
fn motion_and_poll_announcements() {
    let c = config();
    let m = motion_announcement(&c, 42, "eat cake");
    assert_eq!(m.title, "Motion to eat cake");
    assert_eq!(m.description, "<@&269817189966544896> take a look at this motion from <@42>");
    assert_eq!(m.fields.len(), 2);
    assert_eq!(m.fields[1].value, "For: 0\nAgainst: 0\nAbstain: 0");
    assert_eq!(m.reactions, vec!["👍", "👎", "🙊", "⬆", "⬇"]);
    let p = poll_announcement(&c, 42, "pizza?");
    assert_eq!(p.title, "Poll pizza?");
    assert_eq!(p.description, "<@42> wants to know what you think.");
    assert_eq!(p.colour, EmbedColour::Blue);
    assert_eq!(p.reactions, vec!["⬆", "⬇", "❔"]);
}

#[test]
fn commands_need_a_topic() {
    assert_eq!(move_something("x"), CommandOutcome::Announce("x".to_string()));
    assert_eq!(
        move_something(""),
        CommandOutcome::Reply(
            "If there's something you want to motion, put it after the !move keyword".to_string()
        )
    );
    assert_eq!(poll("q"), CommandOutcome::Announce("q".to_string()));
    assert!(matches!(poll(""), CommandOutcome::Reply(_)));
    assert_eq!(
        motion("anything"),
        CommandOutcome::Reply(
            "I hope you're not having a motion. You may have wanted to !move something instead."
                .to_string()
        )
    );
}

#[test]
fn vote_reacts_from_voters_and_others() {
    let c = config();
    assert_eq!(other_vote_reacts(&c, "👎"), vec!["👍", "🙊"]);
    assert_eq!(other_vote_reacts(&c, "⬆"), vec!["👍", "👎", "🙊"]);
    assert_eq!(vote_react_action(&c, "👍", true, false), VoteReactAction::Record);
    assert_eq!(vote_react_action(&c, "⬆", true, false), VoteReactAction::Record);
    assert_eq!(vote_react_action(&c, "👍", true, true), VoteReactAction::Delete);
    assert_eq!(vote_react_action(&c, "🎉", true, false), VoteReactAction::Delete);
    assert_eq!(vote_react_action(&c, "⬇", false, false), VoteReactAction::Ignore);
    assert_eq!(vote_react_action(&c, "👍", false, false), VoteReactAction::Delete);
    assert!(contains_user(&vec![1, 2, 3], 2));
    assert!(!contains_user(&vec![1, 2, 3], 4));
}

#[test]
fn motion_cache_keeps_votes_by_message() {
    let mut cache = MotionCache::new();
    assert!(!cache.contains(5));
    assert!(!cache.set(5, votes(&[1], &[], &[])));
    cache.insert_if_absent(5, votes(&[1], &[], &[]));
    cache.insert_if_absent(5, votes(&[2], &[], &[]));
    assert_eq!(cache.get(5).unwrap().for_votes, vec![1]);
    assert!(cache.set(5, votes(&[3], &[], &[])));
    assert_eq!(cache.get(5).unwrap().for_votes, vec![3]);
    assert!(cache.get(6).is_none());
}

#[test]
fn another_for_vote_keeps_a_passed_motion() {
    let mut v = votes(&[99, 1, 2, 3, 4], &[99, 5], &[99]);
    assert_eq!(motion_status(7, &v, (false, true, false)), MotionStatus::Passed);
    v.add_vote(VoteKind::For, 6);
    assert_eq!(motion_status(7, &v, (false, true, false)), MotionStatus::Passed);
}

#[test]
fn withdrawing_after_voting_leaves_no_trace_of_the_voter() {
    let mut v = votes(&[99, 4, 2], &[99], &[99]);
    v.add_vote(VoteKind::For, 4);
    v.remove_vote(VoteKind::For, 4);
    assert_eq!(v.for_votes, vec![99, 2]);
    assert!(!contains_user(&v.for_votes, 4));
}
