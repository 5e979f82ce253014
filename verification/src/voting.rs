//! Motions and polls: the embeds that announce them, the votes cast on a
//! motion by reacting, how the votes decide its status, and what the bot
//! does with each react.
use crate::config::{UccbotConfig, VoteKind};
use crate::discord::{
    bold, bold_text, field, fields_view, italic, italic_text, role_mention, role_mention_text, user_mention, user_mention_text, EmbedColour, EmbedField,
};
use crate::text::{
    cat, cat3, first_line, i64_to_decimal, signed_decimal, str_eq, chars_of, find_char_in, sub_chars, string_from_chars, lemma_find_char_some,
};
use std::collections::HashMap;
use vstd::prelude::*;

verus! {

broadcast use vstd::std_specs::hash::group_hash_axioms;

/// `list` without `user`.
pub open spec fn without(list: Seq<u64>, user: u64) -> Seq<u64> {
    list.filter(|x: u64| x != user)
}

/// `list` with `user` moved to (or put at) the end, once.
pub open spec fn with_vote(list: Seq<u64>, user: u64) -> Seq<u64> {
    without(list, user).push(user)
}

/// Whether no user occurs twice in `list`.
pub open spec fn no_duplicates(list: Seq<u64>) -> bool {
    forall|i: int, j: int| 0 <= i < j < list.len() ==> list[i] != list[j]
}

/// The users who reacted with each vote react on a motion.
pub struct MotionVotes {
    pub for_votes: Vec<u64>,
    pub against_votes: Vec<u64>,
    pub abstain_votes: Vec<u64>,
}

impl MotionVotes {
    /// The list of a kind of vote.
    pub open spec fn votes(&self, kind: VoteKind) -> Seq<u64> {
        match kind {
            VoteKind::For => self.for_votes@,
            VoteKind::Against => self.against_votes@,
            VoteKind::Abstain => self.abstain_votes@,
        }
    }

    /// Whether every list has each user at most once.
    pub open spec fn well_formed(&self) -> bool {
        &&& no_duplicates(self.for_votes@)
        &&& no_duplicates(self.against_votes@)
        &&& no_duplicates(self.abstain_votes@)
    }

    /// The votes as read from the reactions on a motion.
    pub fn new(for_votes: Vec<u64>, against_votes: Vec<u64>, abstain_votes: Vec<u64>) -> (r:
        MotionVotes)
        ensures
            r.for_votes@ == for_votes@,
            r.against_votes@ == against_votes@,
            r.abstain_votes@ == abstain_votes@,
    {
        MotionVotes { for_votes, against_votes, abstain_votes }
    }

    /// A copy of these votes.
    pub fn duplicate(&self) -> (r: MotionVotes)
        ensures
            r.for_votes@ == self.for_votes@,
            r.against_votes@ == self.against_votes@,
            r.abstain_votes@ == self.abstain_votes@,
    {
        MotionVotes {
            for_votes: copy_ids(&self.for_votes),
            against_votes: copy_ids(&self.against_votes),
            abstain_votes: copy_ids(&self.abstain_votes),
        }
    }

    /// Casts `user`'s vote of kind `kind`: the user is moved to the end of
    /// that list (a `retain` then a `push`); other lists
    /// keep their users.
    pub fn add_vote(&mut self, kind: VoteKind, user: u64)
        ensures
            final(self).votes(kind) == with_vote(old(self).votes(kind), user),
            forall|k: VoteKind| k != kind ==> final(self).votes(k) == old(self).votes(k),
            old(self).well_formed() ==> final(self).well_formed(),
    {
        proof {
            lemma_vote_once(self.votes(kind), user);
        }
        match kind {
            VoteKind::For => {
                remove_id(&mut self.for_votes, user);
                self.for_votes.push(user);
            },
            VoteKind::Against => {
                remove_id(&mut self.against_votes, user);
                self.against_votes.push(user);
            },
            VoteKind::Abstain => {
                remove_id(&mut self.abstain_votes, user);
                self.abstain_votes.push(user);
            },
        }
    }

    /// Withdraws `user`'s vote of kind `kind`; other lists keep their users.
    pub fn remove_vote(&mut self, kind: VoteKind, user: u64)
        ensures
            final(self).votes(kind) == without(old(self).votes(kind), user),
            forall|k: VoteKind| k != kind ==> final(self).votes(k) == old(self).votes(k),
            old(self).well_formed() ==> final(self).well_formed(),
    {
        proof {
            lemma_without(self.votes(kind), user);
        }
        match kind {
            VoteKind::For => remove_id(&mut self.for_votes, user),
            VoteKind::Against => remove_id(&mut self.against_votes, user),
            VoteKind::Abstain => remove_id(&mut self.abstain_votes, user),
        }
    }

    /// Records that `user` reacted with `react`: a vote where `react` is one
    /// of the three vote reacts, nothing otherwise.
    pub fn record_reaction(&mut self, config: &UccbotConfig, react: &str, user: u64)
        ensures
            match config.spec_vote_kind(react@) {
                Some(kind) => final(self).votes(kind) == with_vote(old(self).votes(kind), user)
                    && forall|k: VoteKind| k != kind ==> final(self).votes(k) == old(self).votes(k),
                None => forall|k: VoteKind| final(self).votes(k) == old(self).votes(k),
            },
            old(self).well_formed() ==> final(self).well_formed(),
    {
        match config.vote_kind(react) {
            Some(kind) => self.add_vote(kind, user),
            None => {},
        }
    }

    /// Records that `user` took back the react `react`.
    pub fn withdraw_reaction(&mut self, config: &UccbotConfig, react: &str, user: u64)
        ensures
            match config.spec_vote_kind(react@) {
                Some(kind) => final(self).votes(kind) == without(old(self).votes(kind), user)
                    && forall|k: VoteKind| k != kind ==> final(self).votes(k) == old(self).votes(k),
                None => forall|k: VoteKind| final(self).votes(k) == old(self).votes(k),
            },
            old(self).well_formed() ==> final(self).well_formed(),
    {
        match config.vote_kind(react) {
            Some(kind) => self.remove_vote(kind, user),
            None => {},
        }
    }
}

fn copy_ids(v: &Vec<u64>) -> (r: Vec<u64>)
    ensures
        r@ == v@,
{
    let mut r: Vec<u64> = Vec::new();
    let mut i: usize = 0;
    while i < v.len()
        invariant
            i <= v.len(),
            r@ == v@.take(i as int),
        decreases v.len() - i,
    {
        r.push(v[i]);
        i = i + 1;
        assert(r@ == v@.take(i as int));
    }
    assert(v@.take(v.len() as int) == v@);
    r
}

/// `list.retain(|u| u != user)`.
fn remove_id(list: &mut Vec<u64>, user: u64)
    ensures
        final(list)@ == without(old(list)@, user),
{
    let ghost orig = list@;
    let mut kept: Vec<u64> = Vec::new();
    let mut i: usize = 0;
    while i < list.len()
        invariant
            list@ == orig,
            i <= list.len(),
            kept@ == without(orig.take(i as int), user),
        decreases list.len() - i,
    {
        let x = list[i];
        proof {
            assert(orig.take(i + 1).drop_last() == orig.take(i as int));
            reveal_with_fuel(Seq::filter, 1);
        }
        if x != user {
            kept.push(x);
        }
        i = i + 1;
    }
    assert(orig.take(orig.len() as int) == orig);
    *list = kept;
}

/// Whether `users` holds `id`.
pub fn contains_user(users: &Vec<u64>, id: u64) -> (r: bool)
    ensures
        r == users@.contains(id),
{
    let mut i: usize = 0;
    while i < users.len()
        invariant
            i <= users.len(),
            forall|k: int| 0 <= k < i ==> users@[k] != id,
        decreases users.len() - i,
    {
        if users[i] == id {
            assert(users@[i as int] == id);
            return true;
        }
        i = i + 1;
    }
    false
}

/// The motion cache: the votes of each motion the bot has seen, by message id.
pub struct MotionCache {
    pub motions: HashMap<u64, MotionVotes>,
}

impl MotionCache {
    /// An empty cache.
    pub fn new() -> (r: MotionCache)
        ensures
            r.motions@ == Map::<u64, MotionVotes>::empty(),
    {
        MotionCache { motions: HashMap::new() }
    }

    /// Whether the motion `id` is cached.
    pub fn contains(&self, id: u64) -> (r: bool)
        ensures
            r == self.motions@.contains_key(id),
    {
        self.motions.contains_key(&id)
    }

    /// Caches the votes read for motion `id`, unless it is cached already.
    pub fn insert_if_absent(&mut self, id: u64, votes: MotionVotes)
        ensures
            old(self).motions@.contains_key(id) ==> final(self).motions@ == old(self).motions@,
            !old(self).motions@.contains_key(id) ==> final(self).motions@ == old(
                self,
            ).motions@.insert(id, votes),
    {
        if !self.motions.contains_key(&id) {
            self.motions.insert(id, votes);
        }
    }

    /// A copy of the cached votes of motion `id`.
    pub fn get(&self, id: u64) -> (r: Option<MotionVotes>)
        ensures
            match r {
                Some(v) => self.motions@.contains_key(id) && v.for_votes@ == self.motions@[id].for_votes@
                    && v.against_votes@ == self.motions@[id].against_votes@ && v.abstain_votes@
                    == self.motions@[id].abstain_votes@,
                None => !self.motions@.contains_key(id),
            },
    {
        match self.motions.get(&id) {
            Some(v) => Some(v.duplicate()),
            None => None,
        }
    }

    /// Replaces the votes of motion `id` where it is cached; `false` (and no
    /// change) where it is not.
    pub fn set(&mut self, id: u64, votes: MotionVotes) -> (r: bool)
        ensures
            r == old(self).motions@.contains_key(id),
            r ==> final(self).motions@ == old(self).motions@.insert(id, votes),
            !r ==> final(self).motions@ == old(self).motions@,
    {
        if self.motions.contains_key(&id) {
            self.motions.insert(id, votes);
            true
        } else {
            false
        }
    }
}

/// Where a motion stands.
#[derive(Debug, PartialEq, Eq, Clone, Copy, Structural)]
pub enum MotionStatus {
    Passed,
    Failed,
    UnderConsideration,
}

/// The text of a status.
pub open spec fn status_text(s: MotionStatus) -> Seq<char> {
    match s {
        MotionStatus::Passed => "Passed"@,
        MotionStatus::Failed => "Failed"@,
        MotionStatus::UnderConsideration => "Under Consideration"@,
    }
}

/// The colour of a motion's embed in each status.
pub open spec fn status_colour(s: MotionStatus) -> EmbedColour {
    match s {
        MotionStatus::Passed => EmbedColour::Teal,
        MotionStatus::Failed => EmbedColour::Red,
        MotionStatus::UnderConsideration => EmbedColour::Gold,
    }
}

impl MotionStatus {
    pub fn text(&self) -> (r: String)
        ensures
            r@ == status_text(*self),
    {
        match self {
            MotionStatus::Passed => String::from_str("Passed"),
            MotionStatus::Failed => String::from_str("Failed"),
            MotionStatus::UnderConsideration => String::from_str("Under Consideration"),
        }
    }

    pub fn colour(&self) -> (r: EmbedColour)
        ensures
            r == status_colour(*self),
    {
        match self {
            MotionStatus::Passed => EmbedColour::Teal,
            MotionStatus::Failed => EmbedColour::Red,
            MotionStatus::UnderConsideration => EmbedColour::Gold,
        }
    }
}

/// The count the bot shows for a vote list: its reacts less the bot's own.
pub open spec fn shown_count(list: Seq<u64>) -> int {
    list.len() - 1
}

/// A list's strength in quarter votes: four per vote shown, and one more
/// where a member with the tiebreaker role is among its voters.
pub open spec fn quarter_strength(list: Seq<u64>, tiebreaker: bool) -> int {
    4 * shown_count(list) + if tiebreaker {
        1int
    } else {
        0int
    }
}

/// A motion passes when its for votes (a tiebreaker counting a quarter)
/// exceed half the vote pool, fails when against and abstain votes together
/// do, and is under consideration otherwise.
pub open spec fn spec_motion_status(
    pool: i8,
    votes: (Seq<u64>, Seq<u64>, Seq<u64>),
    tiebreakers: (bool, bool, bool),
) -> MotionStatus {
    if quarter_strength(votes.0, tiebreakers.0) > 2 * pool {
        MotionStatus::Passed
    } else if quarter_strength(votes.1, tiebreakers.1) + quarter_strength(votes.2, tiebreakers.2)
        > 2 * pool {
        MotionStatus::Failed
    } else {
        MotionStatus::UnderConsideration
    }
}

fn shown(list: &Vec<u64>) -> (r: i128)
    ensures
        r == shown_count(list@),
        -1 <= r < 0x1_0000_0000_0000_0000,
{
    (list.len() as i128) - 1
}

/// The status of a motion from its votes and whether each list has a voter
/// with the tiebreaker role.
pub fn motion_status(pool: i8, votes: &MotionVotes, tiebreakers: (bool, bool, bool)) -> (r:
    MotionStatus)
    ensures
        r == spec_motion_status(
            pool,
            (votes.for_votes@, votes.against_votes@, votes.abstain_votes@),
            tiebreakers,
        ),
{
    let f = 4 * shown(&votes.for_votes) + if tiebreakers.0 {
        1i128
    } else {
        0i128
    };
    let a = 4 * shown(&votes.against_votes) + if tiebreakers.1 {
        1i128
    } else {
        0i128
    };
    let b = 4 * shown(&votes.abstain_votes) + if tiebreakers.2 {
        1i128
    } else {
        0i128
    };
    let half = 2 * (pool as i128);
    if f > half {
        MotionStatus::Passed
    } else if a + b > half {
        MotionStatus::Failed
    } else {
        MotionStatus::UnderConsideration
    }
}

/// The first line of a non-empty text (`lines().next()`).
pub fn first_line_text(s: &str) -> (r: String)
    requires
        s@.len() > 0,
    ensures
        r@ == first_line(s@),
{
    let v = chars_of(s);
    proof {
        lemma_find_char_some(v@, '\n');
    }
    match find_char_in(&v, '\n') {
        Some(i) => {
            if i > 0 && v[i - 1] == '\r' {
                string_from_chars(&sub_chars(&v, 0, i - 1))
            } else {
                string_from_chars(&sub_chars(&v, 0, i))
            }
        },
        None => s.to_owned(),
    }
}

/// The Status field's value after a status is computed: unchanged where the
/// status is the one its first line shows, else the new status over a `_was_`
/// line.
pub open spec fn spec_status_field(status: Seq<char>, last_full: Seq<char>) -> Seq<char> {
    if first_line(last_full) == status {
        last_full
    } else {
        status + "\n_was_ "@ + last_full
    }
}

/// The announcement of a status change, if the status changed.
pub open spec fn spec_status_announcement(
    status: Seq<char>,
    last_full: Seq<char>,
    topic: Seq<char>,
) -> Option<Seq<char>> {
    if first_line(last_full) == status {
        None
    } else {
        Some(
            bold(topic) + " is now "@ + bold(status) + italic(
                " (was "@ + first_line(last_full) + ")"@,
            ),
        )
    }
}

/// The new Status field value, and the announcement where the status changed.
pub struct StatusUpdate {
    pub field_value: String,
    pub announcement: Option<String>,
}

pub open spec fn opt_view(o: Option<String>) -> Option<Seq<char>> {
    match o {
        Some(s) => Some(s@),
        None => None,
    }
}

/// How a motion's Status field and the announcement channel change when its
/// status is computed as `status`, given the field's last value.
pub fn status_update(status: &str, last_status_full: &str, topic: &str) -> (r: StatusUpdate)
    requires
        last_status_full@.len() > 0,
    ensures
        r.field_value@ == spec_status_field(status@, last_status_full@),
        opt_view(r.announcement) == spec_status_announcement(status@, last_status_full@, topic@),
{
    let last = first_line_text(last_status_full);
    if str_eq(last.as_str(), status) {
        StatusUpdate { field_value: last_status_full.to_owned(), announcement: None }
    } else {
        let field_value = cat3(status, "\n_was_ ", last_status_full);
        let mut msg = bold_text(topic);
        msg.append(" is now ");
        let b = bold_text(status);
        msg.append(b.as_str());
        let was = cat3(" (was ", last.as_str(), ")");
        let it = italic_text(was.as_str());
        msg.append(it.as_str());
        StatusUpdate { field_value, announcement: Some(msg) }
    }
}

/// `Votes (total/pool)`.
pub open spec fn votes_field_name(total: int, pool: i8) -> Seq<char> {
    "Votes ("@ + signed_decimal(total) + "/"@ + signed_decimal(pool as int) + ")"@
}

/// `For: f\nAgainst: a\nAbstain: b`.
pub open spec fn votes_field_value(f: int, a: int, b: int) -> Seq<char> {
    "For: "@ + signed_decimal(f) + "\nAgainst: "@ + signed_decimal(a) + "\nAbstain: "@
        + signed_decimal(b)
}

/// The Votes field of a motion's embed.
pub fn votes_field(pool: i8, votes: &MotionVotes) -> (r: EmbedField)
    ensures
        r.name@ == votes_field_name(
            shown_count(votes.for_votes@) + shown_count(votes.against_votes@) + shown_count(
                votes.abstain_votes@,
            ),
            pool,
        ),
        r.value@ == votes_field_value(
            shown_count(votes.for_votes@),
            shown_count(votes.against_votes@),
            shown_count(votes.abstain_votes@),
        ),
        r.inline,
{
    let f = shown(&votes.for_votes);
    let a = shown(&votes.against_votes);
    let b = shown(&votes.abstain_votes);
    let total = crate::text::i128_to_decimal(f + a + b);
    let p = i64_to_decimal(pool as i64);
    let mut name = cat3("Votes (", total.as_str(), "/");
    name.append(p.as_str());
    name.append(")");
    let fs = crate::text::i128_to_decimal(f);
    let as_ = crate::text::i128_to_decimal(a);
    let bs = crate::text::i128_to_decimal(b);
    let mut value = cat("For: ", fs.as_str());
    value.append("\nAgainst: ");
    value.append(as_.as_str());
    value.append("\nAbstain: ");
    value.append(bs.as_str());
    field(name, value, true)
}

/// What changes on a motion's embed when its votes change.
pub struct MotionUpdate {
    pub status: MotionStatus,
    pub colour: EmbedColour,
    pub status_field: StatusUpdate,
    pub votes_field: EmbedField,
}

/// The update of a motion's embed for its current votes, given which lists
/// have a tiebreaker voter, the Status field's last value and the topic.
pub fn plan_motion_update(
    config: &UccbotConfig,
    votes: &MotionVotes,
    tiebreakers: (bool, bool, bool),
    last_status_full: &str,
    topic: &str,
) -> (r: MotionUpdate)
    requires
        last_status_full@.len() > 0,
    ensures
        r.status == spec_motion_status(
            config.vote_pool_size,
            (votes.for_votes@, votes.against_votes@, votes.abstain_votes@),
            tiebreakers,
        ),
        r.colour == status_colour(r.status),
        r.status_field.field_value@ == spec_status_field(status_text(r.status), last_status_full@),
        opt_view(r.status_field.announcement) == spec_status_announcement(
            status_text(r.status),
            last_status_full@,
            topic@,
        ),
        r.votes_field.name@ == votes_field_name(
            shown_count(votes.for_votes@) + shown_count(votes.against_votes@) + shown_count(
                votes.abstain_votes@,
            ),
            config.vote_pool_size,
        ),
        r.votes_field.value@ == votes_field_value(
            shown_count(votes.for_votes@),
            shown_count(votes.against_votes@),
            shown_count(votes.abstain_votes@),
        ),
        r.votes_field.inline,
{
    let status = motion_status(config.vote_pool_size, votes, tiebreakers);
    let text = status.text();
    let status_field = status_update(text.as_str(), last_status_full, topic);
    MotionUpdate {
        status,
        colour: status.colour(),
        status_field,
        votes_field: votes_field(config.vote_pool_size, votes),
    }
}

/// The value of the first field named `Status`, if any.
pub fn find_status_field(fields: &Vec<(String, String)>) -> (r: Option<String>)
    ensures
        match r {
            Some(v) => exists|i: int|
                0 <= i < fields@.len() && #[trigger] fields@[i].0@ == "Status"@ && fields@[i].1@
                    == v@ && forall|j: int| 0 <= j < i ==> #[trigger] fields@[j].0@ != "Status"@,
            None => forall|i: int| 0 <= i < fields@.len() ==> #[trigger] fields@[i].0@ != "Status"@,
        },
{
    let mut i: usize = 0;
    while i < fields.len()
        invariant
            i <= fields@.len(),
            forall|j: int| 0 <= j < i ==> #[trigger] fields@[j].0@ != "Status"@,
        decreases fields@.len() - i,
    {
        if str_eq(fields[i].0.as_str(), "Status") {
            return Some(fields[i].1.clone());
        }
        i = i + 1;
    }
    None
}

/// The embed, and the reacts the bot adds, that announce a motion or poll.
pub struct Announcement {
    pub title: String,
    pub description: String,
    pub colour: EmbedColour,
    pub fields: Vec<EmbedField>,
    pub reactions: Vec<String>,
}

pub open spec fn strings_view(v: Seq<String>) -> Seq<Seq<char>> {
    v.map_values(|s: String| s@)
}

/// The announcement of a motion to `topic` moved by `author`.
pub fn motion_announcement(config: &UccbotConfig, author: u64, topic: &str) -> (r: Announcement)
    ensures
        r.title@ == "Motion to "@ + topic@,
        r.description@ == role_mention(config.vote_role)
            + " take a look at this motion from "@ + user_mention(author),
        r.colour == EmbedColour::Gold,
        fields_view(r.fields@) == seq![
            ("Status"@, "Under Consideration"@, true),
            ("Votes"@, "For: 0\nAgainst: 0\nAbstain: 0"@, true),
        ],
        strings_view(r.reactions@) == seq![
            config.for_vote@,
            config.against_vote@,
            config.abstain_vote@,
            config.approve_react@,
            config.disapprove_react@,
        ],
{
    let title = cat("Motion to ", topic);
    let role = role_mention_text(config.vote_role);
    let user = user_mention_text(author);
    let description = cat3(role.as_str(), " take a look at this motion from ", user.as_str());
    let fields = vec![
        field(String::from_str("Status"), String::from_str("Under Consideration"), true),
        field(String::from_str("Votes"), String::from_str("For: 0\nAgainst: 0\nAbstain: 0"), true),
    ];
    let reactions = vec![
        config.for_vote.clone(),
        config.against_vote.clone(),
        config.abstain_vote.clone(),
        config.approve_react.clone(),
        config.disapprove_react.clone(),
    ];
    assert(fields_view(fields@) =~= seq![
        ("Status"@, "Under Consideration"@, true),
        ("Votes"@, "For: 0\nAgainst: 0\nAbstain: 0"@, true),
    ]);
    assert(strings_view(reactions@) =~= seq![
        config.for_vote@,
        config.against_vote@,
        config.abstain_vote@,
        config.approve_react@,
        config.disapprove_react@,
    ]);
    Announcement { title, description, colour: EmbedColour::Gold, fields, reactions }
}

/// The announcement of a poll on `topic` asked by `author`.
pub fn poll_announcement(config: &UccbotConfig, author: u64, topic: &str) -> (r: Announcement)
    ensures
        r.title@ == "Poll "@ + topic@,
        r.description@ == user_mention(author) + " wants to know what you think."@,
        r.colour == EmbedColour::Blue,
        r.fields@.len() == 0,
        strings_view(r.reactions@) == seq![
            config.approve_react@,
            config.disapprove_react@,
            config.unsure_react@,
        ],
{
    let title = cat("Poll ", topic);
    let user = user_mention_text(author);
    let description = cat(user.as_str(), " wants to know what you think.");
    let reactions = vec![
        config.approve_react.clone(),
        config.disapprove_react.clone(),
        config.unsure_react.clone(),
    ];
    assert(strings_view(reactions@) =~= seq![
        config.approve_react@,
        config.disapprove_react@,
        config.unsure_react@,
    ]);
    Announcement {
        title,
        description,
        colour: EmbedColour::Blue,
        fields: Vec::new(),
        reactions,
    }
}

/// What a motion or poll command does: announce the topic, or reply.
#[derive(Debug, PartialEq, Eq)]
pub enum CommandOutcome {
    Announce(String),
    Reply(String),
}

/// An outcome as (whether it announces, its text).
pub open spec fn outcome_view(o: CommandOutcome) -> (bool, Seq<char>) {
    match o {
        CommandOutcome::Announce(t) => (true, t@),
        CommandOutcome::Reply(t) => (false, t@),
    }
}

/// `!move` and `!poll` announce a non-empty topic and otherwise reply.
pub open spec fn spec_topic_command(content: Seq<char>) -> (bool, Seq<char>) {
    if content.len() > 0 {
        (true, content)
    } else {
        (false, missing_topic_reply())
    }
}

/// The reply to `!move` or `!poll` without a topic.
pub open spec fn missing_topic_reply() -> Seq<char> {
    "If there's something you want to motion, put it after the !move keyword"@
}

fn topic_command(content: &str) -> (r: CommandOutcome)
    ensures
        outcome_view(r) == spec_topic_command(content@),
{
    if !content.is_empty() {
        CommandOutcome::Announce(content.to_owned())
    } else {
        CommandOutcome::Reply(String::from_str("If there's something you want to motion, put it after the !move keyword"))
    }
}

/// `!move <motion>`: announce the motion, or explain the command.
pub fn move_something(content: &str) -> (r: CommandOutcome)
    ensures
        outcome_view(r) == spec_topic_command(content@),
{
    topic_command(content)
}

/// `!poll <topic>`: announce the poll, or explain the command.
pub fn poll(content: &str) -> (r: CommandOutcome)
    ensures
        outcome_view(r) == spec_topic_command(content@),
{
    topic_command(content)
}

/// `!motion`: point the user at `!move`.
pub fn motion(_content: &str) -> (r: CommandOutcome)
    ensures
        outcome_view(r) == (
            false,
            "I hope you're not having a motion. You may have wanted to !move something instead."@,
        ),
{
    CommandOutcome::Reply(String::from_str("I hope you're not having a motion. You may have wanted to !move something instead."))
}

/// What the bot does with a react added to a motion.
#[derive(Debug, PartialEq, Eq, Clone, Copy, Structural)]
pub enum VoteReactAction {
    /// Take the react off again.
    Delete,
    /// Record it and update the motion.
    Record,
    /// Leave it.
    Ignore,
}

/// The vote reacts other than `react`, in the order for, against, abstain.
pub open spec fn spec_other_vote_reacts(config: &UccbotConfig, react: Seq<char>) -> Seq<
    Seq<char>,
> {
    seq![config.for_vote@, config.against_vote@, config.abstain_vote@].filter(
        |r: Seq<char>| r != react,
    )
}

/// The vote reacts other than `react`, whose voters a voter must not be among.
pub fn other_vote_reacts(config: &UccbotConfig, react: &str) -> (r: Vec<String>)
    ensures
        strings_view(r@) == spec_other_vote_reacts(config, react@),
{
    let all = vec![config.for_vote.clone(), config.against_vote.clone(), config.abstain_vote.clone()];
    let ghost all_v = seq![config.for_vote@, config.against_vote@, config.abstain_vote@];
    assert(strings_view(all@) =~= all_v);
    let mut r: Vec<String> = Vec::new();
    let mut i: usize = 0;
    while i < all.len()
        invariant
            strings_view(all@) == all_v,
            all@.len() == 3,
            i <= 3,
            strings_view(r@) == all_v.take(i as int).filter(|x: Seq<char>| x != react@),
        decreases 3 - i,
    {
        let ghost before = r@;
        proof {
            assert(all_v.take(i + 1).drop_last() == all_v.take(i as int));
            reveal_with_fuel(Seq::filter, 1);
        }
        if !str_eq(all[i].as_str(), react) {
            r.push(all[i].clone());
            assert(strings_view(r@) =~= strings_view(before).push(all_v[i as int]));
        }
        i = i + 1;
    }
    assert(all_v.take(3) == all_v);
    r
}

/// The verdict on a react added to a motion: from a voter, it is deleted if
/// they already voted another way or it is not an allowed react, and
/// recorded otherwise; from anyone else, only approve and disapprove stay.
pub open spec fn spec_vote_react_action(
    config: &UccbotConfig,
    react: Seq<char>,
    has_vote_role: bool,
    voted_elsewhere: bool,
) -> VoteReactAction {
    if has_vote_role {
        if voted_elsewhere {
            VoteReactAction::Delete
        } else if !config.spec_allowed_reacts().contains(react) {
            VoteReactAction::Delete
        } else {
            VoteReactAction::Record
        }
    } else if react != config.approve_react@ && react != config.disapprove_react@ {
        VoteReactAction::Delete
    } else {
        VoteReactAction::Ignore
    }
}

/// What to do with a react added to a motion, given whether the reactor has
/// the vote role and whether they are among the voters of another vote react.
pub fn vote_react_action(
    config: &UccbotConfig,
    react: &str,
    has_vote_role: bool,
    voted_elsewhere: bool,
) -> (r: VoteReactAction)
    ensures
        r == spec_vote_react_action(config, react@, has_vote_role, voted_elsewhere),
{
    if has_vote_role {
        if voted_elsewhere {
            VoteReactAction::Delete
        } else if !config.is_allowed_react(react) {
            VoteReactAction::Delete
        } else {
            VoteReactAction::Record
        }
    } else if !str_eq(react, config.approve_react.as_str()) && !str_eq(
        react,
        config.disapprove_react.as_str(),
    ) {
        VoteReactAction::Delete
    } else {
        VoteReactAction::Ignore
    }
}

/// Without `user`, a list no longer holds `user` and holds no user twice
/// if it held none twice before; taking a user out twice is taking them
/// out once.
pub proof fn lemma_without(list: Seq<u64>, user: u64)
    ensures
        !without(list, user).contains(user),
        no_duplicates(list) ==> no_duplicates(without(list, user)),
        without(without(list, user), user) == without(list, user),
    decreases list.len(),
{
    reveal_with_fuel(Seq::filter, 1);
    if list.len() > 0 {
        let d = list.drop_last();
        lemma_without(d, user);
        let fd = without(d, user);
        if list.last() != user {
            assert(without(list, user) == fd.push(list.last()));
            assert(without(list, user).drop_last() == fd);
            if no_duplicates(list) {
                assert(no_duplicates(d));
                if fd.contains(list.last()) {
                    lemma_without_within(d, user, list.last());
                    let k = choose|k: int| 0 <= k < d.len() && d[k] == list.last();
                    assert(list[k] == list[list.len() - 1]);
                }
            }
        } else {
            assert(without(list, user) == fd);
        }
    }
}

/// A vote puts its voter last in the list, once; it keeps a list free of
/// duplicates.
pub proof fn lemma_vote_once(list: Seq<u64>, user: u64)
    ensures
        with_vote(list, user).last() == user,
        !with_vote(list, user).drop_last().contains(user),
        no_duplicates(list) ==> no_duplicates(with_vote(list, user)),
{
    lemma_without(list, user);
    assert(with_vote(list, user).drop_last() == without(list, user));
}

/// Withdrawing a vote undoes casting it: the list is as if the voter had
/// withdrawn from the list as it was before.
pub proof fn lemma_withdraw_undoes_vote(list: Seq<u64>, user: u64)
    ensures
        without(with_vote(list, user), user) == without(list, user),
{
    reveal_with_fuel(Seq::filter, 1);
    lemma_without(list, user);
    let w = without(list, user);
    assert(w.push(user).drop_last() == w);
}

/// Voting the same way twice is voting once.
pub proof fn lemma_vote_idempotent(list: Seq<u64>, user: u64)
    ensures
        with_vote(with_vote(list, user), user) == with_vote(list, user),
{
    lemma_withdraw_undoes_vote(list, user);
    lemma_without(list, user);
}

/// One more vote for a passed motion leaves it passed.
pub proof fn lemma_for_vote_keeps_passed(
    pool: i8,
    votes: (Seq<u64>, Seq<u64>, Seq<u64>),
    tiebreakers: (bool, bool, bool),
    user: u64,
)
    requires
        spec_motion_status(pool, votes, tiebreakers) == MotionStatus::Passed,
        !votes.0.contains(user),
    ensures
        spec_motion_status(pool, (with_vote(votes.0, user), votes.1, votes.2), tiebreakers)
            == MotionStatus::Passed,
{
    reveal_with_fuel(Seq::filter, 1);
    lemma_without_absent(votes.0, user);
}

/// What remains without `user` was in the list.
pub proof fn lemma_without_within(list: Seq<u64>, user: u64, x: u64)
    requires
        without(list, user).contains(x),
    ensures
        list.contains(x),
    decreases list.len(),
{
    reveal_with_fuel(Seq::filter, 1);
    if list.len() > 0 {
        let d = list.drop_last();
        if list.last() != x {
            let w = without(d, user);
            assert(without(list, user) == w || without(list, user) == w.push(list.last()));
            let k = choose|k: int| 0 <= k < without(list, user).len() && without(list, user)[k] == x;
            if without(list, user) == w.push(list.last()) {
                assert(k < w.len());
                assert(w[k] == x);
            }
            assert(w.contains(x));
            lemma_without_within(d, user, x);
            let j = choose|j: int| 0 <= j < d.len() && d[j] == x;
            assert(list[j] == x);
        } else {
            assert(list[list.len() - 1] == x);
        }
    } else {
        assert(without(list, user).len() == 0);
    }
}

/// Removing a user a list does not hold leaves it as it is.
pub proof fn lemma_without_absent(list: Seq<u64>, user: u64)
    requires
        !list.contains(user),
    ensures
        without(list, user) == list,
    decreases list.len(),
{
    reveal_with_fuel(Seq::filter, 1);
    if list.len() > 0 {
        let d = list.drop_last();
        assert(!d.contains(user)) by {
            if d.contains(user) {
                let k = choose|k: int| 0 <= k < d.len() && d[k] == user;
                assert(list[k] == user);
            }
        }
        lemma_without_absent(d, user);
        assert(list.last() != user);
        assert(list == d.push(list.last()));
    }
}

/// A motion passes exactly when its for votes, counted without the bot's own
/// react and with a quarter vote more where a tiebreaker voted for, exceed
/// half the vote pool (as a fraction, not rounded); it fails exactly when it
/// does not pass and the against and abstain votes, counted the same way,
/// together exceed half the pool.
pub proof fn lemma_status_thresholds(
    pool: i8,
    votes: (Seq<u64>, Seq<u64>, Seq<u64>),
    tiebreakers: (bool, bool, bool),
)
    ensures
        (spec_motion_status(pool, votes, tiebreakers) == MotionStatus::Passed) <==> 4 * (
        votes.0.len() - 1) + (if tiebreakers.0 {
            1int
        } else {
            0int
        }) > 2 * pool,
        (spec_motion_status(pool, votes, tiebreakers) == MotionStatus::Failed) <==> (!(4 * (
        votes.0.len() - 1) + (if tiebreakers.0 {
            1int
        } else {
            0int
        }) > 2 * pool) && 4 * (votes.1.len() - 1) + (if tiebreakers.1 {
            1int
        } else {
            0int
        }) + 4 * (votes.2.len() - 1) + (if tiebreakers.2 {
            1int
        } else {
            0int
        }) > 2 * pool),
{
}

/// With an odd vote pool of `2k + 1`, `k` for votes and a tiebreaker's
/// quarter do not pass a motion, and `k + 1` for votes always do: a
/// tiebreaker only tips an exact half.
pub proof fn lemma_tiebreaker_needs_exact_half(
    k: i8,
    votes: (Seq<u64>, Seq<u64>, Seq<u64>),
    tiebreakers: (bool, bool, bool),
)
    requires
        0 <= k <= 63,
    ensures
        votes.0.len() - 1 == k ==> spec_motion_status((2 * k + 1) as i8, votes, tiebreakers)
            != MotionStatus::Passed,
        votes.0.len() - 1 == k + 1 ==> spec_motion_status((2 * k + 1) as i8, votes, tiebreakers)
            == MotionStatus::Passed,
{
}

/// With an even vote pool of `2k`, `k` for votes pass a motion exactly when
/// a tiebreaker is among them.
pub proof fn lemma_tiebreaker_tips_even_half(
    k: i8,
    votes: (Seq<u64>, Seq<u64>, Seq<u64>),
    tiebreakers: (bool, bool, bool),
)
    requires
        0 <= k <= 63,
        votes.0.len() - 1 == k,
    ensures
        (spec_motion_status((2 * k) as i8, votes, tiebreakers) == MotionStatus::Passed)
            <==> tiebreakers.0,
{
}

/// What happens to a react added to a motion: from a member without the vote
/// role, approve and disapprove reacts stay and every other react is taken
/// off; from a voter, a react is taken off when they already voted another
/// way or it is none of the six motion reacts, and counted otherwise.
pub proof fn lemma_vote_react_actions(
    config: &UccbotConfig,
    react: Seq<char>,
    has_vote_role: bool,
    voted_elsewhere: bool,
)
    ensures
        !has_vote_role ==> (spec_vote_react_action(config, react, false, voted_elsewhere)
            == VoteReactAction::Ignore <==> (react == config.approve_react@ || react
            == config.disapprove_react@)),
        !has_vote_role ==> (spec_vote_react_action(config, react, false, voted_elsewhere)
            == VoteReactAction::Delete <==> !(react == config.approve_react@ || react
            == config.disapprove_react@)),
        spec_vote_react_action(config, react, true, true) == VoteReactAction::Delete,
        spec_vote_react_action(config, react, true, false) == VoteReactAction::Record <==> (react
            == config.for_vote@ || react == config.against_vote@ || react == config.abstain_vote@
            || react == config.approve_react@ || react == config.disapprove_react@ || react
            == config.unsure_react@),
        spec_vote_react_action(config, react, true, false) != VoteReactAction::Ignore,
{
    let allowed = config.spec_allowed_reacts();
    if react == config.for_vote@ {
        assert(allowed[0] == react);
    } else if react == config.against_vote@ {
        assert(allowed[1] == react);
    } else if react == config.abstain_vote@ {
        assert(allowed[2] == react);
    } else if react == config.approve_react@ {
        assert(allowed[3] == react);
    } else if react == config.disapprove_react@ {
        assert(allowed[4] == react);
    } else if react == config.unsure_react@ {
        assert(allowed[5] == react);
    }
}

} // verus!
