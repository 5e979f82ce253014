//! The bot's configuration, and the role-reaction maps it holds.
use crate::text::str_eq;
use indexmap::IndexMap;
use vstd::prelude::*;

verus! {

#[verifier::external_type_specification]
#[verifier::external_body]
#[verifier::reject_recursive_types(K)]
#[verifier::reject_recursive_types(V)]
#[verifier::reject_recursive_types(S)]
pub struct ExIndexMap<K, V, S>(IndexMap<K, V, S>);

/// The entries of a reaction-to-role map, in insertion order: each react's
/// text and the id of the role it grants.
pub uninterp spec fn react_role_entries(m: IndexMap<String, u64>) -> Seq<(Seq<char>, u64)>;

/// The position of the entry for `key`, if there is one.
pub open spec fn entry_index(es: Seq<(Seq<char>, u64)>, key: Seq<char>) -> Option<int>
    decreases es.len(),
{
    if es.len() == 0 {
        None
    } else if es[0].0 == key {
        Some(0)
    } else {
        match entry_index(es.drop_first(), key) {
            Some(i) => Some(i + 1),
            None => None,
        }
    }
}

/// The role an entry list maps `key` to.
pub open spec fn entry_lookup(es: Seq<(Seq<char>, u64)>, key: Seq<char>) -> Option<u64> {
    match entry_index(es, key) {
        Some(i) => Some(es[i].1),
        None => None,
    }
}

/// The entries after inserting `key => value`: an existing key keeps its
/// place and takes the new value, a new key goes last.
pub open spec fn entries_insert(es: Seq<(Seq<char>, u64)>, key: Seq<char>, value: u64) -> Seq<
    (Seq<char>, u64),
> {
    match entry_index(es, key) {
        Some(i) => es.update(i, (key, value)),
        None => es.push((key, value)),
    }
}

/// `IndexMap::new`: an empty map.
#[verifier::external_body]
fn role_map_new() -> (r: IndexMap<String, u64>)
    ensures
        react_role_entries(r) == Seq::<(Seq<char>, u64)>::empty(),
{
    IndexMap::new()
}

/// `IndexMap::insert`: an existing key keeps its place and takes the new
/// value; a new key is appended.
#[verifier::external_body]
fn role_map_insert(m: &mut IndexMap<String, u64>, key: String, value: u64)
    ensures
        react_role_entries(*final(m)) == entries_insert(react_role_entries(*old(m)), key@, value),
{
    m.insert(key, value);
}

/// `IndexMap::len`.
#[verifier::external_body]
fn role_map_len(m: &IndexMap<String, u64>) -> (r: usize)
    ensures
        r == react_role_entries(*m).len(),
{
    m.len()
}

/// `IndexMap::get_index`, with the key copied out.
#[verifier::external_body]
fn role_map_get_index(m: &IndexMap<String, u64>, i: usize) -> (r: (String, u64))
    requires
        i < react_role_entries(*m).len(),
    ensures
        (r.0@, r.1) == react_role_entries(*m)[i as int],
{
    let (k, v) = m.get_index(i).unwrap();
    (k.clone(), *v)
}

/// `IndexMap::get`.
#[verifier::external_body]
fn role_map_get(m: &IndexMap<String, u64>, key: &str) -> (r: Option<u64>)
    ensures
        r == entry_lookup(react_role_entries(*m), key@),
{
    m.get(key).copied()
}

/// `IndexMap::contains_key`.
#[verifier::external_body]
fn role_map_contains_key(m: &IndexMap<String, u64>, key: &str) -> (r: bool)
    ensures
        r == (entry_index(react_role_entries(*m), key@) is Some),
{
    m.contains_key(key)
}

/// A message whose reactions grant roles, and which react grants which role.
pub struct ReactionMapping {
    pub message: u64,
    pub mapping: IndexMap<String, u64>,
}

pub open spec fn pairs_view(pairs: Seq<(String, u64)>) -> Seq<(Seq<char>, u64)> {
    pairs.map_values(|p: (String, u64)| (p.0@, p.1))
}

/// Inserts each pair in turn into an empty map.
pub open spec fn entries_of_pairs(pairs: Seq<(Seq<char>, u64)>) -> Seq<(Seq<char>, u64)>
    decreases pairs.len(),
{
    if pairs.len() == 0 {
        Seq::empty()
    } else {
        entries_insert(entries_of_pairs(pairs.drop_last()), pairs.last().0, pairs.last().1)
    }
}

impl ReactionMapping {
    /// The mapping for `message` built by inserting the pairs in order.
    pub fn from_pairs(message: u64, pairs: Vec<(String, u64)>) -> (r: ReactionMapping)
        ensures
            r.message == message,
            react_role_entries(r.mapping) == entries_of_pairs(pairs_view(pairs@)),
    {
        let mut m = role_map_new();
        let mut i: usize = 0;
        while i < pairs.len()
            invariant
                i <= pairs.len(),
                react_role_entries(m) == entries_of_pairs(pairs_view(pairs@).take(i as int)),
            decreases pairs.len() - i,
        {
            let (k, v) = (pairs[i].0.clone(), pairs[i].1);
            role_map_insert(&mut m, k, v);
            proof {
                let pv = pairs_view(pairs@);
                assert(pv.take(i + 1).drop_last() == pv.take(i as int));
                assert(pv.take(i + 1).last() == pv[i as int]);
            }
            i = i + 1;
        }
        assert(pairs_view(pairs@).take(pairs.len() as int) == pairs_view(pairs@));
        ReactionMapping { message, mapping: m }
    }

    /// The role the react `react` grants, if any.
    pub fn role_for(&self, react: &str) -> (r: Option<u64>)
        ensures
            r == entry_lookup(react_role_entries(self.mapping), react@),
    {
        role_map_get(&self.mapping, react)
    }

    /// Whether `react` grants a role.
    pub fn grants_role(&self, react: &str) -> (r: bool)
        ensures
            r == (entry_index(react_role_entries(self.mapping), react@) is Some),
    {
        role_map_contains_key(&self.mapping, react)
    }

    /// The entries, in order.
    pub fn entries(&self) -> (r: Vec<(String, u64)>)
        ensures
            pairs_view(r@) == react_role_entries(self.mapping),
    {
        let n = role_map_len(&self.mapping);
        let mut r: Vec<(String, u64)> = Vec::new();
        let mut i: usize = 0;
        while i < n
            invariant
                n == react_role_entries(self.mapping).len(),
                i <= n,
                pairs_view(r@) == react_role_entries(self.mapping).take(i as int),
            decreases n - i,
        {
            let e = role_map_get_index(&self.mapping, i);
            let ghost before = r@;
            r.push(e);
            proof {
                let es = react_role_entries(self.mapping);
                assert(r@ == before.push(e));
                assert(pairs_view(r@) =~= pairs_view(before).push((e.0@, e.1)));
                assert(es.take(i + 1) =~= es.take(i as int).push(es[i as int]));
            }
            i = i + 1;
        }
        assert(react_role_entries(self.mapping).take(n as int) == react_role_entries(
            self.mapping,
        ));
        r
    }
}

/// Which list of a motion's votes a react counts in.
#[derive(Debug, PartialEq, Eq, Clone, Copy, Structural)]
pub enum VoteKind {
    For,
    Against,
    Abstain,
}

/// The bot's configuration.
pub struct UccbotConfig {
    pub server_id: u64,
    pub main_channel: u64,
    pub welcome_channel: u64,
    pub announcement_channel: u64,
    pub readme_channel: u64,
    pub bot_id: u64,
    pub vote_pool_size: i8,
    pub vote_role: u64,
    pub tiebreaker_role: u64,
    pub unregistered_member_role: u64,
    pub registered_member_role: u64,
    pub command_prefix: String,
    pub for_vote: String,
    pub against_vote: String,
    pub abstain_vote: String,
    pub approve_react: String,
    pub disapprove_react: String,
    pub unsure_react: String,
    pub react_role_messages: Vec<ReactionMapping>,
    pub mention_responses: Option<Vec<String>>,
    pub bind_address: String,
    pub ldap_pass: String,
}

impl UccbotConfig {
    /// The reacts allowed on a motion, in order: for, against, abstain,
    /// approve, disapprove, unsure.
    pub open spec fn spec_allowed_reacts(&self) -> Seq<Seq<char>> {
        seq![
            self.for_vote@,
            self.against_vote@,
            self.abstain_vote@,
            self.approve_react@,
            self.disapprove_react@,
            self.unsure_react@,
        ]
    }

    /// The reacts allowed on a motion.
    pub fn allowed_reacts(&self) -> (r: Vec<String>)
        ensures
            r@.map_values(|s: String| s@) == self.spec_allowed_reacts(),
    {
        let r = vec![
            self.for_vote.clone(),
            self.against_vote.clone(),
            self.abstain_vote.clone(),
            self.approve_react.clone(),
            self.disapprove_react.clone(),
            self.unsure_react.clone(),
        ];
        assert(r@.map_values(|s: String| s@) =~= self.spec_allowed_reacts());
        r
    }

    /// Whether `react` is one of the reacts allowed on a motion.
    pub fn is_allowed_react(&self, react: &str) -> (r: bool)
        ensures
            r == self.spec_allowed_reacts().contains(react@),
    {
        let allowed = self.allowed_reacts();
        let mut i: usize = 0;
        while i < allowed.len()
            invariant
                allowed@.map_values(|s: String| s@) == self.spec_allowed_reacts(),
                i <= allowed.len(),
                forall|k: int| 0 <= k < i ==> self.spec_allowed_reacts()[k] != react@,
            decreases allowed.len() - i,
        {
            if str_eq(allowed[i].as_str(), react) {
                assert(self.spec_allowed_reacts()[i as int] == react@);
                return true;
            }
            i = i + 1;
        }
        false
    }

    /// The vote list `react` counts in: the first of for, against and
    /// abstain whose react it is.
    pub open spec fn spec_vote_kind(&self, react: Seq<char>) -> Option<VoteKind> {
        if react == self.for_vote@ {
            Some(VoteKind::For)
        } else if react == self.against_vote@ {
            Some(VoteKind::Against)
        } else if react == self.abstain_vote@ {
            Some(VoteKind::Abstain)
        } else {
            None
        }
    }

    /// The vote list `react` counts in, if it is a vote.
    pub fn vote_kind(&self, react: &str) -> (r: Option<VoteKind>)
        ensures
            r == self.spec_vote_kind(react@),
    {
        if str_eq(react, self.for_vote.as_str()) {
            Some(VoteKind::For)
        } else if str_eq(react, self.against_vote.as_str()) {
            Some(VoteKind::Against)
        } else if str_eq(react, self.abstain_vote.as_str()) {
            Some(VoteKind::Abstain)
        } else {
            None
        }
    }

    /// Whether `message` is one of the role-reaction messages.
    pub open spec fn spec_is_role_message(&self, message: u64) -> bool {
        exists|i: int|
            0 <= i < self.react_role_messages@.len() && #[trigger] self.react_role_messages@[i].message
                == message
    }

    /// The position of the first role-reaction mapping for `message`.
    pub fn mapping_index(&self, message: u64) -> (r: Option<usize>)
        ensures
            match r {
                Some(i) => i < self.react_role_messages@.len()
                    && self.react_role_messages@[i as int].message == message && forall|j: int|
                    0 <= j < i ==> #[trigger] self.react_role_messages@[j].message != message,
                None => !self.spec_is_role_message(message),
            },
    {
        let mut i: usize = 0;
        while i < self.react_role_messages.len()
            invariant
                i <= self.react_role_messages@.len(),
                forall|j: int| 0 <= j < i ==> #[trigger] self.react_role_messages@[j].message != message,
            decreases self.react_role_messages@.len() - i,
        {
            if self.react_role_messages[i].message == message {
                return Some(i);
            }
            i = i + 1;
        }
        None
    }

    /// Whether `message` is one of the role-reaction messages.
    pub fn is_role_message(&self, message: u64) -> (r: bool)
        ensures
            r == self.spec_is_role_message(message),
    {
        self.mapping_index(message).is_some()
    }

    /// The role granted by reacting with `react` on `message`: the first
    /// mapping for that message decides.
    pub open spec fn spec_role_for_reaction(&self, message: u64, react: Seq<char>) -> Option<u64> {
        if self.spec_is_role_message(message) {
            let i = choose|i: int|
                0 <= i < self.react_role_messages@.len()
                    && #[trigger] self.react_role_messages@[i].message == message && forall|j: int|
                    0 <= j < i ==> #[trigger] self.react_role_messages@[j].message != message;
            entry_lookup(react_role_entries(self.react_role_messages@[i].mapping), react)
        } else {
            None
        }
    }

    /// The role granted by reacting with `react` on `message`, if any.
    pub fn role_for_reaction(&self, message: u64, react: &str) -> (r: Option<u64>)
        ensures
            r == self.spec_role_for_reaction(message, react@),
    {
        match self.mapping_index(message) {
            Some(i) => {
                let ghost chosen = choose|k: int|
                    0 <= k < self.react_role_messages@.len()
                        && #[trigger] self.react_role_messages@[k].message == message && forall|
                        j: int,
                    |
                        0 <= j < k ==> #[trigger] self.react_role_messages@[j].message != message;
                proof {
                    assert(self.react_role_messages@[i as int].message == message);
                    if chosen < i {
                        assert(self.react_role_messages@[chosen].message != message);
                    }
                    if chosen > i {
                        assert(self.react_role_messages@[i as int].message != message);
                    }
                }
                self.react_role_messages[i].role_for(react)
            },
            None => None,
        }
    }
}

} // verus!
