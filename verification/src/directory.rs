//! What the bot reads from the club's account directory: LDAP search results
//! and the output of the `tla` lookup tool.
use crate::text::{
    find_char, lemma_find_char_some, replace_all, replace_str, split_once_char, str_eq,
};
use vstd::prelude::*;
use vstd::string::StringSliceAdditionalSpecFns;
use vstd::utf8::*;

verus! {

/// An account found in LDAP.
pub struct LDAPUser {
    pub username: String,
    pub name: String,
    pub when_created: String,
}

/// A member's three-letter acronym entry.
pub struct TLA {
    pub tla: Option<String>,
    pub name: String,
    pub username: String,
}

/// One LDAP search result: each attribute's name and values.
pub struct LdapEntry {
    pub attrs: Vec<(String, Vec<String>)>,
}

pub open spec fn strings_view(v: Seq<String>) -> Seq<Seq<char>> {
    v.map_values(|s: String| s@)
}

/// The values of the first attribute named `name`, if any.
pub open spec fn attr_values(attrs: Seq<(String, Vec<String>)>, name: Seq<char>) -> Option<
    Seq<Seq<char>>,
>
    decreases attrs.len(),
{
    if attrs.len() == 0 {
        None
    } else if attrs[0].0@ == name {
        Some(strings_view(attrs[0].1@))
    } else {
        attr_values(attrs.drop_first(), name)
    }
}

/// The values joined with nothing between them.
pub open spec fn joined(values: Seq<Seq<char>>) -> Seq<char>
    decreases values.len(),
{
    if values.len() == 0 {
        Seq::empty()
    } else {
        joined(values.drop_last()) + values.last()
    }
}

/// The values of the first attribute named `name`, joined.
pub open spec fn joined_attr(attrs: Seq<(String, Vec<String>)>, name: Seq<char>) -> Option<Seq<char>> {
    match attr_values(attrs, name) {
        Some(v) => Some(joined(v)),
        None => None,
    }
}

/// Whether the entry has the `name` and `displayName` attributes that a
/// single search result must have (reading it panics otherwise).
pub open spec fn entry_complete(e: LdapEntry) -> bool {
    attr_values(e.attrs@, "name"@) is Some && attr_values(e.attrs@, "displayName"@) is Some
}

/// Whether a single search result, if that is what was found, is complete.
pub open spec fn results_usable(results: Seq<LdapEntry>) -> bool {
    results.len() == 1 ==> entry_complete(results[0])
}

fn attr_lookup(attrs: &Vec<(String, Vec<String>)>, name: &str) -> (r: Option<String>)
    ensures
        match r {
            Some(v) => attr_values(attrs@, name@) matches Some(vals) && v@ == joined(vals),
            None => attr_values(attrs@, name@) is None,
        },
{
    let mut i: usize = 0;
    assert(attrs@.skip(0) == attrs@);
    while i < attrs.len()
        invariant
            i <= attrs@.len(),
            attr_values(attrs@, name@) == attr_values(attrs@.skip(i as int), name@),
        decreases attrs@.len() - i,
    {
        if str_eq(attrs[i].0.as_str(), name) {
            return Some(join_values(&attrs[i].1));
        }
        assert(attrs@.skip(i as int).drop_first() == attrs@.skip(i + 1));
        i = i + 1;
    }
    None
}

fn join_values(values: &Vec<String>) -> (r: String)
    ensures
        r@ == joined(strings_view(values@)),
{
    let mut r = String::new();
    let mut i: usize = 0;
    while i < values.len()
        invariant
            i <= values@.len(),
            r@ == joined(strings_view(values@).take(i as int)),
        decreases values@.len() - i,
    {
        proof {
            let sv = strings_view(values@);
            assert(sv.take(i + 1).drop_last() == sv.take(i as int));
            assert(sv.take(i + 1).last() == values@[i as int]@);
        }
        r.append(values[i].as_str());
        i = i + 1;
    }
    assert(strings_view(values@).take(values@.len() as int) == strings_view(values@));
    r
}

/// The account a search found: only where it found exactly one, with the
/// values of its `name` and `displayName` joined.
pub fn ldap_user_from_results(results: &Vec<LdapEntry>) -> (r: Option<LDAPUser>)
    requires
        results_usable(results@),
    ensures
        r is Some <==> results@.len() == 1,
        r matches Some(u) ==> {
            &&& joined_attr(results@[0].attrs@, "name"@) == Some(u.username@)
            &&& joined_attr(results@[0].attrs@, "displayName"@) == Some(u.name@)
            &&& u.when_created@.len() == 0
        },
{
    if results.len() != 1 {
        return None;
    }
    let username = attr_lookup(&results[0].attrs, "name");
    let name = attr_lookup(&results[0].attrs, "displayName");
    match (username, name) {
        (Some(username), Some(name)) => Some(LDAPUser { username, name, when_created: String::new() }),
        _ => None,
    }
}

/// Whether a search found an account (exactly one entry).
pub fn ldap_exists(results: &Vec<LdapEntry>) -> (r: bool)
    requires
        results_usable(results@),
    ensures
        r == (results@.len() == 1),
{
    match ldap_user_from_results(results) {
        Some(_) => true,
        None => false,
    }
}

/// The parts of `s` between occurrences of `c` (`str::split`).
pub open spec fn split_all(s: Seq<char>, c: char) -> Seq<Seq<char>>
    decreases s.len(),
{
    match find_char(s, c) {
        Some(i) => {
            proof {
                lemma_find_char_some(s, c);
            }
            seq![s.take(i)] + split_all(s.skip(i + 1), c)
        },
        None => seq![s],
    }
}

/// The parts of `s` between occurrences of `c`.
pub fn split_all_str(s: &str, c: char) -> (r: Vec<String>)
    ensures
        strings_view(r@) == split_all(s@, c),
{
    let mut parts: Vec<String> = Vec::new();
    let mut rest: String = s.to_owned();
    proof {
        lemma_find_char_some(s@, c);
    }
    loop
        invariant
            strings_view(parts@) + split_all(rest@, c) == split_all(s@, c),
        decreases rest@.len(),
    {
        let (head, tail) = split_once_char(rest.as_str(), c);
        proof {
            lemma_find_char_some(rest@, c);
        }
        match tail {
            Some(t) => {
                let ghost old_parts = parts@;
                parts.push(head);
                proof {
                    assert(strings_view(parts@) =~= strings_view(old_parts).push(rest@.take(find_char(rest@, c)->0)));
                    assert(split_all(rest@, c) == seq![rest@.take(find_char(rest@, c)->0)] + split_all(t@, c));
                    assert(strings_view(parts@) + split_all(t@, c) =~= strings_view(old_parts) + split_all(rest@, c));
                }
                rest = t;
            },
            None => {
                let ghost old_parts = parts@;
                parts.push(head);
                proof {
                    assert(strings_view(parts@) =~= strings_view(old_parts) + split_all(rest@, c));
                }
                return parts;
            },
        }
    }
}

/// The acronym part of the first line: bytes 1 to 4 of the line with
/// `TLA: ` taken out.
pub open spec fn tla_code(line: Seq<char>) -> Seq<char> {
    decode_utf8(encode_utf8(replace_all(line, "TLA: "@, ""@)).subrange(1, 4))
}

/// Whether output with four lines has a first line that can be sliced
/// (slicing panics otherwise): bytes 1 and 4 of it, with `TLA: ` taken out, fall
/// on character boundaries.
pub open spec fn tla_output_usable(stdout: Seq<char>) -> bool {
    let lines = split_all(stdout, '\n');
    lines.len() == 4 ==> {
        let bytes = encode_utf8(replace_all(lines[0], "TLA: "@, ""@));
        is_char_boundary(bytes, 1) && is_char_boundary(bytes, 4)
    }
}

/// What `tla` output with exactly four lines says: the acronym (none where it
/// is `???`), the name and the login.
pub open spec fn spec_parse_tla(stdout: Seq<char>) -> Option<(Option<Seq<char>>, Seq<char>, Seq<char>)> {
    let lines = split_all(stdout, '\n');
    if lines.len() != 4 {
        None
    } else {
        let code = tla_code(lines[0]);
        Some(
            (
                if code == "???"@ {
                    None
                } else {
                    Some(code)
                },
                replace_all(lines[1], "Name: "@, ""@),
                replace_all(lines[2], "Login: "@, ""@),
            ),
        )
    }
}

pub open spec fn tla_view(t: TLA) -> (Option<Seq<char>>, Seq<char>, Seq<char>) {
    (
        match t.tla {
            Some(s) => Some(s@),
            None => None,
        },
        t.name@,
        t.username@,
    )
}

/// Bytes 1 to 4 of a text, as a text.
fn middle_three_bytes(t: &str) -> (r: String)
    requires
        is_char_boundary(encode_utf8(t@), 1),
        is_char_boundary(encode_utf8(t@), 4),
    ensures
        r@ == decode_utf8(encode_utf8(t@).subrange(1, 4)),
{
    let ghost bytes = encode_utf8(t@);
    proof {
        encode_utf8_valid_utf8(t@);
        assert(t.spec_bytes() == bytes);
        assert(valid_utf8(bytes));
        assert(bytes.len() != 0);
        assert(valid_first_scalar(bytes));
        let lf = length_of_first_scalar(bytes);
        assert(1 <= lf <= 4);
        assert(is_char_boundary(bytes, 1) == is_char_boundary(pop_first_scalar(bytes), 1 - lf));
        if lf != 1 {
            assert(!is_char_boundary(pop_first_scalar(bytes), 1 - lf));
        }
        assert(lf == 1);
        assert(pop_first_scalar(bytes) =~= bytes.subrange(1, bytes.len() as int));
        assert(valid_utf8(pop_first_scalar(bytes)));
        assert(is_char_boundary(pop_first_scalar(bytes), 3));
    }
    let (_, rest) = t.split_at(1);
    proof {
        assert(rest.spec_bytes() =~= bytes.subrange(1, bytes.len() as int));
        assert(is_char_boundary(rest.spec_bytes(), 3));
    }
    let (code, _) = rest.split_at(3);
    proof {
        assert(code.spec_bytes() =~= bytes.subrange(1, 4));
        encode_utf8_decode_utf8(code@);
    }
    code.to_owned()
}

/// Reads the output of `tla <term>`: exactly four lines, `TLA: [XYZ]`,
/// `Name: ...`, `Login: ...` and an empty last line, or nothing found.
pub fn tla_search(stdout: &str) -> (r: Option<TLA>)
    requires
        tla_output_usable(stdout@),
    ensures
        match r {
            Some(t) => spec_parse_tla(stdout@) == Some(tla_view(t)),
            None => spec_parse_tla(stdout@) is None,
        },
{
    let lines = split_all_str(stdout, '\n');
    if lines.len() != 4 {
        return None;
    }
    proof {
        reveal_strlit("TLA: ");
        reveal_strlit("Name: ");
        reveal_strlit("Login: ");
    }
    let first = replace_str(lines[0].as_str(), "TLA: ", "");
    let code = middle_three_bytes(first.as_str());
    let tla = if str_eq(code.as_str(), "???") {
        None
    } else {
        Some(code)
    };
    proof {
        reveal_strlit("TLA: ");
        reveal_strlit("???");
    }
    let name = replace_str(lines[1].as_str(), "Name: ", "");
    let username = replace_str(lines[2].as_str(), "Login: ", "");
    proof {
        assert(lines@[0]@ == split_all(stdout@, '\n')[0]);
        assert(lines@[1]@ == split_all(stdout@, '\n')[1]);
        assert(lines@[2]@ == split_all(stdout@, '\n')[2]);
    }
    Some(TLA { tla, name, username })
}

} // verus!
