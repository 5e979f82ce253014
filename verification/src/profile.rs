//! Member profiles: finding one, showing it, and editing its fields with
//! `set` and `clear`.
use crate::config::UccbotConfig;
use crate::discord::{field, fields_view, EmbedColour, EmbedField};
use crate::members::{opt_view, spec_to_uppercase, to_uppercase, Member};
use crate::text::{
    after_char, before_char, cat, cat3, is_blank, is_blank_str, replace_all, replace_str,
    split_once_char, str_eq,
};
use regex::Regex;
use url::Url;
use vstd::prelude::*;
use vstd::string::StringSliceAdditionalSpecFns;

verus! {

/// Whether `Url::parse` accepts the text.
pub uninterp spec fn spec_url_parses(s: Seq<char>) -> bool;

/// `Url::host_str` of the URL the text parses to (`None` where it does not
/// parse or has no host).
pub uninterp spec fn spec_url_host(s: Seq<char>) -> Option<Seq<char>>;

/// The first of `Url::path_segments` of the URL the text parses to (`None`
/// where it does not parse or cannot be a base).
pub uninterp spec fn spec_url_first_segment(s: Seq<char>) -> Option<Seq<char>>;

/// What `Regex::new(pattern)` then `is_match(text)` gives (`None` where the
/// pattern does not compile).
pub uninterp spec fn spec_regex_is_match(pattern: Seq<char>, text: Seq<char>) -> Option<bool>;

/// `Url::parse(s).is_ok()`. Its result is named.
#[verifier::external_body]
fn url_parses(s: &str) -> (r: bool)
    ensures
        r == spec_url_parses(s@),
{
    Url::parse(s).is_ok()
}

/// `Url::host_str` of the parsed text. Its result is named.
#[verifier::external_body]
fn url_host(s: &str) -> (r: Option<String>)
    ensures
        opt_view(r) == spec_url_host(s@),
{
    match Url::parse(s) {
        Ok(u) => u.host_str().map(str::to_string),
        Err(_) => None,
    }
}

/// The first of `Url::path_segments` of the parsed text. Its result is named.
#[verifier::external_body]
fn url_first_segment(s: &str) -> (r: Option<String>)
    ensures
        opt_view(r) == spec_url_first_segment(s@),
{
    match Url::parse(s) {
        Ok(u) => match u.path_segments() {
            Some(mut segments) => segments.next().map(str::to_string),
            None => None,
        },
        Err(_) => None,
    }
}

/// `Regex::new(pattern)` then `is_match(text)`. Its result is named.
#[verifier::external_body]
fn regex_is_match(pattern: &str, text: &str) -> (r: Option<bool>)
    ensures
        r == spec_regex_is_match(pattern@, text@),
{
    match Regex::new(pattern) {
        Ok(re) => Some(re.is_match(text)),
        Err(_) => None,
    }
}


/// Which member a `profile` command asks about.
#[derive(Debug, PartialEq, Eq)]
pub enum ProfileQuery {
    /// The author of the command.
    Author,
    /// The member with this username.
    Username(String),
}

/// A blank argument asks about the author, anything else about a username.
pub fn profile_query(name: &str) -> (r: ProfileQuery)
    ensures
        is_blank(name@) ==> r == ProfileQuery::Author,
        !is_blank(name@) ==> (r matches ProfileQuery::Username(n) && n@ == name@),
{
    if is_blank_str(name) {
        ProfileQuery::Author
    } else {
        ProfileQuery::Username(name.to_owned())
    }
}

/// Where the first lookup fails, a name of three bytes is tried again as a
/// TLA, upper-cased.
pub fn tla_fallback(name: &str) -> (r: Option<String>)
    ensures
        r is Some <==> name.len() == 3,
        r matches Some(t) ==> t@ == spec_to_uppercase(name@),
{
    if name.len() != 3 {
        None
    } else {
        Some(to_uppercase(name))
    }
}

/// The reply where no profile is found.
pub fn profile_not_found_text() -> (r: String)
    ensures
        r@ == "Sorry, I couldn't find that profile (you need to !register for a profile)"@,
{
    String::from_str("Sorry, I couldn't find that profile (you need to !register for a profile)")
}

/// A field, where the value is there.
pub open spec fn opt_field(name: Seq<char>, value: Option<Seq<char>>, inline: bool) -> Seq<
    (Seq<char>, Seq<char>, bool),
> {
    match value {
        Some(v) => seq![(name, v, inline)],
        None => Seq::empty(),
    }
}

/// The fields of a member's profile: username and TLA inline, then bio, area
/// of study, git and website, each where set.
pub open spec fn spec_profile_fields(m: Member) -> Seq<(Seq<char>, Seq<char>, bool)> {
    seq![("Username"@, m.username@, true)] + opt_field("TLA"@, opt_view(m.tla), true) + opt_field(
        "Bio"@,
        opt_view(m.biography),
        false,
    ) + opt_field("Area of study"@, opt_view(m.study), false) + opt_field(
        "Git"@,
        opt_view(m.github),
        false,
    ) + opt_field("Website"@, opt_view(m.website), false)
}

/// A member's profile embed (its footer names the Discord user).
pub struct ProfileEmbed {
    pub title: Option<String>,
    pub thumbnail: Option<String>,
    pub colour: EmbedColour,
    pub fields: Vec<EmbedField>,
}

fn push_opt_field(fields: &mut Vec<EmbedField>, name: &str, value: &Option<String>, inline: bool)
    ensures
        fields_view(final(fields)@) == fields_view(old(fields)@) + opt_field(
            name@,
            opt_view(*value),
            inline,
        ),
{
    match value {
        Some(v) => {
            let ghost before = fields@;
            fields.push(field(name.to_owned(), v.clone(), inline));
            assert(fields_view(fields@) =~= fields_view(before) + opt_field(
                name@,
                opt_view(*value),
                inline,
            ));
        },
        None => {
            assert(fields_view(fields@) =~= fields_view(fields@) + opt_field(
                name@,
                opt_view(*value),
                inline,
            ));
        },
    }
}

/// A member's profile: titled with their name, with their photo, and the
/// fields they have set.
pub fn profile_embed(m: &Member) -> (r: ProfileEmbed)
    ensures
        opt_view(r.title) == opt_view(m.name),
        opt_view(r.thumbnail) == opt_view(m.photo),
        r.colour == EmbedColour::LighterGrey,
        fields_view(r.fields@) == spec_profile_fields(*m),
{
    let mut fields: Vec<EmbedField> = Vec::new();
    fields.push(field(String::from_str("Username"), m.username.clone(), true));
    assert(fields_view(fields@) =~= seq![("Username"@, m.username@, true)]);
    push_opt_field(&mut fields, "TLA", &m.tla, true);
    push_opt_field(&mut fields, "Bio", &m.biography, false);
    push_opt_field(&mut fields, "Area of study", &m.study, false);
    push_opt_field(&mut fields, "Git", &m.github, false);
    push_opt_field(&mut fields, "Website", &m.website, false);
    let title = match &m.name {
        Some(n) => Some(n.clone()),
        None => None,
    };
    let thumbnail = match &m.photo {
        Some(p) => Some(p.clone()),
        None => None,
    };
    ProfileEmbed { title, thumbnail, colour: EmbedColour::LighterGrey, fields }
}

/// A profile field that `set` and `clear` change.
#[derive(Debug, PartialEq, Eq, Clone, Copy, Structural)]
pub enum ProfileField {
    Bio,
    Git,
    Web,
    Photo,
    Study,
}

/// The field a word names.
pub open spec fn spec_profile_field(s: Seq<char>) -> Option<ProfileField> {
    if s == "bio"@ {
        Some(ProfileField::Bio)
    } else if s == "git"@ {
        Some(ProfileField::Git)
    } else if s == "web"@ {
        Some(ProfileField::Web)
    } else if s == "photo"@ {
        Some(ProfileField::Photo)
    } else if s == "study"@ {
        Some(ProfileField::Study)
    } else {
        None
    }
}

/// The field a word names, if any.
pub fn profile_field(s: &str) -> (r: Option<ProfileField>)
    ensures
        r == spec_profile_field(s@),
{
    if str_eq(s, "bio") {
        Some(ProfileField::Bio)
    } else if str_eq(s, "git") {
        Some(ProfileField::Git)
    } else if str_eq(s, "web") {
        Some(ProfileField::Web)
    } else if str_eq(s, "photo") {
        Some(ProfileField::Photo)
    } else if str_eq(s, "study") {
        Some(ProfileField::Study)
    } else {
        None
    }
}

/// The pattern of a bare git forge username.
pub open spec fn username_pattern() -> Seq<char> {
    "^\\w+$"@
}

/// A URL value as it is stored: as given where it parses; otherwise with
/// `https://` in front (and, for git, `github.com/` before a bare username),
/// where that parses; `None` where neither does.
pub open spec fn spec_normalize_url(f: ProfileField, value: Seq<char>) -> Option<Seq<char>> {
    let is_word = if f == ProfileField::Git {
        spec_regex_is_match(username_pattern(), value)
    } else {
        None
    };
    url_value_from(f, value, spec_url_parses(value), is_word, spec_url_parses(url_fix(f, value, is_word)))
}

/// What `set <info>` does.
#[derive(Debug, PartialEq, Eq)]
pub enum SetInfoPlan {
    /// Show how `set` and `clear` are used.
    Usage,
    /// Show how to set the named property.
    FieldUsage(String),
    /// Reply that the value is not a URL.
    InvalidUrl,
    /// Store the value in the field.
    Store(ProfileField, String),
}

pub open spec fn plan_view(p: SetInfoPlan) -> (int, Seq<char>, Option<ProfileField>) {
    match p {
        SetInfoPlan::Usage => (0, Seq::empty(), None),
        SetInfoPlan::FieldUsage(s) => (1, s@, None),
        SetInfoPlan::InvalidUrl => (2, Seq::empty(), None),
        SetInfoPlan::Store(f, v) => (3, v@, Some(f)),
    }
}

/// `set <property> <value>`: blank shows the usage; `github` stands for
/// `git`; a missing value or an unknown property shows that property's
/// usage; git, photo and web values must be (or be made into) URLs.
pub open spec fn spec_set_info(info: Seq<char>) -> (int, Seq<char>, Option<ProfileField>) {
    if is_blank(info) {
        (0, Seq::empty(), None)
    } else {
        let property = replace_all(before_char(info, ' '), "github"@, "git"@);
        match (after_char(info, ' '), spec_profile_field(property)) {
            (Some(value), Some(f)) => if f == ProfileField::Git || f == ProfileField::Photo || f
                == ProfileField::Web {
                match spec_normalize_url(f, value) {
                    Some(v) => (3, v, Some(f)),
                    None => (2, Seq::empty(), None),
                }
            } else {
                (3, value, Some(f))
            },
            _ => (1, property, None),
        }
    }
}

/// The URL tried where a value does not parse: `https://` in front, and for
/// git `github.com/` before a bare username (`is_word` is what matching the
/// username pattern gave).
pub open spec fn url_fix(f: ProfileField, value: Seq<char>, is_word: Option<bool>) -> Seq<char> {
    if f == ProfileField::Git && is_word == Some(true) {
        "https://"@ + "github.com/"@ + value
    } else {
        "https://"@ + value
    }
}

/// The URL tried where `value` does not parse.
pub fn url_fix_candidate(f: ProfileField, value: &str, is_word: Option<bool>) -> (r: String)
    ensures
        r@ == url_fix(f, value@, is_word),
{
    if f == ProfileField::Git && is_word == Some(true) {
        cat3("https://", "github.com/", value)
    } else {
        cat("https://", value)
    }
}

/// The value stored for a URL field, given whether the value parses as a
/// URL, what matching the username pattern gave, and whether the fixed-up
/// URL parses.
pub open spec fn url_value_from(
    f: ProfileField,
    value: Seq<char>,
    value_parses: bool,
    is_word: Option<bool>,
    fixed_parses: bool,
) -> Option<Seq<char>> {
    if value_parses {
        Some(value)
    } else if fixed_parses {
        Some(url_fix(f, value, is_word))
    } else {
        None
    }
}

/// The value stored for a URL field, given the outcomes of the URL and
/// username checks.
pub fn normalized_url_from(
    f: ProfileField,
    value: &str,
    value_parses: bool,
    is_word: Option<bool>,
    fixed_parses: bool,
) -> (r: Option<String>)
    ensures
        opt_view(r) == url_value_from(f, value@, value_parses, is_word, fixed_parses),
{
    if value_parses {
        Some(value.to_owned())
    } else if fixed_parses {
        Some(url_fix_candidate(f, value, is_word))
    } else {
        None
    }
}

fn normalize_url(f: ProfileField, value: &str) -> (r: Option<String>)
    ensures
        opt_view(r) == spec_normalize_url(f, value@),
{
    let value_parses = url_parses(value);
    let is_word = if f == ProfileField::Git {
        regex_is_match("^\\w+$", value)
    } else {
        None
    };
    let fixed = url_fix_candidate(f, value, is_word);
    let fixed_parses = url_parses(fixed.as_str());
    proof {
        reveal_strlit("https://");
        reveal_strlit("github.com/");
    }
    normalized_url_from(f, value, value_parses, is_word, fixed_parses)
}

/// What `set <info>` asks for, before any value is checked.
#[derive(Debug, PartialEq, Eq)]
pub enum SetInfoRequest {
    /// Show how `set` and `clear` are used.
    Usage,
    /// Show how to set the named property.
    FieldUsage(String),
    /// Set the field to the value.
    Assign(ProfileField, String),
}

pub open spec fn request_view(r: SetInfoRequest) -> (int, Seq<char>, Option<ProfileField>) {
    match r {
        SetInfoRequest::Usage => (0, Seq::empty(), None),
        SetInfoRequest::FieldUsage(s) => (1, s@, None),
        SetInfoRequest::Assign(f, v) => (3, v@, Some(f)),
    }
}

/// `set <property> <value>` read: blank asks for the usage; `github` stands
/// for `git`; a missing value or an unknown property asks for that
/// property's usage.
pub open spec fn spec_set_info_request(info: Seq<char>) -> (int, Seq<char>, Option<ProfileField>) {
    if is_blank(info) {
        (0, Seq::empty(), None)
    } else {
        let property = replace_all(before_char(info, ' '), "github"@, "git"@);
        match (after_char(info, ' '), spec_profile_field(property)) {
            (Some(value), Some(f)) => (3, value, Some(f)),
            _ => (1, property, None),
        }
    }
}

/// What `set <info>` asks for.
pub fn set_info_request(info: &str) -> (r: SetInfoRequest)
    ensures
        request_view(r) == spec_set_info_request(info@),
{
    if is_blank_str(info) {
        return SetInfoRequest::Usage;
    }
    let (first, rest) = split_once_char(info, ' ');
    proof {
        reveal_strlit("github");
    }
    let property = replace_str(first.as_str(), "github", "git");
    match (rest, profile_field(property.as_str())) {
        (Some(value), Some(f)) => SetInfoRequest::Assign(f, value),
        _ => SetInfoRequest::FieldUsage(property),
    }
}

/// Whether a field holds a URL.
pub open spec fn is_url_field(f: ProfileField) -> bool {
    f == ProfileField::Git || f == ProfileField::Photo || f == ProfileField::Web
}

/// Setting `f` to `value`, given what normalising a URL value gave: a URL
/// field stores the normalised URL or refuses the value; another field
/// stores the value as it is.
pub open spec fn spec_plan_stored(f: ProfileField, value: Seq<char>, normalized: Option<Seq<char>>) -> (
    int,
    Seq<char>,
    Option<ProfileField>,
) {
    if is_url_field(f) {
        match normalized {
            Some(v) => (3, v, Some(f)),
            None => (2, Seq::empty(), None),
        }
    } else {
        (3, value, Some(f))
    }
}

/// What setting `f` to `value` does, given the normalised URL where `f`
/// holds one.
pub fn plan_stored(f: ProfileField, value: String, normalized: Option<String>) -> (r: SetInfoPlan)
    ensures
        plan_view(r) == spec_plan_stored(f, value@, opt_view(normalized)),
{
    if f == ProfileField::Git || f == ProfileField::Photo || f == ProfileField::Web {
        match normalized {
            Some(v) => SetInfoPlan::Store(f, v),
            None => SetInfoPlan::InvalidUrl,
        }
    } else {
        SetInfoPlan::Store(f, value)
    }
}

/// What `set <info>` does.
pub fn plan_set_info(info: &str) -> (r: SetInfoPlan)
    ensures
        plan_view(r) == spec_set_info(info@),
{
    match set_info_request(info) {
        SetInfoRequest::Usage => SetInfoPlan::Usage,
        SetInfoRequest::FieldUsage(p) => SetInfoPlan::FieldUsage(p),
        SetInfoRequest::Assign(f, value) => {
            let normalized = if f == ProfileField::Git || f == ProfileField::Photo || f
                == ProfileField::Web {
                normalize_url(f, value.as_str())
            } else {
                None
            };
            plan_stored(f, value, normalized)
        },
    }
}

/// The photo a git URL on `github.com` implies: the avatar of the account
/// its first path segment names.
pub open spec fn spec_github_photo(value: Seq<char>) -> Option<Seq<char>> {
    photo_from(spec_url_host(value), spec_url_first_segment(value))
}

/// The avatar a URL with host `host` and first path segment `segment`
/// implies: only on `github.com`, for the account the segment names.
pub open spec fn photo_from(host: Option<Seq<char>>, segment: Option<Seq<char>>) -> Option<
    Seq<char>,
> {
    if host == Some("github.com"@) {
        match segment {
            Some(seg) => Some("https://github.com/"@ + seg + ".png"@),
            None => None,
        }
    } else {
        None
    }
}

/// The avatar a git URL implies, given its host and first path segment.
pub fn github_photo_from(host: &Option<String>, segment: &Option<String>) -> (r: Option<String>)
    ensures
        opt_view(r) == photo_from(opt_view(*host), opt_view(*segment)),
{
    match host {
        Some(h) => {
            if str_eq(h.as_str(), "github.com") {
                match segment {
                    Some(seg) => Some(cat3("https://github.com/", seg.as_str(), ".png")),
                    None => None,
                }
            } else {
                None
            }
        },
        None => None,
    }
}

/// The photo to store alongside a newly set git URL, where the member has
/// none yet.
pub fn github_photo(value: &str) -> (r: Option<String>)
    ensures
        opt_view(r) == spec_github_photo(value@),
{
    let host = url_host(value);
    let segment = url_first_segment(value);
    github_photo_from(&host, &segment)
}

/// The photo that setting `field` to `value` stores as well: the avatar a
/// github.com git URL implies, only for the git field and only where the
/// member has no photo yet.
pub open spec fn spec_photo_to_store(field: ProfileField, value: Seq<char>, current: Option<Seq<char>>) -> Option<
    Seq<char>,
> {
    if field == ProfileField::Git && current is None {
        spec_github_photo(value)
    } else {
        None
    }
}

/// The photo to store along with a newly stored `value` for `field`, given
/// the member's current photo.
pub fn photo_to_store(field: ProfileField, value: &str, current: &Option<String>) -> (r: Option<
    String,
>)
    ensures
        opt_view(r) == spec_photo_to_store(field, value@, opt_view(*current)),
{
    if field == ProfileField::Git && current.is_none() {
        github_photo(value)
    } else {
        None
    }
}

/// A usage embed.
pub struct UsageEmbed {
    pub title: String,
    pub description: Option<String>,
    pub colour: EmbedColour,
    pub fields: Vec<EmbedField>,
}

/// The general usage of `set` and `clear`.
pub open spec fn spec_set_usage_description(p: Seq<char>) -> Seq<char> {
    "`"@ + p + "set <field> <info>` or `"@ + p + "clear <field>`"@
}

pub open spec fn spec_set_usage_fields(p: Seq<char>) -> Seq<(Seq<char>, Seq<char>, bool)> {
    seq![
        ("Biography"@, "`"@ + p + "set bio <info>`\nBe friendly! Provide a little introduction to yourself."@, false),
        ("Git"@, "`"@ + p + "set git <url>`\nA link to your git forge profile. Also takes a github username for convinience"@, false),
        ("Photo"@, "`"@ + p + "set photo <url>`\nPut a face to a name! Provide a profile photo."@, false),
        ("Website"@, "`"@ + p + "set web <info>`\nGot a personal website? Share it here :)"@, false),
        ("Studying"@, "`"@ + p + "set study <info>`\nYou're (probably) a Uni student, what's your major?"@, false),
    ]
}

/// The usage embed of `set` and `clear`.
pub fn set_info_usage(config: &UccbotConfig) -> (r: UsageEmbed)
    ensures
        r.title@ == "Usage"@,
        opt_view(r.description) == Some(spec_set_usage_description(config.command_prefix@)),
        r.colour == EmbedColour::LightGrey,
        fields_view(r.fields@) == spec_set_usage_fields(config.command_prefix@),
{
    let p = config.command_prefix.as_str();
    let mut description = cat3("`", p, "set <field> <info>` or `");
    description.append(p);
    description.append("clear <field>`");
    let fields = vec![
        field(String::from_str("Biography"), cat3("`", p, "set bio <info>`\nBe friendly! Provide a little introduction to yourself."), false),
        field(String::from_str("Git"), cat3("`", p, "set git <url>`\nA link to your git forge profile. Also takes a github username for convinience"), false),
        field(String::from_str("Photo"), cat3("`", p, "set photo <url>`\nPut a face to a name! Provide a profile photo."), false),
        field(String::from_str("Website"), cat3("`", p, "set web <info>`\nGot a personal website? Share it here :)"), false),
        field(String::from_str("Studying"), cat3("`", p, "set study <info>`\nYou're (probably) a Uni student, what's your major?"), false),
    ];
    assert(fields_view(fields@) =~= spec_set_usage_fields(config.command_prefix@));
    UsageEmbed {
        title: String::from_str("Usage"),
        description: Some(description),
        colour: EmbedColour::LightGrey,
        fields,
    }
}

/// The title a property's usage is shown under.
pub open spec fn spec_field_title(property: Seq<char>) -> Seq<char> {
    if property == "bio"@ {
        "Biography"@
    } else if property == "git"@ {
        "Git Forge Profile"@
    } else if property == "photo"@ {
        "Profile Photo"@
    } else if property == "web"@ {
        "Personal Website"@
    } else if property == "study"@ {
        "Area of study"@
    } else {
        "???"@
    }
}

/// What a property holds.
pub open spec fn spec_field_hint(property: Seq<char>) -> Seq<char> {
    if property == "bio"@ {
        "Some information about yourself :)"@
    } else if property == "git"@ {
        "A url to your git{hub,lab} account"@
    } else if property == "photo"@ {
        "A url to a profile photo online"@
    } else if property == "web"@ {
        "A url to your website/webpage"@
    } else if property == "study"@ {
        "Your degree title"@
    } else {
        "Whatever you want, because this does absolutely nothing."@
    }
}

/// How to set and clear a property.
pub open spec fn spec_field_usage_text(p: Seq<char>, property: Seq<char>) -> Seq<char> {
    "`"@ + p + "set "@ + property + " <info>` or `"@ + p + "clear "@ + property + "`\n"@
        + spec_field_hint(property)
}

fn field_title(property: &str) -> (r: String)
    ensures
        r@ == spec_field_title(property@),
{
    if str_eq(property, "bio") {
        String::from_str("Biography")
    } else if str_eq(property, "git") {
        String::from_str("Git Forge Profile")
    } else if str_eq(property, "photo") {
        String::from_str("Profile Photo")
    } else if str_eq(property, "web") {
        String::from_str("Personal Website")
    } else if str_eq(property, "study") {
        String::from_str("Area of study")
    } else {
        String::from_str("???")
    }
}

fn field_hint(property: &str) -> (r: String)
    ensures
        r@ == spec_field_hint(property@),
{
    if str_eq(property, "bio") {
        String::from_str("Some information about yourself :)")
    } else if str_eq(property, "git") {
        String::from_str("A url to your git{hub,lab} account")
    } else if str_eq(property, "photo") {
        String::from_str("A url to a profile photo online")
    } else if str_eq(property, "web") {
        String::from_str("A url to your website/webpage")
    } else if str_eq(property, "study") {
        String::from_str("Your degree title")
    } else {
        String::from_str("Whatever you want, because this does absolutely nothing.")
    }
}

/// The usage embed for one property.
pub fn field_usage(config: &UccbotConfig, property: &str) -> (r: UsageEmbed)
    ensures
        r.title@ == "Usage"@,
        r.description is None,
        r.colour == EmbedColour::LightGrey,
        fields_view(r.fields@) == seq![
            (
                spec_field_title(property@),
                spec_field_usage_text(config.command_prefix@, property@),
                false,
            ),
        ],
{
    let p = config.command_prefix.as_str();
    let mut text = cat3("`", p, "set ");
    text.append(property);
    text.append(" <info>` or `");
    text.append(p);
    text.append("clear ");
    text.append(property);
    text.append("`\n");
    let hint = field_hint(property);
    text.append(hint.as_str());
    let fields = vec![field(field_title(property), text, false)];
    assert(fields_view(fields@) =~= seq![
        (
            spec_field_title(property@),
            spec_field_usage_text(config.command_prefix@, property@),
            false,
        ),
    ]);
    UsageEmbed {
        title: String::from_str("Usage"),
        description: None,
        colour: EmbedColour::LightGrey,
        fields,
    }
}

/// The reply to a value that is not a URL.
pub fn invalid_url_text() -> (r: String)
    ensures
        r@ == "That ain't a URL where I come from..."@,
{
    String::from_str("That ain't a URL where I come from...")
}

/// The reply to `set` from someone without a profile.
pub fn no_profile_text(config: &UccbotConfig) -> (r: String)
    ensures
        r@ == "You don't seem to have a profile. "@ + config.command_prefix@
            + "register to get one"@,
{
    cat3("You don't seem to have a profile. ", config.command_prefix.as_str(), "register to get one")
}

/// What `clear <field>` does.
#[derive(Debug, PartialEq, Eq, Clone, Copy, Structural)]
pub enum ClearInfoPlan {
    /// Show how `set` and `clear` are used.
    Usage,
    /// Clear the field.
    Clear(ProfileField),
    /// Nothing (an unknown field).
    Nothing,
}

/// `clear <field>`: blank shows the usage, a known field is cleared,
/// anything else does nothing.
pub fn plan_clear_info(field_name: &str) -> (r: ClearInfoPlan)
    ensures
        is_blank(field_name@) ==> r == ClearInfoPlan::Usage,
        !is_blank(field_name@) ==> r == match spec_profile_field(field_name@) {
            Some(f) => ClearInfoPlan::Clear(f),
            None => ClearInfoPlan::Nothing,
        },
{
    if is_blank_str(field_name) {
        ClearInfoPlan::Usage
    } else {
        match profile_field(field_name) {
            Some(f) => ClearInfoPlan::Clear(f),
            None => ClearInfoPlan::Nothing,
        }
    }
}

/// Each profile field is named by exactly one word, and each word names at
/// most one field: `bio`, `git`, `web`, `photo` and `study` name five
/// different fields, and a field named by two words is named by equal
/// words.
pub proof fn lemma_field_words(a: Seq<char>, b: Seq<char>, f: ProfileField)
    ensures
        spec_profile_field(a) == Some(f) && spec_profile_field(b) == Some(f) ==> a == b,
        exists|w: Seq<char>| #[trigger] spec_profile_field(w) == Some(f),
        spec_profile_field(a) is Some ==> (a == "bio"@ || a == "git"@ || a == "web"@ || a
            == "photo"@ || a == "study"@),
{
    reveal_strlit("bio");
    reveal_strlit("git");
    reveal_strlit("web");
    reveal_strlit("photo");
    reveal_strlit("study");
    assert("git"@[0] != "bio"@[0]);
    assert("web"@[0] != "bio"@[0] && "web"@[0] != "git"@[0]);
    assert("photo"@.len() != "bio"@.len() && "photo"@.len() != "git"@.len() && "photo"@.len()
        != "web"@.len());
    assert("study"@.len() != "bio"@.len() && "study"@.len() != "git"@.len() && "study"@.len()
        != "web"@.len() && "study"@[0] != "photo"@[0]);
    match f {
        ProfileField::Bio => assert(spec_profile_field("bio"@) == Some(f)),
        ProfileField::Git => assert(spec_profile_field("git"@) == Some(f)),
        ProfileField::Web => assert(spec_profile_field("web"@) == Some(f)),
        ProfileField::Photo => assert(spec_profile_field("photo"@) == Some(f)),
        ProfileField::Study => assert(spec_profile_field("study"@) == Some(f)),
    }
}

} // verus!
