use vstd::prelude::*;

verus! {

/// Textual layout of the `created_at` field of a legacy field bag,
/// e.g. `Wed Oct 10 20:19:24 +0000 2018`.
pub const CREATED_AT_FORMAT: &'static str = "%a %b %d %H:%M:%S %z %Y";

/// Seconds since the Unix epoch that chrono reads from `text` laid out as `fmt`,
/// or `None` when it does not parse.
pub uninterp spec fn parsed_timestamp(text: Seq<char>, fmt: Seq<char>) -> Option<i64>;

/// Relies on chrono's `DateTime::parse_from_str` (the text carries its own
/// offset, so the result depends on the two strings alone) and on
/// `DateTime::timestamp`, which turns the instant into seconds since the epoch.
#[verifier::external_body]
fn parse_timestamp(text: &str, fmt: &str) -> (r: Option<i64>)
    ensures
        r == parsed_timestamp(text@, fmt@),
{
    match chrono::DateTime::parse_from_str(text, fmt) {
        Ok(dt) => Some(dt.timestamp()),
        Err(_) => None,
    }
}

/// The "legacy" field bag of a user result: every field may be missing.
#[derive(Clone, Debug, Default)]
pub struct LegacyUser {
    pub screen_name: Option<String>,
    pub name: Option<String>,
    pub description: Option<String>,
    pub location: Option<String>,
    pub url: Option<String>,
    pub protected: Option<bool>,
    pub verified: Option<bool>,
    pub followers_count: Option<i32>,
    pub friends_count: Option<i32>,
    pub statuses_count: Option<i32>,
    pub listed_count: Option<i32>,
    pub created_at: Option<String>,
    pub profile_image_url_https: Option<String>,
    pub profile_banner_url: Option<String>,
    pub pinned_tweet_ids_str: Option<String>,
}

/// A user result as it stands inside an item entry.
#[derive(Clone, Debug, Default)]
pub struct UserResult {
    pub rest_id: Option<String>,
    pub is_blue_verified: Option<bool>,
    pub legacy: Option<LegacyUser>,
}

/// A normalized profile. `created_at` is in seconds since the Unix epoch.
#[derive(Clone, Debug)]
pub struct Profile {
    pub id: String,
    pub username: String,
    pub name: String,
    pub description: Option<String>,
    pub location: Option<String>,
    pub url: Option<String>,
    pub protected: bool,
    pub verified: bool,
    pub followers_count: i32,
    pub following_count: i32,
    pub tweets_count: i32,
    pub listed_count: i32,
    pub created_at: i64,
    pub profile_image_url: Option<String>,
    pub profile_banner_url: Option<String>,
    pub pinned_tweet_id: Option<String>,
    pub is_blue_verified: Option<bool>,
}

pub struct ProfileView {
    pub id: Seq<char>,
    pub username: Seq<char>,
    pub name: Seq<char>,
    pub description: Option<Seq<char>>,
    pub location: Option<Seq<char>>,
    pub url: Option<Seq<char>>,
    pub protected: bool,
    pub verified: bool,
    pub followers_count: i32,
    pub following_count: i32,
    pub tweets_count: i32,
    pub listed_count: i32,
    pub created_at: i64,
    pub profile_image_url: Option<Seq<char>>,
    pub profile_banner_url: Option<Seq<char>>,
    pub pinned_tweet_id: Option<Seq<char>>,
    pub is_blue_verified: Option<bool>,
}

pub open spec fn opt_view(s: Option<String>) -> Option<Seq<char>> {
    match s {
        Some(t) => Some(t@),
        None => None,
    }
}

/// A missing string degrades to the empty string.
pub open spec fn text_or_empty(s: Option<String>) -> Seq<char> {
    match s {
        Some(t) => t@,
        None => Seq::empty(),
    }
}

/// A missing count degrades to zero.
pub open spec fn count_or_zero(c: Option<i32>) -> i32 {
    match c {
        Some(n) => n,
        None => 0,
    }
}

/// A missing flag degrades to `false`.
pub open spec fn flag_or_false(b: Option<bool>) -> bool {
    match b {
        Some(v) => v,
        None => false,
    }
}

/// A missing or unreadable timestamp degrades to the epoch.
pub open spec fn time_or_epoch(t: Option<i64>) -> i64 {
    match t {
        Some(v) => v,
        None => 0,
    }
}

/// The creation time of a legacy bag: its text parsed in the fixed layout, or the epoch.
pub open spec fn created_at_of(legacy: LegacyUser) -> i64 {
    match legacy.created_at {
        Some(s) => time_or_epoch(parsed_timestamp(s@, CREATED_AT_FORMAT@)),
        None => 0,
    }
}

impl View for Profile {
    type V = ProfileView;

    open spec fn view(&self) -> ProfileView {
        ProfileView {
            id: self.id@,
            username: self.username@,
            name: self.name@,
            description: opt_view(self.description),
            location: opt_view(self.location),
            url: opt_view(self.url),
            protected: self.protected,
            verified: self.verified,
            followers_count: self.followers_count,
            following_count: self.following_count,
            tweets_count: self.tweets_count,
            listed_count: self.listed_count,
            created_at: self.created_at,
            profile_image_url: opt_view(self.profile_image_url),
            profile_banner_url: opt_view(self.profile_banner_url),
            pinned_tweet_id: opt_view(self.pinned_tweet_id),
            is_blue_verified: self.is_blue_verified,
        }
    }
}

/// The profile made of a user result, its legacy bag and an already parsed
/// creation time, each missing field replaced by its default.
pub open spec fn profile_with_time(user: UserResult, legacy: LegacyUser, created_at: i64) -> ProfileView {
    ProfileView {
        id: text_or_empty(user.rest_id),
        username: text_or_empty(legacy.screen_name),
        name: text_or_empty(legacy.name),
        description: opt_view(legacy.description),
        location: opt_view(legacy.location),
        url: opt_view(legacy.url),
        protected: flag_or_false(legacy.protected),
        verified: flag_or_false(legacy.verified),
        followers_count: count_or_zero(legacy.followers_count),
        following_count: count_or_zero(legacy.friends_count),
        tweets_count: count_or_zero(legacy.statuses_count),
        listed_count: count_or_zero(legacy.listed_count),
        created_at,
        profile_image_url: opt_view(legacy.profile_image_url_https),
        profile_banner_url: opt_view(legacy.profile_banner_url),
        pinned_tweet_id: opt_view(legacy.pinned_tweet_ids_str),
        is_blue_verified: Some(flag_or_false(user.is_blue_verified)),
    }
}

/// The profile that a user result with a legacy bag decodes to.
pub open spec fn profile_of(user: UserResult, legacy: LegacyUser) -> ProfileView {
    profile_with_time(user, legacy, created_at_of(legacy))
}

fn clone_opt(s: &Option<String>) -> (r: Option<String>)
    ensures
        opt_view(r) == opt_view(*s),
{
    match s {
        Some(t) => Some(t.clone()),
        None => None,
    }
}

fn text_or_default(s: &Option<String>) -> (r: String)
    ensures
        r@ == text_or_empty(*s),
{
    match s {
        Some(t) => t.clone(),
        None => String::new(),
    }
}

fn count_or_default(c: Option<i32>) -> (r: i32)
    ensures
        r == count_or_zero(c),
{
    match c {
        Some(n) => n,
        None => 0,
    }
}

fn flag_or_default(b: Option<bool>) -> (r: bool)
    ensures
        r == flag_or_false(b),
{
    match b {
        Some(v) => v,
        None => false,
    }
}

/// Reads the creation time of a legacy bag; a missing or unreadable text gives the epoch.
pub fn created_at_seconds(legacy: &LegacyUser) -> (r: i64)
    ensures
        r == created_at_of(*legacy),
{
    match &legacy.created_at {
        Some(s) => {
            let parsed = parse_timestamp(s.as_str(), CREATED_AT_FORMAT);
            epoch_if_unread(parsed)
        },
        None => 0,
    }
}

/// The creation time to store for a parse outcome: the parsed value, or the epoch.
pub fn epoch_if_unread(parsed: Option<i64>) -> (r: i64)
    ensures
        r == time_or_epoch(parsed),
{
    match parsed {
        Some(t) => t,
        None => 0,
    }
}

/// Builds the profile of a user result and its legacy bag, given the creation
/// time already read; every missing field gets its default.
pub fn build_profile(user: &UserResult, legacy: &LegacyUser, created_at: i64) -> (r: Profile)
    ensures
        r@ == profile_with_time(*user, *legacy, created_at),
{
    Profile {
        id: text_or_default(&user.rest_id),
        username: text_or_default(&legacy.screen_name),
        name: text_or_default(&legacy.name),
        description: clone_opt(&legacy.description),
        location: clone_opt(&legacy.location),
        url: clone_opt(&legacy.url),
        protected: flag_or_default(legacy.protected),
        verified: flag_or_default(legacy.verified),
        followers_count: count_or_default(legacy.followers_count),
        following_count: count_or_default(legacy.friends_count),
        tweets_count: count_or_default(legacy.statuses_count),
        listed_count: count_or_default(legacy.listed_count),
        created_at,
        profile_image_url: clone_opt(&legacy.profile_image_url_https),
        profile_banner_url: clone_opt(&legacy.profile_banner_url),
        pinned_tweet_id: clone_opt(&legacy.pinned_tweet_ids_str),
        is_blue_verified: Some(flag_or_default(user.is_blue_verified)),
    }
}

/// Decodes a user result with a legacy bag into a profile.
pub fn decode_profile(user: &UserResult, legacy: &LegacyUser) -> (r: Profile)
    ensures
        r@ == profile_of(*user, *legacy),
{
    let created_at = created_at_seconds(legacy);
    build_profile(user, legacy, created_at)
}

/// Every field missing from a legacy bag decodes to its documented default:
/// the empty string, zero, `false`, no value, or the epoch.
pub proof fn lemma_missing_fields_default(user: UserResult, legacy: LegacyUser)
    ensures
        ({
            let p = profile_of(user, legacy);
            &&& user.rest_id is None ==> p.id == Seq::<char>::empty()
            &&& legacy.screen_name is None ==> p.username == Seq::<char>::empty()
            &&& legacy.name is None ==> p.name == Seq::<char>::empty()
            &&& legacy.description is None ==> p.description is None
            &&& legacy.location is None ==> p.location is None
            &&& legacy.url is None ==> p.url is None
            &&& legacy.protected is None ==> !p.protected
            &&& legacy.verified is None ==> !p.verified
            &&& legacy.followers_count is None ==> p.followers_count == 0
            &&& legacy.friends_count is None ==> p.following_count == 0
            &&& legacy.statuses_count is None ==> p.tweets_count == 0
            &&& legacy.listed_count is None ==> p.listed_count == 0
            &&& legacy.created_at is None ==> p.created_at == 0
            &&& legacy.profile_image_url_https is None ==> p.profile_image_url is None
            &&& legacy.profile_banner_url is None ==> p.profile_banner_url is None
            &&& legacy.pinned_tweet_ids_str is None ==> p.pinned_tweet_id is None
            &&& user.is_blue_verified is None ==> p.is_blue_verified == Some(false)
        }),
{
}

} // verus!
