use vstd::prelude::*;

verus! {

/// Largest page size that the relationship timeline serves.
pub const MAX_PAGE_SIZE: i32 = 50;

/// Endpoint that creates a follow relationship.
pub const FOLLOW_URL: &'static str = "https://api.twitter.com/1.1/friendships/create.json";

/// Endpoint that destroys a follow relationship.
pub const UNFOLLOW_URL: &'static str = "https://api.twitter.com/1.1/friendships/destroy.json";

/// The variables of one relationship-timeline query.
#[derive(Clone, Debug)]
pub struct FollowingQuery {
    pub user_id: String,
    pub count: i32,
    pub include_promoted_content: bool,
    pub cursor: Option<String>,
}

/// The page size actually asked for: the requested one, capped at the maximum.
pub open spec fn clamped_count(count: i32) -> i32 {
    if count > MAX_PAGE_SIZE {
        MAX_PAGE_SIZE
    } else {
        count
    }
}

/// A present, non-empty cursor is sent; an empty one means the first page.
pub open spec fn effective_cursor(cursor: Option<String>) -> Option<String> {
    match cursor {
        Some(c) => if c@.len() > 0 {
            Some(c)
        } else {
            None
        },
        None => None,
    }
}

/// Builds the variables of the query for one page of `user_id`'s relationships.
pub fn following_query(user_id: &str, count: i32, cursor: Option<String>) -> (r: FollowingQuery)
    ensures
        r.user_id@ == user_id@,
        r.count == clamped_count(count),
        r.count <= MAX_PAGE_SIZE,
        !r.include_promoted_content,
        r.cursor == effective_cursor(cursor),
{
    let count = if count > MAX_PAGE_SIZE {
        MAX_PAGE_SIZE
    } else {
        count
    };
    let cursor = match cursor {
        Some(c) => if c.as_str().is_empty() {
            None
        } else {
            Some(c)
        },
        None => None,
    };
    FollowingQuery { user_id: user_id.to_owned(), count, include_promoted_content: false, cursor }
}

/// The two relationship mutations.
#[derive(Clone, Copy, Debug, PartialEq, Eq, Structural)]
pub enum RelationshipChange {
    Follow,
    Unfollow,
}

/// A form-encoded POST: its endpoint and its fields in order.
#[derive(Clone, Debug)]
pub struct FormRequest {
    pub url: String,
    pub form: Vec<(String, String)>,
}

pub open spec fn change_url(change: RelationshipChange) -> Seq<char> {
    match change {
        RelationshipChange::Follow => FOLLOW_URL@,
        RelationshipChange::Unfollow => UNFOLLOW_URL@,
    }
}

/// The fields of a relationship mutation for the account `user_id`.
pub open spec fn change_form(user_id: Seq<char>) -> Seq<(Seq<char>, Seq<char>)> {
    seq![
        ("include_profile_interstitial_type"@, "1"@),
        ("skip_status"@, "true"@),
        ("user_id"@, user_id),
    ]
}

pub open spec fn form_view(form: Seq<(String, String)>) -> Seq<(Seq<char>, Seq<char>)> {
    form.map_values(|f: (String, String)| (f.0@, f.1@))
}

/// Builds the request that follows or unfollows the account with id `user_id`.
pub fn relationship_request(change: RelationshipChange, user_id: &str) -> (r: FormRequest)
    ensures
        r.url@ == change_url(change),
        form_view(r.form@) == change_form(user_id@),
{
    let url = match change {
        RelationshipChange::Follow => FOLLOW_URL.to_owned(),
        RelationshipChange::Unfollow => UNFOLLOW_URL.to_owned(),
    };
    let mut form: Vec<(String, String)> = Vec::new();
    form.push(("include_profile_interstitial_type".to_owned(), "1".to_owned()));
    form.push(("skip_status".to_owned(), "true".to_owned()));
    form.push(("user_id".to_owned(), user_id.to_owned()));
    assert(form_view(form@) =~= change_form(user_id@));
    FormRequest { url, form }
}

/// Why a request failed.
#[derive(Clone, Copy, Debug, PartialEq, Eq, Structural)]
pub enum RequestError {
    /// The connection failed before a response came.
    Transport,
    /// The server answered with a status outside 2xx.
    Status(u16),
    /// The body did not parse into the expected shape.
    Decode,
}

pub open spec fn is_success(status: u16) -> bool {
    200 <= status && status <= 299
}

/// Accepts a response by its HTTP status alone: any 2xx is a success, the body
/// is not inspected; any other status is an error that carries it.
pub fn check_status(status: u16) -> (r: Result<(), RequestError>)
    ensures
        r is Ok <==> is_success(status),
        !is_success(status) ==> r == Err::<(), RequestError>(RequestError::Status(status)),
{
    if 200 <= status && status <= 299 {
        Ok(())
    } else {
        Err(RequestError::Status(status))
    }
}

} // verus!
