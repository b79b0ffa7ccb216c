use xplore_rel::profile::{build_profile, created_at_seconds, decode_profile, epoch_if_unread, LegacyUser, UserResult};
use xplore_rel::timeline::{
    parse_relationship_timeline, CursorContent, Entry, EntryContent, ItemContent, RelationshipTimeline,
    TimelineData, TimelineInstruction,
};

fn full_legacy(handle: &str) -> LegacyUser {
    LegacyUser {
        screen_name: Some(handle.to_string()),
        name: Some("Alice A.".to_string()),
        description: Some("hello".to_string()),
        location: Some("Paris".to_string()),
        url: Some("https://example.com".to_string()),
        protected: Some(true),
        verified: Some(true),
        followers_count: Some(10),
        friends_count: Some(20),
        statuses_count: Some(30),
        listed_count: Some(4),
        created_at: Some("Wed Oct 10 20:19:24 +0000 2018".to_string()),
        profile_image_url_https: Some("https://img/a.png".to_string()),
        profile_banner_url: Some("https://img/b.png".to_string()),
        pinned_tweet_ids_str: Some("77".to_string()),
    }
}

fn user_entry(id: &str, handle: &str) -> Entry {
    Entry {
        content: EntryContent {
            item_content: Some(ItemContent {
                user_results: Some(UserResult {
                    rest_id: Some(id.to_string()),
                    is_blue_verified: Some(true),
                    legacy: Some(full_legacy(handle)),
                }),
            }),
            cursor: None,
        },
    }
}

fn cursor_entry(tag: &str, value: &str) -> Entry {
    Entry {
        content: EntryContent {
            item_content: None,
            cursor: Some(CursorContent { cursor_type: Some(tag.to_string()), value: value.to_string() }),
        },
    }
}

fn empty_entry() -> Entry {
    Entry { content: EntryContent { item_content: None, cursor: None } }
}

fn tree(instructions: Vec<TimelineInstruction>) -> RelationshipTimeline {
    RelationshipTimeline { data: Some(TimelineData { instructions }) }
}

#[test]
fn absent_data_gives_empty_page() {
    let page = parse_relationship_timeline(&RelationshipTimeline { data: None });
    assert!(page.profiles.is_empty());
    assert_eq!(page.next, None);
    assert_eq!(page.previous, None);
}

#[test]
fn user_entry_then_bottom_cursor() {
    let t = tree(vec![TimelineInstruction::AddEntries {
        entries: vec![user_entry("123", "alice"), cursor_entry("Bottom", "CURSOR1")],
    }]);
    let page = parse_relationship_timeline(&t);
    assert_eq!(page.profiles.len(), 1);
    let p = &page.profiles[0];
    assert_eq!(p.username, "alice");
    assert_eq!(p.id, "123");
    assert_eq!(p.name, "Alice A.");
    assert_eq!(p.description.as_deref(), Some("hello"));
    assert_eq!(p.location.as_deref(), Some("Paris"));
    assert_eq!(p.url.as_deref(), Some("https://example.com"));
    assert!(p.protected);
    assert!(p.verified);
    assert_eq!(p.followers_count, 10);
    assert_eq!(p.following_count, 20);
    assert_eq!(p.tweets_count, 30);
    assert_eq!(p.listed_count, 4);
    assert_eq!(p.created_at, 1539202764);
    assert_eq!(p.profile_image_url.as_deref(), Some("https://img/a.png"));
    assert_eq!(p.profile_banner_url.as_deref(), Some("https://img/b.png"));
    assert_eq!(p.pinned_tweet_id.as_deref(), Some("77"));
    assert_eq!(p.is_blue_verified, Some(true));
    assert_eq!(page.next.as_deref(), Some("CURSOR1"));
    assert_eq!(page.previous, None);
}

#[test]
fn replace_entry_top_cursor_only() {
    let t = tree(vec![TimelineInstruction::ReplaceEntry { entry: cursor_entry("Top", "CURSOR0") }]);
    let page = parse_relationship_timeline(&t);
    assert!(page.profiles.is_empty());
    assert_eq!(page.next, None);
    assert_eq!(page.previous.as_deref(), Some("CURSOR0"));
}

#[test]
fn unrecognized_entries_are_dropped_in_order() {
    let no_user = Entry {
        content: EntryContent { item_content: Some(ItemContent { user_results: None }), cursor: None },
    };
    let t = tree(vec![TimelineInstruction::AddEntries {
        entries: vec![user_entry("1", "a"), empty_entry(), no_user, user_entry("2", "b"), cursor_entry("Other", "X")],
    }]);
    let page = parse_relationship_timeline(&t);
    let ids: Vec<&str> = page.profiles.iter().map(|p| p.id.as_str()).collect();
    assert_eq!(ids, vec!["1", "2"]);
    assert_eq!(page.next, None);
    assert_eq!(page.previous, None);
}

#[test]
fn item_takes_precedence_over_cursor_in_added_entry() {
    let mut e = user_entry("1", "a");
    e.content.cursor = Some(CursorContent { cursor_type: Some("Bottom".to_string()), value: "C".to_string() });
    let page = parse_relationship_timeline(&tree(vec![TimelineInstruction::AddEntries { entries: vec![e] }]));
    assert_eq!(page.profiles.len(), 1);
    assert_eq!(page.next, None);
}

#[test]
fn later_cursor_wins_across_instructions() {
    let t = tree(vec![
        TimelineInstruction::AddEntries {
            entries: vec![cursor_entry("Bottom", "B1"), cursor_entry("Top", "T1"), cursor_entry("Bottom", "B2")],
        },
        TimelineInstruction::ReplaceEntry { entry: cursor_entry("Bottom", "B3") },
        TimelineInstruction::AddEntries { entries: vec![cursor_entry("Top", "T2")] },
    ]);
    let page = parse_relationship_timeline(&t);
    assert_eq!(page.next.as_deref(), Some("B3"));
    assert_eq!(page.previous.as_deref(), Some("T2"));
}

#[test]
fn replace_entry_never_adds_profiles() {
    let t = tree(vec![TimelineInstruction::ReplaceEntry { entry: user_entry("1", "a") }]);
    let page = parse_relationship_timeline(&t);
    assert!(page.profiles.is_empty());
}

#[test]
fn missing_legacy_fields_take_defaults() {
    let user = UserResult { rest_id: None, is_blue_verified: None, legacy: None };
    let p = decode_profile(&user, &LegacyUser::default());
    assert_eq!(p.id, "");
    assert_eq!(p.username, "");
    assert_eq!(p.name, "");
    assert_eq!(p.description, None);
    assert_eq!(p.location, None);
    assert_eq!(p.url, None);
    assert!(!p.protected);
    assert!(!p.verified);
    assert_eq!(p.followers_count, 0);
    assert_eq!(p.following_count, 0);
    assert_eq!(p.tweets_count, 0);
    assert_eq!(p.listed_count, 0);
    assert_eq!(p.created_at, 0);
    assert_eq!(p.profile_image_url, None);
    assert_eq!(p.profile_banner_url, None);
    assert_eq!(p.pinned_tweet_id, None);
    assert_eq!(p.is_blue_verified, Some(false));
}

#[test]
fn unreadable_created_at_is_epoch() {
    let mut legacy = LegacyUser::default();
    legacy.created_at = Some("yesterday".to_string());
    assert_eq!(created_at_seconds(&legacy), 0);
    assert_eq!(epoch_if_unread(None), 0);
    assert_eq!(epoch_if_unread(Some(42)), 42);
}

#[test]
fn created_at_honours_offset() {
    let mut legacy = LegacyUser::default();
    legacy.created_at = Some("Wed Oct 10 20:19:24 +0200 2018".to_string());
    assert_eq!(created_at_seconds(&legacy), 1539195564);
}

#[test]
fn build_profile_uses_given_time() {
    let user = UserResult { rest_id: Some("9".to_string()), is_blue_verified: Some(false), legacy: None };
    let p = build_profile(&user, &full_legacy("zed"), 1234);
    assert_eq!(p.created_at, 1234);
    assert_eq!(p.id, "9");
    assert_eq!(p.username, "zed");
    assert_eq!(p.is_blue_verified, Some(false));
}

#[test]
fn decoding_twice_gives_same_page() {
    let t = tree(vec![TimelineInstruction::AddEntries {
        entries: vec![user_entry("123", "alice"), cursor_entry("Bottom", "N"), cursor_entry("Top", "P")],
    }]);
    let a = parse_relationship_timeline(&t);
    let b = parse_relationship_timeline(&t);
    assert_eq!(format!("{:?}", a), format!("{:?}", b));
}
