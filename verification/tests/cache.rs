use skysync::backend::cache::{LocalMutation, PostCache, PostHandle};
use skysync::defs::actor::ProfileViewBasic;
use skysync::defs::feed::defs::{PostView, ViewerState};
use skysync::defs::feed::Post;
use skysync::defs::richtext::{Facet, Feature, Index, Tag};

fn author() -> ProfileViewBasic {
    ProfileViewBasic {
        did: "did:plc:author".to_string(),
        handle: "author.example".to_string(),
        display_name: None,
        avatar: None,
        associated: None,
        viewer: None,
        labels: None,
        created_at: None,
    }
}

fn facet(start: usize, name: &str) -> Facet {
    Facet {
        features: vec![Feature::Tag(Tag { tag: name.to_string() })],
        index: Index { byte_start: start, byte_end: start + 1 },
    }
}

fn viewer() -> ViewerState {
    ViewerState {
        repost: None,
        like: None,
        thread_muted: None,
        reply_disabled: None,
        embedding_disabled: None,
        pinned: None,
    }
}

fn post(cid: &str, text: &str, facets: Option<Vec<Facet>>) -> PostView {
    PostView {
        uri: format!("at://did:plc:author/app.bsky.feed.post/{}", cid),
        cid: cid.to_string(),
        author: author(),
        record: Post {
            text: text.to_string(),
            created_at: "2024-01-01T00:00:00Z".to_string(),
            facets,
            reply: None,
            embed: None,
            langs: None,
            labels: None,
            tags: None,
        },
        indexed_at: "2024-01-01T00:00:01Z".to_string(),
        embed: None,
        reply_count: Some(0),
        repost_count: Some(2),
        like_count: Some(5),
        quote_count: Some(0),
        viewer: Some(viewer()),
        labels: None,
        threadgate: None,
    }
}

fn starts(post: &PostView) -> Vec<usize> {
    post.record.facets.as_ref().unwrap().iter().map(|f| f.index.byte_start).collect()
}

#[test]
fn a_new_cache_is_empty() {
    let cache = PostCache::new();
    assert_eq!(cache.len(), 0);
    assert!(cache.get(PostHandle { index: 0 }).is_none());
    assert!(cache.handle_of("x").is_none());
}

#[test]
fn posts_with_the_same_cid_share_a_handle() {
    let mut cache = PostCache::new();
    let a = cache.canonicalize(post("cid-a", "first", None));
    let b = cache.canonicalize(post("cid-b", "other", None));
    let again = cache.canonicalize(post("cid-a", "second", None));
    assert_eq!(a, again);
    assert_ne!(a, b);
    assert_eq!(a.index, 0);
    assert_eq!(b.index, 1);
    assert_eq!(cache.len(), 2);
    assert_eq!(cache.handle_of("cid-a"), Some(a));
    assert_eq!(cache.handle_of("cid-b"), Some(b));
    assert_eq!(cache.handle_of("cid-c"), None);
}

#[test]
fn a_newer_fetch_overwrites_the_stored_post() {
    let mut cache = PostCache::new();
    let handle = cache.canonicalize(post("cid-a", "first", None));
    assert_eq!(cache.get(handle).unwrap().record.text, "first");
    let mut newer = post("cid-a", "second", None);
    newer.like_count = Some(9);
    cache.canonicalize(newer);
    let stored = cache.get(handle).unwrap();
    assert_eq!(stored.record.text, "second");
    assert_eq!(stored.like_count, Some(9));
}

#[test]
fn facets_are_sorted_when_a_known_post_comes_again() {
    let mut cache = PostCache::new();
    let unsorted = || Some(vec![facet(7, "c"), facet(2, "a"), facet(5, "b")]);
    let handle = cache.canonicalize(post("cid-a", "first", unsorted()));
    assert_eq!(starts(cache.get(handle).unwrap()), vec![7, 2, 5]);
    cache.canonicalize(post("cid-a", "first", unsorted()));
    assert_eq!(starts(cache.get(handle).unwrap()), vec![2, 5, 7]);
}

#[test]
fn other_entries_stay_when_one_is_overwritten() {
    let mut cache = PostCache::new();
    let a = cache.canonicalize(post("cid-a", "a", None));
    let b = cache.canonicalize(post("cid-b", "b", None));
    cache.canonicalize(post("cid-a", "a2", None));
    assert_eq!(cache.get(b).unwrap().record.text, "b");
    assert_eq!(cache.get(a).unwrap().record.text, "a2");
}

#[test]
fn a_like_is_seen_through_every_handle_of_the_post() {
    let mut cache = PostCache::new();
    let from_timeline = cache.canonicalize(post("cid-a", "a", None));
    let from_thread = cache.canonicalize(post("cid-a", "a", None));
    assert!(cache.apply_local_mutation(
        from_thread,
        LocalMutation::Liked { uri: "at://me/app.bsky.feed.like/1".to_string() }
    ));
    let seen = cache.get(from_timeline).unwrap();
    assert_eq!(seen.like_count, Some(6));
    assert_eq!(
        seen.viewer.as_ref().unwrap().like,
        Some("at://me/app.bsky.feed.like/1".to_string())
    );
}

#[test]
fn like_and_unlike_change_the_count_by_one() {
    let mut cache = PostCache::new();
    let h = cache.canonicalize(post("cid-a", "a", None));
    cache.apply_local_mutation(h, LocalMutation::Liked { uri: "like-1".to_string() });
    assert_eq!(cache.get(h).unwrap().like_count, Some(6));
    assert_eq!(cache.get(h).unwrap().viewer.as_ref().unwrap().like, Some("like-1".to_string()));
    assert_eq!(cache.get(h).unwrap().repost_count, Some(2));
    cache.apply_local_mutation(h, LocalMutation::Unliked);
    assert_eq!(cache.get(h).unwrap().like_count, Some(5));
    assert_eq!(cache.get(h).unwrap().viewer.as_ref().unwrap().like, None);
}

#[test]
fn like_unlike_twice_leaves_the_post_as_it_was() {
    let mut cache = PostCache::new();
    let h = cache.canonicalize(post("cid-a", "a", None));
    let before = format!("{:?}", cache.get(h).unwrap());
    cache.apply_local_mutation(h, LocalMutation::Liked { uri: "like-1".to_string() });
    cache.apply_local_mutation(h, LocalMutation::Unliked);
    cache.apply_local_mutation(h, LocalMutation::Liked { uri: "like-2".to_string() });
    cache.apply_local_mutation(h, LocalMutation::Unliked);
    assert_eq!(format!("{:?}", cache.get(h).unwrap()), before);
}

#[test]
fn repost_and_undo_change_the_repost_count_by_one() {
    let mut cache = PostCache::new();
    let h = cache.canonicalize(post("cid-a", "a", None));
    let before = format!("{:?}", cache.get(h).unwrap());
    cache.apply_local_mutation(h, LocalMutation::Reposted { uri: "repost-1".to_string() });
    assert_eq!(cache.get(h).unwrap().repost_count, Some(3));
    assert_eq!(cache.get(h).unwrap().like_count, Some(5));
    assert_eq!(
        cache.get(h).unwrap().viewer.as_ref().unwrap().repost,
        Some("repost-1".to_string())
    );
    cache.apply_local_mutation(h, LocalMutation::Unreposted);
    assert_eq!(format!("{:?}", cache.get(h).unwrap()), before);
}

#[test]
fn counts_stop_at_their_bounds() {
    let mut cache = PostCache::new();
    let mut full = post("cid-a", "a", None);
    full.like_count = Some(u32::MAX);
    full.repost_count = Some(0);
    let h = cache.canonicalize(full);
    cache.apply_local_mutation(h, LocalMutation::Liked { uri: "l".to_string() });
    assert_eq!(cache.get(h).unwrap().like_count, Some(u32::MAX));
    cache.apply_local_mutation(h, LocalMutation::Unreposted);
    assert_eq!(cache.get(h).unwrap().repost_count, Some(0));
}

#[test]
fn a_post_without_viewer_state_or_count_keeps_having_none() {
    let mut cache = PostCache::new();
    let mut bare = post("cid-a", "a", None);
    bare.viewer = None;
    bare.like_count = None;
    let h = cache.canonicalize(bare);
    assert!(cache.apply_local_mutation(h, LocalMutation::Liked { uri: "l".to_string() }));
    assert!(cache.get(h).unwrap().viewer.is_none());
    assert_eq!(cache.get(h).unwrap().like_count, None);
}

#[test]
fn a_handle_that_names_nothing_changes_nothing() {
    let mut cache = PostCache::new();
    let h = cache.canonicalize(post("cid-a", "a", None));
    let before = format!("{:?}", cache.get(h).unwrap());
    assert!(!cache.apply_local_mutation(PostHandle { index: 7 }, LocalMutation::Unliked));
    assert_eq!(format!("{:?}", cache.get(h).unwrap()), before);
    assert_eq!(cache.len(), 1);
}
