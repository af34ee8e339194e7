//! The post cache: one stored post per content id.
//!
//! Every post that a response carries goes through `canonicalize`, which
//! hands back a handle. Two posts with the same `cid` get the same handle,
//! so a change made through one is seen through the other. Entries are never
//! dropped, and a handle stays good for as long as the cache lives.
//!
//! The posts stand in a list, and a handle is a position in it; a hash map
//! from content id to position finds the post of a content id.

use crate::defs::feed::defs::{PostView, ViewerState};
use crate::defs::feed::Post;
use crate::defs::richtext::{sort_by_start, sort_facets};
use vstd::hash_map::StringHashMap;
use vstd::prelude::*;

verus! {

/// Names one stored post of a `PostCache`.
#[derive(Debug, Clone, Copy, PartialEq, Eq, Structural)]
pub struct PostHandle {
    pub index: usize,
}

/// A change that the viewer made to a post and that the service confirmed.
#[derive(Debug)]
pub enum LocalMutation {
    /// The viewer liked the post; `uri` names the like record.
    Liked { uri: String },
    /// The viewer took their like back.
    Unliked,
    /// The viewer reposted the post; `uri` names the repost record.
    Reposted { uri: String },
    /// The viewer took their repost back.
    Unreposted,
}

/// The posts that are known, one for each content id.
pub struct PostCache {
    /// The posts, in the order in which their content ids were first seen.
    entries: Vec<PostView>,
    /// For each content id, the position of its post in `entries`.
    index: StringHashMap<usize>,
}

/// Position of the stored post whose content id is `cid`, if there is one.
pub open spec fn find_cid(posts: Seq<PostView>, cid: Seq<char>) -> Option<int>
    decreases posts.len(),
{
    if posts.len() == 0 {
        None
    } else {
        match find_cid(posts.drop_last(), cid) {
            Some(i) => Some(i),
            None => if posts.last().cid@ == cid {
                Some(posts.len() - 1)
            } else {
                None
            },
        }
    }
}

/// No two stored posts share a content id.
pub open spec fn distinct_cids(posts: Seq<PostView>) -> bool {
    forall|i: int, j: int| 0 <= i < j < posts.len() ==> posts[i].cid@ != posts[j].cid@
}

/// `stored` is `incoming` with its facets put in order of their start
/// offsets, and nothing else changed.
pub open spec fn is_normalized(stored: PostView, incoming: PostView) -> bool {
    &&& stored == (PostView {
        record: Post { facets: stored.record.facets, ..incoming.record },
        ..incoming
    })
    &&& match incoming.record.facets {
        Some(facets) => stored.record.facets matches Some(sorted) && sorted@ == sort_by_start(
            facets@,
        ),
        None => stored.record.facets is None,
    }
}

/// `after` and `index` are what canonicalizing `post` makes of `before`:
/// a known content id has its entry overwritten by the normalized post, a
/// new one is appended as it came.
pub open spec fn canonicalized(
    before: Seq<PostView>,
    post: PostView,
    after: Seq<PostView>,
    index: int,
) -> bool {
    match find_cid(before, post.cid@) {
        Some(i) => {
            &&& index == i
            &&& after.len() == before.len()
            &&& is_normalized(after[i], post)
            &&& forall|j: int| 0 <= j < before.len() && j != i ==> after[j] == before[j]
        },
        None => index == before.len() && after == before.push(post),
    }
}

/// `states` are the contents of a cache before, between and after the
/// posts of `posts` were canonicalized one after the other, and `handles`
/// are the handles that this gave.
pub open spec fn canonical_chain(
    states: Seq<Seq<PostView>>,
    posts: Seq<PostView>,
    handles: Seq<PostHandle>,
) -> bool {
    &&& states.len() == posts.len() + 1
    &&& handles.len() == posts.len()
    &&& forall|k: int|
        0 <= k < posts.len() ==> canonicalized(
            states[k],
            posts[k],
            states[k + 1],
            (#[trigger] handles[k]).index as int,
        )
}

/// Canonicalizing `posts` in order takes a cache from `before` to `after`
/// and gives `handles`.
pub open spec fn canonicalized_all(
    before: Seq<PostView>,
    posts: Seq<PostView>,
    after: Seq<PostView>,
    handles: Seq<PostHandle>,
) -> bool {
    exists|states: Seq<Seq<PostView>>|
        canonical_chain(states, posts, handles) && states[0] == before && #[trigger] states.last()
            == after
}

/// A chain grows by one canonicalized post.
pub proof fn lemma_chain_push(
    states: Seq<Seq<PostView>>,
    posts: Seq<PostView>,
    handles: Seq<PostHandle>,
    post: PostView,
    after: Seq<PostView>,
    handle: PostHandle,
)
    requires
        canonical_chain(states, posts, handles),
        canonicalized(states.last(), post, after, handle.index as int),
    ensures
        canonical_chain(states.push(after), posts.push(post), handles.push(handle)),
        states.push(after)[0] == states[0],
{
    let more_states = states.push(after);
    let more_posts = posts.push(post);
    let more_handles = handles.push(handle);
    assert forall|k: int| 0 <= k < more_posts.len() implies canonicalized(
        more_states[k],
        more_posts[k],
        more_states[k + 1],
        (#[trigger] more_handles[k]).index as int,
    ) by {
        if k < posts.len() {
            assert(more_handles[k] == handles[k]);
        }
    }
}

/// Along a chain that starts without repeated content ids, no state holds
/// a content id twice, no state is shorter than the one before it, and
/// every handle names a post of the last state.
pub proof fn law_handles_stay_good(states: Seq<Seq<PostView>>, posts: Seq<PostView>, handles: Seq<PostHandle>)
    requires
        canonical_chain(states, posts, handles),
        distinct_cids(states[0]),
    ensures
        distinct_cids(states.last()),
        states[0].len() <= states.last().len(),
        forall|k: int| 0 <= k < handles.len() ==> (#[trigger] handles[k]).index < states.last().len(),
    decreases posts.len(),
{
    if posts.len() > 0 {
        let n = posts.len() as int;
        let fewer_states = states.drop_last();
        let fewer_posts = posts.drop_last();
        let fewer_handles = handles.drop_last();
        assert forall|k: int| 0 <= k < fewer_posts.len() implies canonicalized(
            fewer_states[k],
            fewer_posts[k],
            fewer_states[k + 1],
            (#[trigger] fewer_handles[k]).index as int,
        ) by {
            assert(fewer_handles[k] == handles[k]);
        }
        law_handles_stay_good(fewer_states, fewer_posts, fewer_handles);
        assert(fewer_states.last() == states[n - 1]);
        assert(canonicalized(states[n - 1], posts[n - 1], states[n], handles[n - 1].index as int));
        lemma_canonicalized(states[n - 1], posts[n - 1], states[n], handles[n - 1].index as int);
        assert forall|k: int| 0 <= k < handles.len() implies (#[trigger] handles[k]).index
            < states.last().len() by {
            if k < n - 1 {
                assert(fewer_handles[k] == handles[k]);
            }
        }
    }
}

/// A count one higher, held at the largest value it can take.
pub open spec fn bumped(count: Option<u32>) -> Option<u32> {
    match count {
        Some(c) => Some(
            if c < u32::MAX {
                (c + 1) as u32
            } else {
                c
            },
        ),
        None => None,
    }
}

/// A count one lower, held at zero.
pub open spec fn dropped(count: Option<u32>) -> Option<u32> {
    match count {
        Some(c) => Some(
            if c > 0 {
                (c - 1) as u32
            } else {
                c
            },
        ),
        None => None,
    }
}

/// The viewer state with its like record set to `like`.
pub open spec fn with_like(viewer: Option<ViewerState>, like: Option<String>) -> Option<
    ViewerState,
> {
    match viewer {
        Some(v) => Some(ViewerState { like, ..v }),
        None => None,
    }
}

/// The viewer state with its repost record set to `repost`.
pub open spec fn with_repost(viewer: Option<ViewerState>, repost: Option<String>) -> Option<
    ViewerState,
> {
    match viewer {
        Some(v) => Some(ViewerState { repost, ..v }),
        None => None,
    }
}

/// The post after the viewer's change: only the viewer state and the count
/// that the change is about differ. A post without viewer state keeps
/// having none, and a post without the count keeps having none.
pub open spec fn mutated(post: PostView, mutation: LocalMutation) -> PostView {
    match mutation {
        LocalMutation::Liked { uri } => PostView {
            viewer: with_like(post.viewer, Some(uri)),
            like_count: bumped(post.like_count),
            ..post
        },
        LocalMutation::Unliked => PostView {
            viewer: with_like(post.viewer, None),
            like_count: dropped(post.like_count),
            ..post
        },
        LocalMutation::Reposted { uri } => PostView {
            viewer: with_repost(post.viewer, Some(uri)),
            repost_count: bumped(post.repost_count),
            ..post
        },
        LocalMutation::Unreposted => PostView {
            viewer: with_repost(post.viewer, None),
            repost_count: dropped(post.repost_count),
            ..post
        },
    }
}

/// What `find_cid` finds holds the content id, and nothing before it does;
/// when it finds nothing, no stored post holds the content id.
pub proof fn lemma_find_cid(posts: Seq<PostView>, cid: Seq<char>)
    ensures
        match find_cid(posts, cid) {
            Some(i) => 0 <= i < posts.len() && posts[i].cid@ == cid && forall|j: int|
                0 <= j < i ==> posts[j].cid@ != cid,
            None => forall|j: int| 0 <= j < posts.len() ==> posts[j].cid@ != cid,
        },
    decreases posts.len(),
{
    if posts.len() > 0 {
        let front = posts.drop_last();
        lemma_find_cid(front, cid);
        assert(forall|j: int| 0 <= j < front.len() ==> front[j] == posts[j]);
    }
}

/// In a cache without repeated content ids, the post at `i` is the one that
/// a search for its content id finds.
pub proof fn lemma_find_own_cid(posts: Seq<PostView>, i: int)
    requires
        distinct_cids(posts),
        0 <= i < posts.len(),
    ensures
        find_cid(posts, posts[i].cid@) == Some(i),
{
    lemma_find_cid(posts, posts[i].cid@);
}

/// Canonicalizing keeps content ids apart, and leaves a post with the
/// content id of the incoming one at the returned position.
pub proof fn lemma_canonicalized(
    before: Seq<PostView>,
    post: PostView,
    after: Seq<PostView>,
    index: int,
)
    requires
        distinct_cids(before),
        canonicalized(before, post, after, index),
    ensures
        distinct_cids(after),
        0 <= index < after.len(),
        before.len() <= after.len(),
        after[index].cid@ == post.cid@,
        forall|j: int| 0 <= j < before.len() ==> after[j].cid@ == before[j].cid@,
{
    lemma_find_cid(before, post.cid@);
}

/// A handle stays with its content id: whatever post is canonicalized
/// next, the post that `handle` named before is still found under it.
pub proof fn law_handle_is_stable(
    before: Seq<PostView>,
    handle: int,
    post: PostView,
    after: Seq<PostView>,
    index: int,
)
    requires
        distinct_cids(before),
        0 <= handle < before.len(),
        canonicalized(before, post, after, index),
    ensures
        find_cid(after, before[handle].cid@) == Some(handle),
{
    lemma_canonicalized(before, post, after, index);
    lemma_find_own_cid(after, handle);
}

/// Two posts with the same content id, canonicalized one after the other,
/// get the same handle; and a change made through the first handle is what
/// a read through the second one finds.
pub proof fn law_dedup_identity(
    cache: Seq<PostView>,
    first: PostView,
    after_first: Seq<PostView>,
    first_handle: int,
    second: PostView,
    after_second: Seq<PostView>,
    second_handle: int,
    mutation: LocalMutation,
)
    requires
        distinct_cids(cache),
        first.cid@ == second.cid@,
        canonicalized(cache, first, after_first, first_handle),
        canonicalized(after_first, second, after_second, second_handle),
    ensures
        first_handle == second_handle,
        after_second.update(first_handle, mutated(after_second[first_handle], mutation))[second_handle]
            == mutated(after_second[second_handle], mutation),
{
    lemma_canonicalized(cache, first, after_first, first_handle);
    lemma_find_own_cid(after_first, first_handle);
    lemma_canonicalized(after_first, second, after_second, second_handle);
}

/// A like raises the like count by exactly one and sets the viewer's like
/// record; taking it back lowers the count by exactly one and clears the
/// record. Like, unlike, like, unlike leaves the post as it was.
///
/// This is stated of a post that the viewer has not liked yet and whose
/// like count, if it has one, is below `u32::MAX`.
pub proof fn law_like_round_trip(post: PostView, first: String, second: String)
    requires
        post.viewer matches Some(v) ==> v.like is None,
        post.like_count matches Some(c) ==> c < u32::MAX,
    ensures
        ({
            let liked = mutated(post, LocalMutation::Liked { uri: first });
            let unliked = mutated(liked, LocalMutation::Unliked);
            let again = mutated(unliked, LocalMutation::Liked { uri: second });
            let done = mutated(again, LocalMutation::Unliked);
            &&& post.like_count matches Some(c) ==> liked.like_count == Some((c + 1) as u32)
            &&& post.viewer is Some ==> liked.viewer->0.like == Some(first)
            &&& liked.like_count matches Some(c) ==> unliked.like_count == Some((c - 1) as u32)
            &&& unliked.viewer matches Some(v) ==> v.like is None
            &&& unliked == post
            &&& done == post
        }),
{
}

/// A repost raises the repost count by exactly one and sets the viewer's
/// repost record; taking it back lowers the count by exactly one and clears
/// the record. Repost, undo, repost, undo leaves the post as it was.
///
/// This is stated of a post that the viewer has not reposted yet and whose
/// repost count, if it has one, is below `u32::MAX`.
pub proof fn law_repost_round_trip(post: PostView, first: String, second: String)
    requires
        post.viewer matches Some(v) ==> v.repost is None,
        post.repost_count matches Some(c) ==> c < u32::MAX,
    ensures
        ({
            let reposted = mutated(post, LocalMutation::Reposted { uri: first });
            let undone = mutated(reposted, LocalMutation::Unreposted);
            let again = mutated(undone, LocalMutation::Reposted { uri: second });
            let done = mutated(again, LocalMutation::Unreposted);
            &&& post.repost_count matches Some(c) ==> reposted.repost_count == Some((c + 1) as u32)
            &&& post.viewer is Some ==> reposted.viewer->0.repost == Some(first)
            &&& reposted.repost_count matches Some(c) ==> undone.repost_count == Some(
                (c - 1) as u32,
            )
            &&& undone.viewer matches Some(v) ==> v.repost is None
            &&& undone == post
            &&& done == post
        }),
{
}

fn normalize(post: PostView) -> (stored: PostView)
    ensures
        is_normalized(stored, post),
{
    let PostView {
        uri,
        cid,
        author,
        record,
        indexed_at,
        embed,
        reply_count,
        repost_count,
        like_count,
        quote_count,
        viewer,
        labels,
        threadgate,
    } = post;
    let Post { text, created_at, facets, reply, embed: record_embed, langs, labels: record_labels, tags } =
        record;
    let facets = match facets {
        Some(list) => Some(sort_facets(list)),
        None => None,
    };
    PostView {
        uri,
        cid,
        author,
        record: Post {
            text,
            created_at,
            facets,
            reply,
            embed: record_embed,
            langs,
            labels: record_labels,
            tags,
        },
        indexed_at,
        embed,
        reply_count,
        repost_count,
        like_count,
        quote_count,
        viewer,
        labels,
        threadgate,
    }
}

impl PostCache {
    /// The stored posts, in the order in which their content ids were first
    /// seen.
    pub closed spec fn view(&self) -> Seq<PostView> {
        self.entries@
    }

    /// The index knows each stored post by its content id, and nothing
    /// else. With that, no content id is stored twice.
    pub closed spec fn wf(&self) -> bool {
        &&& forall|i: int|
            0 <= i < self.entries@.len() ==> self.index@.contains_key(
                (#[trigger] self.entries@[i]).cid@,
            ) && self.index@[self.entries@[i].cid@] == i
        &&& forall|cid: Seq<char>| #[trigger]
            self.index@.contains_key(cid) ==> self.index@[cid] < self.entries@.len()
                && self.entries@[self.index@[cid] as int].cid@ == cid
    }

    /// A cache that is well formed holds no content id twice.
    pub proof fn lemma_wf(&self)
        requires
            self.wf(),
        ensures
            distinct_cids(self@),
    {
        assert forall|i: int, j: int| 0 <= i < j < self.entries@.len() implies self.entries@[i].cid@
            != self.entries@[j].cid@ by {
            assert(self.index@[self.entries@[i].cid@] == i);
            assert(self.index@[self.entries@[j].cid@] == j);
        }
    }

    /// `handle` names a stored post.
    pub open spec fn holds(&self, handle: PostHandle) -> bool {
        handle.index < self@.len()
    }

    /// A cache that holds nothing.
    pub fn new() -> (cache: PostCache)
        ensures
            cache@ == Seq::<PostView>::empty(),
            cache.wf(),
    {
        PostCache { entries: Vec::new(), index: StringHashMap::new() }
    }

    /// How many posts are stored.
    pub fn len(&self) -> (n: usize)
        ensures
            n == self@.len(),
    {
        self.entries.len()
    }

    /// The stored post that `handle` names.
    pub fn get(&self, handle: PostHandle) -> (post: Option<&PostView>)
        ensures
            match post {
                Some(p) => self.holds(handle) && *p == self@[handle.index as int],
                None => !self.holds(handle),
            },
    {
        if handle.index < self.entries.len() {
            Some(&self.entries[handle.index])
        } else {
            None
        }
    }

    /// The handle of the stored post whose content id is `cid`.
    pub fn handle_of(&self, cid: &str) -> (handle: Option<PostHandle>)
        requires
            self.wf(),
        ensures
            match handle {
                Some(h) => find_cid(self@, cid@) == Some(h.index as int),
                None => find_cid(self@, cid@) is None,
            },
    {
        proof {
            lemma_find_cid(self.entries@, cid@);
        }
        match self.index.get(cid) {
            Some(at) => {
                proof {
                    let found = find_cid(self.entries@, cid@);
                    assert(self.entries@[*at as int].cid@ == cid@);
                    assert(found is Some);
                    assert(self.index@[self.entries@[found->0].cid@] == found->0);
                }
                Some(PostHandle { index: *at })
            },
            None => {
                proof {
                    let found = find_cid(self.entries@, cid@);
                    if found is Some {
                        assert(self.index@.contains_key(self.entries@[found->0].cid@));
                    }
                }
                None
            },
        }
    }

    /// Takes `post` into the cache and hands back the handle under which it
    /// is stored from now on.
    ///
    /// Where a post with the same content id is stored already, that entry
    /// is overwritten with `post`, its facets put in order of their start
    /// offsets, and the handle is the one that the entry always had.
    /// Otherwise `post` is stored as it came, under a new handle. No other
    /// entry changes.
    pub fn canonicalize(&mut self, post: PostView) -> (handle: PostHandle)
        requires
            old(self).wf(),
        ensures
            canonicalized(old(self)@, post, final(self)@, handle.index as int),
            final(self).wf(),
            final(self).holds(handle),
    {
        let found = self.handle_of(post.cid.as_str());
        let ghost before = self@;
        proof {
            self.lemma_wf();
            lemma_find_cid(before, post.cid@);
        }
        let handle = match found {
            Some(handle) => {
                let stored = normalize(post);
                self.entries[handle.index] = stored;
                proof {
                    assert forall|i: int| 0 <= i < self.entries@.len() implies (
                    #[trigger] self.entries@[i]).cid@ == before[i].cid@ by {}
                }
                handle
            },
            None => {
                let handle = PostHandle { index: self.entries.len() };
                let cid = post.cid.clone();
                self.entries.push(post);
                self.index.insert(cid, handle.index);
                proof {
                    assert forall|i: int| 0 <= i < before.len() implies (
                    #[trigger] self.entries@[i]) == before[i] by {}
                }
                handle
            },
        };
        proof {
            lemma_canonicalized(before, post, self@, handle.index as int);
        }
        handle
    }

    /// Records a change that the viewer made to the post that `handle`
    /// names. Says whether `handle` names a stored post; if it does not,
    /// nothing changes.
    ///
    /// A like sets the viewer's like record and raises the like count by
    /// one; taking it back clears the record and lowers the count by one.
    /// Reposts go the same way. Counts stop at zero and at `u32::MAX`.
    pub fn apply_local_mutation(&mut self, handle: PostHandle, mutation: LocalMutation) -> (applied:
        bool)
        requires
            old(self).wf(),
        ensures
            applied == old(self).holds(handle),
            applied ==> final(self)@ == old(self)@.update(
                handle.index as int,
                mutated(old(self)@[handle.index as int], mutation),
            ),
            !applied ==> final(self)@ == old(self)@,
            final(self).wf(),
    {
        if handle.index >= self.entries.len() {
            return false;
        }
        let ghost before = self@;
        let entry = &mut self.entries[handle.index];
        match mutation {
            LocalMutation::Liked { uri } => {
                if let Some(viewer) = &mut entry.viewer {
                    viewer.like = Some(uri);
                }
                if let Some(count) = &mut entry.like_count {
                    if *count < u32::MAX {
                        *count = *count + 1;
                    }
                }
            },
            LocalMutation::Unliked => {
                if let Some(viewer) = &mut entry.viewer {
                    viewer.like = None;
                }
                if let Some(count) = &mut entry.like_count {
                    if *count > 0 {
                        *count = *count - 1;
                    }
                }
            },
            LocalMutation::Reposted { uri } => {
                if let Some(viewer) = &mut entry.viewer {
                    viewer.repost = Some(uri);
                }
                if let Some(count) = &mut entry.repost_count {
                    if *count < u32::MAX {
                        *count = *count + 1;
                    }
                }
            },
            LocalMutation::Unreposted => {
                if let Some(viewer) = &mut entry.viewer {
                    viewer.repost = None;
                }
                if let Some(count) = &mut entry.repost_count {
                    if *count > 0 {
                        *count = *count - 1;
                    }
                }
            },
        }
        proof {
            assert(self@[handle.index as int].cid == before[handle.index as int].cid);
            assert forall|i: int| 0 <= i < self.entries@.len() implies (
            #[trigger] self.entries@[i]).cid@ == before[i].cid@ by {}
            assert(self@ =~= before.update(
                handle.index as int,
                mutated(before[handle.index as int], mutation),
            ));
        }
        true
    }
}

} // verus!
