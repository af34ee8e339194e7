//! Threads: a post, the chain of posts above it, and the replies below.
//!
//! A thread is held as a list of nodes. The first node is the post that was
//! asked for, and each node names its parent and its replies by their
//! position in the list.

use crate::backend::cache::{canonical_chain, canonicalized_all, lemma_chain_push, PostHandle};
use crate::backend::layout::{is_listing, lay_out, ThreadTreeResponse};
use crate::backend::text::{append_decimal, decimal};
use crate::backend::{BlueskyApiError, ClientBackend, Decoded, HttpRequest};
use crate::defs::feed::defs::{PostView, ThreadPostVariant, ThreadViewPost};
use vstd::prelude::*;
use vstd::string::StringExecFns;

verus! {

/// A thread. `P` is how a post is held: by value as fetched, or by handle
/// once the cache has taken it.
#[derive(Debug)]
pub struct BlueskyApiGetThreadResponse<P> {
    pub thread: Vec<ThreadPostVariant<P>>,
    pub threadgate: Option<serde_json::Value>,
}

/// The most levels of replies, and of parents, that a request may ask for.
pub const THREAD_LIMIT: usize = 1000;

/// How many levels of replies are asked for when the caller names none.
pub const DEFAULT_DEPTH: usize = 6;

/// How many levels of parents are asked for when the caller names none.
pub const DEFAULT_HEIGHT: usize = 80;

/// The number of levels to ask for: `fallback` where none is given, the
/// given number otherwise, and at most the limit.
pub open spec fn clamped(levels: Option<usize>, fallback: usize) -> usize {
    match levels {
        Some(n) => if n > THREAD_LIMIT {
            THREAD_LIMIT
        } else {
            n
        },
        None => fallback,
    }
}

/// Holds a number of levels to the limit, and fills in the fallback.
pub fn clamp(levels: Option<usize>, fallback: usize) -> (n: usize)
    ensures
        n == clamped(levels, fallback),
{
    match levels {
        Some(n) => if n > THREAD_LIMIT {
            THREAD_LIMIT
        } else {
            n
        },
        None => fallback,
    }
}

/// The posts of the nodes that hold one, in the order of the nodes.
pub open spec fn thread_posts<P>(nodes: Seq<ThreadPostVariant<P>>) -> Seq<P>
    decreases nodes.len(),
{
    if nodes.len() == 0 {
        Seq::empty()
    } else {
        match nodes.last() {
            ThreadPostVariant::ThreadView(view) => thread_posts(nodes.drop_last()).push(view.post),
            _ => thread_posts(nodes.drop_last()),
        }
    }
}

/// `shared` is the node `fetched`, but for the post it may hold.
pub open spec fn same_node(
    fetched: ThreadPostVariant<PostView>,
    shared: ThreadPostVariant<PostHandle>,
) -> bool {
    match fetched {
        ThreadPostVariant::ThreadView(view) => shared matches ThreadPostVariant::ThreadView(s)
            && s.parent == view.parent && s.replies == view.replies,
        ThreadPostVariant::NotFound(missing) => shared == ThreadPostVariant::<
            PostHandle,
        >::NotFound(missing),
        ThreadPostVariant::Blocked(blocked) => shared == ThreadPostVariant::<PostHandle>::Blocked(
            blocked,
        ),
    }
}

/// `shared` is `fetched` with each post replaced by the handle that
/// canonicalizing the posts in the order of the nodes gave, on a cache that
/// went from `before` to `after`.
pub open spec fn thread_canonicalized(
    before: Seq<PostView>,
    fetched: BlueskyApiGetThreadResponse<PostView>,
    after: Seq<PostView>,
    shared: BlueskyApiGetThreadResponse<PostHandle>,
) -> bool {
    &&& shared.threadgate == fetched.threadgate
    &&& shared.thread.len() == fetched.thread.len()
    &&& forall|i: int|
        0 <= i < fetched.thread.len() ==> same_node(fetched.thread[i], #[trigger] shared.thread[i])
    &&& canonicalized_all(
        before,
        thread_posts(fetched.thread@),
        after,
        thread_posts(shared.thread@),
    )
}

/// What the fetch of a thread ends with, and what it makes of the cache:
/// an error leaves the cache alone; a thread is laid out as a list, and
/// the posts of the list are canonicalized in its order.
pub open spec fn thread_settled(
    before: Seq<PostView>,
    reply: Result<Decoded<ThreadTreeResponse>, BlueskyApiError>,
    after: Seq<PostView>,
    result: Result<BlueskyApiGetThreadResponse<PostHandle>, BlueskyApiError>,
) -> bool {
    match reply {
        Ok(decoded) => match decoded.value {
            Ok(fetched) => {
                &&& result matches Ok(shared)
                &&& exists|listed: BlueskyApiGetThreadResponse<PostView>|
                    #[trigger] is_listing(fetched, listed) && thread_canonicalized(
                        before,
                        listed,
                        after,
                        shared,
                    )
            },
            Err(detail) => {
                &&& after == before
                &&& result matches Err(BlueskyApiError::ParseError(d, b))
                &&& d == detail
                &&& b == decoded.body
            },
        },
        Err(error) => {
            &&& after == before
            &&& result matches Err(e)
            &&& e == error
        },
    }
}

impl ClientBackend {
    /// The request for the thread around the post `uri`, with `depth`
    /// levels of replies and `height` levels of parents. Each is held to
    /// at most 1000; where none is given, 6 levels of replies and 80 of
    /// parents are asked for.
    pub fn get_thread_request(&self, uri: String, depth: Option<usize>, height: Option<usize>) -> (request:
        HttpRequest)
        ensures
            request == ClientBackend::spec_get(request.url),
            request.url@ == self.session().standard_pds@ + "/xrpc/app.bsky.feed.getPostThread?uri="@
                + uri@ + "&depth="@ + decimal(clamped(depth, DEFAULT_DEPTH) as nat)
                + "&parentHeight="@ + decimal(clamped(height, DEFAULT_HEIGHT) as nat),
    {
        let depth = clamp(depth, DEFAULT_DEPTH);
        let height = clamp(height, DEFAULT_HEIGHT);
        let mut url = self.standard_url("/xrpc/app.bsky.feed.getPostThread?uri=");
        url.append(uri.as_str());
        url.append("&depth=");
        append_decimal(&mut url, depth as u64);
        url.append("&parentHeight=");
        append_decimal(&mut url, height as u64);
        ClientBackend::get(url)
    }

    /// Takes every post of a thread into the cache, in the order of its
    /// nodes, and hands back the thread with handles in their place.
    pub fn canonicalize_thread(&mut self, fetched: BlueskyApiGetThreadResponse<PostView>) -> (shared:
        BlueskyApiGetThreadResponse<PostHandle>)
        requires
            old(self).wf(),
        ensures
            thread_canonicalized(old(self).posts(), fetched, final(self).posts(), shared),
            final(self).wf(),
            final(self).session() == old(self).session(),
    {
        let BlueskyApiGetThreadResponse { thread, threadgate } = fetched;
        let ghost all = thread@;
        let mut rest = thread;
        let mut out: Vec<ThreadPostVariant<PostHandle>> = Vec::new();
        let ghost mut states: Seq<Seq<PostView>> = seq![self.posts()];
        let ghost mut done: Seq<ThreadPostVariant<PostView>> = Seq::empty();
        while rest.len() > 0
            invariant
                self.wf(),
                self.session() == old(self).session(),
                all == done + rest@,
                out@.len() == done.len(),
                forall|i: int| 0 <= i < done.len() ==> same_node(done[i], #[trigger] out@[i]),
                canonical_chain(states, thread_posts(done), thread_posts(out@)),
                states[0] == old(self).posts(),
                states.last() == self.posts(),
            decreases rest.len(),
        {
            let node = rest.remove(0);
            let ghost node_copy = node;
            let shared_node = match node {
                ThreadPostVariant::ThreadView(view) => {
                    let ThreadViewPost { post, parent, replies } = view;
                    let handle = self.deduplicate_post(post);
                    proof {
                        lemma_chain_push(
                            states,
                            thread_posts(done),
                            thread_posts(out@),
                            post,
                            self.posts(),
                            handle,
                        );
                        states = states.push(self.posts());
                    }
                    ThreadPostVariant::ThreadView(ThreadViewPost { post: handle, parent, replies })
                },
                ThreadPostVariant::NotFound(missing) => ThreadPostVariant::NotFound(missing),
                ThreadPostVariant::Blocked(blocked) => ThreadPostVariant::Blocked(blocked),
            };
            proof {
                assert(done.push(node_copy).drop_last() =~= done);
                assert(out@.push(shared_node).drop_last() =~= out@);
                assert(all =~= done.push(node_copy) + rest@);
                done = done.push(node_copy);
            }
            out.push(shared_node);
        }
        proof {
            assert(all =~= done);
        }
        BlueskyApiGetThreadResponse { thread: out, threadgate }
    }

    /// Ends the fetch of a thread: an error is handed on; a thread is laid
    /// out as a list, depth first, and every post of it goes into the
    /// cache.
    pub fn get_thread(
        &mut self,
        reply: Result<Decoded<ThreadTreeResponse>, BlueskyApiError>,
    ) -> (result: Result<BlueskyApiGetThreadResponse<PostHandle>, BlueskyApiError>)
        requires
            old(self).wf(),
        ensures
            thread_settled(old(self).posts(), reply, final(self).posts(), result),
            final(self).wf(),
            final(self).session() == old(self).session(),
    {
        match reply {
            Ok(decoded) => {
                let Decoded { body, value } = decoded;
                match value {
                    Ok(fetched) => {
                        let listed = lay_out(fetched);
                        let shared = self.canonicalize_thread(listed);
                        proof {
                            assert(is_listing(fetched, listed) && thread_canonicalized(
                                old(self).posts(),
                                listed,
                                self.posts(),
                                shared,
                            ));
                        }
                        Ok(shared)
                    },
                    Err(detail) => Err(BlueskyApiError::ParseError(detail, body)),
                }
            },
            Err(error) => Err(error),
        }
    }
}

} // verus!
