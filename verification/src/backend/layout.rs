//! Laying a thread out as a list.
//!
//! The service sends a thread as a tree: a post, the post above it with
//! everything above that, and the replies with everything below them. The
//! client holds it as a list of nodes that name each other by position.
//! The list is in depth-first order: a post, then all that is above it,
//! then each of its replies with all that belongs to it.

use crate::backend::thread::{thread_posts, BlueskyApiGetThreadResponse};
use crate::defs::feed::defs::{
    BlockedPost, NotFoundPost, PostView, ThreadPostVariant, ThreadViewPost,
};
use vstd::prelude::*;

verus! {

/// A node of a thread as the service sends it.
#[derive(Debug)]
pub enum ThreadTree {
    ThreadView(ThreadTreePost),
    NotFound(NotFoundPost),
    Blocked(BlockedPost),
}

/// A post of a thread as the service sends it, with what is above and
/// below it.
#[derive(Debug)]
pub struct ThreadTreePost {
    pub post: PostView,
    pub parent: Option<Box<ThreadTree>>,
    pub replies: Option<Vec<ThreadTree>>,
}

/// A thread as the service sends it: the post that was asked for, with
/// what is above and below it.
#[derive(Debug)]
pub struct ThreadTreeResponse {
    pub thread: ThreadTreePost,
    pub threadgate: Option<serde_json::Value>,
}

/// What a node of the list holds, with positions as numbers.
pub enum Placed {
    View { post: PostView, parent: Option<int>, replies: Option<Seq<int>> },
    NotFound(NotFoundPost),
    Blocked(BlockedPost),
}

/// What `node` holds.
pub open spec fn placed(node: ThreadPostVariant<PostView>) -> Placed {
    match node {
        ThreadPostVariant::ThreadView(view) => Placed::View {
            post: view.post,
            parent: match view.parent {
                Some(p) => Some(p as int),
                None => None,
            },
            replies: match view.replies {
                Some(list) => Some(list@.map_values(|p: usize| p as int)),
                None => None,
            },
        },
        ThreadPostVariant::NotFound(missing) => Placed::NotFound(missing),
        ThreadPostVariant::Blocked(blocked) => Placed::Blocked(blocked),
    }
}

/// What each node of `nodes` holds.
pub open spec fn all_placed(nodes: Seq<ThreadPostVariant<PostView>>) -> Seq<Placed> {
    nodes.map_values(|node: ThreadPostVariant<PostView>| placed(node))
}

/// The nodes that `tree` is laid out as when its first node stands at
/// position `at`: the node itself, then what is above it, then each reply
/// with what belongs to it.
pub open spec fn laid_out(tree: ThreadTree, at: int) -> Seq<Placed>
    decreases tree,
{
    match tree {
        ThreadTree::NotFound(missing) => seq![Placed::NotFound(missing)],
        ThreadTree::Blocked(blocked) => seq![Placed::Blocked(blocked)],
        ThreadTree::ThreadView(view) => {
            let above = match view.parent {
                Some(parent) => laid_out(*parent, at + 1),
                None => Seq::empty(),
            };
            let below_at = at + 1 + above.len();
            let head = Placed::View {
                post: view.post,
                parent: match view.parent {
                    Some(_) => Some(at + 1),
                    None => None,
                },
                replies: match view.replies {
                    Some(list) => Some(forest_positions(list@, below_at)),
                    None => None,
                },
            };
            let below = match view.replies {
                Some(list) => forest_laid_out(list@, below_at),
                None => Seq::empty(),
            };
            seq![head] + above + below
        },
    }
}

/// The nodes that the trees of `list` are laid out as, one tree after the
/// other, from position `at` on.
pub open spec fn forest_laid_out(list: Seq<ThreadTree>, at: int) -> Seq<Placed>
    decreases list,
{
    if list.len() == 0 {
        Seq::empty()
    } else {
        let front = forest_laid_out(list.drop_last(), at);
        front + laid_out(list.last(), at + front.len())
    }
}

/// The positions at which the trees of `list` start when they are laid
/// out one after the other from position `at` on.
pub open spec fn forest_positions(list: Seq<ThreadTree>, at: int) -> Seq<int>
    decreases list,
{
    if list.len() == 0 {
        Seq::empty()
    } else {
        forest_positions(list.drop_last(), at).push(
            at + forest_laid_out(list.drop_last(), at).len(),
        )
    }
}

/// A forest grows by one tree at its end.
proof fn lemma_forest_push(done: Seq<ThreadTree>, next: ThreadTree, at: int)
    ensures
        forest_laid_out(done.push(next), at) == forest_laid_out(done, at) + laid_out(
            next,
            at + forest_laid_out(done, at).len(),
        ),
        forest_positions(done.push(next), at) == forest_positions(done, at).push(
            at + forest_laid_out(done, at).len(),
        ),
{
    assert(done.push(next).drop_last() =~= done);
    assert(done.push(next).last() == next);
}

/// Appends the nodes that `tree` is laid out as to `nodes`, and hands back
/// the position of the first of them. The nodes that were there stay.
pub fn lay_out_into(tree: ThreadTree, nodes: &mut Vec<ThreadPostVariant<PostView>>) -> (at: usize)
    ensures
        at == old(nodes)@.len(),
        final(nodes)@.len() == at + laid_out(tree, at as int).len(),
        final(nodes)@.subrange(0, at as int) == old(nodes)@,
        all_placed(final(nodes)@.subrange(at as int, final(nodes)@.len() as int)) == laid_out(
            tree,
            at as int,
        ),
    decreases tree,
{
    let at = nodes.len();
    let ghost before = nodes@;
    match tree {
        ThreadTree::NotFound(missing) => {
            nodes.push(ThreadPostVariant::NotFound(missing));
            proof {
                assert(nodes@.subrange(0, at as int) =~= before);
                assert(all_placed(nodes@.subrange(at as int, nodes@.len() as int)) =~= laid_out(
                    tree,
                    at as int,
                ));
            }
        },
        ThreadTree::Blocked(blocked) => {
            nodes.push(ThreadPostVariant::Blocked(blocked));
            proof {
                assert(nodes@.subrange(0, at as int) =~= before);
                assert(all_placed(nodes@.subrange(at as int, nodes@.len() as int)) =~= laid_out(
                    tree,
                    at as int,
                ));
            }
        },
        ThreadTree::ThreadView(view) => {
            let ThreadTreePost { post, parent, replies } = view;
            nodes.push(
                ThreadPostVariant::ThreadView(ThreadViewPost { post, parent: None, replies: None }),
            );
            let ghost with_head = nodes@;
            assert(forall|i: int| 0 <= i < at ==> with_head[i] == before[i]);
            let ghost given_parent = parent;
            let ghost given_replies = replies;
            let parent_at: Option<usize> = match parent {
                Some(boxed) => Some(lay_out_into(*boxed, nodes)),
                None => None,
            };
            let ghost above = match given_parent {
                Some(boxed) => laid_out(*boxed, at + 1),
                None => Seq::empty(),
            };
            let ghost with_parent = nodes@;
            let below_at = nodes.len();
            proof {
                assert(match given_parent {
                    Some(_) => parent_at == Some((at + 1) as usize),
                    None => parent_at is None,
                });
                assert(below_at == at + 1 + above.len());
                assert(with_parent.subrange(0, at + 1) =~= with_head);
                assert(all_placed(with_parent.subrange(at + 1, with_parent.len() as int)) =~= above);
            }
            let reply_positions: Option<Vec<usize>> = match replies {
                Some(list) => {
                    let ghost whole = list;
                    let mut rest = list;
                    let mut positions: Vec<usize> = Vec::new();
                    let ghost mut done: Seq<ThreadTree> = Seq::empty();
                    proof {
                        assert(nodes@.subrange(below_at as int, nodes@.len() as int) =~= Seq::empty());
                        assert(all_placed(Seq::empty()) =~= Seq::empty());
                        assert(positions@.map_values(|p: usize| p as int) =~= Seq::empty());
                    }
                    while rest.len() > 0
                        invariant
                            tree matches ThreadTree::ThreadView(v) && v.replies == Some(whole),
                            whole@ == done + rest@,
                            below_at <= nodes@.len(),
                            nodes@.len() == below_at + forest_laid_out(done, below_at as int).len(),
                            nodes@.subrange(0, below_at as int) == with_parent,
                            all_placed(nodes@.subrange(below_at as int, nodes@.len() as int))
                                == forest_laid_out(done, below_at as int),
                            positions@.map_values(|p: usize| p as int) == forest_positions(
                                done,
                                below_at as int,
                            ),
                        decreases rest.len(),
                    {
                        let ghost so_far = nodes@;
                        let ghost k = done.len() as int;
                        let reply = rest.remove(0);
                        proof {
                            assert(reply == whole@[k]);
                            let v = tree->ThreadView_0;
                            assert(decreases_to!(tree => v));
                            assert(decreases_to!(v => v.replies));
                            assert(v.replies->0 == whole);
                            assert(decreases_to!(v.replies => v.replies->0));
                            assert(decreases_to!(whole => whole@));
                            assert(decreases_to!(whole@ => whole@[k]));
                            assert(decreases_to!(tree => reply));
                        }
                        let position = lay_out_into(reply, nodes);
                        proof {
                            lemma_forest_push(done, reply, below_at as int);
                            assert(whole@ =~= done.push(reply) + rest@);
                            assert(nodes@.subrange(0, below_at as int) =~= so_far.subrange(
                                0,
                                below_at as int,
                            ));
                            let grown = nodes@.subrange(below_at as int, nodes@.len() as int);
                            let old_part = so_far.subrange(below_at as int, so_far.len() as int);
                            let new_part = nodes@.subrange(so_far.len() as int, nodes@.len() as int);
                            assert(grown =~= old_part + new_part);
                            assert(all_placed(grown) =~= all_placed(old_part) + all_placed(new_part));
                            assert(positions@.push(position).map_values(|p: usize| p as int)
                                =~= positions@.map_values(|p: usize| p as int).push(position as int));
                            done = done.push(reply);
                        }
                        positions.push(position);
                    }
                    proof {
                        assert(whole@ =~= done);
                    }
                    Some(positions)
                },
                None => None,
            };
            let ghost below = match given_replies {
                Some(list) => forest_laid_out(list@, below_at as int),
                None => Seq::empty(),
            };
            let ghost filled = nodes@;
            proof {
                assert(match given_replies {
                    Some(list) => reply_positions matches Some(p) && p@.map_values(
                        |p: usize| p as int,
                    ) == forest_positions(list@, below_at as int),
                    None => reply_positions is None,
                });
                assert(filled[at as int] == with_head[at as int]);
                assert(filled.subrange(0, below_at as int) =~= with_parent);
                assert(all_placed(filled.subrange(below_at as int, filled.len() as int)) =~= below);
            }
            match &mut nodes[at] {
                ThreadPostVariant::ThreadView(head) => {
                    head.parent = parent_at;
                    head.replies = reply_positions;
                },
                _ => {},
            }
            proof {
                let whole_list = nodes@.subrange(at as int, nodes@.len() as int);
                let target = laid_out(tree, at as int);
                assert(nodes@.len() == filled.len());
                assert(forall|i: int| 0 <= i < filled.len() && i != at ==> nodes@[i] == filled[i]);
                assert forall|i: int| 0 <= i < at implies nodes@[i] == before[i] by {
                    assert(filled[i] == filled.subrange(0, below_at as int)[i]);
                    assert(with_parent[i] == with_parent.subrange(0, at + 1)[i]);
                    assert(with_head[i] == before[i]);
                }
                assert(nodes@.subrange(0, at as int) =~= before);
                assert(all_placed(whole_list).len() == target.len());
                assert forall|i: int| 0 <= i < target.len() implies all_placed(whole_list)[i]
                    == target[i] by {
                    if i == 0 {
                        assert(whole_list[0] == nodes@[at as int]);
                        assert(nodes@[at as int] matches ThreadPostVariant::ThreadView(h) && h.post
                            == post && h.parent == parent_at && h.replies == reply_positions);
                    } else if i < 1 + above.len() {
                        assert(whole_list[i] == with_parent.subrange(
                            at + 1,
                            with_parent.len() as int,
                        )[i - 1]);
                        assert(all_placed(
                            with_parent.subrange(at + 1, with_parent.len() as int),
                        )[i - 1] == above[i - 1]);
                    } else {
                        let j = i - 1 - above.len();
                        assert(whole_list[i] == filled.subrange(
                            below_at as int,
                            filled.len() as int,
                        )[j]);
                        assert(all_placed(filled.subrange(below_at as int, filled.len() as int))[j]
                            == below[j]);
                    }
                }
                assert(all_placed(whole_list) =~= target);
            }
        },
    }
    at
}

/// `listed` is the thread `fetched` laid out as a list, from position 0 on.
pub open spec fn is_listing(
    fetched: ThreadTreeResponse,
    listed: BlueskyApiGetThreadResponse<PostView>,
) -> bool {
    &&& listed.threadgate == fetched.threadgate
    &&& all_placed(listed.thread@) == laid_out(ThreadTree::ThreadView(fetched.thread), 0)
}

/// Lays a thread out as a list. The post that was asked for comes first.
pub fn lay_out(fetched: ThreadTreeResponse) -> (listed: BlueskyApiGetThreadResponse<PostView>)
    ensures
        is_listing(fetched, listed),
{
    let ThreadTreeResponse { thread, threadgate } = fetched;
    let mut nodes: Vec<ThreadPostVariant<PostView>> = Vec::new();
    let _ = lay_out_into(ThreadTree::ThreadView(thread), &mut nodes);
    proof {
        assert(nodes@.subrange(0, nodes@.len() as int) =~= nodes@);
    }
    BlueskyApiGetThreadResponse { thread: nodes, threadgate }
}

/// Every position that a node of `nodes` names lies between `low` and
/// `high`.
pub open spec fn positions_within(nodes: Seq<Placed>, low: int, high: int) -> bool {
    forall|i: int|
        0 <= i < nodes.len() ==> match #[trigger] nodes[i] {
            Placed::View { post, parent, replies } => {
                &&& parent matches Some(p) ==> low <= p < high
                &&& replies matches Some(list) ==> forall|k: int|
                    0 <= k < list.len() ==> low <= #[trigger] list[k] < high
            },
            _ => true,
        }
}

/// A thread that is laid out names only its own nodes: every position
/// that one of its nodes gives for its parent or for a reply is the
/// position of a node of the same layout. So whatever can be reached from
/// a node of the list is in the list.
pub proof fn law_layout_is_closed(tree: ThreadTree, at: int)
    ensures
        laid_out(tree, at).len() >= 1,
        positions_within(laid_out(tree, at), at, at + laid_out(tree, at).len()),
    decreases tree,
{
    match tree {
        ThreadTree::ThreadView(view) => {
            let above = match view.parent {
                Some(parent) => laid_out(*parent, at + 1),
                None => Seq::empty(),
            };
            let below_at = at + 1 + above.len();
            let below = match view.replies {
                Some(list) => forest_laid_out(list@, below_at),
                None => Seq::empty(),
            };
            let high = at + 1 + above.len() + below.len();
            match view.parent {
                Some(parent) => {
                    law_layout_is_closed(*parent, at + 1);
                },
                None => {},
            }
            match view.replies {
                Some(list) => {
                    lemma_forest_is_closed(list@, below_at);
                },
                None => {},
            }
            let all = laid_out(tree, at);
            assert forall|i: int| 0 <= i < all.len() implies match #[trigger] all[i] {
                Placed::View { post, parent, replies } => {
                    &&& parent matches Some(p) ==> at <= p < high
                    &&& replies matches Some(list) ==> forall|k: int|
                        0 <= k < list.len() ==> at <= #[trigger] list[k] < high
                },
                _ => true,
            } by {
                if i == 0 {
                } else if i < 1 + above.len() {
                    assert(all[i] == above[i - 1]);
                } else {
                    assert(all[i] == below[i - 1 - above.len()]);
                }
            }
        },
        _ => {},
    }
}

/// A forest that is laid out names only its own nodes, and each of its
/// trees starts at a position of the layout.
pub proof fn lemma_forest_is_closed(list: Seq<ThreadTree>, at: int)
    ensures
        positions_within(forest_laid_out(list, at), at, at + forest_laid_out(list, at).len()),
        forest_positions(list, at).len() == list.len(),
        forall|k: int|
            0 <= k < list.len() ==> at <= #[trigger] forest_positions(list, at)[k] < at
                + forest_laid_out(list, at).len(),
    decreases list,
{
    if list.len() > 0 {
        let front = forest_laid_out(list.drop_last(), at);
        lemma_forest_is_closed(list.drop_last(), at);
        law_layout_is_closed(list.last(), at + front.len());
        let last = laid_out(list.last(), at + front.len());
        let all = forest_laid_out(list, at);
        let high = at + all.len();
        assert forall|i: int| 0 <= i < all.len() implies match #[trigger] all[i] {
            Placed::View { post, parent, replies } => {
                &&& parent matches Some(p) ==> at <= p < high
                &&& replies matches Some(list) ==> forall|k: int|
                    0 <= k < list.len() ==> at <= #[trigger] list[k] < high
            },
            _ => true,
        } by {
            if i < front.len() {
                assert(all[i] == front[i]);
            } else {
                assert(all[i] == last[i - front.len()]);
            }
        }
    }
}

/// The posts that the nodes hold, in the order of the nodes.
pub open spec fn placed_posts(nodes: Seq<Placed>) -> Seq<PostView>
    decreases nodes.len(),
{
    if nodes.len() == 0 {
        Seq::empty()
    } else {
        match nodes.last() {
            Placed::View { post, parent, replies } => placed_posts(nodes.drop_last()).push(post),
            _ => placed_posts(nodes.drop_last()),
        }
    }
}

/// The posts of a thread, depth first: the post of a node, then the posts
/// above it, then the posts of each reply with all that belongs to it.
pub open spec fn tree_posts(tree: ThreadTree) -> Seq<PostView>
    decreases tree,
{
    match tree {
        ThreadTree::ThreadView(view) => seq![view.post] + (match view.parent {
            Some(parent) => tree_posts(*parent),
            None => Seq::empty(),
        }) + (match view.replies {
            Some(list) => forest_posts(list@),
            None => Seq::empty(),
        }),
        _ => Seq::empty(),
    }
}

/// The posts of the trees of `list`, one tree after the other.
pub open spec fn forest_posts(list: Seq<ThreadTree>) -> Seq<PostView>
    decreases list,
{
    if list.len() == 0 {
        Seq::empty()
    } else {
        forest_posts(list.drop_last()) + tree_posts(list.last())
    }
}

/// The posts of two runs of nodes, one behind the other, are the posts of
/// the first followed by those of the second.
pub proof fn lemma_placed_posts_add(first: Seq<Placed>, second: Seq<Placed>)
    ensures
        placed_posts(first + second) == placed_posts(first) + placed_posts(second),
    decreases second.len(),
{
    if second.len() == 0 {
        assert(first + second =~= first);
        assert(placed_posts(first) + Seq::<PostView>::empty() =~= placed_posts(first));
    } else {
        let all = first + second;
        assert(all.drop_last() =~= first + second.drop_last());
        assert(all.last() == second.last());
        lemma_placed_posts_add(first, second.drop_last());
        match second.last() {
            Placed::View { post, parent, replies } => {
                assert(placed_posts(first) + placed_posts(second.drop_last()).push(post) =~= (
                placed_posts(first) + placed_posts(second.drop_last())).push(post));
            },
            _ => {},
        }
    }
}

/// The posts of a list of nodes are the posts of what the nodes hold.
pub proof fn lemma_thread_posts_placed(nodes: Seq<ThreadPostVariant<PostView>>)
    ensures
        thread_posts(nodes) == placed_posts(all_placed(nodes)),
    decreases nodes.len(),
{
    if nodes.len() > 0 {
        lemma_thread_posts_placed(nodes.drop_last());
        assert(all_placed(nodes).drop_last() =~= all_placed(nodes.drop_last()));
        assert(all_placed(nodes).last() == placed(nodes.last()));
    }
}

/// Laying a thread out keeps its posts, and puts them in depth-first
/// order.
pub proof fn law_layout_keeps_posts(tree: ThreadTree, at: int)
    ensures
        placed_posts(laid_out(tree, at)) == tree_posts(tree),
    decreases tree,
{
    match tree {
        ThreadTree::ThreadView(view) => {
            let above = match view.parent {
                Some(parent) => laid_out(*parent, at + 1),
                None => Seq::empty(),
            };
            let below_at = at + 1 + above.len();
            let below = match view.replies {
                Some(list) => forest_laid_out(list@, below_at),
                None => Seq::empty(),
            };
            match view.parent {
                Some(parent) => {
                    law_layout_keeps_posts(*parent, at + 1);
                },
                None => {},
            }
            match view.replies {
                Some(list) => {
                    lemma_forest_keeps_posts(list@, below_at);
                },
                None => {},
            }
            let all = laid_out(tree, at);
            let head = all[0];
            assert(all =~= (seq![head] + above) + below);
            lemma_placed_posts_add(seq![head] + above, below);
            lemma_placed_posts_add(seq![head], above);
            assert(head matches Placed::View { post, parent, replies } && post == view.post);
            assert(seq![head].last() == head);
            assert(seq![head].drop_last() =~= Seq::<Placed>::empty());
            assert(placed_posts(Seq::<Placed>::empty()) =~= Seq::<PostView>::empty());
            assert(placed_posts(seq![head]) =~= Seq::<PostView>::empty().push(view.post));
            assert(placed_posts(seq![head]) =~= seq![view.post]);
        },
        ThreadTree::NotFound(missing) => {
            assert(seq![Placed::NotFound(missing)].last() == Placed::NotFound(missing));
            assert(seq![Placed::NotFound(missing)].drop_last() =~= Seq::<Placed>::empty());
            assert(placed_posts(Seq::<Placed>::empty()) =~= Seq::<PostView>::empty());
        },
        ThreadTree::Blocked(blocked) => {
            assert(seq![Placed::Blocked(blocked)].last() == Placed::Blocked(blocked));
            assert(seq![Placed::Blocked(blocked)].drop_last() =~= Seq::<Placed>::empty());
            assert(placed_posts(Seq::<Placed>::empty()) =~= Seq::<PostView>::empty());
        },
    }
}

/// Laying a forest out keeps its posts, tree after tree.
pub proof fn lemma_forest_keeps_posts(list: Seq<ThreadTree>, at: int)
    ensures
        placed_posts(forest_laid_out(list, at)) == forest_posts(list),
    decreases list,
{
    if list.len() > 0 {
        let front = forest_laid_out(list.drop_last(), at);
        lemma_forest_keeps_posts(list.drop_last(), at);
        law_layout_keeps_posts(list.last(), at + front.len());
        lemma_placed_posts_add(front, laid_out(list.last(), at + front.len()));
    }
}

/// The posts of a thread that was laid out stand in the list in depth-first
/// order, none left out: so taking the posts of the list into the cache in
/// the order of the list takes in every post that the thread holds.
pub proof fn law_listing_holds_every_post(
    fetched: ThreadTreeResponse,
    listed: BlueskyApiGetThreadResponse<PostView>,
)
    requires
        is_listing(fetched, listed),
    ensures
        thread_posts(listed.thread@) == tree_posts(ThreadTree::ThreadView(fetched.thread)),
        positions_within(all_placed(listed.thread@), 0, listed.thread@.len() as int),
{
    lemma_thread_posts_placed(listed.thread@);
    law_layout_keeps_posts(ThreadTree::ThreadView(fetched.thread), 0);
    law_layout_is_closed(ThreadTree::ThreadView(fetched.thread), 0);
}

} // verus!
