//! Records that the client submits, and the scan that finds bare links in
//! the text of a post.

use crate::backend::{
    settle, settled, BlueskyApiError, ClientBackend, Decoded, HttpMethod, HttpRequest, RequestBody,
};
use crate::defs::feed::{Like, Post};
use crate::defs::richtext::{Facet, Feature, Index, Link};
use vstd::prelude::*;
use vstd::string::{StringExecFns, StringSliceAdditionalSpecFns};
use vstd::utf8::*;

verus! {

/// A record that the client submits.
#[derive(Debug)]
pub enum BlueskyApiRecord {
    Post(Post),
    Like(Like),
    Repost(Like),
}

#[derive(Debug, Clone)]
pub struct BlueskyApiCreateRecordResponseCommit {
    pub cid: String,
    pub rev: String,
}

/// What the service assigned to a record that it took in.
#[derive(Debug, Clone)]
pub struct BlueskyApiCreateRecordResponse {
    pub uri: String,
    pub cid: String,
    pub commit: Option<BlueskyApiCreateRecordResponseCommit>,
    pub validation_status: Option<String>,
}

#[derive(Debug, Clone)]
pub struct BlueskyApiDeleteRecordResponse {
    pub commit: Option<BlueskyApiCreateRecordResponseCommit>,
}

/// The body of the request that creates a record.
#[derive(Debug)]
pub struct CreateRecordRequest {
    pub repo: String,
    pub collection: String,
    pub record: BlueskyApiRecord,
}

/// The body of the request that deletes a record.
#[derive(Debug, Clone)]
pub struct DeleteRecordRequest {
    pub repo: String,
    pub collection: String,
    pub rkey: String,
}

/// The collection that a record goes into.
pub open spec fn collection_of(record: BlueskyApiRecord) -> Seq<char> {
    match record {
        BlueskyApiRecord::Post(_) => "app.bsky.feed.post"@,
        BlueskyApiRecord::Like(_) => "app.bsky.feed.like"@,
        BlueskyApiRecord::Repost(_) => "app.bsky.feed.repost"@,
    }
}

/// `prepared` is `record` made ready to be sent: a post that came without
/// facets has the links of its text as facets, and every other record is
/// as it came.
pub open spec fn is_prepared(record: BlueskyApiRecord, prepared: BlueskyApiRecord) -> bool {
    match record {
        BlueskyApiRecord::Post(post) => if post.facets is Some {
            prepared == record
        } else {
            &&& prepared matches BlueskyApiRecord::Post(sent)
            &&& sent == (Post { facets: sent.facets, ..post })
            &&& sent.facets matches Some(facets)
            &&& facets_match_spans(
                facets@,
                encode_utf8(post.text@),
                link_spans(encode_utf8(post.text@), 0),
            )
        },
        _ => prepared == record,
    }
}

/// The request that carries `body` to `url` as JSON, or the parse error
/// for a body that could not be written; such an error holds the writer's
/// complaint and an empty text.
pub open spec fn is_write_request(
    url: Seq<char>,
    body: Result<String, String>,
    result: Result<HttpRequest, BlueskyApiError>,
) -> bool {
    match body {
        Ok(json) => {
            &&& result matches Ok(request)
            &&& request.method == HttpMethod::Post
            &&& request.url@ == url
            &&& request.bearer is None
            &&& request.content_type matches Some(t) && t@ == "application/json"@
            &&& request.body == RequestBody::Json(json)
        },
        Err(detail) => {
            &&& result matches Err(BlueskyApiError::ParseError(d, raw))
            &&& d == detail
            &&& raw@ == Seq::<char>::empty()
        },
    }
}

/// The bytes of `https://`.
pub open spec fn https_prefix() -> Seq<u8> {
    seq![0x68u8, 0x74u8, 0x74u8, 0x70u8, 0x73u8, 0x3au8, 0x2fu8, 0x2fu8]
}

/// The bytes of `http://`.
pub open spec fn http_prefix() -> Seq<u8> {
    seq![0x68u8, 0x74u8, 0x74u8, 0x70u8, 0x3au8, 0x2fu8, 0x2fu8]
}

/// The bytes of `steam://`.
pub open spec fn steam_prefix() -> Seq<u8> {
    seq![0x73u8, 0x74u8, 0x65u8, 0x61u8, 0x6du8, 0x3au8, 0x2fu8, 0x2fu8]
}

/// `pat` occurs in `bytes` at offset `at`.
pub open spec fn occurs_at(bytes: Seq<u8>, at: int, pat: Seq<u8>) -> bool {
    &&& 0 <= at
    &&& at + pat.len() <= bytes.len()
    &&& bytes.subrange(at, at + pat.len()) == pat
}

/// One of the recognised scheme prefixes starts at offset `at`.
pub open spec fn scheme_at(bytes: Seq<u8>, at: int) -> bool {
    occurs_at(bytes, at, https_prefix()) || occurs_at(bytes, at, http_prefix()) || occurs_at(
        bytes,
        at,
        steam_prefix(),
    )
}

/// A byte that ends a link: space, `)`, NUL or line feed.
pub open spec fn is_delimiter(b: u8) -> bool {
    b == 0x20 || b == 0x29 || b == 0x00 || b == 0x0a
}

/// Offset of the first scheme prefix at or after `from`, if there is one.
pub open spec fn next_scheme(bytes: Seq<u8>, from: int) -> Option<int>
    decreases bytes.len() - from,
{
    if from < 0 || from >= bytes.len() {
        None
    } else if scheme_at(bytes, from) {
        Some(from)
    } else {
        next_scheme(bytes, from + 1)
    }
}

/// Offset of the first delimiter at or after `from`, or the length of the
/// text when no delimiter follows.
pub open spec fn span_end(bytes: Seq<u8>, from: int) -> int
    decreases bytes.len() - from,
{
    if from < 0 || from >= bytes.len() {
        bytes.len() as int
    } else if is_delimiter(bytes[from]) {
        from
    } else {
        span_end(bytes, from + 1)
    }
}

/// The link spans found when scanning `bytes` from offset `from`: the first
/// scheme prefix opens a span that runs to the next delimiter, and the scan
/// goes on from the end of that span.
pub open spec fn link_spans(bytes: Seq<u8>, from: int) -> Seq<(int, int)>
    decreases bytes.len() - from,
{
    match next_scheme(bytes, from) {
        None => Seq::empty(),
        Some(start) => {
            let end = span_end(bytes, start);
            if from <= start < end <= bytes.len() {
                seq![(start, end)] + link_spans(bytes, end)
            } else {
                Seq::empty()
            }
        },
    }
}

/// `facet` is the link facet for the span `[start, end)` of `bytes`.
pub open spec fn is_link_facet(facet: Facet, bytes: Seq<u8>, start: int, end: int) -> bool {
    &&& facet.index.byte_start == start
    &&& facet.index.byte_end == end
    &&& facet.features.len() == 1
    &&& facet.features[0] is Link
    &&& encode_utf8(facet.features[0]->Link_0.uri@) == bytes.subrange(start, end)
}

/// `facets` are the link facets of `spans`, one for one and in order.
pub open spec fn facets_match_spans(
    facets: Seq<Facet>,
    bytes: Seq<u8>,
    spans: Seq<(int, int)>,
) -> bool {
    &&& facets.len() == spans.len()
    &&& forall|i: int|
        0 <= i < facets.len() ==> is_link_facet(#[trigger] facets[i], bytes, spans[i].0, spans[i].1)
}

/// What `next_scheme` finds is a scheme start, and no scheme starts between
/// `from` and it; when it finds nothing, no scheme starts at or after `from`.
pub proof fn lemma_next_scheme(bytes: Seq<u8>, from: int)
    requires
        0 <= from,
    ensures
        match next_scheme(bytes, from) {
            Some(start) => from <= start < bytes.len() && scheme_at(bytes, start) && forall|p: int|
                from <= p < start ==> !scheme_at(bytes, p),
            None => forall|p: int| from <= p ==> !scheme_at(bytes, p),
        },
    decreases bytes.len() - from,
{
    if from < bytes.len() && !scheme_at(bytes, from) {
        lemma_next_scheme(bytes, from + 1);
    }
}

/// `span_end` is at a delimiter or at the end of the text, and no delimiter
/// stands between `from` and it.
pub proof fn lemma_span_end(bytes: Seq<u8>, from: int)
    requires
        0 <= from <= bytes.len(),
    ensures
        from <= span_end(bytes, from) <= bytes.len(),
        span_end(bytes, from) < bytes.len() ==> is_delimiter(bytes[span_end(bytes, from)]),
        forall|p: int| from <= p < span_end(bytes, from) ==> !is_delimiter(#[trigger] bytes[p]),
    decreases bytes.len() - from,
{
    if from < bytes.len() && !is_delimiter(bytes[from]) {
        lemma_span_end(bytes, from + 1);
    }
}

/// A span that opens at a scheme prefix runs at least to the end of that
/// prefix: no byte of a prefix is a delimiter.
pub proof fn lemma_span_covers_scheme(bytes: Seq<u8>, start: int)
    requires
        scheme_at(bytes, start),
    ensures
        start + 7 <= span_end(bytes, start) <= bytes.len(),
{
    lemma_span_end(bytes, start);
    let end = span_end(bytes, start);
    if end < start + 7 {
        let k = end - start;
        assert(is_delimiter(bytes[end]));
        if occurs_at(bytes, start, https_prefix()) {
            assert(bytes.subrange(start, start + 8)[k] == https_prefix()[k]);
        } else if occurs_at(bytes, start, http_prefix()) {
            assert(bytes.subrange(start, start + 7)[k] == http_prefix()[k]);
        } else {
            assert(bytes.subrange(start, start + 8)[k] == steam_prefix()[k]);
        }
    }
}

/// One of `spans` holds the offset `p`.
pub open spec fn holds_place(spans: Seq<(int, int)>, p: int) -> bool {
    exists|i: int| 0 <= i < spans.len() && (#[trigger] spans[i]).0 <= p < spans[i].1
}

/// `spans` are links of `bytes` that lie at or after `from`, one after the
/// other without overlap, and between them they hold every place at or
/// after `from` where a scheme prefix starts: each span opens at a scheme
/// prefix and runs to the next delimiter or to the end of the text.
pub open spec fn covers_links(bytes: Seq<u8>, from: int, spans: Seq<(int, int)>) -> bool {
    &&& forall|i: int|
        0 <= i < spans.len() ==> from <= (#[trigger] spans[i]).0 && scheme_at(bytes, spans[i].0)
            && spans[i].1 == span_end(bytes, spans[i].0)
    &&& forall|i: int, j: int|
        0 <= i < j < spans.len() ==> (#[trigger] spans[i]).1 <= (#[trigger] spans[j]).0
    &&& forall|p: int| from <= p && scheme_at(bytes, p) ==> #[trigger] holds_place(spans, p)
}

/// The scan finds links that lie one after the other without overlap and
/// that hold every scheme prefix of the text: it never looks again at a
/// byte before the end of the link it found last.
pub proof fn law_scan_covers_links(bytes: Seq<u8>, from: int)
    requires
        0 <= from,
    ensures
        covers_links(bytes, from, link_spans(bytes, from)),
    decreases bytes.len() - from,
{
    lemma_next_scheme(bytes, from);
    let spans = link_spans(bytes, from);
    match next_scheme(bytes, from) {
        None => {},
        Some(start) => {
            lemma_span_covers_scheme(bytes, start);
            let end = span_end(bytes, start);
            let rest = link_spans(bytes, end);
            law_scan_covers_links(bytes, end);
            assert(spans == seq![(start, end)] + rest);
            assert forall|i: int| 0 <= i < spans.len() implies from <= (#[trigger] spans[i]).0
                && scheme_at(bytes, spans[i].0) && spans[i].1 == span_end(bytes, spans[i].0) by {
                if i > 0 {
                    assert(spans[i] == rest[i - 1]);
                }
            }
            assert forall|i: int, j: int| 0 <= i < j < spans.len() implies (#[trigger] spans[i]).1
                <= (#[trigger] spans[j]).0 by {
                assert(spans[j] == rest[j - 1]);
                if i > 0 {
                    assert(spans[i] == rest[i - 1]);
                }
            }
            assert forall|p: int| from <= p && scheme_at(bytes, p) implies #[trigger] holds_place(
                spans,
                p,
            ) by {
                if p < end {
                    assert(spans[0].0 <= p < spans[0].1);
                } else {
                    assert(holds_place(rest, p));
                    let k = choose|k: int| 0 <= k < rest.len() && (#[trigger] rest[k]).0 <= p < rest[k].1;
                    assert(spans[k + 1] == rest[k]);
                    assert(spans[k + 1].0 <= p < spans[k + 1].1);
                }
            }
        },
    }
}

/// The first span of a cover opens at the first scheme prefix.
proof fn lemma_cover_first(bytes: Seq<u8>, from: int, spans: Seq<(int, int)>, start: int)
    requires
        0 <= from,
        covers_links(bytes, from, spans),
        next_scheme(bytes, from) == Some(start),
    ensures
        spans.len() > 0,
        spans[0] == (start, span_end(bytes, start)),
{
    lemma_next_scheme(bytes, from);
    assert(scheme_at(bytes, start));
    assert(holds_place(spans, start));
    let j = choose|j: int| 0 <= j < spans.len() && (#[trigger] spans[j]).0 <= start < spans[j].1;
    assert(spans[j].0 == start);
    if j > 0 {
        lemma_span_covers_scheme(bytes, spans[0].0);
        assert(spans[0].1 <= spans[j].0);
    }
}

/// What follows the first span of a cover is a cover of what follows its
/// end.
proof fn lemma_cover_rest(bytes: Seq<u8>, from: int, spans: Seq<(int, int)>)
    requires
        covers_links(bytes, from, spans),
        spans.len() > 0,
        from <= spans[0].1,
    ensures
        covers_links(bytes, spans[0].1, spans.subrange(1, spans.len() as int)),
{
    let end = spans[0].1;
    let rest = spans.subrange(1, spans.len() as int);
    assert forall|i: int| 0 <= i < rest.len() implies end <= (#[trigger] rest[i]).0 && scheme_at(
        bytes,
        rest[i].0,
    ) && rest[i].1 == span_end(bytes, rest[i].0) by {
        assert(rest[i] == spans[i + 1]);
        assert(spans[0].1 <= spans[i + 1].0);
    }
    assert forall|a: int, b: int| 0 <= a < b < rest.len() implies (#[trigger] rest[a]).1 <= (
    #[trigger] rest[b]).0 by {
        assert(rest[a] == spans[a + 1] && rest[b] == spans[b + 1]);
        assert(spans[a + 1].1 <= spans[b + 1].0);
    }
    assert forall|p: int| end <= p && scheme_at(bytes, p) implies #[trigger] holds_place(
        rest,
        p,
    ) by {
        assert(holds_place(spans, p));
        let k = choose|k: int| 0 <= k < spans.len() && (#[trigger] spans[k]).0 <= p < spans[k].1;
        assert(k > 0);
        assert(rest[k - 1] == spans[k]);
        assert(rest[k - 1].0 <= p < rest[k - 1].1);
    }
}

/// A text that holds `k` links, one after the other without overlap and
/// with no scheme prefix outside them, has exactly these `k` links found
/// by the scan, with exactly their bounds.
pub proof fn law_scan_finds_exactly(bytes: Seq<u8>, from: int, spans: Seq<(int, int)>)
    requires
        0 <= from,
        covers_links(bytes, from, spans),
    ensures
        link_spans(bytes, from) == spans,
    decreases bytes.len() - from,
{
    lemma_next_scheme(bytes, from);
    match next_scheme(bytes, from) {
        None => {
            if spans.len() > 0 {
                assert(from <= spans[0].0 && scheme_at(bytes, spans[0].0));
            }
            assert(spans =~= Seq::empty());
        },
        Some(start) => {
            lemma_span_covers_scheme(bytes, start);
            lemma_cover_first(bytes, from, spans, start);
            lemma_cover_rest(bytes, from, spans);
            let end = span_end(bytes, start);
            let rest = spans.subrange(1, spans.len() as int);
            law_scan_finds_exactly(bytes, end, rest);
            assert(spans =~= seq![(start, end)] + rest);
        },
    }
}

fn byte_at(bytes: &[u8], i: usize, want: u8) -> (r: bool)
    ensures
        r == (i < bytes@.len() && bytes@[i as int] == want),
{
    i < bytes.len() && bytes[i] == want
}

fn has_scheme_at(bytes: &[u8], at: usize) -> (r: bool)
    ensures
        r == scheme_at(bytes@, at as int),
{
    let n = bytes.len();
    if n < 7 || at > n - 7 {
        return false;
    }
    let colon_slashes_at_4 = bytes[at + 4] == 0x3a && bytes[at + 5] == 0x2f && bytes[at + 6]
        == 0x2f;
    let colon_slashes_at_5 = byte_at(bytes, at + 5, 0x3a) && byte_at(bytes, at + 6, 0x2f)
        && byte_at(bytes, at + 7, 0x2f);
    let http = bytes[at] == 0x68 && bytes[at + 1] == 0x74 && bytes[at + 2] == 0x74 && bytes[at
        + 3] == 0x70;
    let steam = bytes[at] == 0x73 && bytes[at + 1] == 0x74 && bytes[at + 2] == 0x65 && bytes[at
        + 3] == 0x61 && bytes[at + 4] == 0x6d;
    let r = (http && colon_slashes_at_4) || (http && bytes[at + 4] == 0x73 && colon_slashes_at_5)
        || (steam && colon_slashes_at_5);
    proof {
        let b = bytes@;
        let a = at as int;
        if a + 8 <= b.len() {
            let w = b.subrange(a, a + 8);
            assert(forall|k: int| 0 <= k < 8 ==> w[k] == b[a + k]);
            if http && bytes[at as int + 4] == 0x73 && colon_slashes_at_5 {
                assert(w =~= https_prefix());
            }
            if steam && colon_slashes_at_5 {
                assert(w =~= steam_prefix());
            }
            if w == https_prefix() {
                assert(forall|k: int| 0 <= k < 8 ==> b[a + k] == https_prefix()[k]);
                assert(b[a + 0] == 0x68 && b[a + 1] == 0x74 && b[a + 2] == 0x74 && b[a + 3] == 0x70
                    && b[a + 4] == 0x73 && b[a + 5] == 0x3a && b[a + 6] == 0x2f && b[a + 7]
                    == 0x2f);
            }
            if w == steam_prefix() {
                assert(forall|k: int| 0 <= k < 8 ==> b[a + k] == steam_prefix()[k]);
                assert(b[a + 0] == 0x73 && b[a + 1] == 0x74 && b[a + 2] == 0x65 && b[a + 3] == 0x61
                    && b[a + 4] == 0x6d && b[a + 5] == 0x3a && b[a + 6] == 0x2f && b[a + 7]
                    == 0x2f);
            }
        }
        let v = b.subrange(a, a + 7);
        assert(forall|k: int| 0 <= k < 7 ==> v[k] == b[a + k]);
        if http && colon_slashes_at_4 {
            assert(v =~= http_prefix());
        }
        if v == http_prefix() {
            assert(forall|k: int| 0 <= k < 7 ==> b[a + k] == http_prefix()[k]);
            assert(b[a + 0] == 0x68 && b[a + 1] == 0x74 && b[a + 2] == 0x74 && b[a + 3] == 0x70
                && b[a + 4] == 0x3a && b[a + 5] == 0x2f && b[a + 6] == 0x2f);
        }
    }
    r
}

fn find_scheme(bytes: &[u8], from: usize) -> (r: Option<usize>)
    ensures
        match r {
            Some(start) => next_scheme(bytes@, from as int) == Some(start as int),
            None => next_scheme(bytes@, from as int) is None,
        },
{
    let n = bytes.len();
    let mut i: usize = from;
    while i < n
        invariant
            from <= i,
            n == bytes@.len(),
            next_scheme(bytes@, from as int) == next_scheme(bytes@, i as int),
        decreases n - i,
    {
        if has_scheme_at(bytes, i) {
            return Some(i);
        }
        i = i + 1;
    }
    None
}

fn find_span_end(bytes: &[u8], from: usize) -> (r: usize)
    requires
        from <= bytes@.len(),
    ensures
        r == span_end(bytes@, from as int),
{
    let n = bytes.len();
    let mut i: usize = from;
    while i < n
        invariant
            from <= i <= n,
            n == bytes@.len(),
            span_end(bytes@, from as int) == span_end(bytes@, i as int),
        decreases n - i,
    {
        let b: u8 = bytes[i];
        if b == 0x20 || b == 0x29 || b == 0x00 || b == 0x0a {
            return i;
        }
        i = i + 1;
    }
    n
}

/// In valid UTF-8, an offset that holds a one-byte character, or that is the
/// length of the text, is a character boundary.
proof fn lemma_ascii_or_end_is_boundary(bytes: Seq<u8>, at: int)
    requires
        valid_utf8(bytes),
        0 <= at <= bytes.len(),
        at < bytes.len() ==> bytes[at] < 0x80,
    ensures
        is_char_boundary(bytes, at),
{
    if at < bytes.len() {
        is_char_boundary_iff_not_is_continuation_byte(bytes, at);
    } else {
        is_char_boundary_start_end_of_seq(bytes);
    }
}

/// The text between two byte offsets, each of which stands at the start of
/// a one-byte character or at the end of the text.
fn slice_between(text: &str, start: usize, end: usize) -> (r: String)
    requires
        start <= end <= text.spec_bytes().len(),
        start < text.spec_bytes().len() ==> text.spec_bytes()[start as int] < 0x80,
        end < text.spec_bytes().len() ==> text.spec_bytes()[end as int] < 0x80,
    ensures
        encode_utf8(r@) == text.spec_bytes().subrange(start as int, end as int),
{
    let ghost bytes = text.spec_bytes();
    proof {
        encode_utf8_valid_utf8(text@);
        lemma_ascii_or_end_is_boundary(bytes, end as int);
    }
    let (head, _) = text.split_at(end);
    let ghost head_bytes = head.spec_bytes();
    proof {
        encode_utf8_valid_utf8(head@);
        assert(head_bytes =~= bytes.subrange(0, end as int));
        lemma_ascii_or_end_is_boundary(head_bytes, start as int);
    }
    let (_, middle) = head.split_at(start);
    assert(middle.spec_bytes() =~= bytes.subrange(start as int, end as int));
    let r = middle.to_owned();
    r
}

/// Finds the bare links in `text`.
///
/// The scan runs left to right. At each step it looks for the first
/// `https://`, `http://` or `steam://` at or after the end of the previous
/// link; the link runs from there to the next space, `)`, NUL or line feed,
/// or to the end of the text. Each link yields one facet with a single
/// `Link` feature whose `uri` is the covered text, and whose index holds the
/// byte offsets of the span.
pub fn link_detector(text: String) -> (facets: Vec<Facet>)
    ensures
        facets_match_spans(facets@, encode_utf8(text@), link_spans(encode_utf8(text@), 0)),
{
    let s: &str = text.as_str();
    let bytes: &[u8] = s.as_bytes();
    let n = bytes.len();
    let mut facets: Vec<Facet> = Vec::new();
    let mut pos: usize = 0;
    let ghost mut done: Seq<(int, int)> = Seq::empty();
    loop
        invariant
            bytes@ == encode_utf8(text@),
            bytes@ == s.spec_bytes(),
            n == bytes@.len(),
            pos <= n,
            link_spans(bytes@, 0) == done + link_spans(bytes@, pos as int),
            facets_match_spans(facets@, bytes@, done),
        ensures
            link_spans(bytes@, 0) == done,
        decreases n - pos,
    {
        let found = find_scheme(bytes, pos);
        let start: usize = match found {
            Some(start) => start,
            None => {
                assert(link_spans(bytes@, pos as int) =~= Seq::empty());
                assert(done + Seq::<(int, int)>::empty() =~= done);
                break ;
            },
        };
        proof {
            lemma_next_scheme(bytes@, pos as int);
            lemma_span_covers_scheme(bytes@, start as int);
            lemma_span_end(bytes@, start as int);
            lemma_scheme_starts_ascii(bytes@, start as int);
        }
        let end = find_span_end(bytes, start);
        let uri = slice_between(s, start, end);
        let mut features: Vec<Feature> = Vec::new();
        features.push(Feature::Link(Link { uri }));
        let facet = Facet { features, index: Index { byte_start: start, byte_end: end } };
        proof {
            let span = (start as int, end as int);
            assert(link_spans(bytes@, pos as int) == seq![span] + link_spans(bytes@, end as int));
            assert(done + (seq![span] + link_spans(bytes@, end as int)) =~= done.push(span)
                + link_spans(bytes@, end as int));
            assert(is_link_facet(facet, bytes@, span.0, span.1));
            done = done.push(span);
        }
        facets.push(facet);
        pos = end;
    }
    facets
}

/// The first byte of a scheme prefix is a one-byte character.
proof fn lemma_scheme_starts_ascii(bytes: Seq<u8>, start: int)
    requires
        scheme_at(bytes, start),
    ensures
        bytes[start] < 0x80,
{
    if occurs_at(bytes, start, https_prefix()) {
        assert(bytes.subrange(start, start + 8)[0] == https_prefix()[0]);
    } else if occurs_at(bytes, start, http_prefix()) {
        assert(bytes.subrange(start, start + 7)[0] == http_prefix()[0]);
    } else {
        assert(bytes.subrange(start, start + 8)[0] == steam_prefix()[0]);
    }
}

fn write_request(url: String, body: Result<String, String>) -> (result: Result<
    HttpRequest,
    BlueskyApiError,
>)
    ensures
        is_write_request(url@, body, result),
{
    match body {
        Ok(json) => Ok(
            HttpRequest {
                method: HttpMethod::Post,
                url,
                bearer: None,
                content_type: Some(String::from_str("application/json")),
                body: RequestBody::Json(json),
            },
        ),
        Err(detail) => Err(BlueskyApiError::ParseError(detail, String::new())),
    }
}

impl ClientBackend {
    /// Makes `record` ready to be sent, and says where it goes.
    ///
    /// The collection follows from the kind of record. A post that comes
    /// without facets gets the links of its text as facets, which may be
    /// none; a post that comes with facets keeps them.
    pub fn create_record_body(&self, record: BlueskyApiRecord) -> (body: CreateRecordRequest)
        ensures
            body.repo == self.session().did,
            body.collection@ == collection_of(record),
            is_prepared(record, body.record),
    {
        let (nsid, record) = match record {
            BlueskyApiRecord::Post(post) => {
                let post = if post.facets.is_some() {
                    post
                } else {
                    let Post { text, created_at, facets: _, reply, embed, langs, labels, tags } = post;
                    let facets = link_detector(text.clone());
                    Post { text, created_at, facets: Some(facets), reply, embed, langs, labels, tags }
                };
                ("app.bsky.feed.post", BlueskyApiRecord::Post(post))
            },
            BlueskyApiRecord::Like(like) => ("app.bsky.feed.like", BlueskyApiRecord::Like(like)),
            BlueskyApiRecord::Repost(like) => (
                "app.bsky.feed.repost",
                BlueskyApiRecord::Repost(like),
            ),
        };
        CreateRecordRequest {
            repo: self.session.did.clone(),
            collection: String::from_str(nsid),
            record,
        }
    }

    /// The request that creates a record. `body` is the body written as
    /// JSON, or the writer's complaint.
    pub fn create_record_request(&self, body: Result<String, String>) -> (result: Result<
        HttpRequest,
        BlueskyApiError,
    >)
        ensures
            is_write_request(
                self.session().user_pds@ + "/xrpc/com.atproto.repo.createRecord"@,
                body,
                result,
            ),
    {
        write_request(self.user_url("/xrpc/com.atproto.repo.createRecord"), body)
    }

    /// Ends the creation of a record: what the service assigned to it.
    pub fn create_record(
        &self,
        reply: Result<Decoded<BlueskyApiCreateRecordResponse>, BlueskyApiError>,
    ) -> (result: Result<BlueskyApiCreateRecordResponse, BlueskyApiError>)
        ensures
            result == settled(reply),
    {
        settle(reply)
    }

    /// The body of the request that deletes the record `rkey` of the
    /// collection `nsid`.
    pub fn delete_record_body(&self, rkey: String, nsid: String) -> (body: DeleteRecordRequest)
        ensures
            body.repo == self.session().did,
            body.collection == nsid,
            body.rkey == rkey,
    {
        DeleteRecordRequest { repo: self.session.did.clone(), collection: nsid, rkey }
    }

    /// The request that deletes a record. `body` is the body written as
    /// JSON, or the writer's complaint.
    pub fn delete_record_request(&self, body: Result<String, String>) -> (result: Result<
        HttpRequest,
        BlueskyApiError,
    >)
        ensures
            is_write_request(
                self.session().user_pds@ + "/xrpc/com.atproto.repo.deleteRecord"@,
                body,
                result,
            ),
    {
        write_request(self.user_url("/xrpc/com.atproto.repo.deleteRecord"), body)
    }

    /// Ends the deletion of a record.
    pub fn delete_record(
        &self,
        reply: Result<Decoded<BlueskyApiDeleteRecordResponse>, BlueskyApiError>,
    ) -> (result: Result<BlueskyApiDeleteRecordResponse, BlueskyApiError>)
        ensures
            result == settled(reply),
    {
        settle(reply)
    }
}

} // verus!
