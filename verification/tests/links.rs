use skysync::backend::record::link_detector;
use skysync::defs::richtext::{sort_facets, Facet, Feature, Index, Link, Mention, Tag};

fn uri_of(facet: &Facet) -> String {
    assert_eq!(facet.features.len(), 1);
    match &facet.features[0] {
        Feature::Link(link) => link.uri.clone(),
        other => panic!("not a link: {:?}", other),
    }
}

fn spans(text: &str) -> Vec<(usize, usize, String)> {
    link_detector(text.to_string())
        .iter()
        .map(|f| (f.index.byte_start, f.index.byte_end, uri_of(f)))
        .collect()
}

#[test]
fn two_links_are_found_with_their_spans() {
    let text = "see https://a.example and http://b.example!";
    let facets = link_detector(text.to_string());
    assert_eq!(facets.len(), 2);
    assert_eq!(facets[0].index.byte_start, 4);
    assert_eq!(facets[0].index.byte_end, 21);
    assert_eq!(uri_of(&facets[0]), "https://a.example");
    assert_eq!(facets[1].index.byte_start, 26);
    assert_eq!(facets[1].index.byte_end, 43);
    assert_eq!(uri_of(&facets[1]), "http://b.example!");
    for facet in &facets {
        assert_eq!(&text[facet.index.byte_start..facet.index.byte_end], uri_of(facet));
    }
}

#[test]
fn text_without_scheme_has_no_links() {
    assert_eq!(link_detector("nothing to see here".to_string()).len(), 0);
    assert_eq!(link_detector(String::new()).len(), 0);
    assert_eq!(link_detector("http:/ and https:// is short".to_string()).len(), 1);
    assert_eq!(link_detector("ttps://x ftp://y".to_string()).len(), 0);
}

#[test]
fn each_delimiter_ends_a_link() {
    assert_eq!(spans("https://a b"), vec![(0, 9, "https://a".to_string())]);
    assert_eq!(spans("(https://a)"), vec![(1, 10, "https://a".to_string())]);
    assert_eq!(spans("https://a\nb"), vec![(0, 9, "https://a".to_string())]);
    assert_eq!(spans("https://a\0b"), vec![(0, 9, "https://a".to_string())]);
    assert_eq!(spans("https://a\tb,c"), vec![(0, 13, "https://a\tb,c".to_string())]);
}

#[test]
fn a_link_at_the_end_runs_to_the_end() {
    assert_eq!(spans("go to steam://run/1"), vec![(6, 19, "steam://run/1".to_string())]);
    assert_eq!(spans("http://"), vec![(0, 7, "http://".to_string())]);
}

#[test]
fn links_are_found_in_the_order_of_the_text() {
    assert_eq!(
        spans("http://a https://b steam://c"),
        vec![
            (0, 8, "http://a".to_string()),
            (9, 18, "https://b".to_string()),
            (19, 28, "steam://c".to_string()),
        ]
    );
}

#[test]
fn a_scheme_inside_a_link_opens_no_second_link() {
    assert_eq!(
        spans("https://a/http://b c"),
        vec![(0, 18, "https://a/http://b".to_string())]
    );
}

#[test]
fn offsets_count_bytes_not_characters() {
    let text = "h\u{e9}llo \u{1f600} https://\u{e9}.example/\u{1f600} end";
    let found = spans(text);
    assert_eq!(found.len(), 1);
    let (start, end, uri) = found[0].clone();
    assert_eq!(start, 12);
    assert_eq!(end, 35);
    assert_eq!(uri, "https://\u{e9}.example/\u{1f600}");
    assert_eq!(&text[start..end], uri);
}

#[test]
fn links_never_overlap_and_never_go_back() {
    let text = "a https://x) b http://y\nsteam://z https://w";
    let facets = link_detector(text.to_string());
    assert_eq!(facets.len(), 4);
    let mut last_end = 0;
    for facet in &facets {
        assert!(facet.index.byte_start >= last_end);
        assert!(facet.index.byte_end > facet.index.byte_start);
        last_end = facet.index.byte_end;
    }
}

fn facet(start: usize, end: usize, name: &str) -> Facet {
    Facet {
        features: vec![Feature::Tag(Tag { tag: name.to_string() })],
        index: Index { byte_start: start, byte_end: end },
    }
}

fn tag_of(facet: &Facet) -> String {
    match &facet.features[0] {
        Feature::Tag(tag) => tag.tag.clone(),
        other => panic!("not a tag: {:?}", other),
    }
}

#[test]
fn facets_are_sorted_by_start_and_equal_starts_keep_their_order() {
    let sorted = sort_facets(vec![
        facet(9, 12, "a"),
        facet(3, 5, "b"),
        facet(9, 10, "c"),
        facet(0, 2, "d"),
        facet(3, 4, "e"),
    ]);
    let names: Vec<String> = sorted.iter().map(tag_of).collect();
    assert_eq!(names, vec!["d", "b", "e", "a", "c"]);
    let starts: Vec<usize> = sorted.iter().map(|f| f.index.byte_start).collect();
    assert_eq!(starts, vec![0, 3, 3, 9, 9]);
    assert_eq!(sort_facets(Vec::new()).len(), 0);
}

#[test]
fn features_hold_what_they_are_given() {
    let mention = Feature::Mention(Mention { did: "did:plc:abc".to_string() });
    let link = Feature::Link(Link { uri: "https://x".to_string() });
    assert!(matches!(mention, Feature::Mention(m) if m.did == "did:plc:abc"));
    assert!(matches!(link, Feature::Link(l) if l.uri == "https://x"));
}
