// The pagination engine driven over concrete waves: completeness over K
// pages, independence of entities with different page counts, and the
// alias round trip back to original keys.

use vodbot::batch::{BatchQuery, Fragment, WavePage};
use vodbot::twitch::collapse_tokens;
use vodbot::vodbot_api::PlaybackAccessToken;

fn keys(v: &[&str]) -> Vec<String> {
    v.iter().map(|s| s.to_string()).collect()
}

fn page(records: &[&str], has_next: bool, cursor: &str) -> WavePage<String> {
    WavePage {
        records: records.iter().map(|s| s.to_string()).collect(),
        has_next,
        cursor: cursor.to_string(),
    }
}

#[test]
fn sanitize_alias_replaces_hyphens() {
    assert_eq!(vodbot::batch::sanitize_alias("chan-a"), "_chan_a");
    assert_eq!(vodbot::batch::sanitize_alias("plain"), "_plain");
    assert_eq!(vodbot::batch::sanitize_alias(""), "_");
}

#[test]
fn pagination_completeness_three_pages() {
    // one entity, three remote pages: exactly three waves, records in
    // first-to-last page order
    let mut q = BatchQuery::<String>::new(&keys(&["chan"]));

    let f1 = q.wave_fragments();
    assert_eq!(f1.len(), 1);
    assert_eq!(f1[0].alias, "_chan");
    assert_eq!(f1[0].id, "chan");
    assert_eq!(f1[0].after, "");
    q.apply_wave(vec![("_chan".to_string(), Some(page(&["a", "b"], true, "c1")))]);

    let f2 = q.wave_fragments();
    assert_eq!(f2.len(), 1);
    assert_eq!(f2[0].after, "c1");
    q.apply_wave(vec![("_chan".to_string(), Some(page(&["c"], true, "c2")))]);

    let f3 = q.wave_fragments();
    assert_eq!(f3.len(), 1);
    assert_eq!(f3[0].after, "c2");
    q.apply_wave(vec![("_chan".to_string(), Some(page(&["d", "e"], false, "c3")))]);

    assert!(!q.has_pending());
    assert_eq!(q.wave_fragments().len(), 0);

    let results = q.finish();
    assert_eq!(results.len(), 1);
    assert_eq!(results[0].0, "chan");
    assert_eq!(results[0].1, vec!["a", "b", "c", "d", "e"]);
}

#[test]
fn cross_entity_independence() {
    // one entity with 1 page, one with 3: waves 2 and 3 carry no fragment
    // for the short one
    let mut q = BatchQuery::<String>::new(&keys(&["short", "long"]));

    let f1 = q.wave_fragments();
    assert_eq!(f1.len(), 2);
    q.apply_wave(vec![
        ("_short".to_string(), Some(page(&["s1"], false, ""))),
        ("_long".to_string(), Some(page(&["l1"], true, "x1"))),
    ]);

    let f2 = q.wave_fragments();
    assert_eq!(f2.len(), 1);
    assert_eq!(f2[0].alias, "_long");
    q.apply_wave(vec![("_long".to_string(), Some(page(&["l2"], true, "x2")))]);

    let f3 = q.wave_fragments();
    assert_eq!(f3.len(), 1);
    assert_eq!(f3[0].alias, "_long");
    q.apply_wave(vec![("_long".to_string(), Some(page(&["l3"], false, "x3")))]);

    assert!(!q.has_pending());
    let results = q.finish();
    assert_eq!(results[0].0, "short");
    assert_eq!(results[0].1, vec!["s1"]);
    assert_eq!(results[1].0, "long");
    assert_eq!(results[1].1, vec!["l1", "l2", "l3"]);
}

#[test]
fn alias_round_trip_for_hyphenated_key() {
    // a key that is illegal as an alias comes back unchanged as the result key
    let mut q = BatchQuery::<String>::new(&keys(&["some-channel"]));
    let f = q.wave_fragments();
    assert_eq!(f[0].alias, "_some_channel");
    q.apply_wave(vec![("_some_channel".to_string(), Some(page(&["r"], false, "")))]);
    let results = q.finish();
    assert_eq!(results[0].0, "some-channel");
    assert_eq!(results[0].1, vec!["r"]);
}

#[test]
fn null_payload_marks_entity_exhausted() {
    let mut q = BatchQuery::<String>::new(&keys(&["gone", "there"]));
    q.apply_wave(vec![
        ("_gone".to_string(), None),
        ("_there".to_string(), Some(page(&["t"], true, "c"))),
    ]);
    let f = q.wave_fragments();
    assert_eq!(f.len(), 1);
    assert_eq!(f[0].alias, "_there");
    q.apply_wave(vec![("_there".to_string(), Some(page(&[], false, "")))]);
    let results = q.finish();
    assert_eq!(results[0].0, "gone");
    assert!(results[0].1.is_empty());
    assert_eq!(results[1].1, vec!["t"]);
}

#[test]
fn entity_without_delivery_is_untouched() {
    let mut q = BatchQuery::<String>::new(&keys(&["a", "b"]));
    q.apply_wave(vec![("_a".to_string(), Some(page(&["r1"], false, "")))]);
    // "b" got nothing: still pending
    assert!(q.has_pending());
    let f = q.wave_fragments();
    assert_eq!(f.len(), 1);
    assert_eq!(f[0].alias, "_b");
}

fn tok(v: &str) -> PlaybackAccessToken {
    PlaybackAccessToken { value: v.to_string(), signature: format!("sig-{}", v) }
}

#[test]
fn collapse_tokens_keeps_last_and_drops_empty() {
    let collapsed = collapse_tokens(vec![
        ("a".to_string(), vec![tok("t1"), tok("t2")]),
        ("b".to_string(), vec![]),
        ("c".to_string(), vec![tok("t3")]),
    ]);
    assert_eq!(collapsed.len(), 2);
    assert_eq!(collapsed[0].0, "a");
    assert_eq!(collapsed[0].1.value, "t2");
    assert_eq!(collapsed[1].0, "c");
    assert_eq!(collapsed[1].1.value, "t3");
}

#[test]
fn fragments_render_expected_query_text() {
    let f = Fragment {
        alias: "_chan".to_string(),
        id: "chan".to_string(),
        after: "cur".to_string(),
    };
    let v = vodbot::twitch::videos_fragment(&f, "ARCHIVE");
    assert!(v.starts_with("_chan: user( login: \"chan\" )"));
    assert!(v.contains("videos( after: \"cur\", first: 100, sort: TIME, types: [ARCHIVE] )"));
    assert!(v.contains("pageInfo { hasNextPage }"));

    let c = vodbot::twitch::clips_fragment(&f);
    assert!(c.contains("criteria: { period: ALL_TIME, sort: VIEWS_DESC }"));

    let m = vodbot::twitch::comments_fragment(&f);
    assert!(m.contains("comments( after: \"cur\", contentOffsetSeconds: 0 )"));

    let ch = vodbot::twitch::chapters_fragment(&f);
    assert!(ch.contains("momentRequestType: VIDEO_CHAPTER_MARKERS"));

    let t = vodbot::twitch::video_token_fragment(&f);
    assert!(t.starts_with("_chan: video(id: \"chancur\")"));
    let ct = vodbot::twitch::clip_token_fragment(&f);
    assert!(ct.starts_with("_chan: clip(slug: \"chancur\")"));
}

#[test]
fn composite_query_wraps_and_joins() {
    let parts = vec!["one".to_string(), "two".to_string()];
    assert_eq!(vodbot::twitch::composite_query(&parts), "{ one\ntwo }");
    let single = vec!["only".to_string()];
    assert_eq!(vodbot::twitch::composite_query(&single), "{ only }");
    assert_eq!(vodbot::twitch::composite_query(&vec![]), "{  }");
}

#[test]
fn single_item_queries_mention_their_ids() {
    assert!(vodbot::twitch::channel_query("streamer")
        .starts_with("{  _: user( login: \"streamer\" )"));
    assert!(vodbot::twitch::video_query("123").starts_with("{  _: video( id: \"123\" )"));
    assert!(vodbot::twitch::clip_query("SlugHere").starts_with("{  _: clip( slug: \"SlugHere\" )"));
}
