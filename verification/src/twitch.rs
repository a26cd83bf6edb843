// Per-list-kind pieces the pagination engine is instantiated with: the query
// fragment for one entity and one cursor, the composite query for one wave,
// and the extraction of one entity's wave page from its raw node.  The
// engine in `batch` drives the cursors; the driver outside this crate moves
// the composite query over the network and decodes the answer.

use crate::batch::{Fragment, WavePage};
use crate::twitch_api::{
    TwitchEdge, TwitchPlaybackAccessTokenToken, TwitchUser, TwitchVideo,
};
use crate::util::join_with;
use crate::vodbot_api::{
    chapter_matches, chat_matches, clip_matches, token_matches, ChatMessage, Clip,
    PlaybackAccessToken, Vod, VodChapter,
};
use vstd::prelude::*;

verus! {

// ------------------------------------------------------------------
// Query text.

/// The text of one videos-list fragment.
pub open spec fn videos_fragment_text(
    alias: Seq<char>,
    id: Seq<char>,
    after: Seq<char>,
    vtype: Seq<char>,
) -> Seq<char> {
    alias + ": user( login: \""@ + id
        + "\" ) {\n    id login displayName\n    videos( after: \""@ + after
        + "\", first: 100, sort: TIME, types: ["@ + vtype
        + "] ) {\n        pageInfo { hasNextPage }\n        edges { cursor node {\n            id title createdAt status\n            broadcastType lengthSeconds\n            game { id name }\n}  }  }  }"@
}

/// Renders one videos-list fragment for a wave.
pub fn videos_fragment(f: &Fragment, vtype: &str) -> (r: String)
    ensures
        r@ == videos_fragment_text(f.alias@, f.id@, f.after@, vtype@),
{
    let mut s = String::new();
    s.append(f.alias.as_str());
    s.append(": user( login: \"");
    s.append(f.id.as_str());
    s.append("\" ) {\n    id login displayName\n    videos( after: \"");
    s.append(f.after.as_str());
    s.append("\", first: 100, sort: TIME, types: [");
    s.append(vtype);
    s.append(
        "] ) {\n        pageInfo { hasNextPage }\n        edges { cursor node {\n            id title createdAt status\n            broadcastType lengthSeconds\n            game { id name }\n}  }  }  }",
    );
    s
}

/// The text of one clips-list fragment.
pub open spec fn clips_fragment_text(alias: Seq<char>, id: Seq<char>, after: Seq<char>) -> Seq<
    char,
> {
    alias + ": user( login: \""@ + id
        + "\" ) {\n    id login displayName\n    clips(\n        after: \""@ + after
        + "\", first: 100,\n        criteria: { period: ALL_TIME, sort: VIEWS_DESC }\n    ) {\n        pageInfo { hasNextPage }\n        edges { cursor node {\n            id slug title createdAt viewCount\n            durationSeconds videoOffsetSeconds\n            video { id }\n            game { id name }\n            curator { id displayName login }\n            videoQualities { frameRate quality sourceURL }\n}  }  }  }"@
}

/// Renders one clips-list fragment for a wave.
pub fn clips_fragment(f: &Fragment) -> (r: String)
    ensures
        r@ == clips_fragment_text(f.alias@, f.id@, f.after@),
{
    let mut s = String::new();
    s.append(f.alias.as_str());
    s.append(": user( login: \"");
    s.append(f.id.as_str());
    s.append("\" ) {\n    id login displayName\n    clips(\n        after: \"");
    s.append(f.after.as_str());
    s.append(
        "\", first: 100,\n        criteria: { period: ALL_TIME, sort: VIEWS_DESC }\n    ) {\n        pageInfo { hasNextPage }\n        edges { cursor node {\n            id slug title createdAt viewCount\n            durationSeconds videoOffsetSeconds\n            video { id }\n            game { id name }\n            curator { id displayName login }\n            videoQualities { frameRate quality sourceURL }\n}  }  }  }",
    );
    s
}

/// The text of one comments-list fragment.
pub open spec fn comments_fragment_text(alias: Seq<char>, id: Seq<char>, after: Seq<char>) -> Seq<
    char,
> {
    alias + ": video( id: \""@ + id
        + "\" ) {\n    id title createdAt broadcastType status lengthSeconds\n    comments( after: \""@
        + after
        + "\", contentOffsetSeconds: 0 ) {\n        pageInfo { hasNextPage }\n        edges { cursor node {\n            contentOffsetSeconds\n            commenter { displayName }\n            message { fragments { mention { displayName } text } userColor }\n}  }  }  }"@
}

/// Renders one comments-list fragment for a wave.
pub fn comments_fragment(f: &Fragment) -> (r: String)
    ensures
        r@ == comments_fragment_text(f.alias@, f.id@, f.after@),
{
    let mut s = String::new();
    s.append(f.alias.as_str());
    s.append(": video( id: \"");
    s.append(f.id.as_str());
    s.append("\" ) {\n    id title createdAt broadcastType status lengthSeconds\n    comments( after: \"");
    s.append(f.after.as_str());
    s.append(
        "\", contentOffsetSeconds: 0 ) {\n        pageInfo { hasNextPage }\n        edges { cursor node {\n            contentOffsetSeconds\n            commenter { displayName }\n            message { fragments { mention { displayName } text } userColor }\n}  }  }  }",
    );
    s
}

/// The text of one chapter-markers fragment.
pub open spec fn chapters_fragment_text(alias: Seq<char>, id: Seq<char>, after: Seq<char>) -> Seq<
    char,
> {
    alias + ": video( id: \""@ + id
        + "\" ) {\n    id title createdAt broadcastType status lengthSeconds\n    moments(\n        after: \""@
        + after
        + "\", first: 100,\n        momentRequestType: VIDEO_CHAPTER_MARKERS\n    ) {\n        pageInfo { hasNextPage }\n        edges { cursor node {\n            description\n            positionMilliseconds\n            durationMilliseconds\n}  }  }  }"@
}

/// Renders one chapter-markers fragment for a wave.
pub fn chapters_fragment(f: &Fragment) -> (r: String)
    ensures
        r@ == chapters_fragment_text(f.alias@, f.id@, f.after@),
{
    let mut s = String::new();
    s.append(f.alias.as_str());
    s.append(": video( id: \"");
    s.append(f.id.as_str());
    s.append("\" ) {\n    id title createdAt broadcastType status lengthSeconds\n    moments(\n        after: \"");
    s.append(f.after.as_str());
    s.append(
        "\", first: 100,\n        momentRequestType: VIDEO_CHAPTER_MARKERS\n    ) {\n        pageInfo { hasNextPage }\n        edges { cursor node {\n            description\n            positionMilliseconds\n            durationMilliseconds\n}  }  }  }",
    );
    s
}

/// The text of one video playback-token fragment.
pub open spec fn video_token_fragment_text(alias: Seq<char>, id: Seq<char>, after: Seq<char>) -> Seq<
    char,
> {
    alias + ": video(id: \""@ + id + after
        + "\") {\n    playbackAccessToken(\n        params: {platform:\"web\",playerType:\"site\",playerBackend:\"mediaplayer\"}\n    ) { value signature }\n}"@
}

/// Renders one video playback-token fragment.
pub fn video_token_fragment(f: &Fragment) -> (r: String)
    ensures
        r@ == video_token_fragment_text(f.alias@, f.id@, f.after@),
{
    let mut s = String::new();
    s.append(f.alias.as_str());
    s.append(": video(id: \"");
    s.append(f.id.as_str());
    s.append(f.after.as_str());
    s.append(
        "\") {\n    playbackAccessToken(\n        params: {platform:\"web\",playerType:\"site\",playerBackend:\"mediaplayer\"}\n    ) { value signature }\n}",
    );
    s
}

/// The text of one clip playback-token fragment.
pub open spec fn clip_token_fragment_text(alias: Seq<char>, id: Seq<char>, after: Seq<char>) -> Seq<
    char,
> {
    alias + ": clip(slug: \""@ + id + after
        + "\") {\n    playbackAccessToken(\n        params: {platform:\"web\",playerType:\"site\",playerBackend:\"mediaplayer\"}\n    ) { value signature }\n}"@
}

/// Renders one clip playback-token fragment.
pub fn clip_token_fragment(f: &Fragment) -> (r: String)
    ensures
        r@ == clip_token_fragment_text(f.alias@, f.id@, f.after@),
{
    let mut s = String::new();
    s.append(f.alias.as_str());
    s.append(": clip(slug: \"");
    s.append(f.id.as_str());
    s.append(f.after.as_str());
    s.append(
        "\") {\n    playbackAccessToken(\n        params: {platform:\"web\",playerType:\"site\",playerBackend:\"mediaplayer\"}\n    ) { value signature }\n}",
    );
    s
}

/// The composite query of one wave: every fragment, newline-separated,
/// wrapped in one pair of braces.
pub open spec fn composite_query_text(parts: Seq<Seq<char>>) -> Seq<char> {
    "{ "@ + join_with(parts, "\n"@) + " }"@
}

/// Wraps one wave's fragments into the composite query that goes over the
/// wire.
pub fn composite_query(parts: &Vec<String>) -> (r: String)
    ensures
        r@ == composite_query_text(parts@.map_values(|s: String| s@)),
{
    let mut s = String::new();
    s.append("{ ");
    let joined = crate::util::join_strings(parts, "\n");
    s.append(joined.as_str());
    s.append(" }");
    s
}

// ------------------------------------------------------------------
// Wave-page extraction, one function per list kind.  Each mirrors what the
// remote node shape yields: the records of one page in edge order, the
// has-next flag, and the cursor to resume after (the last cursor seen on
// this page, or empty when the page carries none).

/// The cursor the next wave resumes after: the last edge that carries a
/// cursor determines it; a page with no cursors yields the empty cursor.
pub open spec fn last_cursor<T>(edges: Seq<TwitchEdge<T>>) -> Seq<char>
    decreases edges.len(),
{
    if edges.len() == 0 {
        Seq::empty()
    } else {
        match edges.last().cursor {
            Some(c) => c@,
            None => last_cursor(edges.drop_last()),
        }
    }
}

fn cursor_of_edges<T>(edges: &Vec<TwitchEdge<T>>) -> (r: String)
    ensures
        r@ == last_cursor(edges@),
{
    let mut cur = String::new();
    let mut i: usize = 0;
    while i < edges.len()
        invariant
            i <= edges@.len(),
            cur@ == last_cursor(edges@.take(i as int)),
        decreases edges@.len() - i,
    {
        match &edges[i].cursor {
            Some(c) => {
                cur = c.clone();
            },
            None => {},
        }
        proof {
            assert(edges@.take(i + 1).drop_last() =~= edges@.take(i as int));
            assert(edges@.take(i + 1).last() == edges@[i as int]);
        }
        i = i + 1;
    }
    proof {
        assert(edges@.take(edges@.len() as int) =~= edges@);
    }
    cur
}

/// The chapter list recorded for `id`, by the first matching key.
pub open spec fn chapters_lookup(
    chapters: Seq<(String, Vec<VodChapter>)>,
    id: Seq<char>,
) -> Option<Seq<VodChapter>>
    decreases chapters.len(),
{
    if chapters.len() == 0 {
        None
    } else if chapters[0].0@ == id {
        Some(chapters[0].1@)
    } else {
        chapters_lookup(chapters.drop_first(), id)
    }
}

/// Chapter lists that agree field by field.
pub open spec fn chapters_like(a: Seq<VodChapter>, b: Seq<VodChapter>) -> bool {
    &&& a.len() == b.len()
    &&& forall|i: int|
        0 <= i < a.len() ==> {
            &&& (#[trigger] a[i]).description@ == b[i].description@
            &&& a[i].position == b[i].position
            &&& a[i].duration == b[i].duration
        }
}

/// What one extracted video record holds: the mapped fields, with a copy of
/// the chapter list that was fetched for its id.
pub open spec fn vod_like(
    r: Vod,
    u: TwitchUser,
    v: TwitchVideo,
    c: Option<Seq<VodChapter>>,
) -> bool {
    &&& r.id@ == v.id@
    &&& r.streamer_id@ == u.id@
    &&& r.streamer_login@ == u.login@
    &&& r.streamer_name@ == u.display_name@
    &&& r.game_id@ == crate::vodbot_api::opt_game_id(v.game)
    &&& r.game_name@ == crate::vodbot_api::opt_game_name(v.game)
    &&& r.title@ == v.title@
    &&& r.created_at@ == v.created_at@
    &&& (c matches Some(cs) && chapters_like(r.chapters@, cs))
    &&& r.duration == v.length_seconds
    &&& r.has_chat == false
}

fn find_chapters(chapters: &Vec<(String, Vec<VodChapter>)>, id: &String) -> (r: Option<
    Vec<VodChapter>,
>)
    ensures
        match r {
            Some(v) => (chapters_lookup(chapters@, id@) matches Some(c) && chapters_like(v@, c)),
            None => chapters_lookup(chapters@, id@) is None,
        },
{
    let mut i: usize = 0;
    proof {
        assert(chapters@.skip(0) =~= chapters@);
    }
    while i < chapters.len()
        invariant
            i <= chapters@.len(),
            chapters_lookup(chapters@, id@) == chapters_lookup(chapters@.skip(i as int), id@),
            forall|j: int| 0 <= j < i ==> (#[trigger] chapters@[j]).0@ != id@,
        decreases chapters@.len() - i,
    {
        let ghost pre = chapters@.skip(i as int);
        if chapters[i].0.eq(id) {
            proof {
                assert(pre[0] == chapters@[i as int]);
            }
            return Some(crate::vodbot_api::clone_chapters(&chapters[i].1));
        }
        proof {
            assert(pre[0] == chapters@[i as int]);
            assert(pre.drop_first() =~= chapters@.skip(i + 1));
        }
        i = i + 1;
    }
    proof {
        assert(chapters@.skip(i as int).len() == 0);
    }
    None
}

/// Extracts one channel's wave page of videos.  The caller supplies the
/// chapter lists it fetched for exactly this page's video ids; the node must
/// carry its videos connection, and every video id must have its chapters.
pub fn videos_wave_page(u: &TwitchUser, chapters: &Vec<(String, Vec<VodChapter>)>) -> (page:
    WavePage<Vod>)
    requires
        u.videos is Some,
        forall|i: int|
            0 <= i < u.videos.unwrap().edges@.len() ==> chapters_lookup(
                chapters@,
                (#[trigger] u.videos.unwrap().edges@[i]).node.id@,
            ) is Some,
    ensures
        page.has_next == u.videos.unwrap().page_info.has_next_page,
        page.cursor@ == last_cursor(u.videos.unwrap().edges@),
        page.records@.len() == u.videos.unwrap().edges@.len(),
        forall|i: int|
            0 <= i < page.records@.len() ==> vod_like(
                #[trigger] page.records@[i],
                *u,
                u.videos.unwrap().edges@[i].node,
                chapters_lookup(chapters@, u.videos.unwrap().edges@[i].node.id@),
            ),
{
    let conn = u.videos.as_ref().unwrap();
    let mut records: Vec<Vod> = Vec::new();
    let mut i: usize = 0;
    while i < conn.edges.len()
        invariant
            u.videos is Some,
            conn == u.videos.unwrap(),
            i <= conn.edges@.len(),
            records@.len() == i,
            forall|j: int|
                0 <= j < conn.edges@.len() ==> chapters_lookup(
                    chapters@,
                    (#[trigger] conn.edges@[j]).node.id@,
                ) is Some,
            forall|j: int|
                0 <= j < i ==> vod_like(
                    #[trigger] records@[j],
                    *u,
                    conn.edges@[j].node,
                    chapters_lookup(chapters@, conn.edges@[j].node.id@),
                ),
        decreases conn.edges@.len() - i,
    {
        let node = &conn.edges[i].node;
        let c = match find_chapters(chapters, &node.id) {
            Some(c) => c,
            None => {
                proof {
                    assert(false);
                }
                Vec::new()
            },
        };
        records.push(Vod::from_data(u, node, c));
        i = i + 1;
    }
    let cursor = cursor_of_edges(&conn.edges);
    WavePage { records, has_next: conn.page_info.has_next_page, cursor }
}

/// Extracts one channel's wave page of clips.  The node must carry its clips
/// connection.
pub fn clips_wave_page(u: &TwitchUser) -> (page: WavePage<Clip>)
    requires
        u.clips is Some,
    ensures
        page.has_next == u.clips.unwrap().page_info.has_next_page,
        page.cursor@ == last_cursor(u.clips.unwrap().edges@),
        page.records@.len() == u.clips.unwrap().edges@.len(),
        forall|i: int|
            0 <= i < page.records@.len() ==> clip_matches(
                #[trigger] page.records@[i],
                *u,
                u.clips.unwrap().edges@[i].node,
            ),
{
    let conn = u.clips.as_ref().unwrap();
    let mut records: Vec<Clip> = Vec::new();
    let mut i: usize = 0;
    while i < conn.edges.len()
        invariant
            u.clips is Some,
            conn == u.clips.unwrap(),
            i <= conn.edges@.len(),
            records@.len() == i,
            forall|j: int|
                0 <= j < i ==> clip_matches(#[trigger] records@[j], *u, conn.edges@[j].node),
        decreases conn.edges@.len() - i,
    {
        records.push(Clip::from_data(u, &conn.edges[i].node));
        i = i + 1;
    }
    let cursor = cursor_of_edges(&conn.edges);
    WavePage { records, has_next: conn.page_info.has_next_page, cursor }
}

/// Extracts one video's wave page of chat comments.  The node must carry its
/// comments connection.
pub fn comments_wave_page(v: &TwitchVideo) -> (page: WavePage<ChatMessage>)
    requires
        v.comments is Some,
    ensures
        page.has_next == v.comments.unwrap().page_info.has_next_page,
        page.cursor@ == last_cursor(v.comments.unwrap().edges@),
        page.records@.len() == v.comments.unwrap().edges@.len(),
        forall|i: int|
            0 <= i < page.records@.len() ==> chat_matches(
                #[trigger] page.records@[i],
                v.comments.unwrap().edges@[i].node,
            ),
{
    let conn = v.comments.as_ref().unwrap();
    let mut records: Vec<ChatMessage> = Vec::new();
    let mut i: usize = 0;
    while i < conn.edges.len()
        invariant
            v.comments is Some,
            conn == v.comments.unwrap(),
            i <= conn.edges@.len(),
            records@.len() == i,
            forall|j: int|
                0 <= j < i ==> chat_matches(#[trigger] records@[j], conn.edges@[j].node),
        decreases conn.edges@.len() - i,
    {
        records.push(ChatMessage::from_data(&conn.edges[i].node));
        i = i + 1;
    }
    let cursor = cursor_of_edges(&conn.edges);
    WavePage { records, has_next: conn.page_info.has_next_page, cursor }
}

/// Extracts one video's wave page of chapter markers.  The node must carry
/// its moments connection.
pub fn chapters_wave_page(v: &TwitchVideo) -> (page: WavePage<VodChapter>)
    requires
        v.moments is Some,
    ensures
        page.has_next == v.moments.unwrap().page_info.has_next_page,
        page.cursor@ == last_cursor(v.moments.unwrap().edges@),
        page.records@.len() == v.moments.unwrap().edges@.len(),
        forall|i: int|
            0 <= i < page.records@.len() ==> chapter_matches(
                #[trigger] page.records@[i],
                v.moments.unwrap().edges@[i].node,
            ),
{
    let conn = v.moments.as_ref().unwrap();
    let mut records: Vec<VodChapter> = Vec::new();
    let mut i: usize = 0;
    while i < conn.edges.len()
        invariant
            v.moments is Some,
            conn == v.moments.unwrap(),
            i <= conn.edges@.len(),
            records@.len() == i,
            forall|j: int|
                0 <= j < i ==> chapter_matches(#[trigger] records@[j], conn.edges@[j].node),
        decreases conn.edges@.len() - i,
    {
        records.push(VodChapter::from_data(&conn.edges[i].node));
        i = i + 1;
    }
    let cursor = cursor_of_edges(&conn.edges);
    WavePage { records, has_next: conn.page_info.has_next_page, cursor }
}

/// Extracts one playback-token wave page: a single record, and no further
/// pages (token queries are one page per entity by construction).
pub fn token_wave_page(t: &TwitchPlaybackAccessTokenToken) -> (page: WavePage<
    PlaybackAccessToken,
>)
    ensures
        page.has_next == false,
        page.cursor@ == Seq::<char>::empty(),
        page.records@.len() == 1,
        token_matches(page.records@[0], t.playback_access_token),
{
    let mut records: Vec<PlaybackAccessToken> = Vec::new();
    records.push(PlaybackAccessToken::from_data(&t.playback_access_token));
    WavePage { records, has_next: false, cursor: String::new() }
}

/// What collapsing token lists yields: entities that produced at least one
/// token keep their last one, under the original key; empty entities drop.
pub open spec fn tokens_collapsed(
    results: Seq<(String, Vec<PlaybackAccessToken>)>,
) -> Seq<(String, PlaybackAccessToken)>
    decreases results.len(),
{
    if results.len() == 0 {
        Seq::empty()
    } else {
        tokens_collapsed(results.drop_last()) + (if results.last().1@.len() > 0 {
            seq![(results.last().0, results.last().1@.last())]
        } else {
            Seq::empty()
        })
    }
}

/// Collapses per-entity token lists to one token per entity, keeping the
/// last token of each non-empty list and dropping entities with none.
pub fn collapse_tokens(results: Vec<(String, Vec<PlaybackAccessToken>)>) -> (r: Vec<
    (String, PlaybackAccessToken),
>)
    ensures
        r@ == tokens_collapsed(results@),
{
    let ghost all = results@;
    let mut results = results;
    let mut r: Vec<(String, PlaybackAccessToken)> = Vec::new();
    let ghost i: int = 0;
    while results.len() > 0
        invariant
            0 <= i,
            i + results@.len() == all.len(),
            results@ =~= all.skip(i),
            r@ == tokens_collapsed(all.take(i)),
        decreases results@.len(),
    {
        let ghost pre = results@;
        let (k, mut v) = results.remove(0);
        match v.pop() {
            Some(t) => {
                r.push((k, t));
            },
            None => {},
        }
        proof {
            assert(pre[0] == all[i]);
            assert(results@ =~= all.skip(i + 1));
            assert(all.take(i + 1).drop_last() =~= all.take(i));
            assert(all.take(i + 1).last() == all[i]);
            assert(r@ =~= tokens_collapsed(all.take(i + 1)));
            i = i + 1;
        }
    }
    proof {
        assert(all.take(all.len() as int) =~= all);
        assert(all.skip(i).len() == all.len() - i);
    }
    r
}

// ------------------------------------------------------------------
// Whole-query text for single-item lookups.

/// The text of a single-channel lookup query.
pub open spec fn channel_query_text(login: Seq<char>) -> Seq<char> {
    "{  _: user( login: \""@ + login
        + "\" ) {\n    id login displayName description createdAt\n    roles { isAffiliate isPartner }\n    stream {\n        id title type viewersCount\n        createdAt game { id name }\n}  }  }"@
}

/// Renders a single-channel lookup query.
pub fn channel_query(login: &str) -> (r: String)
    ensures
        r@ == channel_query_text(login@),
{
    let mut s = String::new();
    s.append("{  _: user( login: \"");
    s.append(login);
    s.append(
        "\" ) {\n    id login displayName description createdAt\n    roles { isAffiliate isPartner }\n    stream {\n        id title type viewersCount\n        createdAt game { id name }\n}  }  }",
    );
    s
}

/// The text of a single-video lookup query.
pub open spec fn video_query_text(id: Seq<char>) -> Seq<char> {
    "{  _: video( id: \""@ + id
        + "\" ) {\n    id title createdAt status\n    broadcastType lengthSeconds\n    game { id name }\n    creator { id login displayName }\n}  }"@
}

/// Renders a single-video lookup query.
pub fn video_query(id: &str) -> (r: String)
    ensures
        r@ == video_query_text(id@),
{
    let mut s = String::new();
    s.append("{  _: video( id: \"");
    s.append(id);
    s.append(
        "\" ) {\n    id title createdAt status\n    broadcastType lengthSeconds\n    game { id name }\n    creator { id login displayName }\n}  }",
    );
    s
}

/// The text of a single-clip lookup query.
pub open spec fn clip_query_text(slug: Seq<char>) -> Seq<char> {
    "{  _: clip( slug: \""@ + slug
        + "\" ) {\n    id slug title createdAt viewCount\n    durationSeconds videoOffsetSeconds\n    video { id } game { id name }\n    videoQualities { frameRate quality sourceURL }\n    broadcaster { id displayName login }\n    curator { id displayName login }\n}  }"@
}

/// Renders a single-clip lookup query.
pub fn clip_query(slug: &str) -> (r: String)
    ensures
        r@ == clip_query_text(slug@),
{
    let mut s = String::new();
    s.append("{  _: clip( slug: \"");
    s.append(slug);
    s.append(
        "\" ) {\n    id slug title createdAt viewCount\n    durationSeconds videoOffsetSeconds\n    video { id } game { id name }\n    videoQualities { frameRate quality sourceURL }\n    broadcaster { id displayName login }\n    curator { id displayName login }\n}  }",
    );
    s
}

} // verus!
