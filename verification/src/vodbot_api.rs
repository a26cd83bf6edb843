// The system's stable domain records, and the pure mappers that build them
// from raw API nodes.  A mapper never rejects a record for a missing optional
// field: absent fields map to empty or zero defaults.

use crate::twitch_api::{
    TwitchClip, TwitchGame, TwitchPlaybackAccessToken, TwitchUser, TwitchVideo,
    TwitchVideoComment, TwitchVideoCommentFragment, TwitchVideoMoment,
};
use vstd::prelude::*;

verus! {

pub open spec fn opt_str_or_empty(o: Option<String>) -> Seq<char> {
    match o {
        Some(s) => s@,
        None => Seq::empty(),
    }
}

pub open spec fn opt_game_id(g: Option<TwitchGame>) -> Seq<char> {
    match g {
        Some(g) => g.id@,
        None => Seq::empty(),
    }
}

pub open spec fn opt_game_name(g: Option<TwitchGame>) -> Seq<char> {
    match g {
        Some(g) => g.name@,
        None => Seq::empty(),
    }
}

fn clone_opt_str_or_empty(o: &Option<String>) -> (r: String)
    ensures
        r@ == opt_str_or_empty(*o),
{
    match o {
        Some(s) => s.clone(),
        None => String::new(),
    }
}

fn clone_game_id(g: &Option<TwitchGame>) -> (r: String)
    ensures
        r@ == opt_game_id(*g),
{
    match g {
        Some(g) => g.id.clone(),
        None => String::new(),
    }
}

fn clone_game_name(g: &Option<TwitchGame>) -> (r: String)
    ensures
        r@ == opt_game_name(*g),
{
    match g {
        Some(g) => g.name.clone(),
        None => String::new(),
    }
}

/// A chapter of a video: a description plus position and duration in seconds.
#[derive(Debug, Clone)]
pub struct VodChapter {
    pub description: String,
    pub position: usize,
    pub duration: usize,
}

/// What a chapter record holds, given the raw moment node it came from.
pub open spec fn chapter_matches(r: VodChapter, n: TwitchVideoMoment) -> bool {
    &&& r.description@ == n.description@
    &&& r.position == n.position_milliseconds / 1000
    &&& r.duration == n.duration_milliseconds / 1000
}

impl VodChapter {
    pub fn from_data(n: &TwitchVideoMoment) -> (r: Self)
        ensures
            chapter_matches(r, *n),
    {
        Self {
            description: n.description.clone(),
            position: n.position_milliseconds / 1000,
            duration: n.duration_milliseconds / 1000,
        }
    }
}

/// Copies a chapter list, field by field.
pub fn clone_chapters(v: &Vec<VodChapter>) -> (r: Vec<VodChapter>)
    ensures
        r@.len() == v@.len(),
        forall|i: int| 0 <= i < v@.len() ==> {
            &&& #[trigger] r@[i].description@ == v@[i].description@
            &&& r@[i].position == v@[i].position
            &&& r@[i].duration == v@[i].duration
        },
{
    let mut r: Vec<VodChapter> = Vec::new();
    let mut i: usize = 0;
    while i < v.len()
        invariant
            i <= v@.len(),
            r@.len() == i,
            forall|j: int| 0 <= j < i ==> {
                &&& #[trigger] r@[j].description@ == v@[j].description@
                &&& r@[j].position == v@[j].position
                &&& r@[j].duration == v@[j].duration
            },
        decreases v@.len() - i,
    {
        let c = &v[i];
        r.push(VodChapter {
            description: c.description.clone(),
            position: c.position,
            duration: c.duration,
        });
        i = i + 1;
    }
    r
}

/// An archived video: identity, owning channel, game, title, chapters and
/// duration.
#[derive(Debug, Clone)]
pub struct Vod {
    pub id: String,
    pub streamer_id: String,
    pub streamer_login: String,
    pub streamer_name: String,
    pub game_id: String,
    pub game_name: String,
    pub title: String,
    pub created_at: String,
    pub chapters: Vec<VodChapter>,
    pub duration: usize,
    pub has_chat: bool,
}

/// What a video record holds, given the raw user and video nodes it came
/// from and the chapters fetched for it.
pub open spec fn vod_matches(r: Vod, u: TwitchUser, v: TwitchVideo, c: Seq<VodChapter>) -> bool {
    &&& r.id@ == v.id@
    &&& r.streamer_id@ == u.id@
    &&& r.streamer_login@ == u.login@
    &&& r.streamer_name@ == u.display_name@
    &&& r.game_id@ == opt_game_id(v.game)
    &&& r.game_name@ == opt_game_name(v.game)
    &&& r.title@ == v.title@
    &&& r.created_at@ == v.created_at@
    &&& r.chapters@ == c
    &&& r.duration == v.length_seconds
    &&& r.has_chat == false
}

impl Vod {
    pub fn from_data(u: &TwitchUser, v: &TwitchVideo, c: Vec<VodChapter>) -> (r: Self)
        ensures
            vod_matches(r, *u, *v, c@),
    {
        Self {
            id: v.id.clone(),
            streamer_id: u.id.clone(),
            streamer_login: u.login.clone(),
            streamer_name: u.display_name.clone(),
            game_id: clone_game_id(&v.game),
            game_name: clone_game_name(&v.game),
            title: v.title.clone(),
            created_at: v.created_at.clone(),
            chapters: c,
            duration: v.length_seconds,
            has_chat: false,
        }
    }
}

pub open spec fn opt_curator_id(c: Option<TwitchUser>) -> Seq<char> {
    match c {
        Some(u) => u.id@,
        None => Seq::empty(),
    }
}

pub open spec fn opt_curator_login(c: Option<TwitchUser>) -> Seq<char> {
    match c {
        Some(u) => u.login@,
        None => Seq::empty(),
    }
}

pub open spec fn opt_curator_name(c: Option<TwitchUser>) -> Seq<char> {
    match c {
        Some(u) => u.display_name@,
        None => Seq::empty(),
    }
}

pub open spec fn opt_video_id(v: Option<crate::twitch_api::TwitchClipVideoSource>) -> Seq<char> {
    match v {
        Some(s) => s.id@,
        None => Seq::empty(),
    }
}

/// A short clip cut from a channel's content.
#[derive(Debug, Clone)]
pub struct Clip {
    pub id: String,
    pub slug: String,
    pub streamer_id: String,
    pub streamer_login: String,
    pub streamer_name: String,
    pub clipper_id: String,
    pub clipper_login: String,
    pub clipper_name: String,
    pub game_id: String,
    pub game_name: String,
    pub title: String,
    pub created_at: String,
    pub view_count: usize,
    pub duration: usize,
    pub offset: usize,
    pub vod_id: String,
}

/// What a clip record holds, given the raw user and clip nodes it came from.
pub open spec fn clip_matches(r: Clip, u: TwitchUser, n: TwitchClip) -> bool {
    &&& r.id@ == n.id@
    &&& r.slug@ == n.slug@
    &&& r.streamer_id@ == u.id@
    &&& r.streamer_login@ == u.login@
    &&& r.streamer_name@ == u.display_name@
    &&& r.clipper_id@ == opt_curator_id(n.curator)
    &&& r.clipper_login@ == opt_curator_login(n.curator)
    &&& r.clipper_name@ == opt_curator_name(n.curator)
    &&& r.game_id@ == opt_game_id(n.game)
    &&& r.game_name@ == opt_game_name(n.game)
    &&& r.title@ == n.title@
    &&& r.created_at@ == n.created_at@
    &&& r.view_count == n.view_count
    &&& r.duration == n.duration_seconds
    &&& r.offset == (match n.video_offset_secconds {
        Some(o) => o,
        None => 0,
    })
    &&& r.vod_id@ == opt_video_id(n.video)
}

impl Clip {
    pub fn from_data(u: &TwitchUser, n: &TwitchClip) -> (r: Self)
        ensures
            clip_matches(r, *u, *n),
    {
        let (clipper_id, clipper_login, clipper_name) = match &n.curator {
            Some(c) => (c.id.clone(), c.login.clone(), c.display_name.clone()),
            None => (String::new(), String::new(), String::new()),
        };
        let vod_id = match &n.video {
            Some(v) => v.id.clone(),
            None => String::new(),
        };
        let offset = match n.video_offset_secconds {
            Some(o) => o,
            None => 0,
        };
        Self {
            id: n.id.clone(),
            slug: n.slug.clone(),
            streamer_id: u.id.clone(),
            streamer_login: u.login.clone(),
            streamer_name: u.display_name.clone(),
            clipper_id,
            clipper_login,
            clipper_name,
            game_id: clone_game_id(&n.game),
            game_name: clone_game_name(&n.game),
            title: n.title.clone(),
            created_at: n.created_at.clone(),
            duration: n.duration_seconds,
            offset,
            view_count: n.view_count,
            vod_id,
        }
    }
}

/// Basic channel identity.
#[derive(Debug, Clone)]
pub struct Channel {
    pub id: String,
    pub login: String,
    pub name: String,
    pub created_at: String,
}

/// One chat line: who spoke, in what color, when, and the flattened text.
#[derive(Debug, Clone)]
pub struct ChatMessage {
    pub user_name: String,
    pub color: String,
    pub offset: usize,
    pub msg: String,
}

/// The rendering of one message fragment: a mention becomes `"@name "`, and
/// the fragment's own text follows.
pub open spec fn fragment_text(f: TwitchVideoCommentFragment) -> Seq<char> {
    (match f.mention {
        Some(m) => seq!['@'] + m.display_name@ + seq![' '],
        None => Seq::<char>::empty(),
    }) + f.text@
}

/// The flattened text of a whole message: its fragments rendered in order.
pub open spec fn message_text(frags: Seq<TwitchVideoCommentFragment>) -> Seq<char>
    decreases frags.len(),
{
    if frags.len() == 0 {
        Seq::empty()
    } else {
        message_text(frags.drop_last()) + fragment_text(frags.last())
    }
}

/// What a chat record holds, given the raw comment node it came from.
pub open spec fn chat_matches(r: ChatMessage, n: TwitchVideoComment) -> bool {
    &&& r.user_name@ == n.commenter.display_name@
    &&& r.color@ == opt_str_or_empty(n.message.user_color)
    &&& r.offset == n.content_offset_seconds
    &&& r.msg@ == message_text(n.message.fragments@)
}

impl ChatMessage {
    pub fn from_data(n: &TwitchVideoComment) -> (r: Self)
        ensures
            chat_matches(r, *n),
    {
        let frags = &n.message.fragments;
        let mut msg = String::new();
        let mut i: usize = 0;
        while i < frags.len()
            invariant
                i <= frags@.len(),
                msg@ == message_text(frags@.take(i as int)),
            decreases frags@.len() - i,
        {
            let f = &frags[i];
            match &f.mention {
                Some(m) => {
                    msg.push('@');
                    msg.append(m.display_name.as_str());
                    msg.push(' ');
                },
                None => {},
            }
            msg.append(f.text.as_str());
            proof {
                assert(frags@.take(i + 1).drop_last() =~= frags@.take(i as int));
                assert(frags@.take(i + 1).last() == frags@[i as int]);
                assert(msg@ =~= message_text(frags@.take(i + 1)));
            }
            i = i + 1;
        }
        proof {
            assert(frags@.take(frags@.len() as int) =~= frags@);
        }
        Self {
            user_name: n.commenter.display_name.clone(),
            color: clone_opt_str_or_empty(&n.message.user_color),
            offset: n.content_offset_seconds,
            msg,
        }
    }
}

/// A cut of a video used when staging an export.
#[derive(Debug, Clone)]
pub struct VideoSlice {
    pub video_id: String,
    pub ss: String,
    pub to: String,
    pub filepath: String,
}

/// Data staged for export or upload.
#[derive(Debug, Clone)]
pub struct StageData {
    pub title: String,
    pub description: String,
    pub streamers: Vec<String>,
    pub slices: Vec<VideoSlice>,
}

/// A short-lived signed credential authorizing manifest retrieval for one
/// item.  Never persisted.
#[derive(Debug, Clone)]
pub struct PlaybackAccessToken {
    pub value: String,
    pub signature: String,
}

/// What a token record holds, given the raw token node it came from.
pub open spec fn token_matches(r: PlaybackAccessToken, u: TwitchPlaybackAccessToken) -> bool {
    &&& r.value@ == u.value@
    &&& r.signature@ == u.signature@
}

impl PlaybackAccessToken {
    pub fn from_data(u: &TwitchPlaybackAccessToken) -> (r: Self)
        ensures
            token_matches(r, *u),
    {
        Self { value: u.value.clone(), signature: u.signature.clone() }
    }
}

} // verus!
