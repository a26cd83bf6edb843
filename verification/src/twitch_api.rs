// The remote query endpoint's own output shapes.  Defining them as they come
// over the wire keeps the mapping into domain records direct.  The driver
// outside this crate decodes response bytes into these plain values.

use vstd::prelude::*;

verus! {

/// Marker for the top-level payload shapes a query can name.
pub trait TwitchData {

}

/// Marker for node shapes that appear inside a paginated connection.
pub trait TwitchNode {

}

#[derive(Debug, Clone)]
pub struct TwitchGame {
    pub id: String,
    pub name: String,
}

#[derive(Debug, Clone)]
pub enum TwitchVideoBroadcastType {
    Archive,
    Highlight,
    Upload,
    PremiereUpload,
    PastPremiere,
}

#[derive(Debug, Clone)]
pub enum TwitchVideoStatus {
    Recording,
    Unprocessed,
    Created,
    Uploading,
    PendingTranscode,
    Transcoding,
    Failed,
    Recorded,
}

#[derive(Debug, Clone)]
pub struct TwitchPageInfo {
    pub has_next_page: bool,
}

#[derive(Debug, Clone)]
pub struct TwitchEdge<T> {
    pub cursor: Option<String>,
    pub node: T,
}

#[derive(Debug, Clone)]
pub struct TwitchConnection<T> {
    pub page_info: TwitchPageInfo,
    pub edges: Vec<TwitchEdge<T>>,
}

#[derive(Debug, Clone)]
pub struct TwitchVideoMoment {
    pub description: String,
    pub position_milliseconds: usize,
    pub duration_milliseconds: usize,
}

#[derive(Debug, Clone)]
pub struct TwitchVideoCommentUser {
    pub display_name: String,
}

#[derive(Debug, Clone)]
pub struct TwitchVideoCommentFragment {
    pub text: String,
    pub mention: Option<TwitchVideoCommentUser>,
}

#[derive(Debug, Clone)]
pub struct TwitchVideoCommentMessage {
    pub user_color: Option<String>,
    pub fragments: Vec<TwitchVideoCommentFragment>,
}

#[derive(Debug, Clone)]
pub struct TwitchVideoComment {
    pub content_offset_seconds: usize,
    pub commenter: TwitchVideoCommentUser,
    pub message: TwitchVideoCommentMessage,
}

#[derive(Debug, Clone)]
pub struct TwitchVideo {
    pub id: String,
    pub title: String,
    pub created_at: String,
    pub broadcast_type: TwitchVideoBroadcastType,
    pub status: TwitchVideoStatus,
    pub length_seconds: usize,
    pub game: Option<TwitchGame>,
    pub comments: Option<TwitchConnection<TwitchVideoComment>>,
    pub moments: Option<TwitchConnection<TwitchVideoMoment>>,
}

#[derive(Debug, Clone)]
pub struct TwitchClipVideoSource {
    pub id: String,
}

#[derive(Debug)]
pub struct TwitchClip {
    pub id: String,
    pub slug: String,
    pub title: String,
    pub created_at: String,
    pub view_count: usize,
    pub duration_seconds: usize,
    pub video_offset_secconds: Option<usize>,
    pub video: Option<TwitchClipVideoSource>,
    pub game: Option<TwitchGame>,
    pub curator: Option<TwitchUser>,
}

#[derive(Debug, Clone)]
pub struct TwitchUserRoles {
    pub is_affiliate: bool,
    pub is_partner: bool,
}

#[derive(Debug, Clone)]
pub struct TwitchUserStream {
    pub id: String,
    pub title: String,
    pub stream_type: String,
    pub viewers_count: usize,
    pub created_at: String,
    pub game: TwitchGame,
}

#[derive(Debug)]
pub struct TwitchUser {
    pub id: String,
    pub login: String,
    pub display_name: String,
    pub roles: Option<TwitchUserRoles>,
    pub stream: Option<TwitchUserStream>,
    pub videos: Option<TwitchConnection<TwitchVideo>>,
    pub clips: Option<TwitchConnection<TwitchClip>>,
}

#[derive(Debug, Clone)]
pub struct TwitchPlaybackAccessToken {
    pub value: String,
    pub signature: String,
}

#[derive(Debug, Clone)]
pub struct TwitchPlaybackAccessTokenToken {
    pub playback_access_token: TwitchPlaybackAccessToken,
}

#[derive(Debug, Clone)]
pub struct TwitchResponseErrorLocation {
    pub line: usize,
    pub column: usize,
}

#[derive(Debug, Clone)]
pub struct TwitchResponseError {
    pub message: String,
    pub path: Option<Vec<String>>,
    pub locations: Option<Vec<TwitchResponseErrorLocation>>,
}

/// One decoded response: an optional application-error list and, per queried
/// alias, the returned node or `None` where the payload was null.
#[derive(Debug, Clone)]
pub struct TwitchResponse<T> {
    pub errors: Option<Vec<TwitchResponseError>>,
    pub data: Option<Vec<(String, Option<T>)>>,
}

impl TwitchData for TwitchVideo {

}

impl TwitchNode for TwitchVideo {

}

impl TwitchNode for TwitchVideoMoment {

}

impl TwitchNode for TwitchVideoComment {

}

impl TwitchData for TwitchClip {

}

impl TwitchNode for TwitchClip {

}

impl TwitchData for TwitchUser {

}

impl TwitchData for TwitchPlaybackAccessTokenToken {

}

} // verus!
