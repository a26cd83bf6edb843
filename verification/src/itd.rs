// The segment-fetch and remux pipeline's verified half: resolving a
// renditions manifest into the source variant, expanding a segment manifest
// into download tasks, the progress tally fed by the worker pool, and the
// verdict on the external remux step.  The driver outside this crate moves
// bytes over the network, writes files, and runs the remux process; every
// decision it acts on is made here.

use crate::util::{i32_to_dec, int_dec_str, ExitCode, ExitMsg};
use crate::vodbot_api::PlaybackAccessToken;
use vstd::prelude::*;

verus! {

// ------------------------------------------------------------------
// Manifest resolution.

/// A parsed playlist, reduced to what the pipeline reads: its shape, and
/// the URIs it lists.  A variant ("master") playlist lists one sub-manifest
/// per quality rendition, source quality first; a media playlist lists the
/// ordered segment URIs of one rendition.
#[derive(Debug, Clone)]
pub enum PlaylistDoc {
    Master { variant_uris: Vec<String> },
    Media { segment_uris: Vec<String> },
}

pub open spec fn doc_model(d: PlaylistDoc) -> (bool, Seq<Seq<char>>) {
    match d {
        PlaylistDoc::Master { variant_uris } => (true, variant_uris@.map_values(|s: String| s@)),
        PlaylistDoc::Media { segment_uris } => (false, segment_uris@.map_values(|s: String| s@)),
    }
}

/// What the playlist parser yields on the given bytes: `None` where they do
/// not parse, else the playlist's shape (variant or media) and its URIs.
pub uninterp spec fn playlist_of(b: Seq<u8>) -> Option<(bool, Seq<Seq<char>>)>;

/// Relies on `m3u8_rs::parse_playlist`: a pure parse of the given bytes
/// into either a master playlist (whose variants each carry a URI) or a
/// media playlist (whose segments each carry a URI).
#[verifier::external_body]
fn parse_playlist_bytes(b: &[u8]) -> (r: Option<PlaylistDoc>)
    ensures
        match r {
            Some(d) => playlist_of(b@) == Some(doc_model(d)),
            None => playlist_of(b@) is None,
        },
{
    match m3u8_rs::parse_playlist(b) {
        Ok((_, m3u8_rs::Playlist::MasterPlaylist(p))) => Some(PlaylistDoc::Master {
            variant_uris: p.variants.into_iter().map(|v| v.uri).collect(),
        }),
        Ok((_, m3u8_rs::Playlist::MediaPlaylist(p))) => Some(PlaylistDoc::Media {
            segment_uris: p.segments.into_iter().map(|s| s.uri).collect(),
        }),
        Err(_) => None,
    }
}

/// Resolves the top-level manifest: it must parse as a variant list with at
/// least one rendition, and the first listed variant (source quality on this
/// platform) is selected.  Any other shape is a distinct resolution error,
/// never a silent selection.
pub fn resolve_variant_playlist(bytes: &[u8]) -> (r: Result<String, ExitMsg>)
    ensures
        match playlist_of(bytes@) {
            None => (r matches Err(e) && e.code == ExitCode::PullCannotParsePlaylistURI
                && e.msg@ == "Failed to parse M3U8 playlist from Twitch."@),
            Some(d) => {
                if d.0 && d.1.len() > 0 {
                    r matches Ok(u) && u@ == d.1[0]
                } else {
                    r matches Err(e) && e.code == ExitCode::PullCannotFindPlaylistURI
                        && e.msg@ == "Failed to find source M3U8 playlist URI from Twitch."@
                }
            },
        },
{
    match parse_playlist_bytes(bytes) {
        Some(PlaylistDoc::Master { variant_uris }) => {
            if variant_uris.len() > 0 {
                let mut v = variant_uris;
                Ok(v.remove(0))
            } else {
                Err(ExitMsg::new(
                    ExitCode::PullCannotFindPlaylistURI,
                    "Failed to find source M3U8 playlist URI from Twitch.".to_owned(),
                ))
            }
        },
        Some(PlaylistDoc::Media { .. }) => Err(ExitMsg::new(
            ExitCode::PullCannotFindPlaylistURI,
            "Failed to find source M3U8 playlist URI from Twitch.".to_owned(),
        )),
        None => Err(ExitMsg::new(
            ExitCode::PullCannotParsePlaylistURI,
            "Failed to parse M3U8 playlist from Twitch.".to_owned(),
        )),
    }
}

/// Resolves the variant's own manifest: it must parse as a media playlist (a
/// flat ordered segment list); its segment URIs come back in manifest order.
/// A variant-list shape here is a distinct error.
pub fn resolve_media_playlist(bytes: &[u8]) -> (r: Result<Vec<String>, ExitMsg>)
    ensures
        match playlist_of(bytes@) {
            None => (r matches Err(e) && e.code == ExitCode::PullCannotParseSourcePlaylist
                && e.msg@ == "Failed to parse source M3U8 playlist."@),
            Some(d) => {
                if !d.0 {
                    r matches Ok(segs) && segs@.map_values(|s: String| s@) == d.1
                } else {
                    r matches Err(e) && e.code == ExitCode::PullCannotUseSourcePlaylist
                        && e.msg@ == "Failed to use source M3U8 playlist."@
                }
            },
        },
{
    match parse_playlist_bytes(bytes) {
        Some(PlaylistDoc::Media { segment_uris }) => Ok(segment_uris),
        Some(PlaylistDoc::Master { .. }) => Err(ExitMsg::new(
            ExitCode::PullCannotUseSourcePlaylist,
            "Failed to use source M3U8 playlist.".to_owned(),
        )),
        None => Err(ExitMsg::new(
            ExitCode::PullCannotParseSourcePlaylist,
            "Failed to parse source M3U8 playlist.".to_owned(),
        )),
    }
}

// ------------------------------------------------------------------
// Task planning.

/// The length of a URI's base: everything up to and including its last
/// slash.
pub open spec fn base_len(s: Seq<char>) -> int
    decreases s.len(),
{
    if s.len() == 0 {
        0
    } else if s.last() == '/' {
        s.len() as int
    } else {
        base_len(s.drop_last())
    }
}

/// The base of a manifest's own URI, against which its segment URIs are
/// resolved: the prefix through the last slash.
pub fn uri_base(uri: &str) -> (r: String)
    requires
        exists|i: int| 0 <= i < uri@.len() && uri@[i] == '/',
    ensures
        r@ == uri@.take(base_len(uri@)),
{
    let n = uri.unicode_len();
    let mut i: usize = n;
    proof {
        assert(uri@.take(n as int) =~= uri@);
    }
    while i > 0 && uri.get_char(i - 1) != '/'
        invariant
            i <= n,
            n == uri@.len(),
            base_len(uri@) == base_len(uri@.take(i as int)),
            forall|j: int| i <= j < n ==> uri@[j] != '/',
        decreases i,
    {
        proof {
            assert(uri@.take(i as int).drop_last() =~= uri@.take(i - 1));
            assert(uri@.take(i as int).last() == uri@[i - 1]);
        }
        i = i - 1;
    }
    if i == 0 {
        proof {
            let j = choose|j: int| 0 <= j < uri@.len() && uri@[j] == '/';
            assert(false);
        }
    }
    proof {
        assert(uri@.take(i as int).last() == uri@[i - 1]);
        assert(base_len(uri@.take(i as int)) == i);
    }
    let base = uri.substring_char(0, i);
    base.to_owned()
}

/// One planned download: where the bytes come from and where they land.
/// Immutable once enumerated; one-to-one with remote media chunks.
#[derive(Debug, Clone)]
pub struct SegmentTask {
    pub source_url: String,
    pub local_path: String,
}

/// Expands a media playlist's relative segment URIs into concrete download
/// tasks: each source URL is the segment resolved against the manifest's
/// base, each local path puts the segment's own name under the temp
/// directory.
pub fn segment_tasks(base: &str, temp_dir: &str, segments: &Vec<String>) -> (r: Vec<SegmentTask>)
    ensures
        r@.len() == segments@.len(),
        forall|i: int|
            0 <= i < segments@.len() ==> {
                &&& (#[trigger] r@[i]).source_url@ == base@ + segments@[i]@
                &&& r@[i].local_path@ == temp_dir@ + "/"@ + segments@[i]@
            },
{
    let mut r: Vec<SegmentTask> = Vec::new();
    let mut i: usize = 0;
    while i < segments.len()
        invariant
            i <= segments@.len(),
            r@.len() == i,
            forall|j: int|
                0 <= j < i ==> {
                    &&& (#[trigger] r@[j]).source_url@ == base@ + segments@[j]@
                    &&& r@[j].local_path@ == temp_dir@ + "/"@ + segments@[j]@
                },
        decreases segments@.len() - i,
    {
        let seg = &segments[i];
        let mut url = String::new();
        url.append(base);
        url.append(seg.as_str());
        let mut path = String::new();
        path.append(temp_dir);
        path.append("/");
        path.append(seg.as_str());
        r.push(SegmentTask { source_url: url, local_path: path });
        i = i + 1;
    }
    r
}

/// The path the segment manifest itself is written to inside the temp
/// directory.
pub fn playlist_path(temp_dir: &str) -> (r: String)
    ensures
        r@ == temp_dir@ + "/playlist.m3u8"@,
{
    let mut s = String::new();
    s.append(temp_dir);
    s.append("/playlist.m3u8");
    s
}

// ------------------------------------------------------------------
// URL construction for authorized fetches.

/// What the URL builder yields for a base URL and query parameters: `None`
/// where the base does not parse, else the full URL text with the pairs
/// appended as an encoded query string.  A pure function of its inputs.
pub uninterp spec fn url_with_params_of(
    base: Seq<char>,
    params: Seq<(Seq<char>, Seq<char>)>,
) -> Option<Seq<char>>;

/// Relies on `Url::parse_with_params` of the url crate (reqwest re-exports
/// it): parses the base URL and appends each pair to its query string, with
/// standard URL encoding.
#[verifier::external_body]
fn url_with_params(base: &str, params: &Vec<(String, String)>) -> (r: Option<String>)
    ensures
        match r {
            Some(u) => url_with_params_of(
                base@,
                params@.map_values(|p: (String, String)| (p.0@, p.1@)),
            ) == Some(u@),
            None => url_with_params_of(
                base@,
                params@.map_values(|p: (String, String)| (p.0@, p.1@)),
            ) is None,
        },
{
    reqwest::Url::parse_with_params(base, params.iter().map(|p| (p.0.as_str(), p.1.as_str())))
        .ok()
        .map(String::from)
}

pub open spec fn usher_params(token: PlaybackAccessToken) -> Seq<(Seq<char>, Seq<char>)> {
    seq![
        ("nauth"@, token.value@),
        ("nauthsig"@, token.signature@),
        ("allow_source"@, "true"@),
        ("player"@, "twitchweb"@),
    ]
}

/// The URL of the renditions-manifest endpoint for one video, with the
/// playback token embedded as query parameters.
pub fn usher_url(vod_id: &str, token: &PlaybackAccessToken) -> (r: Result<String, ExitMsg>)
    ensures
        match url_with_params_of("http://usher.ttvnw.net/vod/"@ + vod_id@, usher_params(*token)) {
            Some(u) => r matches Ok(s) && s@ == u,
            None => (r matches Err(e) && e.code == ExitCode::PullCannotGetPlaylistURI),
        },
{
    let mut base = String::new();
    base.append("http://usher.ttvnw.net/vod/");
    base.append(vod_id);
    let mut params: Vec<(String, String)> = Vec::new();
    params.push(("nauth".to_owned(), token.value.clone()));
    params.push(("nauthsig".to_owned(), token.signature.clone()));
    params.push(("allow_source".to_owned(), "true".to_owned()));
    params.push(("player".to_owned(), "twitchweb".to_owned()));
    proof {
        assert(params@.map_values(|p: (String, String)| (p.0@, p.1@)) =~= usher_params(*token));
    }
    match url_with_params(base.as_str(), &params) {
        Some(u) => Ok(u),
        None => Err(ExitMsg::new(
            ExitCode::PullCannotGetPlaylistURI,
            "Failed to build M3U8 playlist URL.".to_owned(),
        )),
    }
}

pub open spec fn clip_params(token: PlaybackAccessToken) -> Seq<(Seq<char>, Seq<char>)> {
    seq![("token"@, token.value@), ("sig"@, token.signature@)]
}

/// The authorized download URL of a clip: its source URL with the playback
/// token and signature as query parameters.
pub fn clip_download_url(source_url: &str, token: &PlaybackAccessToken) -> (r: Result<
    String,
    ExitMsg,
>)
    ensures
        match url_with_params_of(source_url@, clip_params(*token)) {
            Some(u) => r matches Ok(s) && s@ == u,
            None => (r matches Err(e) && e.code == ExitCode::PullCannotGetChunk),
        },
{
    let mut params: Vec<(String, String)> = Vec::new();
    params.push(("token".to_owned(), token.value.clone()));
    params.push(("sig".to_owned(), token.signature.clone()));
    proof {
        assert(params@.map_values(|p: (String, String)| (p.0@, p.1@)) =~= clip_params(*token));
    }
    match url_with_params(source_url, &params) {
        Some(u) => Ok(u),
        None => Err(ExitMsg::new(
            ExitCode::PullCannotGetChunk,
            "Failed to build clip download URL.".to_owned(),
        )),
    }
}

// ------------------------------------------------------------------
// Progress aggregation (fan-in).

/// The sum of a sequence of byte counts.
pub open spec fn sum_of(s: Seq<usize>) -> int
    decreases s.len(),
{
    if s.len() == 0 {
        0
    } else {
        sum_of(s.drop_last()) + s.last()
    }
}

/// The fan-in side of the worker pool: consumes per-task completions in
/// whatever order they arrive, accumulating the byte total and keeping the
/// first error seen.  Completion order carries no meaning; only the counts
/// and the total do.
pub struct DownloadTally {
    pub total_tasks: usize,
    pub completed: usize,
    pub bytes_total: usize,
    pub first_error: Option<ExitMsg>,
}

impl DownloadTally {
    pub fn new(total_tasks: usize) -> (t: Self)
        ensures
            t.total_tasks == total_tasks,
            t.completed == 0,
            t.bytes_total == 0,
            t.first_error is None,
    {
        DownloadTally { total_tasks, completed: 0, bytes_total: 0, first_error: None }
    }

    /// Records one completion.  A success adds its byte count; a failure is
    /// kept as the operation's error if it is the first.
    pub fn record(&mut self, outcome: Result<usize, ExitMsg>)
        requires
            old(self).completed < old(self).total_tasks,
            outcome matches Ok(n) ==> old(self).bytes_total + n <= usize::MAX,
        ensures
            final(self).total_tasks == old(self).total_tasks,
            final(self).completed == old(self).completed + 1,
            outcome matches Ok(n) ==> final(self).bytes_total == old(self).bytes_total + n
                && final(self).first_error == old(self).first_error,
            outcome matches Err(e) ==> final(self).bytes_total == old(self).bytes_total && (if old(
                self,
            ).first_error is None {
                final(self).first_error == Some(e)
            } else {
                final(self).first_error == old(self).first_error
            }),
    {
        self.completed = self.completed + 1;
        match outcome {
            Ok(n) => {
                self.bytes_total = self.bytes_total + n;
            },
            Err(e) => {
                if self.first_error.is_none() {
                    self.first_error = Some(e);
                }
            },
        }
    }

    /// Whether every task has reported.
    pub fn is_done(&self) -> (r: bool)
        ensures
            r == (self.completed == self.total_tasks),
    {
        self.completed == self.total_tasks
    }

    /// The operation's outcome once every task has reported: the byte total,
    /// or the first error any task surfaced.
    pub fn into_outcome(self) -> (r: Result<usize, ExitMsg>)
        ensures
            self.first_error is None ==> r == Ok::<usize, ExitMsg>(self.bytes_total),
            self.first_error matches Some(e) ==> r == Err::<usize, ExitMsg>(e),
    {
        match self.first_error {
            None => Ok(self.bytes_total),
            Some(e) => Err(e),
        }
    }
}

proof fn lemma_sum_remove(s: Seq<usize>, i: int)
    requires
        0 <= i < s.len(),
    ensures
        sum_of(s.remove(i)) == sum_of(s) - s[i],
    decreases s.len(),
{
    if i == s.len() - 1 {
        assert(s.remove(i) =~= s.drop_last());
    } else {
        lemma_sum_remove(s.drop_last(), i);
        assert(s.remove(i).drop_last() =~= s.drop_last().remove(i));
        assert(s.remove(i).last() == s.last());
    }
}

/// Segment byte conservation: two arrival orders that deliver the same
/// multiset of per-task byte counts sum to the same total, whatever the
/// task-set size — so the tally's total never depends on completion order.
pub proof fn lemma_byte_conservation(s1: Seq<usize>, s2: Seq<usize>)
    requires
        s1.to_multiset() == s2.to_multiset(),
    ensures
        sum_of(s1) == sum_of(s2),
    decreases s1.len(),
{
    broadcast use vstd::seq_lib::group_to_multiset_ensures;

    if s1.len() == 0 {
        assert(s2.to_multiset().len() == 0);
        assert(s2.len() == 0);
    } else {
        let x = s1.last();
        assert(s1.contains(x));
        assert(s1.to_multiset().contains(x));
        assert(s2.to_multiset().contains(x));
        assert(s2.contains(x));
        let j = choose|j: int| 0 <= j < s2.len() && s2[j] == x;
        assert(s1.drop_last() =~= s1.remove(s1.len() - 1));
        assert(s1.remove(s1.len() - 1).to_multiset() =~= s1.to_multiset().remove(x));
        assert(s2.remove(j).to_multiset() =~= s2.to_multiset().remove(s2[j]));
        lemma_byte_conservation(s1.drop_last(), s2.remove(j));
        lemma_sum_remove(s2, j);
    }
}

// ------------------------------------------------------------------
// Remux verdict and cleanup.

/// What the driver must do after the external remux process ends: whether
/// the temp directory is removed (always), whether the metadata sidecar may
/// be written (only on clean exit), and the reported outcome.
pub struct RemuxVerdict {
    pub remove_temp: bool,
    pub write_sidecar: bool,
    pub outcome: Result<(), ExitMsg>,
}

/// Judges the remux process's exit.  A zero exit succeeds; a nonzero exit is
/// a reported error; an exit without a code (signal-terminated) is a
/// distinct reported error.  The temp directory is removed in every case,
/// and the sidecar — the sole marker that an item is complete — is written
/// only on success, so a failed item is retried wholesale on the next run.
pub fn remux_verdict(exit_code: Option<i32>) -> (v: RemuxVerdict)
    ensures
        v.remove_temp == true,
        v.write_sidecar == (exit_code == Some(0i32)),
        exit_code == Some(0i32) ==> v.outcome is Ok,
        (exit_code matches Some(s) && s != 0) ==> (v.outcome matches Err(e) && e.code
            == ExitCode::FfmpegReturnedError && e.msg@ == "FFMPEG returned a non-zero status, `"@
            + int_dec_str(exit_code.unwrap() as int) + "`."@),
        exit_code is None ==> (v.outcome matches Err(e) && e.code == ExitCode::FfmpegInterrupted
            && e.msg@ == "FFMPEG was interrupted, no other error."@),
{
    match exit_code {
        Some(s) => {
            if s == 0 {
                RemuxVerdict { remove_temp: true, write_sidecar: true, outcome: Ok(()) }
            } else {
                let mut msg = String::new();
                msg.append("FFMPEG returned a non-zero status, `");
                let d = i32_to_dec(s);
                msg.append(d.as_str());
                msg.append("`.");
                RemuxVerdict {
                    remove_temp: true,
                    write_sidecar: false,
                    outcome: Err(ExitMsg::new(ExitCode::FfmpegReturnedError, msg)),
                }
            }
        },
        None => RemuxVerdict {
            remove_temp: true,
            write_sidecar: false,
            outcome: Err(ExitMsg::new(
                ExitCode::FfmpegInterrupted,
                "FFMPEG was interrupted, no other error.".to_owned(),
            )),
        },
    }
}

} // verus!
