// Manifest resolution against real playlist bytes, download-task planning,
// the progress tally, and the remux verdict.

use vodbot::itd::{
    clip_download_url, playlist_path, remux_verdict, resolve_media_playlist,
    resolve_variant_playlist, segment_tasks, uri_base, usher_url, DownloadTally,
};
use vodbot::util::ExitCode;
use vodbot::vodbot_api::PlaybackAccessToken;

const MASTER: &str = "#EXTM3U\n#EXT-X-STREAM-INF:BANDWIDTH=2500000,RESOLUTION=1280x720\nhttp://media.example.com/720/index.m3u8\n#EXT-X-STREAM-INF:BANDWIDTH=1000000,RESOLUTION=640x360\nhttp://media.example.com/360/index.m3u8\n";

const MEDIA: &str = "#EXTM3U\n#EXT-X-TARGETDURATION:10\n#EXT-X-VERSION:3\n#EXTINF:9.0,\nseg0.ts\n#EXTINF:9.0,\nseg1.ts\n#EXTINF:4.2,\nseg2.ts\n#EXT-X-ENDLIST\n";

#[test]
fn variant_manifest_selects_first_listed_uri() {
    let r = resolve_variant_playlist(MASTER.as_bytes()).unwrap();
    assert_eq!(r, "http://media.example.com/720/index.m3u8");
}

#[test]
fn media_manifest_lists_segments_in_order() {
    let segs = resolve_media_playlist(MEDIA.as_bytes()).unwrap();
    assert_eq!(segs, vec!["seg0.ts", "seg1.ts", "seg2.ts"]);
}

#[test]
fn media_where_variant_expected_is_rejected() {
    let e = resolve_variant_playlist(MEDIA.as_bytes()).unwrap_err();
    assert_eq!(e.code, ExitCode::PullCannotFindPlaylistURI);
}

#[test]
fn variant_where_media_expected_is_rejected() {
    let e = resolve_media_playlist(MASTER.as_bytes()).unwrap_err();
    assert_eq!(e.code, ExitCode::PullCannotUseSourcePlaylist);
}

#[test]
fn unparsable_bytes_are_parse_errors() {
    let e = resolve_variant_playlist(b"not a playlist").unwrap_err();
    assert_eq!(e.code, ExitCode::PullCannotParsePlaylistURI);
    let e = resolve_media_playlist(b"not a playlist").unwrap_err();
    assert_eq!(e.code, ExitCode::PullCannotParseSourcePlaylist);
}

#[test]
fn uri_base_is_prefix_through_last_slash() {
    assert_eq!(
        uri_base("http://media.example.com/720/index.m3u8"),
        "http://media.example.com/720/"
    );
    assert_eq!(uri_base("a/b"), "a/");
}

#[test]
fn segment_tasks_resolve_against_base_and_temp_dir() {
    let segs = vec!["seg0.ts".to_string(), "seg1.ts".to_string()];
    let tasks = segment_tasks("http://m.example/720/", "/tmp/v123", &segs);
    assert_eq!(tasks.len(), 2);
    assert_eq!(tasks[0].source_url, "http://m.example/720/seg0.ts");
    assert_eq!(tasks[0].local_path, "/tmp/v123/seg0.ts");
    assert_eq!(tasks[1].source_url, "http://m.example/720/seg1.ts");
    assert_eq!(tasks[1].local_path, "/tmp/v123/seg1.ts");
    assert_eq!(playlist_path("/tmp/v123"), "/tmp/v123/playlist.m3u8");
}

fn token() -> PlaybackAccessToken {
    PlaybackAccessToken { value: "tokval".to_string(), signature: "sigval".to_string() }
}

#[test]
fn usher_url_embeds_token_as_query_parameters() {
    let u = usher_url("123456", &token()).unwrap();
    assert_eq!(
        u,
        "http://usher.ttvnw.net/vod/123456?nauth=tokval&nauthsig=sigval&allow_source=true&player=twitchweb"
    );
}

#[test]
fn clip_url_embeds_token_and_signature() {
    let u = clip_download_url("https://clips.example.com/clip.mp4", &token()).unwrap();
    assert_eq!(u, "https://clips.example.com/clip.mp4?token=tokval&sig=sigval");
}

#[test]
fn tally_accumulates_bytes_and_count() {
    let mut t = DownloadTally::new(3);
    assert!(!t.is_done());
    t.record(Ok(100));
    t.record(Ok(250));
    t.record(Ok(50));
    assert!(t.is_done());
    assert_eq!(t.into_outcome().unwrap(), 400);
}

#[test]
fn tally_total_ignores_completion_order() {
    let orders: [[usize; 4]; 3] = [[1, 2, 3, 4], [4, 3, 2, 1], [2, 4, 1, 3]];
    let mut totals = Vec::new();
    for order in orders.iter() {
        let mut t = DownloadTally::new(4);
        for n in order.iter() {
            t.record(Ok(*n));
        }
        totals.push(t.into_outcome().unwrap());
    }
    assert_eq!(totals, vec![10, 10, 10]);
}

#[test]
fn tally_surfaces_first_error_without_stopping() {
    let mut t = DownloadTally::new(3);
    t.record(Ok(10));
    t.record(Err(vodbot::util::ExitMsg::new(
        ExitCode::PullCannotGetChunk,
        "boom".to_string(),
    )));
    t.record(Ok(5));
    assert!(t.is_done());
    let e = t.into_outcome().unwrap_err();
    assert_eq!(e.code, ExitCode::PullCannotGetChunk);
    assert_eq!(e.msg, "boom");
}

#[test]
fn tally_empty_task_set_is_done_at_zero() {
    let t = DownloadTally::new(0);
    assert!(t.is_done());
    assert_eq!(t.into_outcome().unwrap(), 0);
}

#[test]
fn remux_success_writes_sidecar_and_cleans_up() {
    let v = remux_verdict(Some(0));
    assert!(v.remove_temp);
    assert!(v.write_sidecar);
    assert!(v.outcome.is_ok());
}

#[test]
fn remux_failure_cleans_up_and_writes_no_sidecar() {
    let v = remux_verdict(Some(1));
    assert!(v.remove_temp);
    assert!(!v.write_sidecar);
    let e = v.outcome.unwrap_err();
    assert_eq!(e.code, ExitCode::FfmpegReturnedError);
    assert_eq!(e.msg, "FFMPEG returned a non-zero status, `1`.");

    let v = remux_verdict(Some(-9));
    assert!(v.remove_temp);
    assert!(!v.write_sidecar);
    let e = v.outcome.unwrap_err();
    assert_eq!(e.msg, "FFMPEG returned a non-zero status, `-9`.");
}

#[test]
fn remux_interruption_is_a_distinct_error() {
    let v = remux_verdict(None);
    assert!(v.remove_temp);
    assert!(!v.write_sidecar);
    let e = v.outcome.unwrap_err();
    assert_eq!(e.code, ExitCode::FfmpegInterrupted);
    assert_eq!(e.msg, "FFMPEG was interrupted, no other error.");
}
