// Domain-record mapping, the sidecar skip set, size formatting, and the
// transport's framing and classification helpers.

use vodbot::gql::{classify_http_response, fresh_device_id, gql_request_body, response_data};
use vodbot::pull::{keep_unsaved_clips, keep_unsaved_ids, keep_unsaved_vods};
use vodbot::twitch_api::{
    TwitchClip, TwitchConnection, TwitchEdge, TwitchGame, TwitchPageInfo,
    TwitchPlaybackAccessToken, TwitchResponse, TwitchResponseError, TwitchUser, TwitchVideo,
    TwitchVideoBroadcastType, TwitchVideoComment, TwitchVideoCommentFragment,
    TwitchVideoCommentMessage, TwitchVideoCommentUser, TwitchVideoMoment, TwitchVideoStatus,
};
use vodbot::util::{format_size, meta_id_from_filename, ExitCode, ExitMsg};
use vodbot::vodbot_api::{ChatMessage, Clip, PlaybackAccessToken, Vod, VodChapter};

fn user(id: &str, login: &str, name: &str) -> TwitchUser {
    TwitchUser {
        id: id.to_string(),
        login: login.to_string(),
        display_name: name.to_string(),
        roles: None,
        stream: None,
        videos: None,
        clips: None,
    }
}

fn video(id: &str, title: &str, game: Option<TwitchGame>) -> TwitchVideo {
    TwitchVideo {
        id: id.to_string(),
        title: title.to_string(),
        created_at: "2023-01-02T03:04:05Z".to_string(),
        broadcast_type: TwitchVideoBroadcastType::Archive,
        status: TwitchVideoStatus::Recorded,
        length_seconds: 3600,
        game,
        comments: None,
        moments: None,
    }
}

#[test]
fn vod_from_data_maps_fields_and_defaults() {
    let u = user("7", "chan", "Chan");
    let v = video("v1", "A Title", None);
    let chapters = vec![VodChapter {
        description: "intro".to_string(),
        position: 0,
        duration: 60,
    }];
    let vod = Vod::from_data(&u, &v, chapters);
    assert_eq!(vod.id, "v1");
    assert_eq!(vod.streamer_id, "7");
    assert_eq!(vod.streamer_login, "chan");
    assert_eq!(vod.streamer_name, "Chan");
    assert_eq!(vod.game_id, "");
    assert_eq!(vod.game_name, "");
    assert_eq!(vod.title, "A Title");
    assert_eq!(vod.created_at, "2023-01-02T03:04:05Z");
    assert_eq!(vod.chapters.len(), 1);
    assert_eq!(vod.duration, 3600);
    assert!(!vod.has_chat);

    let g = Some(TwitchGame { id: "g9".to_string(), name: "Chess".to_string() });
    let vod = Vod::from_data(&u, &video("v2", "T", g), Vec::new());
    assert_eq!(vod.game_id, "g9");
    assert_eq!(vod.game_name, "Chess");
}

#[test]
fn chapter_from_data_converts_milliseconds() {
    let c = VodChapter::from_data(&TwitchVideoMoment {
        description: "mid".to_string(),
        position_milliseconds: 90500,
        duration_milliseconds: 1999,
    });
    assert_eq!(c.description, "mid");
    assert_eq!(c.position, 90);
    assert_eq!(c.duration, 1);
}

#[test]
fn clip_from_data_maps_curator_and_video() {
    let u = user("7", "chan", "Chan");
    let clip_node = TwitchClip {
        id: "c1".to_string(),
        slug: "FunnySlug-abc".to_string(),
        title: "clip!".to_string(),
        created_at: "2023-05-06T07:08:09Z".to_string(),
        view_count: 42,
        duration_seconds: 30,
        video_offset_secconds: None,
        video: Some(vodbot::twitch_api::TwitchClipVideoSource { id: "v1".to_string() }),
        game: None,
        curator: Some(user("11", "cutter", "Cutter")),
    };
    let c = Clip::from_data(&u, &clip_node);
    assert_eq!(c.id, "c1");
    assert_eq!(c.slug, "FunnySlug-abc");
    assert_eq!(c.streamer_login, "chan");
    assert_eq!(c.clipper_id, "11");
    assert_eq!(c.clipper_login, "cutter");
    assert_eq!(c.clipper_name, "Cutter");
    assert_eq!(c.offset, 0);
    assert_eq!(c.view_count, 42);
    assert_eq!(c.duration, 30);
    assert_eq!(c.vod_id, "v1");
}

#[test]
fn chat_message_flattens_fragments_with_mentions() {
    let n = TwitchVideoComment {
        content_offset_seconds: 12,
        commenter: TwitchVideoCommentUser { display_name: "Alice".to_string() },
        message: TwitchVideoCommentMessage {
            user_color: None,
            fragments: vec![
                TwitchVideoCommentFragment {
                    text: "hello".to_string(),
                    mention: Some(TwitchVideoCommentUser { display_name: "Bob".to_string() }),
                },
                TwitchVideoCommentFragment { text: " world".to_string(), mention: None },
            ],
        },
    };
    let m = ChatMessage::from_data(&n);
    assert_eq!(m.user_name, "Alice");
    assert_eq!(m.color, "");
    assert_eq!(m.offset, 12);
    assert_eq!(m.msg, "@Bob hello world");
}

#[test]
fn token_from_data_copies_both_parts() {
    let t = PlaybackAccessToken::from_data(&TwitchPlaybackAccessToken {
        value: "v".to_string(),
        signature: "s".to_string(),
    });
    assert_eq!(t.value, "v");
    assert_eq!(t.signature, "s");
}

#[test]
fn wave_page_extractors_read_connections() {
    let edges = vec![
        TwitchEdge {
            cursor: Some("c1".to_string()),
            node: TwitchVideoMoment {
                description: "one".to_string(),
                position_milliseconds: 1000,
                duration_milliseconds: 2000,
            },
        },
        TwitchEdge {
            cursor: None,
            node: TwitchVideoMoment {
                description: "two".to_string(),
                position_milliseconds: 3000,
                duration_milliseconds: 4000,
            },
        },
    ];
    let mut v = video("v1", "T", None);
    v.moments = Some(TwitchConnection {
        page_info: TwitchPageInfo { has_next_page: true },
        edges,
    });
    let page = vodbot::twitch::chapters_wave_page(&v);
    assert!(page.has_next);
    // the last cursor seen on the page wins, even if later edges carry none
    assert_eq!(page.cursor, "c1");
    assert_eq!(page.records.len(), 2);
    assert_eq!(page.records[0].description, "one");
    assert_eq!(page.records[1].position, 3);
}

#[test]
fn videos_wave_page_joins_chapters_by_id() {
    let mut u = user("7", "chan", "Chan");
    u.videos = Some(TwitchConnection {
        page_info: TwitchPageInfo { has_next_page: true },
        edges: vec![
            TwitchEdge { cursor: Some("k1".to_string()), node: video("v1", "First", None) },
            TwitchEdge { cursor: Some("k2".to_string()), node: video("v2", "Second", None) },
        ],
    });
    let chapters = vec![
        (
            "v1".to_string(),
            vec![VodChapter { description: "one".to_string(), position: 0, duration: 9 }],
        ),
        ("v2".to_string(), vec![]),
    ];
    let page = vodbot::twitch::videos_wave_page(&u, &chapters);
    assert!(page.has_next);
    assert_eq!(page.cursor, "k2");
    assert_eq!(page.records.len(), 2);
    assert_eq!(page.records[0].id, "v1");
    assert_eq!(page.records[0].chapters.len(), 1);
    assert_eq!(page.records[0].chapters[0].description, "one");
    assert_eq!(page.records[1].id, "v2");
    assert!(page.records[1].chapters.is_empty());
}

#[test]
fn clips_wave_page_maps_every_edge() {
    let mut u = user("7", "chan", "Chan");
    u.clips = Some(TwitchConnection {
        page_info: TwitchPageInfo { has_next_page: false },
        edges: vec![TwitchEdge {
            cursor: None,
            node: TwitchClip {
                id: "c1".to_string(),
                slug: "Slug-one".to_string(),
                title: "t".to_string(),
                created_at: "now".to_string(),
                view_count: 3,
                duration_seconds: 20,
                video_offset_secconds: Some(100),
                video: None,
                game: None,
                curator: None,
            },
        }],
    });
    let page = vodbot::twitch::clips_wave_page(&u);
    assert!(!page.has_next);
    assert_eq!(page.cursor, "");
    assert_eq!(page.records.len(), 1);
    assert_eq!(page.records[0].slug, "Slug-one");
    assert_eq!(page.records[0].streamer_name, "Chan");
    assert_eq!(page.records[0].offset, 100);
}

#[test]
fn extractor_pages_flow_through_the_engine() {
    // a chapters listing for one video, driven through a full engine run
    let mut q = vodbot::batch::BatchQuery::<VodChapter>::new(&vec!["1234".to_string()]);
    let frags = q.wave_fragments();
    assert_eq!(frags.len(), 1);
    let mut v = video("1234", "T", None);
    v.moments = Some(TwitchConnection {
        page_info: TwitchPageInfo { has_next_page: false },
        edges: vec![TwitchEdge {
            cursor: None,
            node: TwitchVideoMoment {
                description: "only".to_string(),
                position_milliseconds: 5000,
                duration_milliseconds: 65000,
            },
        }],
    });
    let page = vodbot::twitch::chapters_wave_page(&v);
    q.apply_wave(vec![(frags[0].alias.clone(), Some(page))]);
    assert!(!q.has_pending());
    let results = q.finish();
    assert_eq!(results[0].0, "1234");
    assert_eq!(results[0].1.len(), 1);
    assert_eq!(results[0].1[0].description, "only");
    assert_eq!(results[0].1[0].position, 5);
    assert_eq!(results[0].1[0].duration, 65);
}

fn vod_with_id(id: &str) -> Vod {
    let u = user("7", "chan", "Chan");
    Vod::from_data(&u, &video(id, "T", None), Vec::new())
}

#[test]
fn skip_set_filters_only_saved_items() {
    let vods = vec![vod_with_id("a"), vod_with_id("b"), vod_with_id("c")];
    let saved = vec!["b".to_string()];
    let kept = keep_unsaved_vods(vods, &saved);
    assert_eq!(kept.len(), 2);
    assert_eq!(kept[0].id, "a");
    assert_eq!(kept[1].id, "c");
}

#[test]
fn rerun_with_all_sidecars_downloads_nothing() {
    let vods = vec![vod_with_id("a"), vod_with_id("b")];
    let saved = vec!["a".to_string(), "b".to_string(), "stale".to_string()];
    assert!(keep_unsaved_vods(vods, &saved).is_empty());

    let ids = vec!["x".to_string(), "y".to_string()];
    let saved_ids = vec!["y".to_string(), "x".to_string()];
    assert!(keep_unsaved_ids(ids, &saved_ids).is_empty());
}

#[test]
fn skip_set_filters_clips_by_slug() {
    let u = user("7", "chan", "Chan");
    let mk = |slug: &str| {
        Clip::from_data(
            &u,
            &TwitchClip {
                id: "i".to_string(),
                slug: slug.to_string(),
                title: "t".to_string(),
                created_at: "now".to_string(),
                view_count: 0,
                duration_seconds: 0,
                video_offset_secconds: Some(5),
                video: None,
                game: None,
                curator: None,
            },
        )
    };
    let clips = vec![mk("one"), mk("two")];
    let kept = keep_unsaved_clips(clips, &vec!["one".to_string()]);
    assert_eq!(kept.len(), 1);
    assert_eq!(kept[0].slug, "two");
    assert_eq!(kept[0].offset, 5);
}

#[test]
fn format_size_picks_units_and_digits() {
    assert_eq!(format_size(0, 1, true), "0.0 B");
    assert_eq!(format_size(999, 1, true), "999.0 B");
    assert_eq!(format_size(1500, 1, true), "1.5 kB");
    assert_eq!(format_size(1500, 1, false), "1.5");
    assert_eq!(format_size(123_456_789, 2, true), "123.45 MB");
    assert_eq!(format_size(5_000_000_000, 0, true), "5 GB");
    assert_eq!(format_size(1_000_000_000_000, 0, true), "1 PB");
    assert_eq!(format_size(500_000_000_000_000_000, 0, true), "500 EB");
    assert_eq!(format_size(usize::MAX, 1, true), "18.4 ZB");
}

#[test]
fn meta_id_comes_from_between_prefix_and_suffix() {
    let name = "2023-01-02T03_04_05Z-v123456789.meta.json";
    assert_eq!(meta_id_from_filename(name).unwrap(), "v123456789");
    assert!(meta_id_from_filename("short.meta.json").is_none());
}

#[test]
fn request_body_is_exact_json_framing() {
    assert_eq!(gql_request_body("{ q }"), "{\"query\":\"{ q }\"}");
    let tricky = "line1\nline2\t\"quoted\\path\"\u{1}";
    let expected = format!(
        "{{\"query\":{}}}",
        serde_json::to_string(tricky).unwrap()
    );
    assert_eq!(gql_request_body(tricky), expected);
}

#[test]
fn http_classification_keeps_body_or_reports_it() {
    assert_eq!(classify_http_response(true, "ok-body".to_string()).unwrap(), "ok-body");
    let e = classify_http_response(false, "denied".to_string()).unwrap_err();
    assert_eq!(e.code, ExitCode::RequestErrorFromTwitch);
    assert_eq!(e.msg, "Error response from Twitch GQL: \"denied\".");
}

#[test]
fn response_errors_take_precedence_over_data() {
    let resp: TwitchResponse<TwitchUser> = TwitchResponse {
        errors: Some(vec![
            TwitchResponseError {
                message: "bad field".to_string(),
                path: None,
                locations: None,
            },
            TwitchResponseError { message: "worse".to_string(), path: None, locations: None },
        ]),
        data: Some(vec![]),
    };
    let e = response_data(resp).unwrap_err();
    assert_eq!(e.code, ExitCode::GQLErrorFromTwitch);
    assert_eq!(e.msg, "Something went wrong with the GQL request: \"bad field; worse\".");

    let resp: TwitchResponse<TwitchUser> = TwitchResponse {
        errors: None,
        data: Some(vec![("_x".to_string(), None)]),
    };
    let d = response_data(resp).unwrap();
    assert_eq!(d.len(), 1);
    assert_eq!(d[0].0, "_x");
    assert!(d[0].1.is_none());
}

#[test]
fn device_ids_are_32_alphanumeric_characters() {
    let id = fresh_device_id();
    assert_eq!(id.chars().count(), 32);
    assert!(id.chars().all(|c| c.is_ascii_alphanumeric()));
}

#[test]
fn exit_msg_keeps_code_and_text() {
    let e = ExitMsg::new(ExitCode::CannotCreateDir, "nope".to_string());
    assert_eq!(e.code, ExitCode::CannotCreateDir);
    assert_eq!(e.msg, "nope");
    let d = e.duplicate();
    assert_eq!(d.code, ExitCode::CannotCreateDir);
    assert_eq!(d.msg, "nope");
}
