use favsync::bitrate::SelectionError;
use favsync::download::{
    summarize, DownloadError, DownloadEvent, DownloadOutcome, DownloadPlan, DownloadRequest,
    Downloader, Summary, CONCURRENT_DOWNLOAD_REQUESTS,
};
use favsync::media::{MediaKind, MediaReference};
use favsync::url::{extension, file_name, UrlParseError};

fn param<'a>(request: &'a DownloadRequest, key: &str) -> Option<&'a str> {
    request.params.as_ref().and_then(|list| list.get(key)).map(|v| v.as_ref())
}

#[test]
fn file_name_is_last_segment_without_query() {
    assert_eq!(
        file_name("https://pbs.example.com/media/abcXYZ.jpg?format=jpg&name=orig"),
        Ok("abcXYZ.jpg".to_string())
    );
}

#[test]
fn file_name_without_query() {
    assert_eq!(
        file_name("https://video.example.com/ext_tw_video/1/pu/vid/720x720/clip.mp4"),
        Ok("clip.mp4".to_string())
    );
    assert_eq!(file_name("media/a.png"), Ok("a.png".to_string()));
    assert_eq!(file_name("/a"), Ok("a".to_string()));
}

#[test]
fn file_name_ignores_slashes_in_query() {
    assert_eq!(
        file_name("https://pbs.example.com/media/a.jpg?next=/other/b.png"),
        Ok("a.jpg".to_string())
    );
}

#[test]
fn file_name_handles_non_ascii() {
    assert_eq!(
        file_name("https://pbs.example.com/média/naïve.jpg?x=é"),
        Ok("naïve.jpg".to_string())
    );
}

#[test]
fn address_without_path_segment_is_rejected() {
    assert_eq!(file_name("https://pbs.example.com"), Err(UrlParseError::NoPathSegment));
    assert_eq!(file_name("https://pbs.example.com/"), Err(UrlParseError::NoPathSegment));
    assert_eq!(file_name("https://pbs.example.com/media/"), Err(UrlParseError::NoPathSegment));
    assert_eq!(file_name("https://pbs.example.com/m/?a.jpg"), Err(UrlParseError::NoPathSegment));
    assert_eq!(file_name("a.jpg"), Err(UrlParseError::NoPathSegment));
    assert_eq!(file_name(""), Err(UrlParseError::NoPathSegment));
    assert_eq!(file_name("?"), Err(UrlParseError::NoPathSegment));
    assert_eq!(file_name("://"), Err(UrlParseError::NoPathSegment));
}

#[test]
fn extension_is_what_follows_the_last_dot() {
    assert_eq!(extension("abcXYZ.jpg"), Ok("jpg".to_string()));
    assert_eq!(extension("archive.tar.gz"), Ok("gz".to_string()));
    assert_eq!(extension(".hidden"), Ok("hidden".to_string()));
}

#[test]
fn name_without_extension_is_rejected() {
    assert_eq!(extension("abcXYZ"), Err(UrlParseError::NoExtension));
    assert_eq!(extension("abcXYZ."), Err(UrlParseError::NoExtension));
    assert_eq!(extension(".."), Err(UrlParseError::NoExtension));
    assert_eq!(extension(""), Err(UrlParseError::NoExtension));
}

#[test]
fn image_request_asks_for_full_size() {
    let jpg = DownloadPlan::for_url("https://pbs.example.com/media/abcXYZ.jpg").unwrap();
    assert_eq!(jpg.file_name, "abcXYZ.jpg");
    let request = jpg.request.unwrap();
    assert_eq!(request.url, "https://pbs.example.com/media/abcXYZ.jpg");
    assert_eq!(request.params.as_ref().map(|list| list.len()), Some(2));
    assert_eq!(param(&request, "format"), Some("jpg"));
    assert_eq!(param(&request, "name"), Some("orig"));
    let png = DownloadPlan::for_url("https://pbs.example.com/media/shot.png").unwrap();
    assert_eq!(png.file_name, "shot.png");
    let request = png.request.unwrap();
    assert_eq!(request.params.as_ref().map(|list| list.len()), Some(2));
    assert_eq!(param(&request, "format"), Some("png"));
    assert_eq!(param(&request, "name"), Some("orig"));
}

#[test]
fn stream_request_has_no_parameters() {
    let plan = DownloadPlan::for_url("https://video.example.com/v/720.mp4?tag=12").unwrap();
    assert_eq!(plan.file_name, "720.mp4");
    let request = plan.request.unwrap();
    assert_eq!(request.url, "https://video.example.com/v/720.mp4?tag=12");
    assert!(request.params.is_none());
}

#[test]
fn extension_is_compared_exactly() {
    let plan = DownloadPlan::for_url("https://video.example.com/v/720.MP4").unwrap();
    assert_eq!(plan.file_name, "720.MP4");
    let request = plan.request.unwrap();
    assert_eq!(request.params.as_ref().map(|list| list.len()), Some(2));
    assert_eq!(param(&request, "format"), Some("MP4"));
    assert_eq!(param(&request, "name"), Some("orig"));
}

#[test]
fn address_without_file_name_has_no_plan() {
    assert_eq!(
        DownloadPlan::for_url("https://pbs.example.com").err(),
        Some(UrlParseError::NoPathSegment)
    );
    assert_eq!(
        DownloadPlan::for_url("https://pbs.example.com/media/").err(),
        Some(UrlParseError::NoPathSegment)
    );
}

#[test]
fn name_without_extension_has_a_plan_but_no_request() {
    let plan = DownloadPlan::for_url("https://pbs.example.com/media/abcXYZ").unwrap();
    assert_eq!(plan.file_name, "abcXYZ");
    assert_eq!(plan.request.err(), Some(UrlParseError::NoExtension));
}

#[test]
fn failed_selection_fails_before_anything_is_looked_for() {
    let empty = MediaReference { kind: MediaKind::Video, source: Err(SelectionError::NoVariants) };
    assert_eq!(DownloadPlan::for_reference(&empty).err(), Some(DownloadError::Selection));
    let suspect = MediaReference {
        kind: MediaKind::Video,
        source: Err(SelectionError::NoQualifyingVariant {
            fallback: "https://video.example.com/v/pl.m3u8".to_string(),
        }),
    };
    assert_eq!(DownloadPlan::for_reference(&suspect).err(), Some(DownloadError::Selection));
    let (state, plan) = Downloader::start(&suspect);
    assert_eq!(state, Downloader::Finished(DownloadOutcome::Failed(DownloadError::Selection)));
    assert!(plan.is_none());
}

#[test]
fn address_without_file_name_fails_at_once() {
    let r = MediaReference {
        kind: MediaKind::Photo,
        source: Ok("https://pbs.example.com/media/".to_string()),
    };
    assert_eq!(
        DownloadPlan::for_reference(&r).err(),
        Some(DownloadError::UrlParse(UrlParseError::NoPathSegment))
    );
    let (state, plan) = Downloader::start(&r);
    assert_eq!(
        state,
        Downloader::Finished(DownloadOutcome::Failed(DownloadError::UrlParse(
            UrlParseError::NoPathSegment
        )))
    );
    assert!(plan.is_none());
}

#[test]
fn present_file_without_extension_is_skipped() {
    let r = MediaReference {
        kind: MediaKind::Photo,
        source: Ok("https://pbs.example.com/media/abcXYZ".to_string()),
    };
    let (state, plan) = Downloader::start(&r);
    assert_eq!(state, Downloader::Probing { fetchable: false });
    assert_eq!(plan.map(|p| p.file_name), Some("abcXYZ".to_string()));
    assert_eq!(
        state.advance(DownloadEvent::Probed { present: true }),
        Downloader::Finished(DownloadOutcome::Skipped)
    );
}

#[test]
fn missing_file_without_extension_fails_without_fetching() {
    let r = MediaReference {
        kind: MediaKind::Photo,
        source: Ok("https://pbs.example.com/media/abcXYZ".to_string()),
    };
    let (state, _) = Downloader::start(&r);
    assert_eq!(
        state.advance(DownloadEvent::Probed { present: false }),
        Downloader::Finished(DownloadOutcome::Failed(DownloadError::UrlParse(
            UrlParseError::NoExtension
        )))
    );
}

#[test]
fn download_starts_by_probing() {
    let r = MediaReference {
        kind: MediaKind::Photo,
        source: Ok("https://pbs.example.com/media/a.jpg".to_string()),
    };
    let (state, plan) = Downloader::start(&r);
    assert_eq!(state, Downloader::Probing { fetchable: true });
    assert_eq!(state.outcome(), None);
    let plan = plan.unwrap();
    assert_eq!(plan.file_name, "a.jpg");
    let request = plan.request.unwrap();
    assert_eq!(request.url, "https://pbs.example.com/media/a.jpg");
    assert_eq!(param(&request, "format"), Some("jpg"));
    assert_eq!(param(&request, "name"), Some("orig"));
}

#[test]
fn present_file_is_skipped_without_fetching() {
    let begun = Downloader::Probing { fetchable: true };
    let state = begun.advance(DownloadEvent::Probed { present: true });
    assert_eq!(state, Downloader::Finished(DownloadOutcome::Skipped));
    assert_eq!(state.outcome(), Some(DownloadOutcome::Skipped));
    let later = state
        .advance(DownloadEvent::Probed { present: false })
        .advance(DownloadEvent::Fetched { ok: true })
        .advance(DownloadEvent::Stored { ok: true });
    assert_eq!(later, Downloader::Finished(DownloadOutcome::Skipped));
}

#[test]
fn absent_file_is_fetched_then_stored() {
    let begun = Downloader::Probing { fetchable: true };
    let fetching = begun.advance(DownloadEvent::Probed { present: false });
    assert_eq!(fetching, Downloader::Fetching);
    let storing = fetching.advance(DownloadEvent::Fetched { ok: true });
    assert_eq!(storing, Downloader::Storing);
    let done = storing.advance(DownloadEvent::Stored { ok: true });
    assert_eq!(done, Downloader::Finished(DownloadOutcome::Succeeded));
    assert_eq!(done.outcome(), Some(DownloadOutcome::Succeeded));
}

#[test]
fn failed_fetch_and_failed_write_are_told_apart() {
    assert_eq!(
        Downloader::Fetching.advance(DownloadEvent::Fetched { ok: false }),
        Downloader::Finished(DownloadOutcome::Failed(DownloadError::Fetch))
    );
    assert_eq!(
        Downloader::Storing.advance(DownloadEvent::Stored { ok: false }),
        Downloader::Finished(DownloadOutcome::Failed(DownloadError::Storage))
    );
}

#[test]
fn events_out_of_turn_change_nothing() {
    let begun = Downloader::Probing { fetchable: false };
    assert_eq!(begun.advance(DownloadEvent::Fetched { ok: true }), begun);
    assert_eq!(begun.advance(DownloadEvent::Stored { ok: true }), begun);
    assert_eq!(
        Downloader::Fetching.advance(DownloadEvent::Probed { present: true }),
        Downloader::Fetching
    );
    assert_eq!(
        Downloader::Fetching.advance(DownloadEvent::Stored { ok: false }),
        Downloader::Fetching
    );
    assert_eq!(
        Downloader::Storing.advance(DownloadEvent::Fetched { ok: false }),
        Downloader::Storing
    );
}

#[test]
fn summary_counts_what_did_not_fail() {
    let outcomes = vec![
        DownloadOutcome::Succeeded,
        DownloadOutcome::Failed(DownloadError::Fetch),
        DownloadOutcome::Skipped,
        DownloadOutcome::Failed(DownloadError::Selection),
        DownloadOutcome::Succeeded,
    ];
    assert_eq!(summarize(&outcomes), Summary { completed: 3, total: 5 });
    assert_eq!(summarize(&Vec::new()), Summary { completed: 0, total: 0 });
    assert!(DownloadOutcome::Skipped.is_completed());
    assert!(!DownloadOutcome::Failed(DownloadError::Storage).is_completed());
}

#[test]
fn summary_counts_beyond_a_byte() {
    let outcomes = vec![DownloadOutcome::Succeeded; 300];
    assert_eq!(summarize(&outcomes), Summary { completed: 300, total: 300 });
}

#[test]
fn ceiling_is_fifty() {
    assert_eq!(CONCURRENT_DOWNLOAD_REQUESTS, 50);
}

#[test]
fn summary_does_not_depend_on_order() {
    let one = vec![
        DownloadOutcome::Succeeded,
        DownloadOutcome::Failed(DownloadError::Fetch),
        DownloadOutcome::Skipped,
    ];
    let other = vec![
        DownloadOutcome::Skipped,
        DownloadOutcome::Succeeded,
        DownloadOutcome::Failed(DownloadError::Fetch),
    ];
    assert_eq!(summarize(&one), summarize(&other));
    assert_eq!(summarize(&one), Summary { completed: 2, total: 3 });
}

#[test]
fn four_downloads_without_failure_count_four_of_four() {
    let outcomes = vec![
        DownloadOutcome::Succeeded,
        DownloadOutcome::Succeeded,
        DownloadOutcome::Succeeded,
        DownloadOutcome::Succeeded,
    ];
    assert_eq!(summarize(&outcomes), Summary { completed: 4, total: 4 });
}
