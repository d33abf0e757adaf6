use favsync::bitrate::{SelectionError, Variant};
use favsync::media::{downloads, extract_media, MediaEntry, MediaKind, MediaReference, Post};

fn entry(label: &str, url: &str, variants: Vec<Variant>) -> MediaEntry {
    MediaEntry { label: label.to_string(), url: url.to_string(), variants }
}

fn stream(content_type: &str, bitrate: u64, url: &str) -> Variant {
    Variant {
        content_type: Some(content_type.to_string()),
        bitrate: Some(bitrate),
        url: url.to_string(),
    }
}

fn reference(kind: MediaKind, url: &str) -> MediaReference {
    MediaReference { kind, source: Ok(url.to_string()) }
}

#[test]
fn post_without_media_yields_nothing() {
    let posts = vec![Post { id: 7, media: None }];
    assert_eq!(extract_media(&posts), Vec::<MediaReference>::new());
}

#[test]
fn post_with_empty_media_yields_nothing() {
    let posts = vec![Post { id: 7, media: Some(Vec::new()) }];
    assert_eq!(extract_media(&posts), Vec::<MediaReference>::new());
}

#[test]
fn photo_yields_itself() {
    let posts = vec![Post {
        id: 1,
        media: Some(vec![entry("photo", "https://pbs.example.com/media/a.jpg", Vec::new())]),
    }];
    assert_eq!(
        extract_media(&posts),
        vec![reference(MediaKind::Photo, "https://pbs.example.com/media/a.jpg")]
    );
}

#[test]
fn video_yields_thumbnail_then_stream() {
    let posts = vec![Post {
        id: 1,
        media: Some(vec![entry(
            "video",
            "https://pbs.example.com/thumb/v.jpg",
            vec![
                stream("video/mp4", 100, "https://video.example.com/v/low.mp4"),
                stream("application/x-mpegURL", 999, "https://video.example.com/v/pl.m3u8"),
                stream("video/mp4", 500, "https://video.example.com/v/high.mp4"),
            ],
        )]),
    }];
    assert_eq!(
        extract_media(&posts),
        vec![
            reference(MediaKind::Photo, "https://pbs.example.com/thumb/v.jpg"),
            reference(MediaKind::Video, "https://video.example.com/v/high.mp4"),
        ]
    );
}

#[test]
fn video_without_encodings_keeps_thumbnail_and_fails_stream() {
    let posts = vec![Post {
        id: 1,
        media: Some(vec![entry("video", "https://pbs.example.com/thumb/v.jpg", Vec::new())]),
    }];
    assert_eq!(
        extract_media(&posts),
        vec![
            reference(MediaKind::Photo, "https://pbs.example.com/thumb/v.jpg"),
            MediaReference { kind: MediaKind::Video, source: Err(SelectionError::NoVariants) },
        ]
    );
}

#[test]
fn video_of_manifests_only_carries_the_fallback_as_error() {
    let posts = vec![Post {
        id: 1,
        media: Some(vec![entry(
            "video",
            "https://pbs.example.com/thumb/v.jpg",
            vec![stream("application/x-mpegURL", 1, "https://video.example.com/v/pl.m3u8")],
        )]),
    }];
    let references = extract_media(&posts);
    assert_eq!(references.len(), 2);
    assert_eq!(
        references[1].source,
        Err(SelectionError::NoQualifyingVariant {
            fallback: "https://video.example.com/v/pl.m3u8".to_string()
        })
    );
}

#[test]
fn animated_and_unknown_kinds_are_marked_and_not_fetched() {
    let posts = vec![Post {
        id: 1,
        media: Some(vec![
            entry("animated_gif", "https://pbs.example.com/tweet_video_thumb/g.jpg", Vec::new()),
            entry("hologram", "https://pbs.example.com/media/h.bin", Vec::new()),
        ]),
    }];
    let references = extract_media(&posts);
    assert_eq!(
        references,
        vec![
            reference(MediaKind::AnimatedImage, "https://pbs.example.com/tweet_video_thumb/g.jpg"),
            reference(MediaKind::Unsupported, "https://pbs.example.com/media/h.bin"),
        ]
    );
    assert_eq!(downloads(&references), Vec::<MediaReference>::new());
}

#[test]
fn order_of_posts_and_entries_is_kept() {
    let posts = vec![
        Post {
            id: 30,
            media: Some(vec![
                entry("photo", "https://pbs.example.com/media/a.jpg", Vec::new()),
                entry("photo", "https://pbs.example.com/media/b.jpg", Vec::new()),
            ]),
        },
        Post { id: 20, media: None },
        Post {
            id: 10,
            media: Some(vec![entry("photo", "https://pbs.example.com/media/c.jpg", Vec::new())]),
        },
    ];
    assert_eq!(
        extract_media(&posts),
        vec![
            reference(MediaKind::Photo, "https://pbs.example.com/media/a.jpg"),
            reference(MediaKind::Photo, "https://pbs.example.com/media/b.jpg"),
            reference(MediaKind::Photo, "https://pbs.example.com/media/c.jpg"),
        ]
    );
}

#[test]
fn downloads_keep_photos_and_videos_in_order() {
    let references = vec![
        reference(MediaKind::Photo, "https://pbs.example.com/media/a.jpg"),
        reference(MediaKind::Unsupported, "https://pbs.example.com/media/x.bin"),
        MediaReference { kind: MediaKind::Video, source: Err(SelectionError::NoVariants) },
        reference(MediaKind::AnimatedImage, "https://pbs.example.com/media/g.jpg"),
        reference(MediaKind::Video, "https://video.example.com/v.mp4"),
    ];
    assert_eq!(
        downloads(&references),
        vec![
            reference(MediaKind::Photo, "https://pbs.example.com/media/a.jpg"),
            MediaReference { kind: MediaKind::Video, source: Err(SelectionError::NoVariants) },
            reference(MediaKind::Video, "https://video.example.com/v.mp4"),
        ]
    );
}

#[test]
fn labels_map_to_kinds() {
    assert_eq!(MediaKind::from_label("photo"), MediaKind::Photo);
    assert_eq!(MediaKind::from_label("video"), MediaKind::Video);
    assert_eq!(MediaKind::from_label("animated_gif"), MediaKind::AnimatedImage);
    assert_eq!(MediaKind::from_label("Photo"), MediaKind::Unsupported);
    assert_eq!(MediaKind::from_label(""), MediaKind::Unsupported);
    assert!(MediaKind::Photo.is_downloadable());
    assert!(MediaKind::Video.is_downloadable());
    assert!(!MediaKind::AnimatedImage.is_downloadable());
    assert!(!MediaKind::Unsupported.is_downloadable());
}

#[test]
fn duplicate_is_equal() {
    let a = reference(MediaKind::Photo, "https://pbs.example.com/media/a.jpg");
    assert_eq!(a.duplicate(), a);
    let b = MediaReference {
        kind: MediaKind::Video,
        source: Err(SelectionError::NoQualifyingVariant { fallback: "x".to_string() }),
    };
    assert_eq!(b.duplicate(), b);
}
