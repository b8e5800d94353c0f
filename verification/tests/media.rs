use frontend::media::{
    detect_platform, extract_dailymotion_video_id, extract_instagram_video_id, extract_reddit_video_id,
    extract_rumble_video_id, extract_spotify_id, extract_streamable_video_id, extract_tiktok_video_id,
    extract_twitter_video_id, extract_video_id, extract_vimeo_video_id, extract_youtube_video_id,
    format_comment_time, MediaItem, MediaPlatform,
};

fn s(v: &str) -> Option<String> {
    Some(v.to_string())
}

#[test]
fn platforms_are_detected_case_insensitively() {
    assert_eq!(detect_platform("  HTTPS://YOUTU.BE/abc "), MediaPlatform::YouTube);
    assert_eq!(detect_platform("https://vm.tiktok.com/x"), MediaPlatform::TikTok);
    assert_eq!(detect_platform("instagram.com/reel/x"), MediaPlatform::Instagram);
    assert_eq!(detect_platform("instagram.com/stories/x"), MediaPlatform::Unknown);
    assert_eq!(detect_platform("https://x.com/a/status/1"), MediaPlatform::Twitter);
    assert_eq!(detect_platform("vimeo.com/1"), MediaPlatform::Vimeo);
    assert_eq!(detect_platform("rumble.com/v1"), MediaPlatform::Rumble);
    assert_eq!(detect_platform("dai.ly/x"), MediaPlatform::Dailymotion);
    assert_eq!(detect_platform("redd.it/x"), MediaPlatform::Reddit);
    assert_eq!(detect_platform("streamable.com/x"), MediaPlatform::Streamable);
    assert_eq!(detect_platform("spotify:track:1"), MediaPlatform::Spotify);
    assert_eq!(detect_platform("example.com"), MediaPlatform::Unknown);
}

#[test]
fn youtube_ids() {
    assert_eq!(extract_youtube_video_id("https://youtu.be/abc?t=1"), s("abc"));
    assert_eq!(extract_youtube_video_id("https://www.youtube.com/watch?v=dQw4w9WgXcQ&t=2"), s("dQw4w9WgXcQ"));
    assert_eq!(extract_youtube_video_id("https://www.youtube.com/embed/xyz#a"), s("xyz"));
    assert_eq!(extract_youtube_video_id("https://www.youtube.com/shorts/sh1"), s("sh1"));
    assert_eq!(extract_youtube_video_id("https://www.youtube.com/"), None);
}

#[test]
fn other_platform_ids() {
    assert_eq!(extract_tiktok_video_id("https://www.tiktok.com/@u/video/123/x"), s("123"));
    assert_eq!(extract_tiktok_video_id("https://vm.tiktok.com/ZM1/"), s("ZM1"));
    assert_eq!(extract_vimeo_video_id("https://vimeo.com/76979871"), s("76979871"));
    assert_eq!(extract_vimeo_video_id("https://vimeo.com/channels/x"), None);
    assert_eq!(extract_vimeo_video_id("https://player.vimeo.com/video/42?x"), s("42"));
    assert_eq!(extract_rumble_video_id("https://rumble.com/v4abc-title.html"), s("v4abc"));
    assert_eq!(extract_rumble_video_id("https://rumble.com/embed/v9/"), s("v9"));
    assert_eq!(extract_rumble_video_id("https://rumble.com/-x"), None);
    assert_eq!(extract_dailymotion_video_id("https://dai.ly/x8"), s("x8"));
    assert_eq!(extract_instagram_video_id("https://www.instagram.com/reels/C1/"), s("C1"));
    assert_eq!(extract_instagram_video_id("https://www.instagram.com/p/P2/"), s("P2"));
    assert_eq!(extract_twitter_video_id("https://twitter.com/u/status/99?s=1"), s("99"));
    assert_eq!(extract_twitter_video_id("https://twitter.com/u"), None);
    assert_eq!(extract_reddit_video_id("https://reddit.com/r/a/comments/p1/t/"), s("p1"));
    assert_eq!(extract_reddit_video_id("https://redd.it/p2"), s("p2"));
    assert_eq!(extract_streamable_video_id("https://streamable.com/e/ab"), s("ab"));
    assert_eq!(extract_streamable_video_id("https://streamable.com/cd"), s("cd"));
    assert_eq!(extract_streamable_video_id("https://streamable.com/"), None);
    assert_eq!(extract_spotify_id("spotify:track:T1"), s("T1"));
    assert_eq!(extract_spotify_id("https://open.spotify.com/album/A1?si=2"), s("A1"));
    assert_eq!(extract_spotify_id("spotify:x"), None);
}

#[test]
fn video_ids_with_platform() {
    assert_eq!(extract_video_id("https://youtu.be/abc"), Some((MediaPlatform::YouTube, "abc".to_string())));
    assert_eq!(extract_video_id("https://vimeo.com/12"), Some((MediaPlatform::Vimeo, "12".to_string())));
    assert_eq!(extract_video_id("https://example.com/v=1"), None);
}

#[test]
fn embed_and_thumbnail_urls() {
    let mut item = MediaItem {
        platform: "youtube".to_string(),
        video_id: "abc".to_string(),
        title: String::new(),
        thumbnail: String::new(),
        duration: None,
        channel: None,
        original_url: None,
    };
    assert_eq!(item.embed_url(), "https://www.youtube.com/embed/abc?autoplay=0");
    assert_eq!(item.default_thumbnail(), "https://img.youtube.com/vi/abc/mqdefault.jpg");
    item.platform = "reddit".to_string();
    assert_eq!(item.embed_url(), "https://www.redditmedia.com/mediaembed/abc?responsive=true");
    assert_eq!(item.default_thumbnail(), "");
    item.platform = "spotify".to_string();
    assert_eq!(item.embed_url(), "https://open.spotify.com/embed/track/abc?theme=0");
    item.platform = "unknown".to_string();
    assert_eq!(item.embed_url(), "");
}

#[test]
fn comment_times() {
    assert_eq!(format_comment_time("2024-03-05T10:00:00Z"), "03/05/2024");
    assert_eq!(format_comment_time(""), "");
    assert_eq!(format_comment_time("yesterday"), "yesterday");
}
