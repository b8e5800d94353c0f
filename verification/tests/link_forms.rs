use frontend::media::{
    extract_dailymotion_video_id, extract_instagram_video_id, extract_reddit_video_id,
    extract_rumble_video_id, extract_spotify_id, extract_streamable_video_id,
    extract_tiktok_video_id, extract_twitter_video_id, extract_vimeo_video_id,
    extract_youtube_video_id, MediaItem,
};

fn some(s: &str) -> Option<String> {
    Some(s.to_string())
}

#[test]
fn youtube_forms_give_back_the_id() {
    assert_eq!(extract_youtube_video_id("https://youtu.be/dQw4w9WgXcQ"), some("dQw4w9WgXcQ"));
    assert_eq!(extract_youtube_video_id("https://www.youtube.com/watch?v=dQw4w9WgXcQ"), some("dQw4w9WgXcQ"));
    assert_eq!(extract_youtube_video_id("https://www.youtube.com/embed/dQw4w9WgXcQ"), some("dQw4w9WgXcQ"));
    assert_eq!(extract_youtube_video_id("https://www.youtube.com/shorts/ab-_9"), some("ab-_9"));
    let item = MediaItem {
        platform: "youtube".to_string(),
        video_id: "dQw4w9WgXcQ".to_string(),
        title: String::new(),
        thumbnail: String::new(),
        duration: None,
        channel: None,
        original_url: None,
    };
    assert_eq!(extract_youtube_video_id(&item.embed_url()), some("dQw4w9WgXcQ"));
}

#[test]
fn tiktok_vimeo_dailymotion_forms_give_back_the_id() {
    assert_eq!(extract_tiktok_video_id("https://www.tiktok.com/@anna/video/7234"), some("7234"));
    assert_eq!(extract_tiktok_video_id("https://vm.tiktok.com/ZMabc"), some("ZMabc"));
    assert_eq!(extract_vimeo_video_id("https://vimeo.com/76979871"), some("76979871"));
    assert_eq!(extract_vimeo_video_id("https://player.vimeo.com/video/76979871"), some("76979871"));
    assert_eq!(extract_vimeo_video_id("https://vimeo.com/channels"), None);
    assert_eq!(extract_dailymotion_video_id("https://www.dailymotion.com/video/x8abc"), some("x8abc"));
    assert_eq!(extract_dailymotion_video_id("https://dai.ly/x8abc"), some("x8abc"));
}

#[test]
fn twitter_and_reddit_forms_give_back_the_id() {
    assert_eq!(extract_twitter_video_id("https://twitter.com/anna/status/1234"), some("1234"));
    assert_eq!(extract_twitter_video_id("https://x.com/anna/status/1234"), some("1234"));
    assert_eq!(extract_twitter_video_id("https://twitter.com/status/status/1234"), some("status"));
    assert_eq!(extract_reddit_video_id("https://www.reddit.com/r/rust/comments/abc12/"), some("abc12"));
    assert_eq!(extract_reddit_video_id("https://redd.it/abc12"), some("abc12"));
}

#[test]
fn rumble_instagram_streamable_spotify_forms_give_back_the_id() {
    assert_eq!(extract_rumble_video_id("https://rumble.com/v4abc-some_title.html"), some("v4abc"));
    assert_eq!(extract_rumble_video_id("https://rumble.com/embed/v4abc"), some("v4abc"));
    assert_eq!(extract_instagram_video_id("https://www.instagram.com/reel/Cxyz/"), some("Cxyz"));
    assert_eq!(extract_instagram_video_id("https://www.instagram.com/p/Cxyz/"), some("Cxyz"));
    assert_eq!(extract_instagram_video_id("https://www.instagram.com/p/reel/"), some(""));
    assert_eq!(extract_streamable_video_id("https://streamable.com/abc"), some("abc"));
    assert_eq!(extract_streamable_video_id("https://streamable.com/e/abc"), some("abc"));
    assert_eq!(extract_spotify_id("https://open.spotify.com/track/4uLU6h"), some("4uLU6h"));
    assert_eq!(extract_spotify_id("spotify:track:4uLU6h"), some("4uLU6h"));
}

#[test]
fn links_with_queries_give_back_the_id() {
    assert_eq!(extract_youtube_video_id("https://youtu.be/dQw4w9WgXcQ?t=5"), some("dQw4w9WgXcQ"));
    assert_eq!(extract_youtube_video_id("https://www.youtube.com/watch?v=dQw4w9WgXcQ&list=x"), some("dQw4w9WgXcQ"));
    assert_eq!(extract_youtube_video_id("https://www.youtube.com/embed/abc?v=3"), some("3"));
    assert_eq!(extract_tiktok_video_id("https://www.tiktok.com/@anna/video/7234?lang=en"), some("7234"));
    assert_eq!(extract_tiktok_video_id("https://www.tiktok.com/@anna"), None);
    assert_eq!(extract_vimeo_video_id("https://player.vimeo.com/video/76979871?h=1"), some("76979871"));
    assert_eq!(extract_vimeo_video_id("https://vimeo.com/channels/staffpicks"), None);
    assert_eq!(extract_rumble_video_id("https://rumble.com/embed/v4abc/"), some("v4abc"));
    assert_eq!(extract_dailymotion_video_id("https://www.dailymotion.com/video/x8abc?playlist=x"), some("x8abc"));
    assert_eq!(extract_dailymotion_video_id("https://www.dailymotion.com/"), None);
    assert_eq!(extract_instagram_video_id("https://www.instagram.com/p/Cxyz/?igsh=x"), some("Cxyz"));
    assert_eq!(extract_instagram_video_id("https://www.instagram.com/natgeo/"), None);
}

#[test]
fn twitter_reddit_streamable_spotify_full_forms() {
    assert_eq!(extract_twitter_video_id("https://x.com/anna/status/1234?s=20"), some("1234"));
    assert_eq!(extract_twitter_video_id("https://twitter.com/anna/status/1234/photo/1"), some("1234"));
    assert_eq!(extract_twitter_video_id("https://x.com/anna"), None);
    assert_eq!(extract_twitter_video_id("https://twitter.com/anna"), None);
    assert_eq!(
        extract_reddit_video_id("https://www.reddit.com/r/rust/comments/abc12/a_title_slug/"),
        some("abc12")
    );
    assert_eq!(extract_reddit_video_id("https://www.reddit.com/r/rust/comments/abc12/comments/"), some("abc12"));
    assert_eq!(extract_reddit_video_id("https://redd.it/abc12?utm=x"), some("abc12"));
    assert_eq!(extract_reddit_video_id("https://www.reddit.com/r/rust/"), None);
    assert_eq!(extract_streamable_video_id("https://streamable.com/e/abc?autoplay=1"), some("abc"));
    assert_eq!(extract_streamable_video_id("https://streamable.com/abc?t=3"), some("abc"));
    assert_eq!(extract_streamable_video_id("https://streamable.com/"), None);
    assert_eq!(extract_spotify_id("https://open.spotify.com/track/4uLU6h?si=x"), some("4uLU6h"));
    assert_eq!(extract_spotify_id("https://open.spotify.com/episode/7makk4?si=y"), some("7makk4"));
    assert_eq!(extract_spotify_id("https://open.spotify.com/"), None);
}
