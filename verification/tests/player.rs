use frontend::media::{MediaItem, ResolvedEmbed};
use frontend::player::{
    container_class, current_video_id, embed_view, link_meta, panel_title, replies_text, resolve_failure,
    resolve_plan, resolved_embed, show_back_button, Comment, CommentBox, EmbedView, PostReply, ResolvePlan,
};

fn item(platform: &str, id: &str) -> MediaItem {
    MediaItem {
        platform: platform.to_string(),
        video_id: id.to_string(),
        title: "title".to_string(),
        thumbnail: String::new(),
        duration: None,
        channel: None,
        original_url: None,
    }
}

fn comment(id: &str) -> Comment {
    Comment {
        id: id.to_string(),
        author: "a".to_string(),
        author_profile_image: String::new(),
        author_channel_id: String::new(),
        text: "hi".to_string(),
        like_count: 0,
        published_at: String::new(),
        reply_count: 0,
    }
}

#[test]
fn resolve_plans_by_platform() {
    assert_eq!(resolve_plan(&item("youtube", "x")), ResolvePlan::Direct);
    assert_eq!(
        resolve_plan(&item("tiktok", "123")),
        ResolvePlan::Resolve {
            url: "https://www.tiktok.com/@user/video/123".to_string(),
            endpoint: "/api/tiktok/resolve".to_string(),
            is_vertical: true,
        }
    );
    assert_eq!(
        resolve_plan(&item("instagram", "abc")),
        ResolvePlan::Resolve {
            url: "https://www.instagram.com/reel/abc/".to_string(),
            endpoint: "/api/instagram/resolve".to_string(),
            is_vertical: true,
        }
    );
    let mut tw = item("twitter", "9");
    tw.original_url = Some("https://x.com/a/status/9".to_string());
    assert_eq!(
        resolve_plan(&tw),
        ResolvePlan::Resolve {
            url: "https://x.com/a/status/9".to_string(),
            endpoint: "/api/twitter/resolve".to_string(),
            is_vertical: false,
        }
    );
    assert_eq!(
        resolve_plan(&item("vimeo", "42")),
        ResolvePlan::Embed(ResolvedEmbed { embed_url: "https://player.vimeo.com/video/42".to_string(), is_vertical: false })
    );
}

#[test]
fn resolved_embeds_fall_back() {
    let e = resolved_embed(None, "fallback".to_string(), true);
    assert_eq!(e, ResolvedEmbed { embed_url: "fallback".to_string(), is_vertical: true });
    let e = resolved_embed(Some("u".to_string()), "fallback".to_string(), false);
    assert_eq!(e.embed_url, "u");
    assert_eq!(resolve_failure("timeout"), "Failed to load video: timeout");
}

#[test]
fn embed_views() {
    let yt = item("youtube", "abc");
    assert_eq!(
        embed_view(&yt, &None, true),
        EmbedView::Frame { url: "https://www.youtube.com/embed/abc?autoplay=0".to_string(), vertical: false }
    );
    let tt = item("tiktok", "1");
    assert_eq!(embed_view(&tt, &None, true), EmbedView::Loading);
    assert_eq!(
        embed_view(&tt, &None, false),
        EmbedView::Frame { url: "https://www.tiktok.com/embed/v2/1".to_string(), vertical: true }
    );
    let r = Some(ResolvedEmbed { embed_url: "r".to_string(), is_vertical: false });
    assert_eq!(embed_view(&tt, &r, true), EmbedView::Frame { url: "r".to_string(), vertical: false });
    assert_eq!(container_class(true), "media-embed-container vertical");
    assert_eq!(container_class(false), "media-embed-container");
}

#[test]
fn panel_titles_and_back_button() {
    let one = vec![item("tiktok", "1")];
    let two = vec![item("youtube", "1"), item("vimeo", "2")];
    assert_eq!(panel_title(true, &one), "Now Playing");
    assert_eq!(panel_title(false, &one), "TikTok Video");
    assert_eq!(panel_title(false, &vec![item("youtube", "1")]), "YouTube Video");
    assert_eq!(panel_title(false, &vec![item("vimeo", "1")]), "Video");
    assert_eq!(panel_title(false, &two), "Search Results");
    assert!(show_back_button(true, 2, true));
    assert!(!show_back_button(true, 1, true));
    assert!(!show_back_button(false, 2, true));
    assert_eq!(current_video_id(&two, true, 0), Some("1".to_string()));
    assert_eq!(current_video_id(&two, true, 1), None);
    assert_eq!(current_video_id(&two, false, 0), None);
    assert_eq!(current_video_id(&two, true, 5), None);
    let mut m = item("youtube", "1");
    assert_eq!(link_meta(&m), "youtube");
    m.duration = Some("3:10".to_string());
    assert_eq!(link_meta(&m), "youtube - 3:10");
    assert_eq!(replies_text(0), None);
    assert_eq!(replies_text(4), Some("4 replies".to_string()));
}

#[test]
fn comment_box_flow() {
    let mut b = CommentBox::new();
    let vid = Some("v1".to_string());
    assert!(!b.on_video(&vid, false));
    assert!(b.on_video(&vid, true));
    assert!(b.loading);
    b.on_comments(Some(vec![comment("c1")]));
    assert!(!b.loading);
    assert_eq!(b.comments.len(), 1);
    b.set_text("   ".to_string());
    assert_eq!(b.submit(&vid), None);
    b.set_text(" nice ".to_string());
    assert!(b.can_post());
    assert_eq!(b.submit(&None), None);
    assert_eq!(b.submit(&vid), Some(("v1".to_string(), " nice ".to_string())));
    assert!(b.posting);
    assert!(!b.can_post());
    b.on_posted(PostReply::Posted(comment("c2")));
    assert_eq!(b.comments[0].id, "c2");
    assert_eq!(b.text, "");
    b.on_posted(PostReply::Refused(None));
    assert_eq!(b.error, Some("Failed to post comment".to_string()));
    b.on_posted(PostReply::Refused(Some("Quota".to_string())));
    assert_eq!(b.error, Some("Quota".to_string()));
    b.on_posted(PostReply::Unreachable("offline".to_string()));
    assert_eq!(b.error, Some("Network error: offline".to_string()));
    assert!(!b.on_video(&None, true));
    assert!(b.comments.is_empty());
}

#[test]
fn likes_flip_when_taken() {
    let mut b = CommentBox::new();
    let vid = Some("v".to_string());
    assert_eq!(b.press_like(&None), None);
    assert_eq!(b.press_like(&vid), Some("like"));
    assert!(b.liking);
    b.on_rated(false, true);
    assert!(b.liked);
    assert!(!b.liking);
    assert_eq!(b.press_like(&vid), Some("none"));
    b.on_rated(true, false);
    assert!(b.liked);
}
