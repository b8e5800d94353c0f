use vstd::prelude::*;
use crate::media::{embed_url_of, text_opt, MediaItem, ResolvedEmbed};
use crate::text::{chars_of, dec, dec_chars, extend_str, is_text, string_of, trim, trimmed};

verus! {

// ---------------------------------------------------------------------------
// Server answers the player reads
// ---------------------------------------------------------------------------

/// A YouTube comment.
#[derive(Debug, Clone, PartialEq)]
pub struct Comment {
    pub id: String,
    pub author: String,
    pub author_profile_image: String,
    pub author_channel_id: String,
    pub text: String,
    pub like_count: u64,
    pub published_at: String,
    pub reply_count: u32,
}

/// A page of comments.
#[derive(Debug, Clone, PartialEq)]
pub struct CommentsResponse {
    pub comments: Vec<Comment>,
    pub next_page_token: Option<String>,
    pub total_results: u32,
}

/// A comment to post.
#[derive(Debug, Clone, PartialEq)]
pub struct CommentRequest {
    pub text: String,
}

/// A resolved TikTok embed.
#[derive(Debug, Clone, PartialEq)]
pub struct TikTokEmbedResponse {
    pub video_id: String,
    pub embed_url: String,
    pub title: String,
    pub author: String,
    pub thumbnail_url: Option<String>,
}

/// A resolved Rumble embed.
#[derive(Debug, Clone, PartialEq)]
pub struct RumbleEmbedResponse {
    pub video_id: String,
    pub embed_url: String,
}

/// A resolved Instagram embed.
#[derive(Debug, Clone, PartialEq)]
pub struct InstagramEmbedResponse {
    pub post_id: String,
    pub embed_url: String,
    pub author: Option<String>,
}

/// A resolved Twitter embed.
#[derive(Debug, Clone, PartialEq)]
pub struct TwitterEmbedResponse {
    pub tweet_id: String,
    pub embed_url: String,
    pub author: Option<String>,
}

/// A resolved Streamable embed.
#[derive(Debug, Clone, PartialEq)]
pub struct StreamableEmbedResponse {
    pub video_id: String,
    pub embed_url: String,
}

/// A resolved Dailymotion embed.
#[derive(Debug, Clone, PartialEq)]
pub struct DailymotionEmbedResponse {
    pub video_id: String,
    pub embed_url: String,
}

/// A resolved Vimeo embed.
#[derive(Debug, Clone, PartialEq)]
pub struct VimeoEmbedResponse {
    pub video_id: String,
    pub embed_url: String,
}

// ---------------------------------------------------------------------------
// Resolving embeds
// ---------------------------------------------------------------------------

/// The platforms whose embeds the server resolves from a page URL.
pub open spec fn resolvable(p: Seq<char>) -> bool {
    p == "tiktok"@ || p == "rumble"@ || p == "instagram"@ || p == "twitter"@ || p == "streamable"@
}

/// The endpoint that resolves a platform's page URL.
pub open spec fn endpoint_of(p: Seq<char>) -> Seq<char> {
    "/api/"@ + p + "/resolve"@
}

/// The page URL a video is resolved from: its original URL, or one made from
/// its id.
pub open spec fn page_url_of(p: Seq<char>, id: Seq<char>, original: Option<Seq<char>>) -> Seq<char> {
    match original {
        Some(u) => u,
        None => if p == "tiktok"@ {
            "https://www.tiktok.com/@user/video/"@ + id
        } else if p == "rumble"@ {
            "https://rumble.com/"@ + id
        } else if p == "instagram"@ {
            "https://www.instagram.com/reel/"@ + id + seq!['/']
        } else if p == "twitter"@ {
            "https://twitter.com/i/status/"@ + id
        } else {
            "https://streamable.com/"@ + id
        },
    }
}

/// TikTok and Instagram videos are vertical.
pub open spec fn vertical_of(p: Seq<char>) -> bool {
    p == "tiktok"@ || p == "instagram"@
}

/// How the player gets a video's embed.
#[derive(Debug, Clone, PartialEq)]
pub enum ResolvePlan {
    /// YouTube embeds directly.
    Direct,
    /// Ask `endpoint` to resolve `url`.
    Resolve { url: String, endpoint: String, is_vertical: bool },
    /// Play this embed as it is.
    Embed(ResolvedEmbed),
}

/// How the player gets the embed for `item`: YouTube directly, the resolvable
/// platforms through the server, any other by its embed URL, horizontally.
pub fn resolve_plan(item: &MediaItem) -> (plan: ResolvePlan)
    ensures
        item.platform@ == "youtube"@ ==> plan is Direct,
        item.platform@ != "youtube"@ && resolvable(item.platform@) ==> (plan matches ResolvePlan::Resolve {
            url,
            endpoint,
            is_vertical,
        } && url@ == page_url_of(item.platform@, item.video_id@, text_opt(item.original_url))
            && endpoint@ == endpoint_of(item.platform@) && is_vertical == vertical_of(item.platform@)),
        item.platform@ != "youtube"@ && !resolvable(item.platform@) ==> (plan matches ResolvePlan::Embed(e)
            && e.embed_url@ == embed_url_of(item.platform@, item.video_id@) && !e.is_vertical),
{
    let p = item.platform.as_str();
    if is_text(p, "youtube") {
        return ResolvePlan::Direct;
    }
    proof {
        reveal_strlit("tiktok");
        reveal_strlit("rumble");
        reveal_strlit("instagram");
        reveal_strlit("twitter");
        reveal_strlit("streamable");
        assert("tiktok"@[0] != "rumble"@[0] && "tiktok"@[0] != "instagram"@[0] && "tiktok"@[1] != "twitter"@[1]);
        assert("rumble"@[0] != "instagram"@[0] && "rumble"@[0] != "twitter"@[0]);
        assert("instagram"@[0] != "twitter"@[0]);
        assert("streamable"@[0] != "tiktok"@[0] && "streamable"@[0] != "rumble"@[0]);
        assert("streamable"@[0] != "instagram"@[0] && "streamable"@[0] != "twitter"@[0]);
    }
    let tiktok = is_text(p, "tiktok");
    let rumble = is_text(p, "rumble");
    let instagram = is_text(p, "instagram");
    let twitter = is_text(p, "twitter");
    let streamable = is_text(p, "streamable");
    if !(tiktok || rumble || instagram || twitter || streamable) {
        return ResolvePlan::Embed(ResolvedEmbed { embed_url: item.embed_url(), is_vertical: false });
    }
    let id = item.video_id.as_str();
    let url = match &item.original_url {
        Some(u) => u.clone(),
        None => {
            let mut v = chars_of(
                if tiktok {
                    "https://www.tiktok.com/@user/video/"
                } else if rumble {
                    "https://rumble.com/"
                } else if instagram {
                    "https://www.instagram.com/reel/"
                } else if twitter {
                    "https://twitter.com/i/status/"
                } else {
                    "https://streamable.com/"
                },
            );
            extend_str(&mut v, id);
            if instagram {
                v.push('/');
            }
            string_of(v.as_slice())
        },
    };
    let mut e = chars_of("/api/");
    extend_str(&mut e, p);
    extend_str(&mut e, "/resolve");
    ResolvePlan::Resolve { url, endpoint: string_of(e.as_slice()), is_vertical: tiktok || instagram }
}

/// The embed after the server answered: the URL it resolved, or the
/// platform's own embed URL when it gave none.
pub fn resolved_embed(resolved_url: Option<String>, fallback: String, is_vertical: bool) -> (e: ResolvedEmbed)
    ensures
        e.embed_url@ == match resolved_url {
            Some(u) => u@,
            None => fallback@,
        },
        e.is_vertical == is_vertical,
{
    match resolved_url {
        Some(u) => ResolvedEmbed { embed_url: u, is_vertical },
        None => ResolvedEmbed { embed_url: fallback, is_vertical },
    }
}

/// The message when the resolve request failed.
pub fn resolve_failure(reason: &str) -> (s: String)
    ensures
        s@ == "Failed to load video: "@ + reason@,
{
    let mut v = chars_of("Failed to load video: ");
    extend_str(&mut v, reason);
    string_of(v.as_slice())
}

/// What the player area shows for the playing video.
#[derive(Debug, Clone, PartialEq)]
pub enum EmbedView {
    Loading,
    Frame { url: String, vertical: bool },
}

/// What the player shows: YouTube by its embed URL; another platform by its
/// resolved embed, a loading note while resolving, else its own embed URL.
pub fn embed_view(item: &MediaItem, resolved: &Option<ResolvedEmbed>, resolving: bool) -> (v: EmbedView)
    ensures
        item.platform@ == "youtube"@ ==> (v matches EmbedView::Frame { url, vertical }
            && url@ == embed_url_of(item.platform@, item.video_id@) && !vertical),
        item.platform@ != "youtube"@ ==> match resolved {
            Some(r) => v matches EmbedView::Frame { url, vertical } && url@ == r.embed_url@ && vertical == r.is_vertical,
            None => if resolving {
                v is Loading
            } else {
                v matches EmbedView::Frame { url, vertical } && url@ == embed_url_of(item.platform@, item.video_id@)
                    && vertical == vertical_of(item.platform@)
            },
        },
{
    let p = item.platform.as_str();
    if is_text(p, "youtube") {
        return EmbedView::Frame { url: item.embed_url(), vertical: false };
    }
    match resolved {
        Some(r) => EmbedView::Frame { url: r.embed_url.clone(), vertical: r.is_vertical },
        None => if resolving {
            EmbedView::Loading
        } else {
            EmbedView::Frame { url: item.embed_url(), vertical: is_text(p, "tiktok") || is_text(p, "instagram") }
        },
    }
}

/// The class of the embed's frame.
pub fn container_class(vertical: bool) -> (s: &'static str)
    ensures
        s@ == if vertical { "media-embed-container vertical"@ } else { "media-embed-container"@ },
{
    if vertical { "media-embed-container vertical" } else { "media-embed-container" }
}

// ---------------------------------------------------------------------------
// The panel
// ---------------------------------------------------------------------------

/// The YouTube video being played, if one is.
pub fn current_video_id(items: &Vec<MediaItem>, playing: bool, index: usize) -> (id: Option<String>)
    ensures
        match id {
            Some(v) => playing && index < items.len() && items@[index as int].platform@ == "youtube"@
                && v@ == items@[index as int].video_id@,
            None => !(playing && index < items.len() && items@[index as int].platform@ == "youtube"@),
        },
{
    if playing && index < items.len() && is_text(items[index].platform.as_str(), "youtube") {
        Some(items[index].video_id.clone())
    } else {
        None
    }
}

/// The panel's title.
pub open spec fn panel_title_of(playing: bool, items: Seq<MediaItem>) -> Seq<char> {
    if playing {
        "Now Playing"@
    } else if items.len() == 1 {
        if items[0].platform@ == "youtube"@ {
            "YouTube Video"@
        } else if items[0].platform@ == "tiktok"@ {
            "TikTok Video"@
        } else {
            "Video"@
        }
    } else {
        "Search Results"@
    }
}

/// The panel's title.
pub fn panel_title(playing: bool, items: &Vec<MediaItem>) -> (s: &'static str)
    ensures
        s@ == panel_title_of(playing, items@),
{
    if playing {
        "Now Playing"
    } else if items.len() == 1 {
        let p = items[0].platform.as_str();
        if is_text(p, "youtube") {
            "YouTube Video"
        } else if is_text(p, "tiktok") {
            "TikTok Video"
        } else {
            "Video"
        }
    } else {
        "Search Results"
    }
}

/// The back button shows while one of several results plays and there is
/// somewhere to go back to.
pub fn show_back_button(playing: bool, count: usize, has_back: bool) -> (b: bool)
    ensures
        b == (playing && count > 1 && has_back),
{
    playing && count > 1 && has_back
}

/// The line under a single linked video: its platform, and its length when known.
pub fn link_meta(item: &MediaItem) -> (s: String)
    ensures
        s@ == match item.duration {
            Some(d) => item.platform@ + " - "@ + d@,
            None => item.platform@,
        },
{
    match &item.duration {
        Some(d) => {
            let mut v = chars_of(item.platform.as_str());
            extend_str(&mut v, " - ");
            extend_str(&mut v, d.as_str());
            string_of(v.as_slice())
        },
        None => item.platform.clone(),
    }
}

/// The reply count under a comment, shown only when there are replies.
pub fn replies_text(count: u32) -> (s: Option<String>)
    ensures
        count == 0 ==> s is None,
        count > 0 ==> text_opt(s) == Some(dec(count as nat) + " replies"@),
{
    if count == 0 {
        None
    } else {
        let mut v = dec_chars(count as u64);
        extend_str(&mut v, " replies");
        Some(string_of(v.as_slice()))
    }
}

// ---------------------------------------------------------------------------
// Comments and likes
// ---------------------------------------------------------------------------

/// How the server answered a posted comment.
#[derive(Debug, Clone)]
pub enum PostReply {
    /// Posted, and this is the comment as stored.
    Posted(Comment),
    /// Posted, but the answer could not be read.
    PostedUnreadable,
    /// Refused, with the server's error text when its answer had one.
    Refused(Option<String>),
    /// Refused, and the answer could not be read.
    RefusedUnreadable,
    /// The request did not reach the server, for this reason.
    Unreachable(String),
}

/// Comments and the like button under a playing YouTube video.
#[derive(Debug, Clone)]
pub struct CommentBox {
    pub comments: Vec<Comment>,
    pub loading: bool,
    /// The comment as typed.
    pub text: String,
    pub posting: bool,
    pub error: Option<String>,
    pub liked: bool,
    pub liking: bool,
}

impl CommentBox {
    /// An empty comment box.
    pub fn new() -> (b: Self)
        ensures
            b.comments@.len() == 0 && !b.loading && b.text@.len() == 0 && !b.posting,
            b.error is None && !b.liked && !b.liking,
    {
        CommentBox {
            comments: Vec::new(),
            loading: false,
            text: String::new(),
            posting: false,
            error: None,
            liked: false,
            liking: false,
        }
    }

    /// The playing video changed to `video`: comments are fetched for a
    /// YouTube video when YouTube is connected (returns whether to fetch), and
    /// cleared when no YouTube video plays.
    pub fn on_video(&mut self, video: &Option<String>, connected: bool) -> (fetch: bool)
        ensures
            fetch == (video is Some && connected),
            fetch ==> *final(self) == (CommentBox { loading: true, liked: false, ..*old(self) }),
            video is Some && !connected ==> *final(self) == *old(self),
            video is None ==> *final(self) == (CommentBox { comments: final(self).comments, ..*old(self) })
                && final(self).comments@.len() == 0,
    {
        match video {
            Some(_) => {
                if connected {
                    self.loading = true;
                    self.liked = false;
                    true
                } else {
                    false
                }
            },
            None => {
                self.comments = Vec::new();
                false
            },
        }
    }

    /// The comments arrived (`None`: they could not be read).
    pub fn on_comments(&mut self, comments: Option<Vec<Comment>>)
        ensures
            *final(self) == (CommentBox {
                comments: match comments {
                    Some(c) => c,
                    None => old(self).comments,
                },
                loading: false,
                ..*old(self)
            }),
    {
        if let Some(c) = comments {
            self.comments = c;
        }
        self.loading = false;
    }

    /// The comment as typed.
    pub fn set_text(&mut self, text: String)
        ensures
            *final(self) == (CommentBox { text, ..*old(self) }),
    {
        self.text = text;
    }

    /// Whether the post button is enabled.
    pub fn can_post(&self) -> (b: bool)
        ensures
            b == (!self.posting && self.text@.len() > 0),
    {
        !self.posting && !self.text.as_str().is_empty()
    }

    /// The comment form was submitted while `video` plays: a blank comment, or
    /// no YouTube video, does nothing; otherwise the video and the text as typed
    /// are returned to be posted.
    pub fn submit(&mut self, video: &Option<String>) -> (post: Option<(String, String)>)
        ensures
            trim(old(self).text@).len() == 0 || video is None ==> post is None && *final(self) == *old(self),
            trim(old(self).text@).len() != 0 && video is Some ==> {
                &&& post matches Some((v, t)) && Some(v@) == text_opt(*video) && t@ == old(self).text@
                &&& *final(self) == (CommentBox { posting: true, ..*old(self) })
            },
    {
        let cs = chars_of(self.text.as_str());
        let t = trimmed(cs.as_slice());
        if t.len() == 0 {
            return None;
        }
        match video {
            Some(v) => {
                self.posting = true;
                Some((v.clone(), self.text.clone()))
            },
            None => None,
        }
    }

    /// The server answered a posted comment. A stored comment goes first and
    /// the form clears; a refusal shows the server's error, or a generic one;
    /// a network failure shows its reason; unreadable answers show nothing.
    pub fn on_posted(&mut self, reply: PostReply)
        ensures
            match reply {
                PostReply::Posted(c) => {
                    &&& *final(self) == (CommentBox {
                        comments: final(self).comments,
                        text: final(self).text,
                        error: None,
                        posting: false,
                        ..*old(self)
                    })
                    &&& final(self).comments@ == seq![c] + old(self).comments@
                    &&& final(self).text@.len() == 0
                },
                PostReply::Refused(e) => {
                    &&& *final(self) == (CommentBox { error: final(self).error, posting: false, ..*old(self) })
                    &&& text_opt(final(self).error) == Some(
                        match e {
                            Some(t) => t@,
                            None => "Failed to post comment"@,
                        },
                    )
                },
                PostReply::Unreachable(r) => {
                    &&& *final(self) == (CommentBox { error: final(self).error, posting: false, ..*old(self) })
                    &&& text_opt(final(self).error) == Some("Network error: "@ + r@)
                },
                _ => *final(self) == (CommentBox { posting: false, ..*old(self) }),
            },
    {
        match reply {
            PostReply::Posted(c) => {
                let ghost before = self.comments@;
                self.comments.insert(0, c);
                assert(self.comments@ =~= seq![c] + before);
                self.text = String::new();
                self.error = None;
            },
            PostReply::Refused(e) => {
                self.error = Some(
                    match e {
                        Some(t) => t,
                        None => "Failed to post comment".to_owned(),
                    },
                );
            },
            PostReply::Unreachable(r) => {
                let mut v = chars_of("Network error: ");
                extend_str(&mut v, r.as_str());
                self.error = Some(string_of(v.as_slice()));
            },
            _ => {},
        }
        self.posting = false;
    }

    /// The like button was pressed while `video` plays: returns the rating to
    /// send ("none" to take a like back, else "like"), or nothing without a
    /// YouTube video.
    pub fn press_like(&mut self, video: &Option<String>) -> (rating: Option<&'static str>)
        ensures
            video is None ==> rating is None && *final(self) == *old(self),
            video is Some ==> {
                &&& rating matches Some(r) && r@ == if old(self).liked { "none"@ } else { "like"@ }
                &&& *final(self) == (CommentBox { liking: true, ..*old(self) })
            },
    {
        match video {
            Some(_) => {
                self.liking = true;
                Some(if self.liked { "none" } else { "like" })
            },
            None => None,
        }
    }

    /// The server answered a rating sent while the video was `was_liked`: when
    /// taken, the like flips.
    pub fn on_rated(&mut self, was_liked: bool, ok: bool)
        ensures
            *final(self) == (CommentBox {
                liked: if ok { !was_liked } else { old(self).liked },
                liking: false,
                ..*old(self)
            }),
    {
        if ok {
            self.liked = !was_liked;
        }
        self.liking = false;
    }
}

} // verus!
