use vstd::prelude::*;
use crate::text::{
    chars_of, contains, extend_chars, extend_str, occurs, has_piece_count, is_text, lemma_earlier_pieces,
    lowercase, lowercased, nth_piece, piece, piece_after, piece_count_is, same, second_piece,
    starts, starts_with, string_of, take_until_any, trim, trimmed, until_any,
};

verus! {

/// Media platforms recognized in links.
#[derive(Debug, Clone, Copy, PartialEq, Eq, Structural)]
pub enum MediaPlatform {
    YouTube,
    TikTok,
    Instagram,
    Twitter,
    Vimeo,
    Rumble,
    Dailymotion,
    Reddit,
    Streamable,
    Spotify,
    Unknown,
}

/// A detected or searched media item.
#[derive(Debug, Clone, PartialEq)]
pub struct MediaItem {
    pub platform: String,
    pub video_id: String,
    pub title: String,
    pub thumbnail: String,
    pub duration: Option<String>,
    pub channel: Option<String>,
    /// Original URL (if available) for backend resolution.
    pub original_url: Option<String>,
}

/// Embed data resolved for a platform.
#[derive(Debug, Clone, PartialEq)]
pub struct ResolvedEmbed {
    pub embed_url: String,
    pub is_vertical: bool,
}

/// The text of an optional `String`.
pub open spec fn text_opt(o: Option<String>) -> Option<Seq<char>> {
    match o {
        Some(s) => Some(s@),
        None => None,
    }
}

// ---------------------------------------------------------------------------
// The model
// ---------------------------------------------------------------------------

/// The query delimiters that end an id.
pub open spec fn stops_query() -> Seq<char> {
    seq!['?', '&', '#']
}

/// The query delimiters and the path separator.
pub open spec fn stops_path() -> Seq<char> {
    seq!['?', '&', '#', '/']
}

/// The text after the first `key` up to the next `key`, cut at the first of `stops`.
pub open spec fn id_after(u: Seq<char>, key: Seq<char>, stops: Seq<char>) -> Option<Seq<char>> {
    match second_piece(u, key) {
        Some(x) => Some(until_any(x, stops)),
        None => None,
    }
}

/// The platform a link names, given the link trimmed and lowercased.
pub open spec fn platform_of(low: Seq<char>) -> MediaPlatform {
    if occurs(low, "youtube.com"@) || occurs(low, "youtu.be"@) {
        MediaPlatform::YouTube
    } else if occurs(low, "tiktok.com"@) || occurs(low, "vm.tiktok.com"@) {
        MediaPlatform::TikTok
    } else if occurs(low, "instagram.com/reel"@) || occurs(low, "instagram.com/p/"@) {
        MediaPlatform::Instagram
    } else if occurs(low, "twitter.com"@) || occurs(low, "x.com"@) || occurs(low, "t.co/"@) {
        MediaPlatform::Twitter
    } else if occurs(low, "vimeo.com"@) {
        MediaPlatform::Vimeo
    } else if occurs(low, "rumble.com"@) {
        MediaPlatform::Rumble
    } else if occurs(low, "dailymotion.com"@) || occurs(low, "dai.ly"@) {
        MediaPlatform::Dailymotion
    } else if occurs(low, "reddit.com"@) || occurs(low, "redd.it"@) {
        MediaPlatform::Reddit
    } else if occurs(low, "streamable.com"@) {
        MediaPlatform::Streamable
    } else if occurs(low, "spotify.com"@) || occurs(low, "spotify:"@) {
        MediaPlatform::Spotify
    } else {
        MediaPlatform::Unknown
    }
}

pub open spec fn youtube_id(u: Seq<char>) -> Option<Seq<char>> {
    if occurs(u, "youtu.be/"@) {
        id_after(u, "youtu.be/"@, stops_query())
    } else if occurs(u, "v="@) {
        id_after(u, "v="@, stops_query())
    } else if occurs(u, "/embed/"@) {
        id_after(u, "/embed/"@, stops_query())
    } else if occurs(u, "/shorts/"@) {
        id_after(u, "/shorts/"@, stops_query())
    } else {
        None
    }
}

pub open spec fn tiktok_id(u: Seq<char>) -> Option<Seq<char>> {
    if occurs(u, "/video/"@) {
        id_after(u, "/video/"@, stops_path())
    } else if occurs(u, "vm.tiktok.com/"@) {
        id_after(u, "vm.tiktok.com/"@, stops_path())
    } else {
        None
    }
}

/// Every char of `s` is an ASCII digit.
pub open spec fn all_digits(s: Seq<char>) -> bool {
    forall|i: int| 0 <= i < s.len() ==> '0' <= #[trigger] s[i] <= '9'
}

pub open spec fn vimeo_id(u: Seq<char>) -> Option<Seq<char>> {
    if occurs(u, "/video/"@) {
        id_after(u, "/video/"@, stops_path())
    } else if occurs(u, "vimeo.com/"@) {
        match id_after(u, "vimeo.com/"@, stops_path()) {
            Some(x) => if all_digits(x) { Some(x) } else { None },
            None => None,
        }
    } else {
        None
    }
}

pub open spec fn rumble_id(u: Seq<char>) -> Option<Seq<char>> {
    if occurs(u, "/embed/"@) {
        id_after(u, "/embed/"@, stops_path())
    } else if occurs(u, "rumble.com/"@) {
        match second_piece(u, "rumble.com/"@) {
            Some(x) => {
                let part = until_any(x, seq!['-']);
                if part.len() == 0 || part == "embed"@ { None } else { Some(part) }
            },
            None => None,
        }
    } else {
        None
    }
}

pub open spec fn dailymotion_id(u: Seq<char>) -> Option<Seq<char>> {
    if occurs(u, "/video/"@) {
        id_after(u, "/video/"@, stops_path())
    } else if occurs(u, "dai.ly/"@) {
        id_after(u, "dai.ly/"@, stops_path())
    } else {
        None
    }
}

pub open spec fn instagram_id(u: Seq<char>) -> Option<Seq<char>> {
    if occurs(u, "/reel/"@) {
        id_after(u, "/reel/"@, stops_path())
    } else if occurs(u, "/reels/"@) {
        id_after(u, "/reels/"@, stops_path())
    } else if occurs(u, "/p/"@) {
        id_after(u, "/p/"@, stops_path())
    } else {
        None
    }
}

pub open spec fn twitter_id(u: Seq<char>) -> Option<Seq<char>> {
    if occurs(u, "/status/"@) {
        id_after(u, "/status/"@, stops_path())
    } else {
        None
    }
}

pub open spec fn reddit_id(u: Seq<char>) -> Option<Seq<char>> {
    if occurs(u, "/comments/"@) {
        id_after(u, "/comments/"@, stops_path())
    } else if occurs(u, "redd.it/"@) {
        id_after(u, "redd.it/"@, stops_path())
    } else {
        None
    }
}

pub open spec fn streamable_id(u: Seq<char>) -> Option<Seq<char>> {
    if occurs(u, "/e/"@) {
        id_after(u, "/e/"@, stops_path())
    } else if occurs(u, "streamable.com/"@) {
        match id_after(u, "streamable.com/"@, stops_path()) {
            Some(x) => if x.len() != 0 && x != "e"@ { Some(x) } else { None },
            None => None,
        }
    } else {
        None
    }
}

pub open spec fn spotify_id(u: Seq<char>) -> Option<Seq<char>> {
    if starts(u, "spotify:"@) && nth_piece(u, seq![':'], 2) is Some {
        nth_piece(u, seq![':'], 2)
    } else if occurs(u, "/track/"@) {
        id_after(u, "/track/"@, stops_path())
    } else if occurs(u, "/episode/"@) {
        id_after(u, "/episode/"@, stops_path())
    } else if occurs(u, "/playlist/"@) {
        id_after(u, "/playlist/"@, stops_path())
    } else if occurs(u, "/album/"@) {
        id_after(u, "/album/"@, stops_path())
    } else {
        None
    }
}

/// The id that the extractor for `p` finds in `u`.
pub open spec fn id_for(p: MediaPlatform, u: Seq<char>) -> Option<Seq<char>> {
    match p {
        MediaPlatform::YouTube => youtube_id(u),
        MediaPlatform::TikTok => tiktok_id(u),
        MediaPlatform::Instagram => instagram_id(u),
        MediaPlatform::Twitter => twitter_id(u),
        MediaPlatform::Vimeo => vimeo_id(u),
        MediaPlatform::Rumble => rumble_id(u),
        MediaPlatform::Dailymotion => dailymotion_id(u),
        MediaPlatform::Reddit => reddit_id(u),
        MediaPlatform::Streamable => streamable_id(u),
        MediaPlatform::Spotify => spotify_id(u),
        MediaPlatform::Unknown => None,
    }
}

/// The embed URL for a platform name and an id.
pub open spec fn embed_url_of(platform: Seq<char>, id: Seq<char>) -> Seq<char> {
    if platform == "youtube"@ {
        "https://www.youtube.com/embed/"@ + id + "?autoplay=0"@
    } else if platform == "tiktok"@ {
        "https://www.tiktok.com/embed/v2/"@ + id
    } else if platform == "instagram"@ {
        "https://www.instagram.com/p/"@ + id + "/embed/"@
    } else if platform == "twitter"@ {
        "https://platform.twitter.com/embed/Tweet.html?id="@ + id
    } else if platform == "vimeo"@ {
        "https://player.vimeo.com/video/"@ + id
    } else if platform == "rumble"@ {
        "https://rumble.com/embed/"@ + id + "/"@
    } else if platform == "dailymotion"@ {
        "https://www.dailymotion.com/embed/video/"@ + id
    } else if platform == "reddit"@ {
        "https://www.redditmedia.com/mediaembed/"@ + id + "?responsive=true"@
    } else if platform == "streamable"@ {
        "https://streamable.com/e/"@ + id
    } else if platform == "spotify"@ {
        "https://open.spotify.com/embed/track/"@ + id + "?theme=0"@
    } else {
        Seq::empty()
    }
}

/// The default thumbnail URL for a platform name and an id.
pub open spec fn thumbnail_of(platform: Seq<char>, id: Seq<char>) -> Seq<char> {
    if platform == "youtube"@ {
        "https://img.youtube.com/vi/"@ + id + "/mqdefault.jpg"@
    } else {
        Seq::empty()
    }
}

/// `MM/DD/YYYY` for a timestamp whose date part is `YYYY-MM-DD`; the input otherwise.
pub open spec fn comment_time_of(p: Seq<char>) -> Seq<char> {
    if p.len() == 0 {
        p
    } else {
        let date = until_any(p, seq!['T']);
        if piece_count_is(date, seq!['-'], 3) {
            nth_piece(date, seq!['-'], 1)->0 + seq!['/'] + nth_piece(date, seq!['-'], 2)->0
                + seq!['/'] + nth_piece(date, seq!['-'], 0)->0
        } else {
            p
        }
    }
}

// ---------------------------------------------------------------------------
// Executable code
// ---------------------------------------------------------------------------

fn query_stops() -> (v: Vec<char>)
    ensures
        v@ == stops_query(),
{
    let v = vec!['?', '&', '#'];
    assert(v@ =~= stops_query());
    v
}

fn path_stops() -> (v: Vec<char>)
    ensures
        v@ == stops_path(),
{
    let v = vec!['?', '&', '#', '/'];
    assert(v@ =~= stops_path());
    v
}

fn has_lit(s: &[char], lit: &str) -> (b: bool)
    ensures
        b == occurs(s@, lit@),
{
    let p = chars_of(lit);
    contains(s, p.as_slice())
}

fn id_after_exec(u: &[char], key: &str, stops: &[char]) -> (r: Option<Vec<char>>)
    ensures
        r matches Some(v) ==> id_after(u@, key@, stops@) == Some(v@),
        r is None ==> id_after(u@, key@, stops@) is None,
{
    let k = chars_of(key);
    match piece_after(u, k.as_slice()) {
        Some(x) => Some(take_until_any(x.as_slice(), stops)),
        None => None,
    }
}

fn to_opt_string(r: Option<Vec<char>>) -> (o: Option<String>)
    ensures
        r matches Some(v) ==> text_opt(o) == Some(v@),
        r is None ==> o is None,
{
    match r {
        Some(v) => Some(string_of(v.as_slice())),
        None => None,
    }
}

fn id_string(u: &[char], key: &str, stops: &[char]) -> (o: Option<String>)
    ensures
        text_opt(o) == id_after(u@, key@, stops@),
{
    to_opt_string(id_after_exec(u, key, stops))
}

/// The platform a link names, given the link already trimmed and lowercased.
pub fn platform_of_lowered(low: &str) -> (p: MediaPlatform)
    ensures
        p == platform_of(low@),
{
    let s = chars_of(low);
    let s = s.as_slice();
    if has_lit(s, "youtube.com") || has_lit(s, "youtu.be") {
        MediaPlatform::YouTube
    } else if has_lit(s, "tiktok.com") || has_lit(s, "vm.tiktok.com") {
        MediaPlatform::TikTok
    } else if has_lit(s, "instagram.com/reel") || has_lit(s, "instagram.com/p/") {
        MediaPlatform::Instagram
    } else if has_lit(s, "twitter.com") || has_lit(s, "x.com") || has_lit(s, "t.co/") {
        MediaPlatform::Twitter
    } else if has_lit(s, "vimeo.com") {
        MediaPlatform::Vimeo
    } else if has_lit(s, "rumble.com") {
        MediaPlatform::Rumble
    } else if has_lit(s, "dailymotion.com") || has_lit(s, "dai.ly") {
        MediaPlatform::Dailymotion
    } else if has_lit(s, "reddit.com") || has_lit(s, "redd.it") {
        MediaPlatform::Reddit
    } else if has_lit(s, "streamable.com") {
        MediaPlatform::Streamable
    } else if has_lit(s, "spotify.com") || has_lit(s, "spotify:") {
        MediaPlatform::Spotify
    } else {
        MediaPlatform::Unknown
    }
}

/// Detect the platform from a URL: the link is trimmed and lowercased first.
pub fn detect_platform(input: &str) -> (p: MediaPlatform)
    ensures
        p == platform_of(lowercased(trim(input@))),
{
    let cs = chars_of(input);
    let t = trimmed(cs.as_slice());
    let ts = string_of(t.as_slice());
    let low = lowercase(ts.as_str());
    platform_of_lowered(low.as_str())
}

/// Extract the video id from a YouTube URL.
pub fn extract_youtube_video_id(url: &str) -> (r: Option<String>)
    ensures
        text_opt(r) == youtube_id(url@),
{
    let u = chars_of(url);
    let u = u.as_slice();
    let q = query_stops();
    if has_lit(u, "youtu.be/") {
        id_string(u, "youtu.be/", q.as_slice())
    } else if has_lit(u, "v=") {
        id_string(u, "v=", q.as_slice())
    } else if has_lit(u, "/embed/") {
        id_string(u, "/embed/", q.as_slice())
    } else if has_lit(u, "/shorts/") {
        id_string(u, "/shorts/", q.as_slice())
    } else {
        None
    }
}

/// Extract the video id from a TikTok URL
/// (`tiktok.com/@user/video/ID`, `vm.tiktok.com/ID`).
pub fn extract_tiktok_video_id(url: &str) -> (r: Option<String>)
    ensures
        text_opt(r) == tiktok_id(url@),
{
    let u = chars_of(url);
    let u = u.as_slice();
    let q = path_stops();
    if has_lit(u, "/video/") {
        id_string(u, "/video/", q.as_slice())
    } else if has_lit(u, "vm.tiktok.com/") {
        id_string(u, "vm.tiktok.com/", q.as_slice())
    } else {
        None
    }
}

fn digits_only(s: &[char]) -> (b: bool)
    ensures
        b == all_digits(s@),
{
    let mut i: usize = 0;
    while i < s.len()
        invariant
            i <= s.len(),
            forall|k: int| 0 <= k < i ==> '0' <= #[trigger] s@[k] <= '9',
        decreases s.len() - i,
    {
        if !('0' <= s[i] && s[i] <= '9') {
            return false;
        }
        i = i + 1;
    }
    true
}

/// Extract the video id from a Vimeo URL
/// (`vimeo.com/ID`, `player.vimeo.com/video/ID`).
pub fn extract_vimeo_video_id(url: &str) -> (r: Option<String>)
    ensures
        text_opt(r) == vimeo_id(url@),
{
    let u = chars_of(url);
    let u = u.as_slice();
    let q = path_stops();
    if has_lit(u, "/video/") {
        id_string(u, "/video/", q.as_slice())
    } else if has_lit(u, "vimeo.com/") {
        match id_after_exec(u, "vimeo.com/", q.as_slice()) {
            Some(x) => if digits_only(x.as_slice()) { Some(string_of(x.as_slice())) } else { None },
            None => None,
        }
    } else {
        None
    }
}

/// Extract the video id from a Rumble URL
/// (`rumble.com/ID-title.html`, `rumble.com/embed/ID`).
pub fn extract_rumble_video_id(url: &str) -> (r: Option<String>)
    ensures
        text_opt(r) == rumble_id(url@),
{
    let u = chars_of(url);
    let u = u.as_slice();
    if has_lit(u, "/embed/") {
        let q = path_stops();
        id_string(u, "/embed/", q.as_slice())
    } else if has_lit(u, "rumble.com/") {
        let k = chars_of("rumble.com/");
        match piece_after(u, k.as_slice()) {
            Some(x) => {
                let dash = vec!['-'];
                assert(dash@ =~= seq!['-']);
                let part = take_until_any(x.as_slice(), dash.as_slice());
                let embed = chars_of("embed");
                if part.len() == 0 || same(part.as_slice(), embed.as_slice()) {
                    None
                } else {
                    Some(string_of(part.as_slice()))
                }
            },
            None => None,
        }
    } else {
        None
    }
}

/// Extract the video id from a Dailymotion URL
/// (`dailymotion.com/video/ID`, `dai.ly/ID`).
pub fn extract_dailymotion_video_id(url: &str) -> (r: Option<String>)
    ensures
        text_opt(r) == dailymotion_id(url@),
{
    let u = chars_of(url);
    let u = u.as_slice();
    let q = path_stops();
    if has_lit(u, "/video/") {
        id_string(u, "/video/", q.as_slice())
    } else if has_lit(u, "dai.ly/") {
        id_string(u, "dai.ly/", q.as_slice())
    } else {
        None
    }
}

/// Extract the reel or post code from an Instagram URL
/// (`instagram.com/reel/CODE/`, `/reels/CODE/`, `instagram.com/p/CODE/`).
pub fn extract_instagram_video_id(url: &str) -> (r: Option<String>)
    ensures
        text_opt(r) == instagram_id(url@),
{
    let u = chars_of(url);
    let u = u.as_slice();
    let q = path_stops();
    if has_lit(u, "/reel/") {
        id_string(u, "/reel/", q.as_slice())
    } else if has_lit(u, "/reels/") {
        id_string(u, "/reels/", q.as_slice())
    } else if has_lit(u, "/p/") {
        id_string(u, "/p/", q.as_slice())
    } else {
        None
    }
}

/// Extract the tweet id from a Twitter/X URL (`.../status/ID`).
pub fn extract_twitter_video_id(url: &str) -> (r: Option<String>)
    ensures
        text_opt(r) == twitter_id(url@),
{
    let u = chars_of(url);
    let u = u.as_slice();
    let q = path_stops();
    if has_lit(u, "/status/") {
        id_string(u, "/status/", q.as_slice())
    } else {
        None
    }
}

/// Extract the post id from a Reddit URL
/// (`reddit.com/r/sub/comments/ID/...`, `redd.it/ID`).
pub fn extract_reddit_video_id(url: &str) -> (r: Option<String>)
    ensures
        text_opt(r) == reddit_id(url@),
{
    let u = chars_of(url);
    let u = u.as_slice();
    let q = path_stops();
    if has_lit(u, "/comments/") {
        id_string(u, "/comments/", q.as_slice())
    } else if has_lit(u, "redd.it/") {
        id_string(u, "redd.it/", q.as_slice())
    } else {
        None
    }
}

/// Extract the video id from a Streamable URL
/// (`streamable.com/ID`, `streamable.com/e/ID`).
pub fn extract_streamable_video_id(url: &str) -> (r: Option<String>)
    ensures
        text_opt(r) == streamable_id(url@),
{
    let u = chars_of(url);
    let u = u.as_slice();
    let q = path_stops();
    if has_lit(u, "/e/") {
        id_string(u, "/e/", q.as_slice())
    } else if has_lit(u, "streamable.com/") {
        match id_after_exec(u, "streamable.com/", q.as_slice()) {
            Some(x) => {
                let e = chars_of("e");
                if x.len() != 0 && !same(x.as_slice(), e.as_slice()) {
                    Some(string_of(x.as_slice()))
                } else {
                    None
                }
            },
            None => None,
        }
    } else {
        None
    }
}

/// Extract the track or content id from a Spotify link
/// (`spotify:track:ID`, `open.spotify.com/track/ID`, `/episode/`, `/playlist/`, `/album/`).
pub fn extract_spotify_id(url: &str) -> (r: Option<String>)
    ensures
        text_opt(r) == spotify_id(url@),
{
    let u = chars_of(url);
    let u = u.as_slice();
    let scheme = chars_of("spotify:");
    if starts_with(u, scheme.as_slice()) {
        let colon = vec![':'];
        assert(colon@ =~= seq![':']);
        match piece(u, colon.as_slice(), 2) {
            Some(x) => {
                return Some(string_of(x.as_slice()));
            },
            None => {},
        }
    }
    let q = path_stops();
    if has_lit(u, "/track/") {
        id_string(u, "/track/", q.as_slice())
    } else if has_lit(u, "/episode/") {
        id_string(u, "/episode/", q.as_slice())
    } else if has_lit(u, "/playlist/") {
        id_string(u, "/playlist/", q.as_slice())
    } else if has_lit(u, "/album/") {
        id_string(u, "/album/", q.as_slice())
    } else {
        None
    }
}

/// The platform of a link together with the id found in it.
pub open spec fn video_of(u: Seq<char>) -> Option<(MediaPlatform, Seq<char>)> {
    let p = platform_of(lowercased(trim(u)));
    match id_for(p, u) {
        Some(id) => Some((p, id)),
        None => None,
    }
}

/// Extract the id from a link of any supported platform, with the platform.
pub fn extract_video_id(url: &str) -> (r: Option<(MediaPlatform, String)>)
    ensures
        r matches Some(x) ==> video_of(url@) == Some((x.0, x.1@)),
        r is None ==> video_of(url@) is None,
{
    let platform = detect_platform(url);
    let id = match platform {
        MediaPlatform::YouTube => extract_youtube_video_id(url),
        MediaPlatform::TikTok => extract_tiktok_video_id(url),
        MediaPlatform::Instagram => extract_instagram_video_id(url),
        MediaPlatform::Twitter => extract_twitter_video_id(url),
        MediaPlatform::Vimeo => extract_vimeo_video_id(url),
        MediaPlatform::Rumble => extract_rumble_video_id(url),
        MediaPlatform::Dailymotion => extract_dailymotion_video_id(url),
        MediaPlatform::Reddit => extract_reddit_video_id(url),
        MediaPlatform::Streamable => extract_streamable_video_id(url),
        MediaPlatform::Spotify => extract_spotify_id(url),
        MediaPlatform::Unknown => None,
    };
    match id {
        Some(v) => Some((platform, v)),
        None => None,
    }
}

fn url_with_id(prefix: &str, id: &str) -> (s: String)
    ensures
        s@ == prefix@ + id@,
{
    let mut v = chars_of(prefix);
    extend_str(&mut v, id);
    string_of(v.as_slice())
}

fn url_with(prefix: &str, id: &str, suffix: &str) -> (s: String)
    ensures
        s@ == prefix@ + id@ + suffix@,
{
    let mut v = chars_of(prefix);
    extend_str(&mut v, id);
    extend_str(&mut v, suffix);
    string_of(v.as_slice())
}

impl MediaItem {
    /// The embed URL for this media item.
    pub fn embed_url(&self) -> (s: String)
        ensures
            s@ == embed_url_of(self.platform@, self.video_id@),
    {
        let p = self.platform.as_str();
        let id = self.video_id.as_str();
        if is_text(p, "youtube") {
            url_with("https://www.youtube.com/embed/", id, "?autoplay=0")
        } else if is_text(p, "tiktok") {
            url_with_id("https://www.tiktok.com/embed/v2/", id)
        } else if is_text(p, "instagram") {
            url_with("https://www.instagram.com/p/", id, "/embed/")
        } else if is_text(p, "twitter") {
            url_with_id("https://platform.twitter.com/embed/Tweet.html?id=", id)
        } else if is_text(p, "vimeo") {
            url_with_id("https://player.vimeo.com/video/", id)
        } else if is_text(p, "rumble") {
            url_with("https://rumble.com/embed/", id, "/")
        } else if is_text(p, "dailymotion") {
            url_with_id("https://www.dailymotion.com/embed/video/", id)
        } else if is_text(p, "reddit") {
            url_with("https://www.redditmedia.com/mediaembed/", id, "?responsive=true")
        } else if is_text(p, "streamable") {
            url_with_id("https://streamable.com/e/", id)
        } else if is_text(p, "spotify") {
            url_with("https://open.spotify.com/embed/track/", id, "?theme=0")
        } else {
            String::new()
        }
    }

    /// The platform's default thumbnail URL for this media item.
    pub fn default_thumbnail(&self) -> (s: String)
        ensures
            s@ == thumbnail_of(self.platform@, self.video_id@),
    {
        if is_text(self.platform.as_str(), "youtube") {
            url_with("https://img.youtube.com/vi/", self.video_id.as_str(), "/mqdefault.jpg")
        } else {
            String::new()
        }
    }
}

/// Show a published timestamp (`YYYY-MM-DDThh:mm:ssZ`) as `MM/DD/YYYY`.
pub fn format_comment_time(published_at: &str) -> (s: String)
    ensures
        s@ == comment_time_of(published_at@),
{
    let p = chars_of(published_at);
    if p.len() == 0 {
        return String::new();
    }
    let t = vec!['T'];
    assert(t@ =~= seq!['T']);
    let date = take_until_any(p.as_slice(), t.as_slice());
    let dash = vec!['-'];
    assert(dash@ =~= seq!['-']);
    if has_piece_count(date.as_slice(), dash.as_slice(), 3) {
        proof {
            lemma_earlier_pieces(date@, dash@, 2, 0);
            lemma_earlier_pieces(date@, dash@, 2, 1);
        }
        let year = piece(date.as_slice(), dash.as_slice(), 0);
        let month = piece(date.as_slice(), dash.as_slice(), 1);
        let day = piece(date.as_slice(), dash.as_slice(), 2);
        match (year, month, day) {
            (Some(y), Some(m), Some(d)) => {
                let mut v = m;
                v.push('/');
                extend_chars(&mut v, d.as_slice());
                v.push('/');
                extend_chars(&mut v, y.as_slice());
                return string_of(v.as_slice());
            },
            _ => {},
        }
    }
    string_of(p.as_slice())
}

} // verus!
