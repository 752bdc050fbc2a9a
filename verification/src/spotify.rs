//! Interpretation of Spotify Web API payloads and responses: tolerant media
//! parsing, artwork and context allowlists, error classification, and the
//! request and retry policy.

use vstd::prelude::*;

use crate::domain::{
    CommandName, Freshness, MediaItem, MediaKind, PlaybackView, QueueAvailability, QueueView,
};
use crate::error::AppError;
use crate::outside::{
    canonical_reason, http_canonical_reason, parse_url, to_lowercase, unicode_lowercase, url_parse,
    utc_now_millis,
};
use crate::playback::clone_opt_string;
use crate::sessions::opt_seq;
use crate::text::{
    contains_seq, decimal, ends_with_seq, parse_u64, parse_u64_seq, push_decimal,
    starts_with_seq, str_contains, str_ends_with, str_eq, str_starts_with, take_chars, truncate,
};

verus! {

/// The playback part of a `/me/player` response, with the context link
/// that may be resolved to a label.
#[derive(Debug, Clone)]
pub struct PlaybackSnapshot {
    pub playback: PlaybackView,
    pub context_href: Option<String>,
}

/// An image reference of a media payload.
#[derive(Debug, Clone, PartialEq, Eq)]
pub struct RawImage {
    pub url: Option<String>,
    pub width: Option<u32>,
}

/// An artist of a media payload.
#[derive(Debug, Clone, PartialEq, Eq)]
pub struct RawCreator {
    pub name: Option<String>,
}

/// An album or show of a media payload.
#[derive(Debug, Clone, PartialEq, Eq)]
pub struct RawNamedContainer {
    pub name: Option<String>,
    pub publisher: Option<String>,
    pub images: Option<Vec<RawImage>>,
}

/// A track, episode or other item as Spotify sends it; every field may be
/// missing. `kind` is the payload's `type`.
#[derive(Debug, Clone, PartialEq, Eq)]
pub struct RawMediaItem {
    pub uri: Option<String>,
    pub kind: Option<String>,
    pub name: Option<String>,
    pub artists: Option<Vec<RawCreator>>,
    pub album: Option<RawNamedContainer>,
    pub show: Option<RawNamedContainer>,
    pub duration_ms: Option<u64>,
    pub is_local: Option<bool>,
    pub explicit: Option<bool>,
    pub images: Option<Vec<RawImage>>,
}

/// The device of a `/me/player` response.
#[derive(Debug, Clone, PartialEq, Eq)]
pub struct RawDevice {
    pub name: Option<String>,
    pub is_active: Option<bool>,
    pub is_restricted: Option<bool>,
}

/// The context of a `/me/player` response. `kind` is the payload's `type`.
#[derive(Debug, Clone, PartialEq, Eq)]
pub struct RawContext {
    pub href: Option<String>,
    pub kind: Option<String>,
}

/// A `/me/player` response.
#[derive(Debug, Clone, PartialEq, Eq)]
pub struct RawPlayback {
    pub device: Option<RawDevice>,
    pub context: Option<RawContext>,
    pub progress_ms: Option<u64>,
    pub is_playing: Option<bool>,
    pub item: Option<RawMediaItem>,
}

// ---------------------------------------------------------------- media kind

/// The kind of a media item from its payload `type` and local flag.
pub open spec fn media_kind_of(kind: Option<Seq<char>>, is_local: bool) -> MediaKind {
    if kind == Some("track"@) {
        if is_local {
            MediaKind::Local
        } else {
            MediaKind::Track
        }
    } else if kind == Some("episode"@) {
        MediaKind::Episode
    } else if kind == Some("ad"@) || kind == Some("advertisement"@) {
        MediaKind::Advertisement
    } else if is_local {
        MediaKind::Local
    } else {
        MediaKind::Unknown
    }
}

fn media_kind(kind: &Option<String>, is_local: bool) -> (r: MediaKind)
    ensures
        r == media_kind_of(opt_seq(*kind), is_local),
{
    match kind {
        Some(k) => {
            let k = k.as_str();
            if str_eq(k, "track") {
                if is_local {
                    MediaKind::Local
                } else {
                    MediaKind::Track
                }
            } else if str_eq(k, "episode") {
                MediaKind::Episode
            } else if str_eq(k, "ad") || str_eq(k, "advertisement") {
                MediaKind::Advertisement
            } else if is_local {
                MediaKind::Local
            } else {
                MediaKind::Unknown
            }
        },
        None => {
            if is_local {
                MediaKind::Local
            } else {
                MediaKind::Unknown
            }
        },
    }
}

// ------------------------------------------------------------------ creators

/// The views of a sequence of strings.
pub open spec fn strings_view(s: Seq<String>) -> Seq<Seq<char>> {
    s.map_values(|x: String| x@)
}

/// The names of the creators that have one, in order.
pub open spec fn creator_names(s: Seq<RawCreator>) -> Seq<Seq<char>>
    decreases s.len(),
{
    if s.len() == 0 {
        Seq::empty()
    } else {
        let rest = creator_names(s.drop_last());
        match s.last().name {
            Some(n) => rest.push(n@),
            None => rest,
        }
    }
}

/// The creators shown for an item: the named artists, then the show's
/// publisher when there is one.
pub open spec fn creators_of(raw: RawMediaItem) -> Seq<Seq<char>> {
    let artists = match raw.artists {
        Some(a) => creator_names(a@),
        None => Seq::empty(),
    };
    match raw.show {
        Some(show) => match show.publisher {
            Some(p) => artists.push(p@),
            None => artists,
        },
        None => artists,
    }
}

fn creators(raw: &RawMediaItem) -> (r: Vec<String>)
    ensures
        strings_view(r@) == creators_of(*raw),
{
    let mut out: Vec<String> = Vec::new();
    if let Some(artists) = &raw.artists {
        let n = artists.len();
        let mut i: usize = 0;
        while i < n
            invariant
                n == artists@.len(),
                i <= n,
                strings_view(out@) == creator_names(artists@.take(i as int)),
            decreases n - i,
        {
            assert(artists@.take(i + 1).drop_last() =~= artists@.take(i as int));
            assert(artists@.take(i + 1).last() == artists@[i as int]);
            if let Some(name) = &artists[i].name {
                out.push(name.clone());
                assert(strings_view(out@) =~= creator_names(artists@.take(i as int)).push(
                    name@,
                ));
            }
            i = i + 1;
        }
        assert(artists@.take(n as int) =~= artists@);
    } else {
        assert(strings_view(out@) =~= Seq::<Seq<char>>::empty());
    }
    let ghost before = strings_view(out@);
    if let Some(show) = &raw.show {
        if let Some(publisher) = &show.publisher {
            out.push(publisher.clone());
            assert(strings_view(out@) =~= before.push(publisher@));
        }
    }
    out
}

// ------------------------------------------------------------------- artwork

/// Whether a host belongs to Spotify's image CDN.
pub open spec fn is_cdn_host(host: Seq<char>) -> bool {
    host == "i.scdn.co"@ || ends_with_seq(host, ".scdn.co"@)
}

/// Whether an image URL may be shown: it parses, uses HTTPS and is served
/// by Spotify's image CDN.
pub open spec fn image_url_allowed(url: Seq<char>) -> bool {
    match url_parse(url) {
        Ok(parts) => parts.1 == "https"@ && (parts.2 matches Some(h) && is_cdn_host(h)),
        Err(_) => false,
    }
}

/// Whether an image has an allowed URL.
pub open spec fn image_allowed(img: RawImage) -> bool {
    img.url matches Some(u) && image_url_allowed(u@)
}

/// How far an image's width is from the preferred 300 pixels (a missing
/// width counts as 0).
pub open spec fn width_distance(img: RawImage) -> u32 {
    let w = match img.width {
        Some(w) => w,
        None => 0,
    };
    if w >= 300 {
        (w - 300) as u32
    } else {
        (300 - w) as u32
    }
}

/// The allowed image whose width is closest to 300 pixels, the earliest
/// among equally close ones.
pub open spec fn best_image_of(s: Seq<RawImage>) -> Option<RawImage>
    decreases s.len(),
{
    if s.len() == 0 {
        None
    } else {
        let rest = best_image_of(s.drop_last());
        let last = s.last();
        if !image_allowed(last) {
            rest
        } else {
            match rest {
                None => Some(last),
                Some(b) => if width_distance(last) < width_distance(b) {
                    Some(last)
                } else {
                    rest
                },
            }
        }
    }
}

/// The URL of the best image of a list, if any is allowed.
pub open spec fn best_image_url(images: Option<Seq<RawImage>>) -> Option<Seq<char>> {
    match images {
        Some(s) => match best_image_of(s) {
            Some(img) => opt_seq(img.url),
            None => None,
        },
        None => None,
    }
}

fn image_is_allowed(img: &RawImage) -> (r: bool)
    ensures
        r == image_allowed(*img),
{
    match &img.url {
        None => false,
        Some(url) => match parse_url(url.as_str()) {
            Err(_) => false,
            Ok(parts) => {
                if !str_eq(parts.scheme.as_str(), "https") {
                    return false;
                }
                match &parts.host {
                    None => false,
                    Some(host) => str_eq(host.as_str(), "i.scdn.co") || str_ends_with(
                        host.as_str(),
                        ".scdn.co",
                    ),
                }
            },
        },
    }
}

fn distance(img: &RawImage) -> (r: u32)
    ensures
        r == width_distance(*img),
{
    let w = match img.width {
        Some(w) => w,
        None => 0,
    };
    if w >= 300 {
        w - 300
    } else {
        300 - w
    }
}

/// The artwork URL chosen from an image list: among the images with an
/// HTTPS URL on Spotify's image CDN, the one whose width is closest to 300
/// pixels, the earliest among equally close ones.
pub fn best_image(images: Option<&Vec<RawImage>>) -> (r: Option<String>)
    ensures
        opt_seq(r) == best_image_url(
            match images {
                Some(v) => Some(v@),
                None => None,
            },
        ),
{
    let images = match images {
        Some(v) => v,
        None => {
            return None;
        },
    };
    let n = images.len();
    let mut best: Option<usize> = None;
    let mut i: usize = 0;
    while i < n
        invariant
            n == images@.len(),
            i <= n,
            match best {
                None => best_image_of(images@.take(i as int)) is None,
                Some(b) => b < i && best_image_of(images@.take(i as int)) == Some(images@[b as int]),
            },
        decreases n - i,
    {
        assert(images@.take(i + 1).drop_last() =~= images@.take(i as int));
        assert(images@.take(i + 1).last() == images@[i as int]);
        if image_is_allowed(&images[i]) {
            match best {
                None => {
                    best = Some(i);
                },
                Some(b) => {
                    if distance(&images[i]) < distance(&images[b]) {
                        best = Some(i);
                    }
                },
            }
        }
        i = i + 1;
    }
    assert(images@.take(n as int) =~= images@);
    match best {
        None => None,
        Some(b) => clone_opt_string(&images[b].url),
    }
}

// ----------------------------------------------------------- media item parse

/// The image list an item's artwork comes from: the album's, else the
/// item's own, else the show's — the first that is present, even if empty.
pub open spec fn artwork_images(raw: RawMediaItem) -> Option<Seq<RawImage>> {
    let album_images = match raw.album {
        Some(a) => match a.images {
            Some(v) => Some(v@),
            None => None,
        },
        None => None,
    };
    let own = match raw.images {
        Some(v) => Some(v@),
        None => None,
    };
    let show_images = match raw.show {
        Some(s) => match s.images {
            Some(v) => Some(v@),
            None => None,
        },
        None => None,
    };
    if album_images is Some {
        album_images
    } else if own is Some {
        own
    } else {
        show_images
    }
}

/// The album or show name: the album's when present, else the show's.
pub open spec fn album_or_show_of(raw: RawMediaItem) -> Option<Seq<char>> {
    let album = match raw.album {
        Some(a) => opt_seq(a.name),
        None => None,
    };
    if album is Some {
        album
    } else {
        match raw.show {
            Some(s) => opt_seq(s.name),
            None => None,
        }
    }
}

/// Whether `item` is the media item shown for the payload `raw`.
pub open spec fn parsed_item(raw: RawMediaItem, item: MediaItem) -> bool {
    let is_local = match raw.is_local {
        Some(b) => b,
        None => false,
    };
    &&& opt_seq(item.provider_uri) == opt_seq(raw.uri)
    &&& item.kind == media_kind_of(opt_seq(raw.kind), is_local)
    &&& item.title@ == (match raw.name {
        Some(n) => n@,
        None => "Unknown item"@,
    })
    &&& strings_view(item.creators@) == creators_of(raw)
    &&& opt_seq(item.album_or_show) == album_or_show_of(raw)
    &&& item.duration_ms == raw.duration_ms
    &&& opt_seq(item.artwork_url) == best_image_url(artwork_images(raw))
    &&& item.is_local == is_local
    &&& item.is_explicit == raw.explicit
}

/// Whether `url` is what an image list offers as artwork: present exactly
/// when the list holds an allowed image, and then the URL of an allowed
/// image of the list that is at least as close to 300 pixels wide as every
/// allowed image of the list.
pub open spec fn artwork_chosen_from(s: Seq<RawImage>, url: Option<String>) -> bool {
    &&& (url is Some <==> exists|i: int| 0 <= i < s.len() && #[trigger] image_allowed(s[i]))
    &&& url matches Some(u) ==> exists|j: int|
        0 <= j < s.len() && #[trigger] image_allowed(s[j]) && opt_seq(s[j].url) == Some(u@)
            && forall|i: int|
            0 <= i < s.len() && image_allowed(#[trigger] s[i]) ==> width_distance(s[j])
                <= width_distance(s[i])
}

proof fn lemma_best_url_chosen(s: Seq<RawImage>, url: Option<String>)
    requires
        opt_seq(url) == best_image_url(Some(s)),
    ensures
        artwork_chosen_from(s, url),
{
    lemma_best_image_is_allowed_and_closest(s);
    match best_image_of(s) {
        Some(img) => {
            let j = choose|j: int| 0 <= j < s.len() && s[j] == img;
            assert(image_allowed(s[j]));
        },
        None => {},
    }
}

/// The artwork of a parsed item comes from the album's image list whenever
/// the payload's album carries one (even an empty one); the item's own
/// images are used only when the album has none, and the show's only when
/// neither has; without any list there is no artwork. From the list used,
/// the artwork is chosen as `artwork_chosen_from` says.
pub proof fn lemma_album_artwork_first(raw: RawMediaItem, item: MediaItem)
    requires
        parsed_item(raw, item),
    ensures
        raw.album matches Some(a) ==> (a.images matches Some(v) ==> artwork_chosen_from(
            v@,
            item.artwork_url,
        )),
        !(raw.album matches Some(a) && a.images is Some) ==> (raw.images matches Some(v)
            ==> artwork_chosen_from(v@, item.artwork_url)),
        !(raw.album matches Some(a) && a.images is Some) && raw.images is None ==> (
        raw.show matches Some(sh) ==> (sh.images matches Some(v) ==> artwork_chosen_from(
            v@,
            item.artwork_url,
        ))),
        !(raw.album matches Some(a) && a.images is Some) && raw.images is None && !(
        raw.show matches Some(sh) && sh.images is Some) ==> item.artwork_url is None,
{
    match artwork_images(raw) {
        Some(v) => lemma_best_url_chosen(v, item.artwork_url),
        None => {},
    }
    if raw.album matches Some(a) && a.images is Some {
        let v = raw.album->0.images->0;
        assert(artwork_images(raw) == Some(v@));
    } else if raw.images is None {
        if raw.show matches Some(sh) && sh.images is Some {
            let v = raw.show->0.images->0;
            assert(artwork_images(raw) == Some(v@));
        }
    }
}

/// The media item shown for a payload. Missing fields become explicit
/// defaults: an unknown kind, the title "Unknown item", no creators, no artwork.
pub fn parse_media_item(raw: &RawMediaItem) -> (r: MediaItem)
    ensures
        parsed_item(*raw, r),
        raw.album matches Some(a) ==> (a.images matches Some(v) ==> artwork_chosen_from(
            v@,
            r.artwork_url,
        )),
{
    let is_local = match raw.is_local {
        Some(b) => b,
        None => false,
    };
    let kind = media_kind(&raw.kind, is_local);
    let creators = creators(raw);
    let album_name = match &raw.album {
        Some(a) => clone_opt_string(&a.name),
        None => None,
    };
    let album_or_show = if album_name.is_some() {
        album_name
    } else {
        match &raw.show {
            Some(s) => clone_opt_string(&s.name),
            None => None,
        }
    };
    let album_images: Option<&Vec<RawImage>> = match &raw.album {
        Some(a) => match &a.images {
            Some(v) => Some(v),
            None => None,
        },
        None => None,
    };
    let images: Option<&Vec<RawImage>> = if album_images.is_some() {
        album_images
    } else {
        match &raw.images {
            Some(v) => Some(v),
            None => match &raw.show {
                Some(s) => match &s.images {
                    Some(v) => Some(v),
                    None => None,
                },
                None => None,
            },
        }
    };
    let artwork_url = best_image(images);
    let title = match &raw.name {
        Some(n) => n.clone(),
        None => String::from_str("Unknown item"),
    };
    let item = MediaItem {
        provider_uri: clone_opt_string(&raw.uri),
        kind,
        title,
        creators,
        album_or_show,
        duration_ms: raw.duration_ms,
        artwork_url,
        is_local,
        is_explicit: raw.explicit,
    };
    proof {
        lemma_album_artwork_first(*raw, item);
    }
    item
}

// ---------------------------------------------------------------- context

/// The label shown for a playback context before its name is resolved.
pub open spec fn context_fallback_label_of(kind: Seq<char>) -> Seq<char> {
    if kind == "playlist"@ {
        "Playlist"@
    } else if kind == "album"@ {
        "Album"@
    } else if kind == "artist"@ {
        "Artist radio"@
    } else if kind == "collection"@ {
        "Liked Songs"@
    } else if kind == "show"@ {
        "Podcast"@
    } else {
        "Unknown context"@
    }
}

/// The label shown for a playback context of the given type.
pub fn context_fallback_label(kind: &str) -> (r: String)
    ensures
        r@ == context_fallback_label_of(kind@),
{
    if str_eq(kind, "playlist") {
        String::from_str("Playlist")
    } else if str_eq(kind, "album") {
        String::from_str("Album")
    } else if str_eq(kind, "artist") {
        String::from_str("Artist radio")
    } else if str_eq(kind, "collection") {
        String::from_str("Liked Songs")
    } else if str_eq(kind, "show") {
        String::from_str("Podcast")
    } else {
        String::from_str("Unknown context")
    }
}

/// Whether a parsed context URL may be requested: HTTPS, the exact
/// `api.spotify.com` host, and a path under `/v1/`.
pub open spec fn context_url_allowed(
    parts: (Seq<char>, Seq<char>, Option<Seq<char>>, Seq<char>, Seq<(Seq<char>, Seq<char>)>),
) -> bool {
    &&& parts.1 == "https"@
    &&& parts.2 == Some("api.spotify.com"@)
    &&& starts_with_seq(parts.3, "/v1/"@)
}

/// Checks a context link against the Spotify API allowlist and gives the
/// URL to request. A link that does not parse is an unsupported response
/// with the parser's message; one outside the allowlist is an unsupported
/// response saying so.
pub fn check_context_href(href: &str) -> (r: Result<String, AppError>)
    ensures
        match url_parse(href@) {
            Err(message) => r matches Err(AppError::UnsupportedResponse(m)) && m@ == message,
            Ok(parts) => if context_url_allowed(parts) {
                r matches Ok(u) && u@ == parts.0
            } else {
                r matches Err(AppError::UnsupportedResponse(m)) && m@
                    == "context URL was outside the Spotify API allowlist"@
            },
        },
{
    let parts = match parse_url(href) {
        Ok(p) => p,
        Err(message) => {
            return Err(AppError::UnsupportedResponse(message));
        },
    };
    let host_ok = match &parts.host {
        Some(h) => str_eq(h.as_str(), "api.spotify.com"),
        None => false,
    };
    if !str_eq(parts.scheme.as_str(), "https") || !host_ok || !str_starts_with(
        parts.path.as_str(),
        "/v1/",
    ) {
        return Err(
            AppError::UnsupportedResponse(
                String::from_str("context URL was outside the Spotify API allowlist"),
            ),
        );
    }
    Ok(parts.serialization)
}

/// A field of a JSON object as the context label lookup sees it.
#[derive(Debug, Clone, PartialEq, Eq)]
pub enum JsonField {
    Missing,
    Text(String),
    Other,
}

/// The context label from a resolved context object: its `name` when that
/// field exists (and only if it is text), else its `title` if it is text.
pub open spec fn context_label_of(name: JsonField, title: JsonField) -> Option<Seq<char>> {
    let chosen = match name {
        JsonField::Missing => title,
        _ => name,
    };
    match chosen {
        JsonField::Text(s) => Some(s@),
        _ => None,
    }
}

/// The context label of a resolved context object.
pub fn context_label(name: JsonField, title: JsonField) -> (r: Option<String>)
    ensures
        opt_seq(r) == context_label_of(name, title),
{
    let chosen = match name {
        JsonField::Missing => title,
        _ => name,
    };
    match chosen {
        JsonField::Text(s) => Some(s),
        _ => None,
    }
}

// ------------------------------------------------------------- responses

/// The chosen artwork is one of the offered images, has an HTTPS URL on
/// Spotify's image CDN, and no allowed image is closer to 300 pixels wide;
/// nothing is chosen only when no image is allowed.
pub proof fn lemma_best_image_is_allowed_and_closest(s: Seq<RawImage>)
    ensures
        best_image_of(s) matches Some(img) ==> {
            &&& image_allowed(img)
            &&& s.contains(img)
            &&& forall|i: int|
                0 <= i < s.len() && image_allowed(#[trigger] s[i]) ==> width_distance(img)
                    <= width_distance(s[i])
        },
        best_image_of(s) is None ==> forall|i: int|
            0 <= i < s.len() ==> !image_allowed(#[trigger] s[i]),
    decreases s.len(),
{
    if s.len() > 0 {
        let rest = s.drop_last();
        let last = s.last();
        let n = s.len() as int;
        lemma_best_image_is_allowed_and_closest(rest);
        assert forall|i: int| 0 <= i < rest.len() implies #[trigger] rest[i] == s[i] by {}
        match best_image_of(rest) {
            None => {
                if image_allowed(last) {
                    assert(s[n - 1] == last);
                    assert forall|i: int|
                        0 <= i < s.len() && image_allowed(#[trigger] s[i]) implies width_distance(
                        last,
                    ) <= width_distance(s[i]) by {
                        if i < n - 1 {
                            assert(rest[i] == s[i]);
                        }
                    }
                } else {
                    assert forall|i: int| 0 <= i < s.len() implies !image_allowed(
                        #[trigger] s[i],
                    ) by {
                        if i < n - 1 {
                            assert(rest[i] == s[i]);
                        }
                    }
                }
            },
            Some(b) => {
                let k = choose|k: int| 0 <= k < rest.len() && rest[k] == b;
                assert(s[k] == b);
                if image_allowed(last) && width_distance(last) < width_distance(b) {
                    assert(s[n - 1] == last);
                    assert forall|i: int|
                        0 <= i < s.len() && image_allowed(#[trigger] s[i]) implies width_distance(
                        last,
                    ) <= width_distance(s[i]) by {
                        if i < n - 1 {
                            assert(rest[i] == s[i]);
                        }
                    }
                } else {
                    assert forall|i: int|
                        0 <= i < s.len() && image_allowed(#[trigger] s[i]) implies width_distance(
                        b,
                    ) <= width_distance(s[i]) by {
                        if i < n - 1 {
                            assert(rest[i] == s[i]);
                        }
                    }
                }
            },
        }
    }
}

/// Whether the device allows control: present, active unless it says
/// otherwise, and not restricted.
pub open spec fn device_controllable(device: Option<RawDevice>) -> bool {
    match device {
        Some(d) => (match d.is_active {
            Some(a) => a,
            None => true,
        }) && !(match d.is_restricted {
            Some(r) => r,
            None => false,
        }),
        None => false,
    }
}

/// The playback snapshot of a `/me/player` response, observed now and fresh.
pub fn playback_snapshot(raw: &RawPlayback) -> (r: PlaybackSnapshot)
    ensures
        match raw.item {
            Some(i) => r.playback.item matches Some(item) && parsed_item(i, item),
            None => r.playback.item is None,
        },
        r.playback.is_playing == raw.is_playing,
        r.playback.can_control == device_controllable(raw.device),
        r.playback.progress_ms == raw.progress_ms,
        r.playback.freshness == Freshness::Fresh,
        opt_seq(r.playback.context_label) == (match raw.context {
            Some(c) => match c.kind {
                Some(k) => Some(context_fallback_label_of(k@)),
                None => None,
            },
            None => None,
        }),
        opt_seq(r.playback.device_name) == (match raw.device {
            Some(d) => opt_seq(d.name),
            None => None,
        }),
        opt_seq(r.context_href) == (match raw.context {
            Some(c) => opt_seq(c.href),
            None => None,
        }),
{
    let item = match &raw.item {
        Some(i) => Some(parse_media_item(i)),
        None => None,
    };
    let can_control = match &raw.device {
        Some(d) => {
            let active = match d.is_active {
                Some(a) => a,
                None => true,
            };
            let restricted = match d.is_restricted {
                Some(r) => r,
                None => false,
            };
            active && !restricted
        },
        None => false,
    };
    let context_label = match &raw.context {
        Some(c) => match &c.kind {
            Some(k) => Some(context_fallback_label(k.as_str())),
            None => None,
        },
        None => None,
    };
    let device_name = match &raw.device {
        Some(d) => clone_opt_string(&d.name),
        None => None,
    };
    let context_href = match &raw.context {
        Some(c) => clone_opt_string(&c.href),
        None => None,
    };
    PlaybackSnapshot {
        playback: PlaybackView {
            item,
            is_playing: raw.is_playing,
            can_control,
            progress_ms: raw.progress_ms,
            observed_at: utc_now_millis(),
            freshness: Freshness::Fresh,
            context_label,
            device_name,
        },
        context_href,
    }
}

/// The queue view of a `/me/player/queue` response, given its first entry:
/// available with that item, or empty.
pub fn queue_view(first: Option<&RawMediaItem>) -> (r: QueueView)
    ensures
        match first {
            Some(raw) => r.availability == QueueAvailability::Available && (r.next matches Some(
                item,
            ) && parsed_item(*raw, item)),
            None => r.availability == QueueAvailability::Empty && r.next is None,
        },
{
    match first {
        Some(raw) => QueueView {
            next: Some(parse_media_item(raw)),
            availability: QueueAvailability::Available,
        },
        None => QueueView { next: None, availability: QueueAvailability::Empty },
    }
}

/// The queue view when Spotify answers without content.
pub fn queue_without_content() -> (r: QueueView)
    ensures
        r.next is None,
        r.availability == QueueAvailability::Unavailable,
{
    QueueView { next: None, availability: QueueAvailability::Unavailable }
}

/// The display of a status code: the number and its reason phrase.
pub open spec fn status_display(code: u16) -> Seq<char> {
    decimal(code as nat) + " "@ + match http_canonical_reason(code) {
        Some(r) => r,
        None => "<unknown status code>"@,
    }
}

/// `status.to_string()` for a status code.
pub fn status_text(code: u16) -> (r: String)
    requires
        100 <= code <= 999,
    ensures
        r@ == status_display(code),
{
    let mut r = String::new();
    push_decimal(&mut r, code as u64);
    r.append(" ");
    match canonical_reason(code) {
        Some(reason) => r.append(reason.as_str()),
        None => r.append("<unknown status code>"),
    }
    r
}

/// The error an unsuccessful Spotify response stands for: 429 is a rate
/// limit for the `Retry-After` seconds (30 when absent or not a number);
/// 401 requires authorization; 403 mentioning Premium requires Premium, and
/// 403 mentioning a device or a failed player command means no active
/// device (matched case-insensitively); anything else is an API failure
/// with the status and the first 180 characters of the body.
pub open spec fn api_error_of(code: u16, retry_after: Option<Seq<char>>, body: Seq<char>) -> AppError {
    let lower = unicode_lowercase(body);
    if code == 429 {
        AppError::RateLimited(
            match retry_after {
                Some(v) => match parse_u64_seq(v) {
                    Some(n) => n,
                    None => 30,
                },
                None => 30,
            },
        )
    } else if code == 401 {
        AppError::AuthenticationRequired
    } else if code == 403 && contains_seq(lower, "premium"@) {
        AppError::PremiumRequired
    } else if code == 403 && (contains_seq(lower, "device"@) || contains_seq(
        lower,
        "player command failed"@,
    )) {
        AppError::NoActiveDevice
    } else {
        AppError::SpotifyApi(arbitrary())
    }
}

/// How failed responses are told apart: 429 is always a rate limit and 401
/// always requires authorization. For 403, a body that mentions Premium (in
/// any letter case) means Premium is required, whatever else it mentions;
/// a missing device is reported exactly for the 403 bodies that do not
/// mention Premium but mention a device or a failed player command.
pub proof fn lemma_api_error_classification(
    code: u16,
    retry_after: Option<Seq<char>>,
    body: Seq<char>,
)
    ensures
        code == 429 ==> api_error_of(code, retry_after, body) is RateLimited,
        code == 401 ==> api_error_of(code, retry_after, body) == AppError::AuthenticationRequired,
        (api_error_of(code, retry_after, body) == AppError::PremiumRequired) <==> (code == 403
            && contains_seq(unicode_lowercase(body), "premium"@)),
        (api_error_of(code, retry_after, body) == AppError::NoActiveDevice) <==> (code == 403
            && !contains_seq(unicode_lowercase(body), "premium"@) && (contains_seq(
            unicode_lowercase(body),
            "device"@,
        ) || contains_seq(unicode_lowercase(body), "player command failed"@))),
{
}

/// The message of the API failure for an unclassified status.
pub open spec fn api_failure_message(code: u16, body: Seq<char>) -> Seq<char> {
    "Spotify returned "@ + status_display(code) + ": "@ + take_chars(body, 180)
}

/// Classifies an unsuccessful Spotify response; see `api_error_of`.
pub fn classify_api_error(status: u16, retry_after: Option<&str>, body: &str) -> (r: AppError)
    requires
        100 <= status <= 999,
    ensures
        ({
            let expected = api_error_of(
                status,
                match retry_after {
                    Some(v) => Some(v@),
                    None => None,
                },
                body@,
            );
            match expected {
                AppError::SpotifyApi(_) => r matches AppError::SpotifyApi(m) && m@
                    == api_failure_message(status, body@),
                _ => r == expected,
            }
        }),
        status == 403 && contains_seq(unicode_lowercase(body@), "premium"@) ==> r
            == AppError::PremiumRequired,
        r == AppError::NoActiveDevice ==> status == 403 && !contains_seq(
            unicode_lowercase(body@),
            "premium"@,
        ),
{
    if status == 429 {
        let secs = match retry_after {
            Some(v) => match parse_u64(v) {
                Some(n) => n,
                None => 30,
            },
            None => 30,
        };
        return AppError::RateLimited(secs);
    }
    if status == 401 {
        return AppError::AuthenticationRequired;
    }
    if status == 403 {
        let normalized = to_lowercase(body);
        if str_contains(normalized.as_str(), "premium") {
            return AppError::PremiumRequired;
        }
        if str_contains(normalized.as_str(), "device") || str_contains(
            normalized.as_str(),
            "player command failed",
        ) {
            return AppError::NoActiveDevice;
        }
    }
    let mut message = String::from_str("Spotify returned ");
    let status_shown = status_text(status);
    message.append(status_shown.as_str());
    message.append(": ");
    let excerpt = truncate(body, 180);
    message.append(excerpt.as_str());
    AppError::SpotifyApi(message)
}

// ----------------------------------------------------------- request policy

/// The HTTP methods the widget uses.
#[derive(Debug, Clone, Copy, PartialEq, Eq)]
pub enum HttpMethod {
    Get,
    Post,
    Put,
}

/// The request of a transport command: skips are POSTs to `previous` or
/// `next`; a toggle PUTs `pause` while playing and `play` otherwise.
pub fn transport_route(command: CommandName, currently_playing: bool) -> (r: (HttpMethod, &'static str))
    ensures
        match command {
            CommandName::Previous => r.0 == HttpMethod::Post && r.1@ == "/me/player/previous"@,
            CommandName::Next => r.0 == HttpMethod::Post && r.1@ == "/me/player/next"@,
            CommandName::TogglePlayPause => if currently_playing {
                r.0 == HttpMethod::Put && r.1@ == "/me/player/pause"@
            } else {
                r.0 == HttpMethod::Put && r.1@ == "/me/player/play"@
            },
        },
{
    match command {
        CommandName::Previous => (HttpMethod::Post, "/me/player/previous"),
        CommandName::Next => (HttpMethod::Post, "/me/player/next"),
        CommandName::TogglePlayPause => if currently_playing {
            (HttpMethod::Put, "/me/player/pause")
        } else {
            (HttpMethod::Put, "/me/player/play")
        },
    }
}

/// What one attempt of a request produced.
#[derive(Debug, Clone, Copy, PartialEq, Eq)]
pub enum AttemptOutcome {
    /// A response with this status code.
    Status(u16),
    /// The connection failed or timed out.
    ConnectOrTimeout,
    /// Any other transport failure.
    OtherFailure,
}

/// What the request loop does after an attempt.
#[derive(Debug, Clone, Copy, PartialEq, Eq)]
pub enum RetryDecision {
    /// The access token was refused: drop it and require authorization.
    Unauthorized,
    /// Wait this many milliseconds, then try again.
    RetryAfter(u64),
    /// Hand the response or failure to the caller.
    Deliver,
}

/// The waits before the first and the second retry.
pub open spec fn backoff_ms(attempt: nat) -> u64 {
    if attempt == 0 {
        250
    } else {
        1000
    }
}

/// Whether a method may be replayed: GET and idempotent PUT only.
pub open spec fn is_retryable(method: HttpMethod) -> bool {
    method == HttpMethod::Get || method == HttpMethod::Put
}

/// The retry policy: 401 drops the token; a server error or a connection
/// failure of a replayable request is retried at most twice, after 250 ms
/// and then 1 s; everything else is delivered.
pub open spec fn retry_decision_of(method: HttpMethod, outcome: AttemptOutcome, attempt: nat) -> RetryDecision {
    match outcome {
        AttemptOutcome::Status(401) => RetryDecision::Unauthorized,
        AttemptOutcome::Status(code) => if is_retryable(method) && 500 <= code < 600 && attempt
            < 2 {
            RetryDecision::RetryAfter(backoff_ms(attempt))
        } else {
            RetryDecision::Deliver
        },
        AttemptOutcome::ConnectOrTimeout => if is_retryable(method) && attempt < 2 {
            RetryDecision::RetryAfter(backoff_ms(attempt))
        } else {
            RetryDecision::Deliver
        },
        AttemptOutcome::OtherFailure => RetryDecision::Deliver,
    }
}

/// The decision after attempt number `attempt` (counting from 0).
pub fn retry_decision(method: HttpMethod, outcome: AttemptOutcome, attempt: usize) -> (r: RetryDecision)
    ensures
        r == retry_decision_of(method, outcome, attempt as nat),
        method != HttpMethod::Post && attempt == 0 && (outcome == AttemptOutcome::ConnectOrTimeout
            || (outcome matches AttemptOutcome::Status(c) && 500 <= c < 600)) ==> r
            == RetryDecision::RetryAfter(250),
        method != HttpMethod::Post && attempt == 1 && (outcome == AttemptOutcome::ConnectOrTimeout
            || (outcome matches AttemptOutcome::Status(c) && 500 <= c < 600)) ==> r
            == RetryDecision::RetryAfter(1000),
{
    let retryable = match method {
        HttpMethod::Get | HttpMethod::Put => true,
        HttpMethod::Post => false,
    };
    let backoff: u64 = if attempt == 0 {
        250
    } else {
        1000
    };
    match outcome {
        AttemptOutcome::Status(401) => RetryDecision::Unauthorized,
        AttemptOutcome::Status(code) => if retryable && 500 <= code && code < 600 && attempt < 2 {
            RetryDecision::RetryAfter(backoff)
        } else {
            RetryDecision::Deliver
        },
        AttemptOutcome::ConnectOrTimeout => if retryable && attempt < 2 {
            RetryDecision::RetryAfter(backoff)
        } else {
            RetryDecision::Deliver
        },
        AttemptOutcome::OtherFailure => RetryDecision::Deliver,
    }
}

/// Non-idempotent requests (skips) are never replayed, and no request is
/// retried more than twice.
pub proof fn lemma_retry_policy_bounded(method: HttpMethod, outcome: AttemptOutcome, attempt: nat)
    ensures
        method == HttpMethod::Post ==> !(retry_decision_of(method, outcome, attempt) is RetryAfter),
        attempt >= 2 ==> !(retry_decision_of(method, outcome, attempt) is RetryAfter),
{
}

/// GET and PUT requests are retried alike, for every outcome and attempt:
/// a server error (500 to 599) or a connection failure at the first or
/// second attempt is retried after 250 ms or 1 s respectively; a 401 drops
/// the token; anything else is delivered.
pub proof fn lemma_idempotent_requests_retry_alike(outcome: AttemptOutcome, attempt: nat)
    ensures
        retry_decision_of(HttpMethod::Get, outcome, attempt) == retry_decision_of(
            HttpMethod::Put,
            outcome,
            attempt,
        ),
        forall|m: HttpMethod|
            m != HttpMethod::Post && attempt < 2 && (outcome == AttemptOutcome::ConnectOrTimeout
                || (outcome matches AttemptOutcome::Status(c) && 500 <= c < 600)) ==> #[trigger]
                retry_decision_of(m, outcome, attempt) == RetryDecision::RetryAfter(
                if attempt == 0 {
                    250u64
                } else {
                    1000u64
                },
            ),
        outcome == AttemptOutcome::Status(401) ==> retry_decision_of(HttpMethod::Put, outcome, attempt)
            == RetryDecision::Unauthorized,
{
}

} // verus!
