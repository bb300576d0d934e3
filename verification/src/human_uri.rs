//! Addresses of the collaborators, written the way people write them.
//!
//! An address is kept as a `url::Url`. What is known of it here is its
//! text; what the `url` crate makes of a text is named, not spelled out.

use crate::text::{pieces, split, starts_with, trim_start, trimmed};
use url::Url;
use vstd::prelude::*;
use vstd::string::StringExecFns;
use vstd::utf8::encode_utf8;

verus! {

#[verifier::external_type_specification]
#[verifier::external_body]
pub struct ExUrl(Url);

/// The text of a URL: its serialization, what `Url::as_str` hands out.
pub uninterp spec fn url_text(url: Url) -> Seq<char>;

/// The text of the URL that `Url::parse` makes of `text`, `None` where it
/// makes none.
pub uninterp spec fn url_parsed(text: Seq<char>) -> Option<Seq<char>>;

/// The text of a URL after `PathSegmentsMut::clear`.
pub uninterp spec fn url_path_cleared(text: Seq<char>) -> Seq<char>;

/// The text of a URL after `PathSegmentsMut::push` of `segment`.
pub uninterp spec fn url_segment_pushed(text: Seq<char>, segment: Seq<char>) -> Seq<char>;

/// The text of a URL after `Serializer::clear` on its query.
pub uninterp spec fn url_query_cleared(text: Seq<char>) -> Seq<char>;

/// The text of a URL after `Serializer::append_pair` on its query.
pub uninterp spec fn url_pair_appended(text: Seq<char>, key: Seq<char>, value: Seq<char>) -> Seq<
    char,
>;

/// The number of bytes that a text takes.
pub open spec fn size(text: Seq<char>) -> nat {
    encode_utf8(text).len()
}

/// Whether a URL of this text has room for `extra` more bytes of input. A
/// URL must stay below four gibibytes, and a byte of input may take three
/// bytes in it, besides a separator or two.
pub open spec fn has_room(text: Seq<char>, extra: nat) -> bool {
    size(text) + 3 * extra + 3 <= 0xffff_ffff
}

/// `Url::parse`.
#[verifier::external_body]
fn parse_url(text: &str) -> (r: Option<Url>)
    ensures
        match r {
            Some(url) => url_parsed(text@) == Some(url_text(url)),
            None => url_parsed(text@) is None,
        },
{
    Url::parse(text).ok()
}

/// `Url::as_str`.
#[verifier::external_body]
fn url_as_str(url: &Url) -> (r: &str)
    ensures
        r@ == url_text(*url),
{
    url.as_str()
}

/// `Url::clone`: a URL of the same text.
#[verifier::external_body]
fn clone_url(url: &Url) -> (r: Url)
    ensures
        url_text(r) == url_text(*url),
{
    url.clone()
}

/// `Url::path_segments_mut` and `PathSegmentsMut::clear`. A URL that has
/// no path segments is left alone.
#[verifier::external_body]
fn clear_path(url: &mut Url)
    requires
        has_room(url_text(*old(url)), 0),
    ensures
        url_text(*final(url)) == url_path_cleared(url_text(*old(url))),
{
    if let Ok(mut path) = url.path_segments_mut() {
        path.clear();
    }
}

/// `Url::path_segments_mut` and `PathSegmentsMut::push`. A URL that has
/// no path segments is left alone.
#[verifier::external_body]
fn push_segment(url: &mut Url, segment: &str)
    requires
        has_room(url_text(*old(url)), size(segment@)),
    ensures
        url_text(*final(url)) == url_segment_pushed(url_text(*old(url)), segment@),
{
    if let Ok(mut path) = url.path_segments_mut() {
        path.push(segment);
    }
}

/// `Url::query_pairs_mut` and `Serializer::clear`.
#[verifier::external_body]
fn clear_query(url: &mut Url)
    requires
        has_room(url_text(*old(url)), 0),
    ensures
        url_text(*final(url)) == url_query_cleared(url_text(*old(url))),
{
    url.query_pairs_mut().clear();
}

/// `Url::query_pairs_mut` and `Serializer::append_pair`.
#[verifier::external_body]
fn append_pair(url: &mut Url, key: &str, value: &str)
    requires
        has_room(url_text(*old(url)), size(key@) + size(value@)),
    ensures
        url_text(*final(url)) == url_pair_appended(url_text(*old(url)), key@, value@),
{
    url.query_pairs_mut().append_pair(key, value);
}

/// The address with a scheme: as it is where it names `http` or `https`,
/// else with `http://` put before it.
pub open spec fn with_scheme(raw: Seq<char>) -> Seq<char> {
    if "http://"@.is_prefix_of(raw) || "https://"@.is_prefix_of(raw) {
        raw
    } else {
        "http://"@ + raw
    }
}

/// The text after each of `segments` was pushed in turn; `None` once the
/// text has no room for the next one.
pub open spec fn segments_pushed(text: Seq<char>, segments: Seq<Seq<char>>) -> Option<Seq<char>>
    decreases segments.len(),
{
    if segments.len() == 0 {
        Some(text)
    } else {
        match segments_pushed(text, segments.drop_last()) {
            Some(front) if has_room(front, size(segments.last())) => Some(
                url_segment_pushed(front, segments.last()),
            ),
            _ => None,
        }
    }
}

/// The text after each of `pairs` was appended in turn; `None` once the
/// text has no room for the next one.
pub open spec fn pairs_appended(text: Seq<char>, pairs: Seq<(Seq<char>, Seq<char>)>) -> Option<
    Seq<char>,
>
    decreases pairs.len(),
{
    if pairs.len() == 0 {
        Some(text)
    } else {
        match pairs_appended(text, pairs.drop_last()) {
            Some(front) if has_room(front, size(pairs.last().0) + size(pairs.last().1)) => Some(
                url_pair_appended(front, pairs.last().0, pairs.last().1),
            ),
            _ => None,
        }
    }
}

/// The text with its path replaced by `segments`.
pub open spec fn path_replaced(text: Seq<char>, segments: Seq<Seq<char>>) -> Option<Seq<char>> {
    if has_room(text, 0) {
        segments_pushed(url_path_cleared(text), segments)
    } else {
        None
    }
}

/// The text with its query replaced by `pairs`.
pub open spec fn query_replaced(text: Seq<char>, pairs: Seq<(Seq<char>, Seq<char>)>) -> Option<
    Seq<char>,
> {
    if has_room(text, 0) {
        pairs_appended(url_query_cleared(text), pairs)
    } else {
        None
    }
}

/// The segments that a path names: its pieces between slashes, leading
/// slashes set aside.
pub open spec fn segments_of(path: Seq<char>) -> Seq<Seq<char>> {
    pieces(trimmed(path, '/'), '/')
}

/// Once the room has run out it stays run out.
pub proof fn lemma_segments_pushed_stops(text: Seq<char>, segments: Seq<Seq<char>>, k: int)
    requires
        0 <= k <= segments.len(),
        segments_pushed(text, segments.take(k)) is None,
    ensures
        segments_pushed(text, segments) is None,
    decreases segments.len() - k,
{
    if k < segments.len() {
        assert(segments.take(k + 1).drop_last() =~= segments.take(k));
        lemma_segments_pushed_stops(text, segments, k + 1);
    } else {
        assert(segments.take(k) =~= segments);
    }
}

/// Once the room has run out it stays run out.
pub proof fn lemma_pairs_appended_stops(
    text: Seq<char>,
    pairs: Seq<(Seq<char>, Seq<char>)>,
    k: int,
)
    requires
        0 <= k <= pairs.len(),
        pairs_appended(text, pairs.take(k)) is None,
    ensures
        pairs_appended(text, pairs) is None,
    decreases pairs.len() - k,
{
    if k < pairs.len() {
        assert(pairs.take(k + 1).drop_last() =~= pairs.take(k));
        lemma_pairs_appended_stops(text, pairs, k + 1);
    } else {
        assert(pairs.take(k) =~= pairs);
    }
}

/// Whether `url` has room for `extra` more bytes of input.
fn room_for(url: &Url, extra: usize) -> (r: bool)
    ensures
        r == has_room(url_text(*url), extra as nat),
{
    let used = url_as_str(url).as_bytes().len();
    if used > 0xffff_ffff || extra > 0xffff_ffff {
        return false;
    }
    (used as u64) + 3 * (extra as u64) + 3 <= 0xffff_ffff
}

/// Pushes `segments` onto `url` in turn; stops, and says so, once the room
/// has run out.
fn push_segments(url: &mut Url, segments: &Vec<String>) -> (r: bool)
    ensures
        match segments_pushed(url_text(*old(url)), segments.deep_view()) {
            Some(text) => r && url_text(*final(url)) == text,
            None => !r,
        },
{
    let ghost start = url_text(*url);
    let ghost all = segments.deep_view();
    let mut i: usize = 0;
    while i < segments.len()
        invariant
            i <= segments.len(),
            all == segments.deep_view(),
            start == url_text(*old(url)),
            segments_pushed(start, all.take(i as int)) == Some(url_text(*url)),
        decreases segments.len() - i,
    {
        proof {
            assert(all.take(i + 1).drop_last() =~= all.take(i as int));
            assert(all.take(i + 1).last() == segments[i as int]@);
        }
        if !room_for(url, segments[i].as_str().as_bytes().len()) {
            proof {
                assert(segments_pushed(start, all.take(i + 1)) is None);
                lemma_segments_pushed_stops(start, all, i + 1);
            }
            return false;
        }
        push_segment(url, segments[i].as_str());
        i += 1;
    }
    assert(all.take(i as int) =~= all);
    true
}

/// Appends `pairs` to the query of `url` in turn; stops, and says so, once
/// the room has run out.
fn append_pairs(url: &mut Url, pairs: &Vec<(String, String)>) -> (r: bool)
    ensures
        match pairs_appended(url_text(*old(url)), pairs.deep_view()) {
            Some(text) => r && url_text(*final(url)) == text,
            None => !r,
        },
{
    let ghost start = url_text(*url);
    let ghost all = pairs.deep_view();
    let mut i: usize = 0;
    while i < pairs.len()
        invariant
            i <= pairs.len(),
            all == pairs.deep_view(),
            start == url_text(*old(url)),
            pairs_appended(start, all.take(i as int)) == Some(url_text(*url)),
        decreases pairs.len() - i,
    {
        proof {
            assert(all.take(i + 1).drop_last() =~= all.take(i as int));
            assert(all.take(i + 1).last() == (pairs[i as int].0@, pairs[i as int].1@));
        }
        let key = pairs[i].0.as_str();
        let value = pairs[i].1.as_str();
        let fits = match key.as_bytes().len().checked_add(value.as_bytes().len()) {
            Some(extra) => room_for(url, extra),
            None => false,
        };
        if !fits {
            proof {
                assert(pairs_appended(start, all.take(i + 1)) is None);
                lemma_pairs_appended_stops(start, all, i + 1);
            }
            return false;
        }
        append_pair(url, key, value);
        i += 1;
    }
    assert(all.take(i as int) =~= all);
    true
}

/// An address of a collaborator.
pub struct HumanURI {
    url: Url,
}

impl View for HumanURI {
    type V = Seq<char>;

    closed spec fn view(&self) -> Seq<char> {
        url_text(self.url)
    }
}

impl HumanURI {
    /// The text of the address that `raw` is read as, `None` where it is
    /// read as none.
    pub open spec fn parse_spec(raw: Seq<char>) -> Option<Seq<char>> {
        url_parsed(with_scheme(raw))
    }

    fn wrap(url: Url) -> (r: Self)
        ensures
            r@ == url_text(url),
    {
        HumanURI { url }
    }

    /// Reads an address. One that names no scheme is taken to be `http`.
    /// `None` where what was written is no URL.
    pub fn parse(raw_uri: &str) -> (r: Option<Self>)
        ensures
            match r {
                Some(uri) => Self::parse_spec(raw_uri@) == Some(uri@),
                None => Self::parse_spec(raw_uri@) is None,
            },
    {
        let parsed = if starts_with(raw_uri, "http://") || starts_with(raw_uri, "https://") {
            parse_url(raw_uri)
        } else {
            let full = "http://".to_owned().concat(raw_uri);
            parse_url(full.as_str())
        };
        match parsed {
            Some(url) => Some(Self::wrap(url)),
            None => None,
        }
    }

    /// The address with `params` as its whole query. `None` where the
    /// address would grow too long.
    pub fn with_query_params(&self, params: &Vec<(String, String)>) -> (r: Option<Self>)
        ensures
            match r {
                Some(uri) => query_replaced(self@, params.deep_view()) == Some(uri@),
                None => query_replaced(self@, params.deep_view()) is None,
            },
    {
        let mut new_url = clone_url(&self.url);
        if !room_for(&new_url, 0) {
            return None;
        }
        clear_query(&mut new_url);
        if append_pairs(&mut new_url, params) {
            Some(Self::wrap(new_url))
        } else {
            None
        }
    }

    /// The address with `params` behind the query that it has. `None`
    /// where the address would grow too long.
    pub fn add_query_params(&self, params: &Vec<(String, String)>) -> (r: Option<Self>)
        ensures
            match r {
                Some(uri) => pairs_appended(self@, params.deep_view()) == Some(uri@),
                None => pairs_appended(self@, params.deep_view()) is None,
            },
    {
        let mut new_url = clone_url(&self.url);
        if append_pairs(&mut new_url, params) {
            Some(Self::wrap(new_url))
        } else {
            None
        }
    }

    /// The address with `paths` as its whole path. `None` where the
    /// address would grow too long.
    pub fn with_path_components(&self, paths: &Vec<String>) -> (r: Option<Self>)
        ensures
            match r {
                Some(uri) => path_replaced(self@, paths.deep_view()) == Some(uri@),
                None => path_replaced(self@, paths.deep_view()) is None,
            },
    {
        let mut new_url = clone_url(&self.url);
        if !room_for(&new_url, 0) {
            return None;
        }
        clear_path(&mut new_url);
        if push_segments(&mut new_url, paths) {
            Some(Self::wrap(new_url))
        } else {
            None
        }
    }

    /// The address with `paths` behind the path that it has. `None` where
    /// the address would grow too long.
    pub fn add_path_components(&self, paths: &Vec<String>) -> (r: Option<Self>)
        ensures
            match r {
                Some(uri) => segments_pushed(self@, paths.deep_view()) == Some(uri@),
                None => segments_pushed(self@, paths.deep_view()) is None,
            },
    {
        let mut new_url = clone_url(&self.url);
        if push_segments(&mut new_url, paths) {
            Some(Self::wrap(new_url))
        } else {
            None
        }
    }

    /// The address with the segments of `path` behind the path that it has.
    pub fn add_path(&self, path: &str) -> (r: Option<Self>)
        ensures
            match r {
                Some(uri) => segments_pushed(self@, segments_of(path@)) == Some(uri@),
                None => segments_pushed(self@, segments_of(path@)) is None,
            },
    {
        let segments = split(trim_start(path, '/'), '/');
        self.add_path_components(&segments)
    }

    /// The address with the segments of `path` as its whole path.
    pub fn with_path(&self, path: &str) -> (r: Option<Self>)
        ensures
            match r {
                Some(uri) => path_replaced(self@, segments_of(path@)) == Some(uri@),
                None => path_replaced(self@, segments_of(path@)) is None,
            },
    {
        let segments = split(trim_start(path, '/'), '/');
        self.with_path_components(&segments)
    }

    /// The URL itself.
    pub fn into_url(self) -> (r: Url)
        ensures
            url_text(r) == self@,
    {
        self.url
    }

    /// The address as text.
    pub fn to_text(&self) -> (r: String)
        ensures
            r@ == self@,
    {
        url_as_str(&self.url).to_owned()
    }
}

} // verus!
