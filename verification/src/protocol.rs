//! Reading the endpoints' answers: which members a response must have, and
//! what a response without them is.

use vstd::prelude::*;
use crate::bitrate::{variant_views, Variant, VariantView};
use crate::json::Json;
use crate::media::{
    entry_views, kind_of, post_views, MediaEntry, MediaEntryView, MediaKind, Post, PostView,
};

verus! {

/// The remote side broke the contract. None of these is recovered from.
#[derive(Clone, Copy, Debug, PartialEq, Eq, Structural)]
pub enum ProtocolError {
    /// The favorites response is not an array.
    NotAnArray,
    /// A post has no unsigned `id`.
    MissingId,
    /// A media entry has no text `type`.
    MissingMediaType,
    /// A media entry has no text `media_url_https`.
    MissingMediaUrl,
    /// A video has no array `video_info.variants`.
    MissingVariants,
    /// An encoding has no text `url`.
    MissingVariantUrl,
    /// The account settings have no text `screen_name`.
    MissingScreenName,
    /// A page lists an older post before a newer one.
    OutOfOrder,
}

/// One page of favorites, newest first, with the calls that the rate-limit
/// window still allows.
#[derive(Debug, PartialEq, Eq)]
pub struct Page {
    pub posts: Vec<Post>,
    pub remaining: i32,
}

/// A `Page` as contracts speak of it.
pub struct PageView {
    pub posts: Seq<PostView>,
    pub remaining: i32,
}

impl View for Page {
    type V = PageView;

    open spec fn view(&self) -> PageView {
        PageView { posts: post_views(self.posts@), remaining: self.remaining }
    }
}

/// The text of member `key`, where `j` is an object that has it as a text.
pub open spec fn text_member(j: Json, key: Seq<char>) -> Option<Seq<char>> {
    match j.member(key) {
        Some(value) => value.text(),
        None => None,
    }
}

/// The number of member `key`, where `j` is an object that has it as an
/// unsigned integer.
pub open spec fn unsigned_member(j: Json, key: Seq<char>) -> Option<u64> {
    match j.member(key) {
        Some(value) => value.unsigned(),
        None => None,
    }
}

/// The elements of `j[outer][inner]`, where that is an array.
pub open spec fn nested_items(j: Json, outer: Seq<char>, inner: Seq<char>) -> Option<Seq<Json>> {
    match j.member(outer) {
        Some(value) => match value.member(inner) {
            Some(list) => list.items(),
            None => None,
        },
        None => None,
    }
}

/// Every element read by `read`, in order; the error of the first element
/// that has one.
pub open spec fn read_each<T>(
    items: Seq<Json>,
    read: spec_fn(Json) -> Result<T, ProtocolError>,
) -> Result<Seq<T>, ProtocolError>
    decreases items.len(),
{
    if items.len() == 0 {
        Ok(Seq::empty())
    } else {
        match read_each(items.drop_last(), read) {
            Err(e) => Err(e),
            Ok(front) => match read(items.last()) {
                Err(e) => Err(e),
                Ok(last) => Ok(front.push(last)),
            },
        }
    }
}

/// What an element of `video_info.variants` reads as: it must have a text
/// `url`; its `content_type` and its `bitrate` are kept where it has them.
pub open spec fn variant_of(j: Json) -> Result<VariantView, ProtocolError> {
    match text_member(j, "url"@) {
        None => Err(ProtocolError::MissingVariantUrl),
        Some(url) => Ok(
            VariantView {
                content_type: text_member(j, "content_type"@),
                bitrate: unsigned_member(j, "bitrate"@),
                url,
            },
        ),
    }
}

/// The encodings of an entry: read for a video, none for anything else.
pub open spec fn variants_of(j: Json, label: Seq<char>) -> Result<
    Seq<VariantView>,
    ProtocolError,
> {
    if kind_of(label) == MediaKind::Video {
        match nested_items(j, "video_info"@, "variants"@) {
            None => Err(ProtocolError::MissingVariants),
            Some(items) => read_each(items, |v: Json| variant_of(v)),
        }
    } else {
        Ok(Seq::empty())
    }
}

/// What an element of a media collection reads as: it must have a text
/// `type` and a text `media_url_https`, and its encodings where it is a
/// video.
pub open spec fn entry_of(j: Json) -> Result<MediaEntryView, ProtocolError> {
    match text_member(j, "type"@) {
        None => Err(ProtocolError::MissingMediaType),
        Some(label) => match text_member(j, "media_url_https"@) {
            None => Err(ProtocolError::MissingMediaUrl),
            Some(url) => match variants_of(j, label) {
                Err(e) => Err(e),
                Ok(variants) => Ok(MediaEntryView { label, url, variants }),
            },
        },
    }
}

/// The media collection of a post: `extended_entities.media` where that is
/// an array, none otherwise.
pub open spec fn media_of(j: Json) -> Result<Option<Seq<MediaEntryView>>, ProtocolError> {
    match nested_items(j, "extended_entities"@, "media"@) {
        None => Ok(None),
        Some(items) => match read_each(items, |e: Json| entry_of(e)) {
            Err(e) => Err(e),
            Ok(entries) => Ok(Some(entries)),
        },
    }
}

/// What an element of the favorites response reads as: it must have an
/// unsigned `id`; its media collection is kept where it has one.
pub open spec fn post_of(j: Json) -> Result<PostView, ProtocolError> {
    match unsigned_member(j, "id"@) {
        None => Err(ProtocolError::MissingId),
        Some(id) => match media_of(j) {
            Err(e) => Err(e),
            Ok(media) => Ok(PostView { id, media }),
        },
    }
}

/// What the favorites response reads as: it must be an array, and each of
/// its elements a post.
pub open spec fn page_of(body: Json, remaining: i32) -> Result<PageView, ProtocolError> {
    match body.items() {
        None => Err(ProtocolError::NotAnArray),
        Some(items) => match read_each(items, |p: Json| post_of(p)) {
            Err(e) => Err(e),
            Ok(posts) => Ok(PageView { posts, remaining }),
        },
    }
}

/// What the account settings read as: they must have a text `screen_name`.
pub open spec fn screen_name_of(settings: Json) -> Result<Seq<char>, ProtocolError> {
    match text_member(settings, "screen_name"@) {
        None => Err(ProtocolError::MissingScreenName),
        Some(name) => Ok(name),
    }
}

/// Reading one element more: the elements before it first, then itself.
pub proof fn lemma_read_each_step<T>(
    items: Seq<Json>,
    read: spec_fn(Json) -> Result<T, ProtocolError>,
    i: int,
)
    requires
        0 <= i < items.len(),
    ensures
        read_each(items.take(i + 1), read) == match read_each(items.take(i), read) {
            Err(e) => Err(e),
            Ok(front) => match read(items[i]) {
                Err(e) => Err(e),
                Ok(last) => Ok(front.push(last)),
            },
        },
{
    assert(items.take(i + 1).drop_last() =~= items.take(i));
}

/// An error among the first elements is the error of the whole.
pub proof fn lemma_read_each_fails<T>(
    items: Seq<Json>,
    read: spec_fn(Json) -> Result<T, ProtocolError>,
    i: int,
)
    requires
        0 <= i <= items.len(),
        read_each(items.take(i), read) is Err,
    ensures
        read_each(items, read) == read_each(items.take(i), read),
    decreases items.len() - i,
{
    if i < items.len() {
        lemma_read_each_step(items, read, i);
        lemma_read_each_fails(items, read, i + 1);
    } else {
        assert(items.take(i) =~= items);
    }
}

fn text_field(j: &Json, key: &str) -> (found: Option<String>)
    ensures
        found.is_some() == text_member(*j, key@).is_some(),
        found matches Some(s) ==> text_member(*j, key@) == Some(s@),
{
    match j.get(key) {
        Some(value) => match value.as_str() {
            Some(s) => Some(s.to_owned()),
            None => None,
        },
        None => None,
    }
}

fn unsigned_field(j: &Json, key: &str) -> (found: Option<u64>)
    ensures
        found == unsigned_member(*j, key@),
{
    match j.get(key) {
        Some(value) => value.as_u64(),
        None => None,
    }
}

fn nested_array<'a>(j: &'a Json, outer: &str, inner: &str) -> (found: Option<&'a Vec<Json>>)
    ensures
        found.is_some() == nested_items(*j, outer@, inner@).is_some(),
        found matches Some(items) ==> nested_items(*j, outer@, inner@) == Some(items@),
{
    match j.get(outer) {
        Some(value) => match value.get(inner) {
            Some(list) => list.as_array(),
            None => None,
        },
        None => None,
    }
}

/// The result of reading an encoding, as contracts speak of it.
pub open spec fn variant_result(r: Result<Variant, ProtocolError>) -> Result<
    VariantView,
    ProtocolError,
> {
    match r {
        Ok(v) => Ok(v@),
        Err(e) => Err(e),
    }
}

/// The result of reading an entry, as contracts speak of it.
pub open spec fn entry_result(r: Result<MediaEntry, ProtocolError>) -> Result<
    MediaEntryView,
    ProtocolError,
> {
    match r {
        Ok(entry) => Ok(entry@),
        Err(e) => Err(e),
    }
}

/// The result of reading a post, as contracts speak of it.
pub open spec fn post_result(r: Result<Post, ProtocolError>) -> Result<PostView, ProtocolError> {
    match r {
        Ok(post) => Ok(post@),
        Err(e) => Err(e),
    }
}

/// The result of reading a page, as contracts speak of it.
pub open spec fn page_result(r: Result<Page, ProtocolError>) -> Result<PageView, ProtocolError> {
    match r {
        Ok(page) => Ok(page@),
        Err(e) => Err(e),
    }
}

/// The result of reading a handle, as contracts speak of it.
pub open spec fn name_result(r: Result<String, ProtocolError>) -> Result<
    Seq<char>,
    ProtocolError,
> {
    match r {
        Ok(name) => Ok(name@),
        Err(e) => Err(e),
    }
}

/// Reads one encoding of a video.
pub fn parse_variant(j: &Json) -> (parsed: Result<Variant, ProtocolError>)
    ensures
        variant_result(parsed) == variant_of(*j),
{
    match text_field(j, "url") {
        None => Err(ProtocolError::MissingVariantUrl),
        Some(url) => Ok(
            Variant {
                content_type: text_field(j, "content_type"),
                bitrate: unsigned_field(j, "bitrate"),
                url,
            },
        ),
    }
}

fn parse_variants(items: &Vec<Json>) -> (parsed: Result<Vec<Variant>, ProtocolError>)
    ensures
        match parsed {
            Ok(variants) => read_each(items@, |v: Json| variant_of(v)) == Ok::<
                Seq<VariantView>,
                ProtocolError,
            >(variant_views(variants@)),
            Err(e) => read_each(items@, |v: Json| variant_of(v)) == Err::<
                Seq<VariantView>,
                ProtocolError,
            >(e),
        },
{
    let ghost read = |v: Json| variant_of(v);
    let mut out: Vec<Variant> = Vec::new();
    let mut i: usize = 0;
    assert(variant_views(out@) =~= Seq::empty());
    while i < items.len()
        invariant
            i <= items.len(),
            read == (|v: Json| variant_of(v)),
            read_each(items@.take(i as int), read) == Ok::<Seq<VariantView>, ProtocolError>(
                variant_views(out@),
            ),
        decreases items.len() - i,
    {
        proof {
            lemma_read_each_step(items@, read, i as int);
        }
        match parse_variant(&items[i]) {
            Err(e) => {
                proof {
                    lemma_read_each_fails(items@, read, i as int + 1);
                }
                return Err(e);
            },
            Ok(variant) => {
                let ghost before = variant_views(out@);
                out.push(variant);
                assert(variant_views(out@) =~= before.push(variant@));
            },
        }
        i += 1;
    }
    assert(items@.take(items.len() as int) =~= items@);
    Ok(out)
}

/// Reads one entry of a post's media collection.
pub fn parse_entry(j: &Json) -> (parsed: Result<MediaEntry, ProtocolError>)
    ensures
        entry_result(parsed) == entry_of(*j),
{
    let label = match text_field(j, "type") {
        None => { return Err(ProtocolError::MissingMediaType); },
        Some(label) => label,
    };
    let url = match text_field(j, "media_url_https") {
        None => { return Err(ProtocolError::MissingMediaUrl); },
        Some(url) => url,
    };
    let variants = match MediaKind::from_label(label.as_str()) {
        MediaKind::Video => match nested_array(j, "video_info", "variants") {
            None => { return Err(ProtocolError::MissingVariants); },
            Some(items) => match parse_variants(items) {
                Err(e) => { return Err(e); },
                Ok(variants) => variants,
            },
        },
        _ => {
            let none: Vec<Variant> = Vec::new();
            assert(variant_views(none@) =~= Seq::empty());
            none
        },
    };
    Ok(MediaEntry { label, url, variants })
}

fn parse_entries(items: &Vec<Json>) -> (parsed: Result<Vec<MediaEntry>, ProtocolError>)
    ensures
        match parsed {
            Ok(entries) => read_each(items@, |e: Json| entry_of(e)) == Ok::<
                Seq<MediaEntryView>,
                ProtocolError,
            >(entry_views(entries@)),
            Err(e) => read_each(items@, |e: Json| entry_of(e)) == Err::<
                Seq<MediaEntryView>,
                ProtocolError,
            >(e),
        },
{
    let ghost read = |e: Json| entry_of(e);
    let mut out: Vec<MediaEntry> = Vec::new();
    let mut i: usize = 0;
    assert(entry_views(out@) =~= Seq::empty());
    while i < items.len()
        invariant
            i <= items.len(),
            read == (|e: Json| entry_of(e)),
            read_each(items@.take(i as int), read) == Ok::<Seq<MediaEntryView>, ProtocolError>(
                entry_views(out@),
            ),
        decreases items.len() - i,
    {
        proof {
            lemma_read_each_step(items@, read, i as int);
        }
        match parse_entry(&items[i]) {
            Err(e) => {
                proof {
                    lemma_read_each_fails(items@, read, i as int + 1);
                }
                return Err(e);
            },
            Ok(entry) => {
                let ghost before = entry_views(out@);
                out.push(entry);
                assert(entry_views(out@) =~= before.push(entry@));
            },
        }
        i += 1;
    }
    assert(items@.take(items.len() as int) =~= items@);
    Ok(out)
}

/// Reads one post of the favorites response.
pub fn parse_post(j: &Json) -> (parsed: Result<Post, ProtocolError>)
    ensures
        post_result(parsed) == post_of(*j),
{
    let id = match unsigned_field(j, "id") {
        None => { return Err(ProtocolError::MissingId); },
        Some(id) => id,
    };
    let media = match nested_array(j, "extended_entities", "media") {
        None => None,
        Some(items) => match parse_entries(items) {
            Err(e) => { return Err(e); },
            Ok(entries) => Some(entries),
        },
    };
    Ok(Post { id, media })
}

/// Reads the favorites response: an array of posts, together with the
/// remaining quota that came beside it.
pub fn parse_page(body: &Json, remaining: i32) -> (parsed: Result<Page, ProtocolError>)
    ensures
        page_result(parsed) == page_of(*body, remaining),
{
    let items = match body.as_array() {
        None => { return Err(ProtocolError::NotAnArray); },
        Some(items) => items,
    };
    let ghost read = |p: Json| post_of(p);
    let mut posts: Vec<Post> = Vec::new();
    let mut i: usize = 0;
    assert(post_views(posts@) =~= Seq::empty());
    while i < items.len()
        invariant
            i <= items.len(),
            read == (|p: Json| post_of(p)),
            body.items() == Some(items@),
            read_each(items@.take(i as int), read) == Ok::<Seq<PostView>, ProtocolError>(
                post_views(posts@),
            ),
        decreases items.len() - i,
    {
        proof {
            lemma_read_each_step(items@, read, i as int);
        }
        match parse_post(&items[i]) {
            Err(e) => {
                proof {
                    lemma_read_each_fails(items@, read, i as int + 1);
                }
                return Err(e);
            },
            Ok(post) => {
                let ghost before = post_views(posts@);
                posts.push(post);
                assert(post_views(posts@) =~= before.push(post@));
            },
        }
        i += 1;
    }
    assert(items@.take(items.len() as int) =~= items@);
    Ok(Page { posts, remaining })
}

/// Reads the account's handle from the account settings.
pub fn parse_screen_name(settings: &Json) -> (parsed: Result<String, ProtocolError>)
    ensures
        name_result(parsed) == screen_name_of(*settings),
{
    match text_field(settings, "screen_name") {
        None => Err(ProtocolError::MissingScreenName),
        Some(name) => Ok(name),
    }
}

} // verus!
