//! From posts to the media they embed: each entry classified, each video
//! resolved to its thumbnail and its best stream.

use vstd::prelude::*;
use crate::bitrate::{
    find_max_bitrate_url, selection, selection_view, variant_views, SelectionError,
    SelectionFailure, Variant, VariantView,
};
use crate::text::same_text;

verus! {

/// One entry of a post's media collection: the kind as the endpoint labels
/// it, the HTTPS address of the image (for a video, of its thumbnail), and
/// the encodings on offer (none unless it is a video).
#[derive(Debug, PartialEq, Eq)]
pub struct MediaEntry {
    pub label: String,
    pub url: String,
    pub variants: Vec<Variant>,
}

/// A `MediaEntry` as contracts speak of it.
pub struct MediaEntryView {
    pub label: Seq<char>,
    pub url: Seq<char>,
    pub variants: Seq<VariantView>,
}

impl View for MediaEntry {
    type V = MediaEntryView;

    open spec fn view(&self) -> MediaEntryView {
        MediaEntryView {
            label: self.label@,
            url: self.url@,
            variants: variant_views(self.variants@),
        }
    }
}

/// Each entry as contracts speak of it, in the same order.
pub open spec fn entry_views(entries: Seq<MediaEntry>) -> Seq<MediaEntryView> {
    entries.map_values(|e: MediaEntry| e@)
}

/// A liked post: its identifier and, where it has one, its media collection.
#[derive(Debug, PartialEq, Eq)]
pub struct Post {
    pub id: u64,
    pub media: Option<Vec<MediaEntry>>,
}

/// A `Post` as contracts speak of it.
pub struct PostView {
    pub id: u64,
    pub media: Option<Seq<MediaEntryView>>,
}

impl View for Post {
    type V = PostView;

    open spec fn view(&self) -> PostView {
        PostView {
            id: self.id,
            media: match self.media {
                Some(entries) => Some(entry_views(entries@)),
                None => None,
            },
        }
    }
}

/// Each post as contracts speak of it, in the same order.
pub open spec fn post_views(posts: Seq<Post>) -> Seq<PostView> {
    posts.map_values(|p: Post| p@)
}

/// What a reference refers to.
#[derive(Clone, Copy, Debug, PartialEq, Eq, Structural)]
pub enum MediaKind {
    /// A still image; also the thumbnail of a video.
    Photo,
    /// The stream of a video.
    Video,
    /// An animated image. Known, but not fetched.
    AnimatedImage,
    /// Anything else. Not fetched.
    Unsupported,
}

/// A unit of content that a post refers to. `source` is where it is fetched
/// from; for a video it is what the bitrate selector answered, an error
/// where it could choose nothing.
#[derive(Debug, PartialEq, Eq)]
pub struct MediaReference {
    pub kind: MediaKind,
    pub source: Result<String, SelectionError>,
}

/// A `MediaReference` as contracts speak of it.
pub struct MediaReferenceView {
    pub kind: MediaKind,
    pub source: Result<Seq<char>, SelectionFailure>,
}

impl View for MediaReference {
    type V = MediaReferenceView;

    open spec fn view(&self) -> MediaReferenceView {
        MediaReferenceView { kind: self.kind, source: selection_view(self.source) }
    }
}

/// Each reference as contracts speak of it, in the same order.
pub open spec fn reference_views(references: Seq<MediaReference>) -> Seq<MediaReferenceView> {
    references.map_values(|r: MediaReference| r@)
}

/// The kind that a label of the endpoint stands for.
pub open spec fn kind_of(label: Seq<char>) -> MediaKind {
    if label == "photo"@ {
        MediaKind::Photo
    } else if label == "video"@ {
        MediaKind::Video
    } else if label == "animated_gif"@ {
        MediaKind::AnimatedImage
    } else {
        MediaKind::Unsupported
    }
}

/// Photos and videos are fetched; animated images and unknown kinds are
/// only reported.
pub open spec fn downloadable(kind: MediaKind) -> bool {
    kind == MediaKind::Photo || kind == MediaKind::Video
}

/// What one entry yields: a photo itself; a video its thumbnail, as a photo,
/// and then its stream; anything else one reference that is not fetched.
pub open spec fn entry_references(entry: MediaEntryView) -> Seq<MediaReferenceView> {
    match kind_of(entry.label) {
        MediaKind::Video => seq![
            MediaReferenceView { kind: MediaKind::Photo, source: Ok(entry.url) },
            MediaReferenceView { kind: MediaKind::Video, source: selection(entry.variants) },
        ],
        kind => seq![MediaReferenceView { kind, source: Ok(entry.url) }],
    }
}

/// The references of several entries, in the entries' order.
pub open spec fn entries_references(entries: Seq<MediaEntryView>) -> Seq<MediaReferenceView>
    decreases entries.len(),
{
    if entries.len() == 0 {
        Seq::empty()
    } else {
        entries_references(entries.drop_last()) + entry_references(entries.last())
    }
}

/// What one post yields: nothing where it has no media collection.
pub open spec fn post_references(post: PostView) -> Seq<MediaReferenceView> {
    match post.media {
        Some(entries) => entries_references(entries),
        None => Seq::empty(),
    }
}

/// The references of a page of posts, in the posts' order.
pub open spec fn page_references(posts: Seq<PostView>) -> Seq<MediaReferenceView>
    decreases posts.len(),
{
    if posts.len() == 0 {
        Seq::empty()
    } else {
        page_references(posts.drop_last()) + post_references(posts.last())
    }
}

/// Those of `references` that are fetched, in their order.
pub open spec fn downloads_of(references: Seq<MediaReferenceView>) -> Seq<MediaReferenceView> {
    references.filter(|r: MediaReferenceView| downloadable(r.kind))
}

/// A post without a media collection yields nothing.
pub proof fn lemma_no_media_no_references(post: PostView)
    requires
        post.media is None,
    ensures
        post_references(post) == Seq::<MediaReferenceView>::empty(),
{
}

/// A video yields exactly two references: its thumbnail, fetched like a
/// photo from the entry's own address, and its stream, whose source is what
/// the bitrate selector answers for the entry's encodings.
pub proof fn lemma_video_yields_thumbnail_and_stream(entry: MediaEntryView)
    requires
        kind_of(entry.label) == MediaKind::Video,
    ensures
        entry_references(entry).len() == 2,
        entry_references(entry)[0] == (MediaReferenceView {
            kind: MediaKind::Photo,
            source: Ok(entry.url),
        }),
        entry_references(entry)[1] == (MediaReferenceView {
            kind: MediaKind::Video,
            source: selection(entry.variants),
        }),
{
}

/// An entry that is neither photo nor video yields one reference, and that
/// one is not fetched.
pub proof fn lemma_other_kinds_are_not_fetched(entry: MediaEntryView)
    requires
        !downloadable(kind_of(entry.label)),
    ensures
        entry_references(entry).len() == 1,
        downloads_of(entry_references(entry)).len() == 0,
{
    reveal_with_fuel(Seq::filter, 2);
}

/// The reference to a still image at `url`.
pub open spec fn photo_at(url: Seq<char>) -> MediaReferenceView {
    MediaReferenceView { kind: MediaKind::Photo, source: Ok(url) }
}

/// The reference to a video stream at `url`.
pub open spec fn stream_at(url: Seq<char>) -> MediaReferenceView {
    MediaReferenceView { kind: MediaKind::Video, source: Ok(url) }
}

/// A post whose media is one photo at `url`.
pub open spec fn is_photo_post(post: PostView, url: Seq<char>) -> bool {
    &&& post.media matches Some(entries)
    &&& entries.len() == 1
    &&& kind_of(entries[0].label) == MediaKind::Photo
    &&& entries[0].url == url
}

/// A post whose media is one video with its thumbnail at `thumbnail`, and
/// for which the bitrate selector chooses the encoding at `stream`.
pub open spec fn is_video_post(post: PostView, thumbnail: Seq<char>, stream: Seq<char>) -> bool {
    &&& post.media matches Some(entries)
    &&& entries.len() == 1
    &&& kind_of(entries[0].label) == MediaKind::Video
    &&& entries[0].url == thumbnail
    &&& selection(entries[0].variants) == Ok::<Seq<char>, SelectionFailure>(stream)
}

/// A post with one photo yields that photo.
pub proof fn lemma_photo_post_yields_photo(post: PostView, url: Seq<char>)
    requires
        is_photo_post(post, url),
    ensures
        post_references(post) == seq![photo_at(url)],
{
    let entries = post.media->0;
    assert(entries.drop_last() =~= Seq::<MediaEntryView>::empty());
    assert(entries_references(entries.drop_last()) =~= Seq::<MediaReferenceView>::empty());
    assert(entries_references(entries) =~= seq![photo_at(url)]);
}

/// A post with one video yields the thumbnail and then the stream.
pub proof fn lemma_video_post_yields_thumbnail_and_stream(
    post: PostView,
    thumbnail: Seq<char>,
    stream: Seq<char>,
)
    requires
        is_video_post(post, thumbnail, stream),
    ensures
        post_references(post) == seq![photo_at(thumbnail), stream_at(stream)],
{
    let entries = post.media->0;
    assert(entries.drop_last() =~= Seq::<MediaEntryView>::empty());
    assert(entries_references(entries.drop_last()) =~= Seq::<MediaReferenceView>::empty());
    assert(entries_references(entries) =~= seq![photo_at(thumbnail), stream_at(stream)]);
}

/// What a page of three posts yields is what the first yields, then the
/// second, then the third.
pub proof fn lemma_three_posts_yield_in_order(posts: Seq<PostView>)
    requires
        posts.len() == 3,
    ensures
        page_references(posts) == post_references(posts[0]) + post_references(posts[1])
            + post_references(posts[2]),
{
    let two = posts.drop_last();
    let one = two.drop_last();
    assert(one.drop_last() =~= Seq::<PostView>::empty());
    assert(page_references(one.drop_last()) =~= Seq::<MediaReferenceView>::empty());
    assert(page_references(one) =~= post_references(posts[0]));
    assert(page_references(two) =~= post_references(posts[0]) + post_references(posts[1]));
}

/// Where every reference is of a kind that is fetched, all of them are.
pub proof fn lemma_all_downloadable_are_kept(references: Seq<MediaReferenceView>)
    requires
        forall|i: int| 0 <= i < references.len() ==> downloadable(#[trigger] references[i].kind),
    ensures
        downloads_of(references) == references,
    decreases references.len(),
{
    reveal(Seq::filter);
    if references.len() > 0 {
        lemma_all_downloadable_are_kept(references.drop_last());
        assert(references.drop_last().push(references.last()) =~= references);
    }
}

/// Two photos, a thumbnail and a stream.
pub open spec fn four_assets(
    photo_one: Seq<char>,
    photo_two: Seq<char>,
    thumbnail: Seq<char>,
    stream: Seq<char>,
) -> Seq<MediaReferenceView> {
    seq![photo_at(photo_one), photo_at(photo_two), photo_at(thumbnail), stream_at(stream)]
}

/// What the post at `position` gives of the four, where the posts with the
/// photos and the post with the video stand at the given positions.
spec fn share(
    four: Seq<MediaReferenceView>,
    first_photo: int,
    second_photo: int,
    position: int,
) -> Seq<MediaReferenceView> {
    if position == first_photo {
        seq![four[0]]
    } else if position == second_photo {
        seq![four[1]]
    } else {
        seq![four[2], four[3]]
    }
}

/// The shares of three posts, in whichever order the posts come, make up
/// the same four.
proof fn lemma_shares_make_four(
    four: Seq<MediaReferenceView>,
    first_photo: int,
    second_photo: int,
    video: int,
)
    requires
        four.len() == 4,
        0 <= first_photo < 3 && 0 <= second_photo < 3 && 0 <= video < 3,
        first_photo != second_photo && first_photo != video && second_photo != video,
    ensures
        (share(four, first_photo, second_photo, 0) + share(four, first_photo, second_photo, 1)
            + share(four, first_photo, second_photo, 2)).len() == 4,
        (share(four, first_photo, second_photo, 0) + share(four, first_photo, second_photo, 1)
            + share(four, first_photo, second_photo, 2)).to_multiset() == four.to_multiset(),
{
    broadcast use vstd::multiset::group_multiset_axioms;

    let a = share(four, first_photo, second_photo, 0);
    let b = share(four, first_photo, second_photo, 1);
    let c = share(four, first_photo, second_photo, 2);
    let one = seq![four[0]];
    let two = seq![four[1]];
    let pair = seq![four[2], four[3]];
    assert(four =~= one + two + pair);
    vstd::seq_lib::lemma_multiset_commutative(one + two, pair);
    vstd::seq_lib::lemma_multiset_commutative(one, two);
    vstd::seq_lib::lemma_multiset_commutative(a + b, c);
    vstd::seq_lib::lemma_multiset_commutative(a, b);
    assert(one.to_multiset().add(two.to_multiset()).add(pair.to_multiset()) =~= a.to_multiset().add(
        b.to_multiset(),
    ).add(c.to_multiset()));
}

/// A page of three posts of which two hold one photo each and one holds one
/// video, in whichever order, gives four assets to download: each photo,
/// the video's thumbnail and its stream, each of them once.
pub proof fn lemma_two_photos_and_a_video_are_four_assets(
    posts: Seq<PostView>,
    first_photo: int,
    second_photo: int,
    video: int,
    photo_one: Seq<char>,
    photo_two: Seq<char>,
    thumbnail: Seq<char>,
    stream: Seq<char>,
)
    requires
        posts.len() == 3,
        0 <= first_photo < 3 && 0 <= second_photo < 3 && 0 <= video < 3,
        first_photo != second_photo && first_photo != video && second_photo != video,
        is_photo_post(posts[first_photo], photo_one),
        is_photo_post(posts[second_photo], photo_two),
        is_video_post(posts[video], thumbnail, stream),
    ensures
        downloads_of(page_references(posts)).len() == 4,
        downloads_of(page_references(posts)).to_multiset() == four_assets(
            photo_one,
            photo_two,
            thumbnail,
            stream,
        ).to_multiset(),
{
    let four = four_assets(photo_one, photo_two, thumbnail, stream);
    lemma_photo_post_yields_photo(posts[first_photo], photo_one);
    lemma_photo_post_yields_photo(posts[second_photo], photo_two);
    lemma_video_post_yields_thumbnail_and_stream(posts[video], thumbnail, stream);
    assert(post_references(posts[0]) == share(four, first_photo, second_photo, 0));
    assert(post_references(posts[1]) == share(four, first_photo, second_photo, 1));
    assert(post_references(posts[2]) == share(four, first_photo, second_photo, 2));
    lemma_three_posts_yield_in_order(posts);
    lemma_shares_make_four(four, first_photo, second_photo, video);
    lemma_all_downloadable_are_kept(page_references(posts));
}

impl MediaKind {
    /// The kind that a label of the endpoint stands for: `photo`, `video`
    /// and `animated_gif` are known, every other label is unsupported.
    pub fn from_label(label: &str) -> (kind: MediaKind)
        ensures
            kind == kind_of(label@),
    {
        if same_text(label, "photo") {
            MediaKind::Photo
        } else if same_text(label, "video") {
            MediaKind::Video
        } else if same_text(label, "animated_gif") {
            MediaKind::AnimatedImage
        } else {
            MediaKind::Unsupported
        }
    }

    /// Whether content of this kind is fetched.
    pub fn is_downloadable(&self) -> (yes: bool)
        ensures
            yes == downloadable(*self),
    {
        match self {
            MediaKind::Photo | MediaKind::Video => true,
            _ => false,
        }
    }
}

impl MediaReference {
    /// A reference to the same content.
    pub fn duplicate(&self) -> (copy: MediaReference)
        ensures
            copy@ == self@,
    {
        let source = match &self.source {
            Ok(url) => Ok(url.clone()),
            Err(SelectionError::NoVariants) => Err(SelectionError::NoVariants),
            Err(SelectionError::NoQualifyingVariant { fallback }) => Err(
                SelectionError::NoQualifyingVariant { fallback: fallback.clone() },
            ),
        };
        MediaReference { kind: self.kind, source }
    }
}

/// Those of `references` that are fetched, in their order.
pub fn downloads(references: &Vec<MediaReference>) -> (kept: Vec<MediaReference>)
    ensures
        reference_views(kept@) == downloads_of(reference_views(references@)),
{
    let ghost all = reference_views(references@);
    let ghost wanted = |r: MediaReferenceView| downloadable(r.kind);
    let mut kept: Vec<MediaReference> = Vec::new();
    let mut i: usize = 0;
    while i < references.len()
        invariant
            i <= references.len(),
            all == reference_views(references@),
            wanted == (|r: MediaReferenceView| downloadable(r.kind)),
            reference_views(kept@) == all.take(i as int).filter(wanted),
        decreases references.len() - i,
    {
        proof {
            assert(all.take(i as int + 1).drop_last() =~= all.take(i as int));
            reveal(Seq::filter);
        }
        if references[i].kind.is_downloadable() {
            kept.push(references[i].duplicate());
        }
        i += 1;
    }
    assert(all.take(references.len() as int) =~= all);
    kept
}

impl MediaEntry {
    /// The references of this entry, added to `out` in order.
    pub fn extract_into(&self, out: &mut Vec<MediaReference>)
        ensures
            reference_views(final(out)@) == reference_views(old(out)@) + entry_references(self@),
    {
        let kind = MediaKind::from_label(self.label.as_str());
        match kind {
            MediaKind::Video => {
                out.push(MediaReference { kind: MediaKind::Photo, source: Ok(self.url.clone()) });
                out.push(
                    MediaReference {
                        kind: MediaKind::Video,
                        source: find_max_bitrate_url(&self.variants),
                    },
                );
            },
            _ => {
                out.push(MediaReference { kind, source: Ok(self.url.clone()) });
            },
        }
    }
}

impl Post {
    /// The references of this post, added to `out` in order.
    pub fn extract_into(&self, out: &mut Vec<MediaReference>)
        ensures
            reference_views(final(out)@) == reference_views(old(out)@) + post_references(self@),
    {
        let ghost before = reference_views(out@);
        match &self.media {
            Some(entries) => {
                let mut i: usize = 0;
                while i < entries.len()
                    invariant
                        i <= entries.len(),
                        reference_views(out@) == before + entries_references(
                            entry_views(entries@.take(i as int)),
                        ),
                    decreases entries.len() - i,
                {
                    entries[i].extract_into(out);
                    assert(entry_views(entries@.take(i as int + 1)).drop_last() =~= entry_views(
                        entries@.take(i as int),
                    ));
                    i += 1;
                }
                assert(entries@.take(entries.len() as int) =~= entries@);
            },
            None => {},
        }
    }
}

/// Every reference that a page of posts yields, in order: the posts' order,
/// and within a post the order of its media.
pub fn extract_media(posts: &Vec<Post>) -> (references: Vec<MediaReference>)
    ensures
        reference_views(references@) == page_references(post_views(posts@)),
{
    let mut out: Vec<MediaReference> = Vec::new();
    let mut i: usize = 0;
    while i < posts.len()
        invariant
            i <= posts.len(),
            reference_views(out@) == page_references(post_views(posts@.take(i as int))),
        decreases posts.len() - i,
    {
        posts[i].extract_into(&mut out);
        assert(post_views(posts@.take(i as int + 1)).drop_last() =~= post_views(
            posts@.take(i as int),
        ));
        i += 1;
    }
    assert(posts@.take(posts.len() as int) =~= posts@);
    out
}

} // verus!
