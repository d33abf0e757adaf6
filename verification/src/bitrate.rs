//! Choosing which encoding of a video to download.

use vstd::prelude::*;
use crate::text::same_text;

verus! {

/// One encoding of a video, as the endpoint offers it.
#[derive(Debug, PartialEq, Eq)]
pub struct Variant {
    pub content_type: Option<String>,
    pub bitrate: Option<u64>,
    pub url: String,
}

/// A `Variant` as contracts speak of it.
pub struct VariantView {
    pub content_type: Option<Seq<char>>,
    pub bitrate: Option<u64>,
    pub url: Seq<char>,
}

impl View for Variant {
    type V = VariantView;

    open spec fn view(&self) -> VariantView {
        VariantView {
            content_type: match self.content_type {
                Some(t) => Some(t@),
                None => None,
            },
            bitrate: self.bitrate,
            url: self.url@,
        }
    }
}

/// Why no encoding could be chosen.
#[derive(Debug, PartialEq, Eq)]
pub enum SelectionError {
    /// There was no encoding at all.
    NoVariants,
    /// Every encoding was a streaming manifest. `fallback` is the URL of the
    /// first one: it is not a playable stream and must not be taken for one
    /// unchecked.
    NoQualifyingVariant { fallback: String },
}

/// A `SelectionError` as contracts speak of it.
pub enum SelectionFailure {
    NoVariants,
    NoQualifyingVariant { fallback: Seq<char> },
}

impl View for SelectionError {
    type V = SelectionFailure;

    open spec fn view(&self) -> SelectionFailure {
        match self {
            SelectionError::NoVariants => SelectionFailure::NoVariants,
            SelectionError::NoQualifyingVariant { fallback } => {
                SelectionFailure::NoQualifyingVariant { fallback: fallback@ }
            },
        }
    }
}

/// Each encoding as contracts speak of it, in the same order.
pub open spec fn variant_views(variants: Seq<Variant>) -> Seq<VariantView> {
    variants.map_values(|v: Variant| v@)
}

/// A streaming manifest lists streams; it is not one itself.
pub open spec fn is_manifest(v: VariantView) -> bool {
    v.content_type == Some("application/x-mpegURL"@)
}

/// The bitrate of an encoding, 0 where none is given.
pub open spec fn bitrate_of(v: VariantView) -> u64 {
    match v.bitrate {
        Some(rate) => rate,
        None => 0,
    }
}

/// Some encoding is no manifest.
pub open spec fn has_qualifying(vs: Seq<VariantView>) -> bool {
    exists|j: int| 0 <= j < vs.len() && !is_manifest(#[trigger] vs[j])
}

/// `i` is the first of the non-manifest encodings that no other
/// non-manifest encoding exceeds in bitrate.
pub open spec fn is_best(vs: Seq<VariantView>, i: int) -> bool {
    &&& 0 <= i < vs.len()
    &&& !is_manifest(vs[i])
    &&& forall|j: int|
        0 <= j < vs.len() && !is_manifest(#[trigger] vs[j]) ==> bitrate_of(vs[j]) <= bitrate_of(
            vs[i],
        )
    &&& forall|j: int|
        0 <= j < i && !is_manifest(#[trigger] vs[j]) ==> bitrate_of(vs[j]) < bitrate_of(vs[i])
}

/// The position that `is_best` holds of, where there is one.
pub open spec fn best_index(vs: Seq<VariantView>) -> int {
    choose|i: int| is_best(vs, i)
}

/// What the selector answers for a list of encodings: the address of the
/// best one; a failure that names the first address where all of them are
/// manifests; a failure where there is none.
pub open spec fn selection(vs: Seq<VariantView>) -> Result<Seq<char>, SelectionFailure> {
    if vs.len() == 0 {
        Err(SelectionFailure::NoVariants)
    } else if !has_qualifying(vs) {
        Err(SelectionFailure::NoQualifyingVariant { fallback: vs[0].url })
    } else {
        Ok(vs[best_index(vs)].url)
    }
}

/// An answer of the selector as contracts speak of it.
pub open spec fn selection_view(r: Result<String, SelectionError>) -> Result<
    Seq<char>,
    SelectionFailure,
> {
    match r {
        Ok(url) => Ok(url@),
        Err(e) => Err(e@),
    }
}

/// At most one position is the best one.
pub proof fn lemma_best_is_unique(vs: Seq<VariantView>, i: int, j: int)
    requires
        is_best(vs, i),
        is_best(vs, j),
    ensures
        i == j,
{
}

/// A position that is the best one is the one that `best_index` names.
pub proof fn lemma_best_index(vs: Seq<VariantView>, i: int)
    requires
        is_best(vs, i),
    ensures
        has_qualifying(vs),
        best_index(vs) == i,
{
    lemma_best_is_unique(vs, i, best_index(vs));
}

/// Where every encoding is a manifest the selector fails, and what it names
/// as the fallback is the address of the first.
pub proof fn lemma_all_manifests_fall_back_to_first(vs: Seq<VariantView>)
    requires
        vs.len() > 0,
        forall|j: int| 0 <= j < vs.len() ==> is_manifest(#[trigger] vs[j]),
    ensures
        selection(vs) == Err::<Seq<char>, SelectionFailure>(
            SelectionFailure::NoQualifyingVariant { fallback: vs[0].url },
        ),
{
}

/// Where the selector succeeds, its answer is the address of an encoding
/// that is no manifest and that no other such encoding exceeds in bitrate.
pub proof fn lemma_selection_is_best(vs: Seq<VariantView>)
    requires
        has_qualifying(vs),
    ensures
        is_best(vs, best_index(vs)),
        selection(vs) == Ok::<Seq<char>, SelectionFailure>(vs[best_index(vs)].url),
{
    assert(vs.take(vs.len() as int) =~= vs);
    lemma_best_exists(vs, vs.len() as int);
}

/// Among the first `n` encodings, where one is no manifest, one is the best.
proof fn lemma_best_exists(vs: Seq<VariantView>, n: int)
    requires
        0 <= n <= vs.len(),
        has_qualifying(vs.take(n)),
    ensures
        exists|i: int| is_best(vs.take(n), i),
    decreases n,
{
    let here = vs.take(n);
    let front = vs.take(n - 1);
    if has_qualifying(front) {
        lemma_best_exists(vs, n - 1);
        let k = choose|i: int| is_best(front, i);
        if !is_manifest(here[n - 1]) && bitrate_of(here[k]) < bitrate_of(here[n - 1]) {
            assert(is_best(here, n - 1));
        } else {
            assert(is_best(here, k));
        }
    } else {
        assert(is_best(here, n - 1));
    }
}

impl Variant {
    /// Whether this encoding is a streaming manifest.
    pub fn is_manifest(&self) -> (manifest: bool)
        ensures
            manifest == is_manifest(self@),
    {
        match &self.content_type {
            Some(t) => same_text(t.as_str(), "application/x-mpegURL"),
            None => false,
        }
    }

    /// The bitrate of this encoding, 0 where none is given.
    pub fn bitrate_or_zero(&self) -> (rate: u64)
        ensures
            rate == bitrate_of(self@),
    {
        match self.bitrate {
            Some(rate) => rate,
            None => 0,
        }
    }
}

/// The address of the encoding with the highest bitrate among those that
/// are no streaming manifest, the first of them where several share it.
///
/// Fails where there is no encoding, and where every encoding is a
/// manifest; the failure then carries the address of the first.
pub fn find_max_bitrate_url(variants: &Vec<Variant>) -> (chosen: Result<String, SelectionError>)
    ensures
        selection_view(chosen) == selection(variant_views(variants@)),
{
    let ghost vs = variant_views(variants@);
    let mut best: Option<usize> = None;
    let mut i: usize = 0;
    while i < variants.len()
        invariant
            i <= variants.len(),
            vs == variant_views(variants@),
            best is None ==> forall|j: int| 0 <= j < i ==> is_manifest(#[trigger] vs[j]),
            best matches Some(k) ==> {
                &&& k < i
                &&& !is_manifest(vs[k as int])
                &&& forall|j: int|
                    0 <= j < i && !is_manifest(#[trigger] vs[j]) ==> bitrate_of(vs[j])
                        <= bitrate_of(vs[k as int])
                &&& forall|j: int|
                    0 <= j < k && !is_manifest(#[trigger] vs[j]) ==> bitrate_of(vs[j])
                        < bitrate_of(vs[k as int])
            },
        decreases variants.len() - i,
    {
        let candidate = &variants[i];
        if !candidate.is_manifest() {
            match best {
                None => {
                    best = Some(i);
                },
                Some(k) => {
                    if variants[k].bitrate_or_zero() < candidate.bitrate_or_zero() {
                        best = Some(i);
                    }
                },
            }
        }
        i += 1;
    }
    match best {
        Some(k) => {
            proof {
                lemma_best_index(vs, k as int);
            }
            Ok(variants[k].url.clone())
        },
        None => {
            if variants.len() == 0 {
                Err(SelectionError::NoVariants)
            } else {
                Err(SelectionError::NoQualifyingVariant { fallback: variants[0].url.clone() })
            }
        },
    }
}

} // verus!
