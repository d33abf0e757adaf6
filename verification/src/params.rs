//! The query parameters of a request, kept in the list type that the
//! request signer takes.

use vstd::prelude::*;
use crate::text::{decimal, decimal_of, same_text};

verus! {

/// The request signer's list of query parameters. What it holds is spoken
/// of through `parameters`.
#[verifier::external_type_specification]
#[verifier::external_body]
pub struct ExParamList(egg_mode::raw::ParamList);

/// Parameters by name: each name that is set, with its value.
pub type Parameters = Map<Seq<char>, Seq<char>>;

/// What a parameter list holds.
pub uninterp spec fn parameters(list: egg_mode::raw::ParamList) -> Parameters;

/// Calls `egg_mode::raw::ParamList::new`, which makes a list that holds
/// nothing.
#[verifier::external_body]
pub(crate) fn no_params() -> (list: egg_mode::raw::ParamList)
    ensures
        parameters(list) == Parameters::empty(),
{
    egg_mode::raw::ParamList::new()
}

/// Calls `egg_mode::raw::ParamList::add_param`, which hands the list back
/// with `key` set to `value`; a value that `key` had before is replaced, and
/// no other name is touched.
#[verifier::external_body]
pub(crate) fn with_param(list: egg_mode::raw::ParamList, key: &'static str, value: String) -> (out:
    egg_mode::raw::ParamList)
    ensures
        parameters(out) == parameters(list).insert(key@, value@),
{
    list.add_param(key, value)
}

/// The parameters of a request for one page of `screen_name`'s favorites:
/// at most `count` posts, and none above `max_id` where one is given.
pub open spec fn favorites_parameters(
    screen_name: Seq<char>,
    count: u8,
    max_id: Option<u64>,
) -> Parameters {
    let unbounded = Parameters::empty().insert(
        "screen_name"@,
        screen_name,
    ).insert("count"@, decimal_of(count as nat));
    match max_id {
        Some(id) => unbounded.insert("max_id"@, decimal_of(id as nat)),
        None => unbounded,
    }
}

/// The parameters to send with the request for a file of this extension:
/// none at all for a video stream, which is served as it is; for an image
/// its format and the name of the size that is not scaled down.
pub open spec fn media_parameters(ext: Seq<char>) -> Option<Parameters> {
    if ext == "mp4"@ {
        None
    } else {
        Some(Parameters::empty().insert("format"@, ext).insert("name"@, "orig"@))
    }
}

/// What an optional list holds.
pub open spec fn optional_parameters(list: Option<egg_mode::raw::ParamList>) -> Option<
    Parameters,
> {
    match list {
        Some(list) => Some(parameters(list)),
        None => None,
    }
}

/// Builds the parameters of a request for one page of favorites.
pub fn favorites_params(screen_name: &str, count: u8, max_id: Option<u64>) -> (list:
    egg_mode::raw::ParamList)
    ensures
        parameters(list) == favorites_parameters(screen_name@, count, max_id),
{
    let list = with_param(no_params(), "screen_name", screen_name.to_owned());
    let list = with_param(list, "count", decimal(count as u64));
    match max_id {
        Some(id) => with_param(list, "max_id", decimal(id)),
        None => list,
    }
}

/// Builds the parameters to send with the request for a file of this
/// extension.
pub fn media_params(ext: &str) -> (list: Option<egg_mode::raw::ParamList>)
    ensures
        optional_parameters(list) == media_parameters(ext@),
{
    if same_text(ext, "mp4") {
        None
    } else {
        let list = with_param(no_params(), "format", ext.to_owned());
        Some(with_param(list, "name", "orig".to_owned()))
    }
}

} // verus!
