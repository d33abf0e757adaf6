//! Synchronises an account's liked posts to local storage: the decisions of
//! the pipeline, with the network and the filesystem left to the caller.

pub mod bitrate;
pub mod credentials;
pub mod download;
pub mod json;
pub mod media;
pub mod pagination;
pub mod params;
pub mod protocol;
pub mod text;
pub mod url;
