//! The core of a journal that publishes entries to a JSON posts file.
//!
//! A posts file holds one post collection: what the page is called and
//! styled by, the links of its footer, and the posts, newest first. To
//! publish is to read the file, put the entry in front under the stamp of the
//! local time, and write the file anew. This crate decides every step of
//! that; reading and writing the file, and looking up where it is, are the
//! caller's.
//!
//! - [`blog`]: entries, errors, and the steps of a publish attempt.
//! - [`store`]: the post collection and its JSON document.
//! - [`shape`]: kinds of values that JSON values stand for.
//! - [`json`]: JSON values as trees, read and written through `serde_json`.
//! - [`clock`]: the local time through `chrono`, and the stamp of a post.
//! - [`lines`]: cutting the text of an entry into lines.

pub mod blog;
pub mod clock;
pub mod json;
pub mod lines;
pub mod shape;
pub mod store;
