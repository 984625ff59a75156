//! The publish service: what an entry is, which errors a publish attempt can
//! end in, and how each step of an attempt decides.

use crate::clock::{local_now, soleilfou_text, WallTime, WallTimeView};
use crate::lines::{lines_of, split_on_line_breaks};
use crate::store::{
    loaded, reading, reading_file, writing, written_value, BlogPostsForJson, PageInfo,
    PostCollection, PostForJson, StoredPost,
};
use vstd::prelude::*;

verus! {

/// The name of the environment variable that holds the store file's path.
pub const POSTS_FILE_VAR_NAME: &'static str = "BLOG_POSTS_FILE";

/// The ways in which a publish attempt can fail.
#[derive(Debug, PartialEq, Eq)]
pub enum BlogError {
    /// The store file could not be read.
    UnableToReadPostsFile,
    /// The store file does not hold a post collection.
    PostsFileUnParsable,
    /// The store file could not be written or saved.
    CouldNotWritePostsFile,
    /// The collection has no JSON text: the encoder failed on it.
    CouldNotSerializePosts,
    /// The store file's location is not configured; the text says why.
    EnvVarNotFound(String),
}

impl BlogError {
    /// The text shown to the user for this error.
    pub open spec fn message_text(self) -> Seq<char> {
        match self {
            BlogError::UnableToReadPostsFile => "Unable to Read Posts File"@,
            BlogError::PostsFileUnParsable => "Posts file has unparsable JSON"@,
            BlogError::CouldNotWritePostsFile => "Could not write to or save Posts file"@,
            BlogError::CouldNotSerializePosts => "Could not serialize Posts as JSON"@,
            BlogError::EnvVarNotFound(detail) => "Could not find env var: "@ + detail@,
        }
    }

    /// Renders the error for display.
    pub fn message(&self) -> (text: String)
        ensures
            text@ == self.message_text(),
    {
        match self {
            BlogError::UnableToReadPostsFile => String::from_str("Unable to Read Posts File"),
            BlogError::PostsFileUnParsable => String::from_str("Posts file has unparsable JSON"),
            BlogError::CouldNotWritePostsFile => String::from_str(
                "Could not write to or save Posts file",
            ),
            BlogError::CouldNotSerializePosts => String::from_str(
                "Could not serialize Posts as JSON",
            ),
            BlogError::EnvVarNotFound(detail) => String::from_str(
                "Could not find env var: ",
            ).concat(detail.as_str()),
        }
    }
}

/// An entry to publish: a title and the lines of its text.
#[derive(Debug, PartialEq, Eq)]
pub struct Post {
    pub title: String,
    pub content: Vec<String>,
}

/// The mathematical value of a [`Post`].
pub struct Entry {
    pub title: Seq<char>,
    pub content: Seq<Seq<char>>,
}

impl View for Post {
    type V = Entry;

    open spec fn view(&self) -> Entry {
        Entry { title: self.title@, content: self.content.deep_view() }
    }
}

/// The post that the store holds for `entry` once it was published at the
/// time that `stamp` shows: title and lines as they are.
pub open spec fn stored_entry(entry: Entry, stamp: Seq<char>) -> StoredPost {
    StoredPost { woa_time: stamp, title: entry.title, content: entry.content }
}

/// `collection` with one more post, put in front of the others.
pub open spec fn with_post(collection: PostCollection, post: StoredPost) -> PostCollection {
    PostCollection {
        page: collection.page,
        footer_links: collection.footer_links,
        posts: collection.posts.insert(0, post),
    }
}

/// The collection after `entry` is published, at the time that `stamp`
/// shows, into the store whose file read as `contents`.
pub open spec fn published(contents: Option<Seq<char>>, entry: Entry, stamp: Seq<char>) ->
    PostCollection {
    with_post(loaded(contents), stored_entry(entry, stamp))
}

/// What tells the user that the store file's location is not configured:
/// the variable to set, and why its lookup failed.
pub open spec fn missing_file_detail(cause: Seq<char>) -> Seq<char> {
    "No blog posts file specified - please set the env var:'"@ + POSTS_FILE_VAR_NAME@ + "':"@
        + cause
}

/// Whether `needle` stands somewhere in `text`.
pub open spec fn occurs_in(needle: Seq<char>, text: Seq<char>) -> bool {
    exists|at: int|
        0 <= at && at + needle.len() <= text.len() && #[trigger] text.subrange(
            at,
            at + needle.len(),
        ) == needle
}

/// Copies lines.
fn copy_lines(lines: &Vec<String>) -> (copy: Vec<String>)
    ensures
        copy.deep_view() == lines.deep_view(),
{
    let mut copy: Vec<String> = Vec::new();
    let mut i: usize = 0;
    while i < lines.len()
        invariant
            i <= lines.len(),
            copy@.len() == i,
            forall|k: int| 0 <= k < i ==> (#[trigger] copy@[k])@ == lines@[k]@,
        decreases lines.len() - i,
    {
        copy.push(lines[i].clone());
        i = i + 1;
    }
    copy
}

impl Post {
    /// The entry that the user typed: the title as it is, and the text cut
    /// into lines.
    pub fn compose(title: &str, content: &str) -> (post: Post)
        ensures
            post@ == (Entry { title: title@, content: lines_of(content@) }),
    {
        Post { title: String::from_str(title), content: split_on_line_breaks(content) }
    }

    /// The post to store for this entry, published at `now`.
    pub fn for_json_at(&self, now: &WallTime) -> (stored: PostForJson)
        ensures
            now@.valid(),
            stored@ == stored_entry(self@, soleilfou_text(now@)),
    {
        PostForJson {
            woa_time: now.soleilfou(),
            title: self.title.clone(),
            content: copy_lines(&self.content),
        }
    }

    /// The post to store for this entry, published now: stamped with the
    /// local time at the call.
    pub fn for_json(&self) -> (stored: PostForJson)
        ensures
            exists|now: WallTimeView| #[trigger]
                now.valid() && stored@ == stored_entry(self@, soleilfou_text(now)),
    {
        let now = local_now();
        self.for_json_at(&now)
    }
}

impl BlogPostsForJson {
    /// Puts `stored` in front of the posts. Page, footer links and the posts
    /// that were there stay as they are, each post one place further back.
    pub fn insert_post(&mut self, stored: PostForJson)
        ensures
            final(self)@ == with_post(old(self)@, stored@),
            final(self)@.page == old(self)@.page,
            final(self)@.footer_links == old(self)@.footer_links,
            final(self)@.posts.len() == old(self)@.posts.len() + 1,
            final(self)@.posts[0] == stored@,
            forall|i: int|
                0 <= i < old(self)@.posts.len() ==> #[trigger] final(self)@.posts[i + 1] == old(
                    self,
                )@.posts[i],
    {
        self.posts.insert(0, stored);
        assert(self@.posts =~= old(self)@.posts.insert(0, stored@));
    }

    /// Adds `post` as published at `now`.
    pub fn add_post_at(&mut self, post: Post, now: &WallTime)
        ensures
            now@.valid(),
            final(self)@ == with_post(old(self)@, stored_entry(post@, soleilfou_text(now@))),
    {
        self.insert_post(post.for_json_at(now));
    }

    /// Adds `post` as published now: in front of the posts, stamped with the
    /// local time at the call.
    pub fn add_post(&mut self, post: Post)
        ensures
            exists|now: WallTimeView| #[trigger]
                now.valid() && final(self)@ == with_post(
                    old(self)@,
                    stored_entry(post@, soleilfou_text(now)),
                ),
    {
        let now = local_now();
        self.add_post_at(post, &now);
    }
}

/// Decides where the store file is, given what looking up
/// [`POSTS_FILE_VAR_NAME`] in the environment gave: the path, or the reason
/// why there is none. Fails with `EnvVarNotFound` exactly for the second, and
/// says then which variable to set and what the reason was.
pub fn posts_file_from_env(lookup: Result<String, String>) -> (found: Result<String, BlogError>)
    ensures
        match lookup {
            Ok(path) => found matches Ok(file) && file@ == path@,
            Err(cause) => found matches Err(BlogError::EnvVarNotFound(detail)) && detail@
                == missing_file_detail(cause@),
        },
        found matches Err(error) ==> occurs_in(POSTS_FILE_VAR_NAME@, error.message_text()),
{
    match lookup {
        Ok(path) => Ok(path),
        Err(cause) => {
            let detail = String::from_str(
                "No blog posts file specified - please set the env var:'",
            ).concat(POSTS_FILE_VAR_NAME).concat("':").concat(cause.as_str());
            let error = BlogError::EnvVarNotFound(detail);
            proof {
                lemma_missing_file_message(error, cause@);
            }
            Err(error)
        },
    }
}

/// What saving comes to, given what writing the collection as text came to:
/// the text, or `CouldNotWritePostsFile` whatever kept the text from being
/// written.
pub open spec fn saving(written: Result<Seq<char>, BlogError>) -> Result<Seq<char>, BlogError> {
    match written {
        Ok(text) => Ok(text),
        Err(_) => Err(BlogError::CouldNotWritePostsFile),
    }
}

/// The text to save, given what writing the collection as text came to. To
/// the one who publishes, every failure of saving is
/// `CouldNotWritePostsFile`.
pub fn text_to_save(written: Result<String, BlogError>) -> (outcome: Result<String, BlogError>)
    ensures
        written_value(outcome) == saving(written_value(written)),
{
    match written {
        Ok(text) => Ok(text),
        Err(_) => Err(BlogError::CouldNotWritePostsFile),
    }
}

/// What publishing `entry` at the time that `stamp` shows comes to, for a
/// store whose file read as `contents`: the new text of the file, or
/// `CouldNotWritePostsFile` where the new collection has no text.
pub open spec fn publishing(contents: Option<Seq<char>>, entry: Entry, stamp: Seq<char>) -> Result<
    Seq<char>,
    BlogError,
> {
    saving(writing(published(contents, entry, stamp)))
}

/// Publishes `post` at `now` into the store whose file read as `contents`
/// (`None` for a file that could not be read), and gives the text to write
/// back to the file. Fails with `CouldNotWritePostsFile` exactly where the
/// new collection cannot be written as text.
pub fn publish_at(post: Post, contents: Option<&str>, now: &WallTime) -> (outcome: Result<
    String,
    BlogError,
>)
    ensures
        now@.valid(),
        written_value(outcome) == publishing(contents.deep_view(), post@, soleilfou_text(now@)),
{
    let mut blog_posts = BlogPostsForJson::load_or_default(contents);
    blog_posts.add_post_at(post, now);
    text_to_save(blog_posts.to_json_string())
}

/// Publishes `post` now into the store whose file read as `contents`: the
/// post goes in front of those the file held, stamped with the local time at
/// the call, and the text to write back comes out.
pub fn publish(post: Post, contents: Option<&str>) -> (outcome: Result<String, BlogError>)
    ensures
        exists|now: WallTimeView| #[trigger]
            now.valid() && written_value(outcome) == publishing(
                contents.deep_view(),
                post@,
                soleilfou_text(now),
            ),
{
    let now = local_now();
    publish_at(post, contents, &now)
}

/// How a publish attempt ends once the new text went to the store file:
/// well where it was written, with `CouldNotWritePostsFile` where not.
pub fn write_outcome(written: bool) -> (outcome: Result<bool, BlogError>)
    ensures
        outcome == if written {
            Ok::<bool, BlogError>(true)
        } else {
            Err::<bool, BlogError>(BlogError::CouldNotWritePostsFile)
        },
{
    if written {
        Ok(true)
    } else {
        Err(BlogError::CouldNotWritePostsFile)
    }
}

/// What to show the user after a publish attempt.
pub open spec fn status_of(outcome: Result<bool, BlogError>) -> Seq<char> {
    match outcome {
        Ok(_) => "Publish successful"@,
        Err(error) => error.message_text(),
    }
}

/// The text for the status line after a publish attempt.
pub fn status_text(outcome: &Result<bool, BlogError>) -> (text: String)
    ensures
        text@ == status_of(*outcome),
{
    match outcome {
        Ok(_) => String::from_str("Publish successful"),
        Err(error) => error.message(),
    }
}

/// The message of a missing configuration names the variable to set and
/// gives the reason why its lookup failed.
pub proof fn lemma_missing_file_message(error: BlogError, cause: Seq<char>)
    requires
        error matches BlogError::EnvVarNotFound(detail) && detail@ == missing_file_detail(cause),
    ensures
        occurs_in(POSTS_FILE_VAR_NAME@, error.message_text()),
        occurs_in(cause, error.message_text()),
{
    let message = error.message_text();
    let head = "Could not find env var: "@
        + "No blog posts file specified - please set the env var:'"@;
    let name = POSTS_FILE_VAR_NAME@;
    let joint = "':"@;
    let at: int = head.len() as int;
    assert(message.subrange(at, at + name.len()) =~= name);
    let last: int = at + name.len() + joint.len();
    assert(message.subrange(last, last + cause.len()) =~= cause);
}

/// Publishing puts one post in front: the collection has one post more, the
/// first is the entry under its stamp, every post that was there stands one
/// place further back, and page and footer links are as they were.
pub proof fn lemma_insertion(collection: PostCollection, entry: Entry, stamp: Seq<char>)
    ensures
        ({
            let after = with_post(collection, stored_entry(entry, stamp));
            &&& after.posts.len() == collection.posts.len() + 1
            &&& after.posts[0].title == entry.title
            &&& after.posts[0].content == entry.content
            &&& after.posts[0].woa_time == stamp
            &&& forall|i: int|
                0 <= i < collection.posts.len() ==> #[trigger] after.posts[i + 1]
                    == collection.posts[i]
            &&& after.page == collection.page
            &&& after.footer_links == collection.footer_links
        }),
{
}

/// Publishing into a store whose file could not be read, or holds no
/// collection, gives a collection of exactly that one post, with no footer
/// links and a page without title or style.
pub proof fn lemma_first_publish(contents: Option<Seq<char>>, entry: Entry, stamp: Seq<char>)
    requires
        reading_file(contents) is Err,
    ensures
        published(contents, entry, stamp) == (PostCollection {
            page: PageInfo { title: Seq::empty(), css: Seq::empty() },
            footer_links: Seq::empty(),
            posts: seq![stored_entry(entry, stamp)],
        }),
{
    assert(published(contents, entry, stamp).posts =~= seq![stored_entry(entry, stamp)]);
}

/// Publishing into a store whose file holds a collection keeps all of it
/// behind the new post.
pub proof fn lemma_publish_keeps(
    text: Seq<char>,
    held: PostCollection,
    entry: Entry,
    stamp: Seq<char>,
)
    requires
        reading(text) == Ok::<PostCollection, BlogError>(held),
    ensures
        published(Some(text), entry, stamp) == with_post(held, stored_entry(entry, stamp)),
{
}

} // verus!
