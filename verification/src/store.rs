//! The store model: the post collection that a store file holds, and the
//! mapping between a collection and the JSON document that stands for it.
//!
//! The document is an object with the members `page` (an object with the
//! strings `title` and `css`), `footer_links` (an array of objects with the
//! strings `label` and `url`) and `posts` (an array of objects with the
//! strings `woa_time` and `title` and the array of strings `content`).
//! Members of other names are passed over; of two members of one name the
//! later counts.

use crate::blog::BlogError;
use crate::json::{
    json_parse, json_text, lemma_three_members, lemma_two_members, Json, JsonView,
};
use crate::shape::{member_value, put_member, read_member, JsonShape};
use vstd::prelude::*;

verus! {

/// A post as the store holds it: an entry with the stamp of its publication.
#[derive(Debug, PartialEq, Eq)]
pub struct PostForJson {
    pub woa_time: String,
    pub title: String,
    pub content: Vec<String>,
}

/// A link of the page's footer. The store carries it through unchanged.
#[derive(Debug, PartialEq, Eq)]
pub struct FooterLink {
    pub label: String,
    pub url: String,
}

/// What the store says of the page as a whole. Carried through unchanged.
#[derive(Debug, PartialEq, Eq)]
pub struct Page {
    pub title: String,
    pub css: String,
}

/// The whole of a store: page, footer links, and the posts, newest first.
#[derive(Debug, PartialEq, Eq)]
pub struct BlogPostsForJson {
    pub page: Page,
    pub footer_links: Vec<FooterLink>,
    pub posts: Vec<PostForJson>,
}

/// The mathematical value of a [`PostForJson`].
pub struct StoredPost {
    pub woa_time: Seq<char>,
    pub title: Seq<char>,
    pub content: Seq<Seq<char>>,
}

/// The mathematical value of a [`FooterLink`].
pub struct Link {
    pub label: Seq<char>,
    pub url: Seq<char>,
}

/// The mathematical value of a [`Page`].
pub struct PageInfo {
    pub title: Seq<char>,
    pub css: Seq<char>,
}

/// The mathematical value of a [`BlogPostsForJson`].
pub struct PostCollection {
    pub page: PageInfo,
    pub footer_links: Seq<Link>,
    pub posts: Seq<StoredPost>,
}

impl View for PostForJson {
    type V = StoredPost;

    open spec fn view(&self) -> StoredPost {
        StoredPost {
            woa_time: self.woa_time@,
            title: self.title@,
            content: self.content.deep_view(),
        }
    }
}

impl DeepView for PostForJson {
    type V = StoredPost;

    open spec fn deep_view(&self) -> StoredPost {
        self@
    }
}

impl View for FooterLink {
    type V = Link;

    open spec fn view(&self) -> Link {
        Link { label: self.label@, url: self.url@ }
    }
}

impl DeepView for FooterLink {
    type V = Link;

    open spec fn deep_view(&self) -> Link {
        self@
    }
}

impl View for Page {
    type V = PageInfo;

    open spec fn view(&self) -> PageInfo {
        PageInfo { title: self.title@, css: self.css@ }
    }
}

impl DeepView for Page {
    type V = PageInfo;

    open spec fn deep_view(&self) -> PageInfo {
        self@
    }
}

impl View for BlogPostsForJson {
    type V = PostCollection;

    open spec fn view(&self) -> PostCollection {
        PostCollection {
            page: self.page@,
            footer_links: self.footer_links.deep_view(),
            posts: self.posts.deep_view(),
        }
    }
}

impl DeepView for BlogPostsForJson {
    type V = PostCollection;

    open spec fn deep_view(&self) -> PostCollection {
        self@
    }
}

impl PostCollection {
    /// The collection of a store that does not exist yet: no posts, no
    /// links, and a page without title or style.
    pub open spec fn empty() -> PostCollection {
        PostCollection {
            page: PageInfo { title: Seq::empty(), css: Seq::empty() },
            footer_links: Seq::empty(),
            posts: Seq::empty(),
        }
    }
}

/// The names of a store's members differ from one another.
proof fn lemma_names_differ()
    ensures
        "title"@ != "css"@,
        "label"@ != "url"@,
        "woa_time"@ != "title"@,
        "woa_time"@ != "content"@,
        "title"@ != "content"@,
        "page"@ != "footer_links"@,
        "page"@ != "posts"@,
        "footer_links"@ != "posts"@,
{
    reveal_strlit("title");
    reveal_strlit("css");
    reveal_strlit("label");
    reveal_strlit("url");
    reveal_strlit("woa_time");
    reveal_strlit("content");
    reveal_strlit("page");
    reveal_strlit("footer_links");
    reveal_strlit("posts");
    assert("title"@.len() == 5 && "css"@.len() == 3);
    assert("label"@.len() == 5 && "url"@.len() == 3);
    assert("woa_time"@.len() == 8 && "content"@.len() == 7);
    assert("page"@.len() == 4 && "footer_links"@.len() == 12 && "posts"@.len() == 5);
}

/// A page is an object with the strings `title` and `css`.
impl JsonShape for Page {
    open spec fn value_of(tree: JsonView) -> Option<PageInfo> {
        match (member_value::<String>(tree, "title"@), member_value::<String>(tree, "css"@)) {
            (Some(title), Some(css)) => Some(PageInfo { title, css }),
            _ => None,
        }
    }

    open spec fn json_of(page: PageInfo) -> JsonView {
        JsonView::Object(
            seq![("title"@, String::json_of(page.title)), ("css"@, String::json_of(page.css))],
        )
    }

    fn from_json(tree: &Json) -> (found: Option<Page>) {
        match (read_member::<String>(tree, "title"), read_member::<String>(tree, "css")) {
            (Some(title), Some(css)) => Some(Page { title, css }),
            _ => None,
        }
    }

    fn to_json(&self) -> (tree: Json) {
        let mut members: Vec<(String, Json)> = Vec::new();
        put_member(&mut members, "title", self.title.to_json());
        put_member(&mut members, "css", self.css.to_json());
        let tree = Json::object(members);
        assert(tree@->Object_0 =~= Self::json_of(self@)->Object_0);
        tree
    }

    proof fn lemma_reads_back(page: PageInfo) {
        lemma_names_differ();
        lemma_two_members(
            ("title"@, String::json_of(page.title)),
            ("css"@, String::json_of(page.css)),
        );
    }
}

/// A footer link is an object with the strings `label` and `url`.
impl JsonShape for FooterLink {
    open spec fn value_of(tree: JsonView) -> Option<Link> {
        match (member_value::<String>(tree, "label"@), member_value::<String>(tree, "url"@)) {
            (Some(label), Some(url)) => Some(Link { label, url }),
            _ => None,
        }
    }

    open spec fn json_of(link: Link) -> JsonView {
        JsonView::Object(
            seq![("label"@, String::json_of(link.label)), ("url"@, String::json_of(link.url))],
        )
    }

    fn from_json(tree: &Json) -> (found: Option<FooterLink>) {
        match (read_member::<String>(tree, "label"), read_member::<String>(tree, "url")) {
            (Some(label), Some(url)) => Some(FooterLink { label, url }),
            _ => None,
        }
    }

    fn to_json(&self) -> (tree: Json) {
        let mut members: Vec<(String, Json)> = Vec::new();
        put_member(&mut members, "label", self.label.to_json());
        put_member(&mut members, "url", self.url.to_json());
        let tree = Json::object(members);
        assert(tree@->Object_0 =~= Self::json_of(self@)->Object_0);
        tree
    }

    proof fn lemma_reads_back(link: Link) {
        lemma_names_differ();
        lemma_two_members(
            ("label"@, String::json_of(link.label)),
            ("url"@, String::json_of(link.url)),
        );
    }
}

/// A stored post is an object with the strings `woa_time` and `title` and
/// the array of strings `content`.
impl JsonShape for PostForJson {
    open spec fn value_of(tree: JsonView) -> Option<StoredPost> {
        match (
            member_value::<String>(tree, "woa_time"@),
            member_value::<String>(tree, "title"@),
            member_value::<Vec<String>>(tree, "content"@),
        ) {
            (Some(woa_time), Some(title), Some(content)) => Some(
                StoredPost { woa_time, title, content },
            ),
            _ => None,
        }
    }

    open spec fn json_of(post: StoredPost) -> JsonView {
        JsonView::Object(
            seq![
                ("woa_time"@, String::json_of(post.woa_time)),
                ("title"@, String::json_of(post.title)),
                ("content"@, Vec::<String>::json_of(post.content)),
            ],
        )
    }

    fn from_json(tree: &Json) -> (found: Option<PostForJson>) {
        match (
            read_member::<String>(tree, "woa_time"),
            read_member::<String>(tree, "title"),
            read_member::<Vec<String>>(tree, "content"),
        ) {
            (Some(woa_time), Some(title), Some(content)) => Some(
                PostForJson { woa_time, title, content },
            ),
            _ => None,
        }
    }

    fn to_json(&self) -> (tree: Json) {
        let mut members: Vec<(String, Json)> = Vec::new();
        put_member(&mut members, "woa_time", self.woa_time.to_json());
        put_member(&mut members, "title", self.title.to_json());
        put_member(&mut members, "content", self.content.to_json());
        let tree = Json::object(members);
        assert(tree@->Object_0 =~= Self::json_of(self@)->Object_0);
        tree
    }

    proof fn lemma_reads_back(post: StoredPost) {
        lemma_names_differ();
        Vec::<String>::lemma_reads_back(post.content);
        lemma_three_members(
            ("woa_time"@, String::json_of(post.woa_time)),
            ("title"@, String::json_of(post.title)),
            ("content"@, Vec::<String>::json_of(post.content)),
        );
    }
}

/// A collection is an object with the page `page`, the array of footer
/// links `footer_links` and the array of stored posts `posts`.
impl JsonShape for BlogPostsForJson {
    open spec fn value_of(tree: JsonView) -> Option<PostCollection> {
        match (
            member_value::<Page>(tree, "page"@),
            member_value::<Vec<FooterLink>>(tree, "footer_links"@),
            member_value::<Vec<PostForJson>>(tree, "posts"@),
        ) {
            (Some(page), Some(footer_links), Some(posts)) => Some(
                PostCollection { page, footer_links, posts },
            ),
            _ => None,
        }
    }

    open spec fn json_of(collection: PostCollection) -> JsonView {
        JsonView::Object(
            seq![
                ("page"@, Page::json_of(collection.page)),
                ("footer_links"@, Vec::<FooterLink>::json_of(collection.footer_links)),
                ("posts"@, Vec::<PostForJson>::json_of(collection.posts)),
            ],
        )
    }

    fn from_json(tree: &Json) -> (found: Option<BlogPostsForJson>) {
        match (
            read_member::<Page>(tree, "page"),
            read_member::<Vec<FooterLink>>(tree, "footer_links"),
            read_member::<Vec<PostForJson>>(tree, "posts"),
        ) {
            (Some(page), Some(footer_links), Some(posts)) => Some(
                BlogPostsForJson { page, footer_links, posts },
            ),
            _ => None,
        }
    }

    fn to_json(&self) -> (tree: Json) {
        let mut members: Vec<(String, Json)> = Vec::new();
        put_member(&mut members, "page", self.page.to_json());
        put_member(&mut members, "footer_links", self.footer_links.to_json());
        put_member(&mut members, "posts", self.posts.to_json());
        let tree = Json::object(members);
        assert(tree@->Object_0 =~= Self::json_of(self@)->Object_0);
        tree
    }

    proof fn lemma_reads_back(collection: PostCollection) {
        lemma_names_differ();
        Page::lemma_reads_back(collection.page);
        Vec::<FooterLink>::lemma_reads_back(collection.footer_links);
        Vec::<PostForJson>::lemma_reads_back(collection.posts);
        lemma_three_members(
            ("page"@, Page::json_of(collection.page)),
            ("footer_links"@, Vec::<FooterLink>::json_of(collection.footer_links)),
            ("posts"@, Vec::<PostForJson>::json_of(collection.posts)),
        );
    }
}

/// The collection that a JSON value stands for, where it has the shape of
/// a store: every member that a store needs is there and is of its kind.
pub open spec fn collection_of(tree: JsonView) -> Option<PostCollection> {
    BlogPostsForJson::value_of(tree)
}

/// The JSON value that a collection is written as.
pub open spec fn collection_json(collection: PostCollection) -> JsonView {
    BlogPostsForJson::json_of(collection)
}

/// What a collection is written as reads back as the collection: page,
/// footer links and posts, each as it was and in its place.
pub proof fn lemma_collection_round_trip(collection: PostCollection)
    ensures
        collection_of(collection_json(collection)) == Some(collection),
{
    BlogPostsForJson::lemma_reads_back(collection);
}

/// The collection that a text holds: the text is JSON and has the shape of
/// a store.
pub open spec fn parse_collection(text: Seq<char>) -> Option<PostCollection> {
    match json_parse(text) {
        Some(tree) => collection_of(tree),
        None => None,
    }
}

/// The text that holds a collection, where it can be written.
pub open spec fn collection_text(collection: PostCollection) -> Option<Seq<char>> {
    json_text(collection_json(collection))
}

/// What reading the text of a store file comes to: the collection that the
/// text holds, or `PostsFileUnParsable` where it holds none.
pub open spec fn reading(text: Seq<char>) -> Result<PostCollection, BlogError> {
    match parse_collection(text) {
        Some(collection) => Ok(collection),
        None => Err(BlogError::PostsFileUnParsable),
    }
}

/// What reading a store file comes to, given its text or `None` for a file
/// that could not be read: `UnableToReadPostsFile` for the second.
pub open spec fn reading_file(contents: Option<Seq<char>>) -> Result<PostCollection, BlogError> {
    match contents {
        Some(text) => reading(text),
        None => Err(BlogError::UnableToReadPostsFile),
    }
}

/// What writing comes to, given what the encoder gave for the collection:
/// its text, or `CouldNotSerializePosts` where it gave none.
pub open spec fn encoded(printed: Option<Seq<char>>) -> Result<Seq<char>, BlogError> {
    match printed {
        Some(text) => Ok(text),
        None => Err(BlogError::CouldNotSerializePosts),
    }
}

/// What writing a collection comes to: its text, or
/// `CouldNotSerializePosts` where it has none.
pub open spec fn writing(collection: PostCollection) -> Result<Seq<char>, BlogError> {
    encoded(collection_text(collection))
}

/// The collection that a store file stands for, given what reading the
/// file gave: the collection it holds, or the empty one where the file
/// could not be read or holds none.
pub open spec fn loaded(contents: Option<Seq<char>>) -> PostCollection {
    match reading_file(contents) {
        Ok(collection) => collection,
        Err(_) => PostCollection::empty(),
    }
}

/// The value of what a reading returned.
pub open spec fn read_value(read: Result<BlogPostsForJson, BlogError>) -> Result<
    PostCollection,
    BlogError,
> {
    match read {
        Ok(collection) => Ok(collection@),
        Err(error) => Err(error),
    }
}

/// The value of what a writing returned.
pub open spec fn written_value(written: Result<String, BlogError>) -> Result<
    Seq<char>,
    BlogError,
> {
    match written {
        Ok(text) => Ok(text@),
        Err(error) => Err(error),
    }
}

impl BlogPostsForJson {
    /// The collection of a store that does not exist yet.
    pub fn empty() -> (collection: BlogPostsForJson)
        ensures
            collection@ == PostCollection::empty(),
    {
        let collection = BlogPostsForJson {
            page: Page { title: String::new(), css: String::new() },
            footer_links: Vec::new(),
            posts: Vec::new(),
        };
        assert(collection@.footer_links =~= Seq::empty() && collection@.posts =~= Seq::empty());
        collection
    }

    /// Reads a collection from the text of a store file. Fails with
    /// `PostsFileUnParsable` exactly where the text is not JSON or has not
    /// the shape of a store.
    pub fn from_json_string(json_string: &str) -> (read: Result<BlogPostsForJson, BlogError>)
        ensures
            read_value(read) == reading(json_string@),
    {
        match Json::parse(json_string) {
            Some(tree) => match BlogPostsForJson::from_json(&tree) {
                Some(collection) => Ok(collection),
                None => Err(BlogError::PostsFileUnParsable),
            },
            None => Err(BlogError::PostsFileUnParsable),
        }
    }

    /// The outcome of writing, given what the encoder gave for the
    /// collection: its text, or `None` where it failed. Fails with
    /// `CouldNotSerializePosts` exactly for the second.
    pub fn encoded_text(printed: Option<String>) -> (written: Result<String, BlogError>)
        ensures
            written_value(written) == encoded(printed.deep_view()),
    {
        match printed {
            Some(text) => Ok(text),
            None => Err(BlogError::CouldNotSerializePosts),
        }
    }

    /// Writes the collection as the text of a store file. Fails with
    /// `CouldNotSerializePosts` exactly where the encoder gives no text.
    pub fn to_json_string(&self) -> (written: Result<String, BlogError>)
        ensures
            written_value(written) == writing(self@),
    {
        BlogPostsForJson::encoded_text(self.to_json().print())
    }

    /// Makes a collection of what reading a store file gave: `None` for a
    /// file that could not be read, else its text. Fails with
    /// `UnableToReadPostsFile` for the first and as [`Self::from_json_string`]
    /// does for the second.
    pub fn from_file_contents(contents: Option<&str>) -> (read: Result<
        BlogPostsForJson,
        BlogError,
    >)
        ensures
            read_value(read) == reading_file(contents.deep_view()),
    {
        match contents {
            Some(text) => BlogPostsForJson::from_json_string(text),
            None => Err(BlogError::UnableToReadPostsFile),
        }
    }

    /// The collection to publish into, given what reading the store file
    /// gave: a file that could not be read, or that holds no collection,
    /// counts as a store that does not exist yet.
    pub fn load_or_default(contents: Option<&str>) -> (collection: BlogPostsForJson)
        ensures
            collection@ == loaded(contents.deep_view()),
    {
        match BlogPostsForJson::from_file_contents(contents) {
            Ok(collection) => collection,
            Err(_) => BlogPostsForJson::empty(),
        }
    }
}

/// A text that reads as the JSON value of a collection holds that
/// collection.
pub proof fn lemma_text_read_back(collection: PostCollection, text: Seq<char>)
    ensures
        json_parse(text) == Some(collection_json(collection)) ==> reading(text) == Ok::<
            PostCollection,
            BlogError,
        >(collection),
{
    lemma_collection_round_trip(collection);
}

/// Reading is repeatable: two readings of one store file come to equal
/// collections or to the same error.
pub proof fn lemma_reading_twice_agrees(
    contents: Option<Seq<char>>,
    first: Result<BlogPostsForJson, BlogError>,
    second: Result<BlogPostsForJson, BlogError>,
)
    ensures
        read_value(first) == reading_file(contents) && read_value(second) == reading_file(contents)
            ==> read_value(first) == read_value(second),
{
}

} // verus!
