use woa_blog::blog::BlogError;
use woa_blog::json::Json;
use woa_blog::shape::JsonShape;
use woa_blog::store::{BlogPostsForJson, FooterLink, Page, PostForJson};

fn strings(items: &[&str]) -> Vec<String> {
    items.iter().map(|s| s.to_string()).collect()
}

fn sample() -> BlogPostsForJson {
    BlogPostsForJson {
        page: Page { title: "My Blog".to_string(), css: "body { margin: 0 }".to_string() },
        footer_links: vec![
            FooterLink { label: "Home".to_string(), url: "https://example.org/".to_string() },
            FooterLink { label: "About".to_string(), url: "/about".to_string() },
        ],
        posts: vec![
            PostForJson {
                woa_time: "2024:03:05:07:08:09".to_string(),
                title: "Second".to_string(),
                content: strings(&["line one", "", "line \"three\""]),
            },
            PostForJson {
                woa_time: "2023:12:31:23:59:59".to_string(),
                title: "First".to_string(),
                content: vec![],
            },
        ],
    }
}

const SAMPLE_TEXT: &str = "{\"page\":{\"title\":\"My Blog\",\"css\":\"body { margin: 0 }\"},\
\"footer_links\":[{\"label\":\"Home\",\"url\":\"https://example.org/\"},\
{\"label\":\"About\",\"url\":\"/about\"}],\
\"posts\":[{\"woa_time\":\"2024:03:05:07:08:09\",\"title\":\"Second\",\
\"content\":[\"line one\",\"\",\"line \\\"three\\\"\"]},\
{\"woa_time\":\"2023:12:31:23:59:59\",\"title\":\"First\",\"content\":[]}]}";

#[test]
fn a_collection_is_written_member_by_member() {
    assert_eq!(sample().to_json_string().unwrap(), SAMPLE_TEXT);
}

#[test]
fn an_encoder_that_gave_no_text_is_an_error_of_its_own() {
    assert_eq!(BlogPostsForJson::encoded_text(None), Err(BlogError::CouldNotSerializePosts));
    assert_eq!(BlogPostsForJson::encoded_text(Some("{}".to_string())), Ok("{}".to_string()));
    assert_eq!(
        BlogPostsForJson::encoded_text(Json::Number("x".to_string()).print()),
        Err(BlogError::CouldNotSerializePosts)
    );
}

#[test]
fn the_empty_collection_is_written_with_all_members() {
    assert_eq!(
        BlogPostsForJson::empty().to_json_string().unwrap(),
        "{\"page\":{\"title\":\"\",\"css\":\"\"},\"footer_links\":[],\"posts\":[]}"
    );
}

#[test]
fn the_empty_collection_has_nothing_in_it() {
    let empty = BlogPostsForJson::empty();
    assert_eq!(empty.page, Page { title: String::new(), css: String::new() });
    assert!(empty.footer_links.is_empty());
    assert!(empty.posts.is_empty());
}

#[test]
fn a_text_is_read_member_by_member() {
    assert_eq!(BlogPostsForJson::from_json_string(SAMPLE_TEXT), Ok(sample()));
}

#[test]
fn what_is_written_reads_back() {
    let text = sample().to_json_string().unwrap();
    assert_eq!(BlogPostsForJson::from_json_string(&text), Ok(sample()));
}

#[test]
fn what_is_written_reads_back_with_awkward_characters() {
    let collection = BlogPostsForJson {
        page: Page { title: "\"\\\n\t\r\u{0}\u{1f}".to_string(), css: "é日本🗗".to_string() },
        footer_links: vec![FooterLink { label: String::new(), url: "{}[],:".to_string() }],
        posts: vec![PostForJson {
            woa_time: "not a stamp".to_string(),
            title: "null".to_string(),
            content: strings(&["", "\"", "\\u0041", "a\nb"]),
        }],
    };
    let text = collection.to_json_string().unwrap();
    assert_eq!(BlogPostsForJson::from_json_string(&text), Ok(collection));
}

#[test]
fn reading_the_same_text_twice_gives_equal_collections() {
    let first = BlogPostsForJson::from_json_string(SAMPLE_TEXT);
    let second = BlogPostsForJson::from_json_string(SAMPLE_TEXT);
    assert_eq!(first, second);
    assert_eq!(
        BlogPostsForJson::from_file_contents(Some(SAMPLE_TEXT)),
        BlogPostsForJson::from_file_contents(Some(SAMPLE_TEXT))
    );
    assert_eq!(
        BlogPostsForJson::from_json_string("nonsense"),
        BlogPostsForJson::from_json_string("nonsense")
    );
}

#[test]
fn members_may_come_in_any_order_and_with_spaces() {
    let text = " { \"posts\" : [ { \"content\" : [ \"x\" ] , \"title\" : \"t\" , \
\"woa_time\" : \"w\" } ] , \"footer_links\" : [ { \"url\" : \"u\" , \"label\" : \"l\" } ] , \
\"page\" : { \"css\" : \"c\" , \"title\" : \"p\" } } ";
    let expected = BlogPostsForJson {
        page: Page { title: "p".to_string(), css: "c".to_string() },
        footer_links: vec![FooterLink { label: "l".to_string(), url: "u".to_string() }],
        posts: vec![PostForJson {
            woa_time: "w".to_string(),
            title: "t".to_string(),
            content: strings(&["x"]),
        }],
    };
    assert_eq!(BlogPostsForJson::from_json_string(text), Ok(expected));
}

#[test]
fn members_of_other_names_are_passed_over() {
    let text = "{\"version\":3,\
\"page\":{\"title\":\"\",\"css\":\"\",\"lang\":null},\
\"footer_links\":[{\"label\":\"l\",\"url\":\"u\",\"rel\":[1,2]}],\
\"posts\":[{\"woa_time\":\"w\",\"title\":\"t\",\"content\":[],\"draft\":true}],\
\"x\":{}}";
    let read = BlogPostsForJson::from_json_string(text).unwrap();
    assert_eq!(read.page, Page { title: String::new(), css: String::new() });
    let link = FooterLink { label: "l".to_string(), url: "u".to_string() };
    assert_eq!(read.footer_links, vec![link]);
    assert_eq!(read.posts.len(), 1);
    assert_eq!(read.posts[0].title, "t");
}

const PAGE: &str = "{\"title\":\"\",\"css\":\"\"}";
const LINK: &str = "{\"label\":\"l\",\"url\":\"u\"}";
const POST: &str = "{\"woa_time\":\"w\",\"title\":\"t\",\"content\":[]}";

/// The text of a store whose three members are the given JSON texts.
fn document(page: &str, footer_links: &str, posts: &str) -> String {
    format!("{{\"page\":{},\"footer_links\":{},\"posts\":{}}}", page, footer_links, posts)
}

fn unparsable(text: &str) {
    assert_eq!(BlogPostsForJson::from_json_string(text), Err(BlogError::PostsFileUnParsable));
}

#[test]
fn the_helper_documents_are_stores() {
    let read = BlogPostsForJson::from_json_string(&document(PAGE, "[]", "[]"));
    assert_eq!(read, Ok(BlogPostsForJson::empty()));
    let links = format!("[{}]", LINK);
    let posts = format!("[{},{}]", POST, POST);
    let read = BlogPostsForJson::from_json_string(&document(PAGE, &links, &posts)).unwrap();
    assert_eq!(read.footer_links.len(), 1);
    assert_eq!(read.posts.len(), 2);
}

#[test]
fn what_is_not_json_is_unparsable() {
    unparsable("");
    unparsable("not json");
    unparsable("{\"page\":");
    unparsable(&format!("{} trailing", document(PAGE, "[]", "[]")));
    unparsable(&document(PAGE, "[", "[]"));
}

#[test]
fn json_that_is_no_object_is_unparsable() {
    unparsable("null");
    unparsable("[]");
    unparsable("\"page\"");
    unparsable("3");
    unparsable(&format!("[{},[],[]]", PAGE));
}

#[test]
fn a_missing_member_is_unparsable() {
    unparsable("{}");
    unparsable("{\"footer_links\":[],\"posts\":[]}");
    unparsable(&format!("{{\"page\":{},\"posts\":[]}}", PAGE));
    unparsable(&format!("{{\"page\":{},\"footer_links\":[]}}", PAGE));
    unparsable(&document("{\"css\":\"\"}", "[]", "[]"));
    unparsable(&document("{\"title\":\"\"}", "[]", "[]"));
    unparsable(&document(PAGE, "[{\"label\":\"l\"}]", "[]"));
    unparsable(&document(PAGE, "[{\"url\":\"u\"}]", "[]"));
    unparsable(&document(PAGE, "[]", "[{\"title\":\"t\",\"content\":[]}]"));
    unparsable(&document(PAGE, "[]", "[{\"woa_time\":\"w\",\"content\":[]}]"));
    unparsable(&document(PAGE, "[]", "[{\"woa_time\":\"w\",\"title\":\"t\"}]"));
}

#[test]
fn a_member_of_the_wrong_type_is_unparsable() {
    unparsable(&document("[]", "[]", "[]"));
    unparsable(&document("[\"t\",\"c\"]", "[]", "[]"));
    unparsable(&document("\"page\"", "[]", "[]"));
    unparsable(&document("{\"title\":1,\"css\":\"\"}", "[]", "[]"));
    unparsable(&document("{\"title\":\"\",\"css\":null}", "[]", "[]"));
    unparsable(&document("{\"title\":[\"\"],\"css\":\"\"}", "[]", "[]"));
    unparsable(&document(PAGE, "{}", "[]"));
    unparsable(&document(PAGE, "[\"l\"]", "[]"));
    unparsable(&document(PAGE, "[[\"l\",\"u\"]]", "[]"));
    unparsable(&document(PAGE, "[{\"label\":1,\"url\":\"u\"}]", "[]"));
    unparsable(&document(PAGE, "[]", "null"));
    unparsable(&document(PAGE, "[]", "[[]]"));
    unparsable(&document(PAGE, "[]", "[{\"woa_time\":\"w\",\"title\":\"t\",\"content\":\"x\"}]"));
    unparsable(&document(PAGE, "[]", "[{\"woa_time\":\"w\",\"title\":\"t\",\"content\":[1]}]"));
    unparsable(&document(PAGE, "[]", "[{\"woa_time\":2024,\"title\":\"t\",\"content\":[]}]"));
    unparsable(&document(PAGE, "[]", "[{\"woa_time\":\"w\",\"title\":true,\"content\":[]}]"));
}

#[test]
fn one_bad_item_among_good_ones_is_unparsable() {
    unparsable(&document(PAGE, &format!("[{},{{}}]", LINK), "[]"));
    unparsable(&document(PAGE, &format!("[{{}},{}]", LINK), "[]"));
    unparsable(&document(PAGE, "[]", &format!("[{},{{\"woa_time\":\"w\"}}]", POST)));
    unparsable(&document(PAGE, "[]", &format!("[{},null,{}]", POST, POST)));
    let lines = "[{\"woa_time\":\"w\",\"title\":\"t\",\"content\":[\"a\",null,\"b\"]}]";
    unparsable(&document(PAGE, "[]", lines));
}

#[test]
fn file_contents_that_could_not_be_read_are_an_error_of_their_own() {
    assert_eq!(BlogPostsForJson::from_file_contents(None), Err(BlogError::UnableToReadPostsFile));
    assert_eq!(
        BlogPostsForJson::from_file_contents(Some("{")),
        Err(BlogError::PostsFileUnParsable)
    );
    assert_eq!(BlogPostsForJson::from_file_contents(Some(SAMPLE_TEXT)), Ok(sample()));
}

#[test]
fn load_or_default_falls_back_to_the_empty_collection() {
    assert_eq!(BlogPostsForJson::load_or_default(None), BlogPostsForJson::empty());
    assert_eq!(BlogPostsForJson::load_or_default(Some("")), BlogPostsForJson::empty());
    assert_eq!(
        BlogPostsForJson::load_or_default(Some("{\"page\":1}")),
        BlogPostsForJson::empty()
    );
    assert_eq!(BlogPostsForJson::load_or_default(Some(SAMPLE_TEXT)), sample());
}

#[test]
fn each_part_reads_from_and_writes_to_its_json_value() {
    let page = Page { title: "t".to_string(), css: "c".to_string() };
    assert_eq!(page.to_json().print().unwrap(), "{\"title\":\"t\",\"css\":\"c\"}");
    assert_eq!(Page::from_json(&page.to_json()), Some(page));
    let link = FooterLink { label: "l".to_string(), url: "u".to_string() };
    assert_eq!(link.to_json().print().unwrap(), "{\"label\":\"l\",\"url\":\"u\"}");
    assert_eq!(FooterLink::from_json(&link.to_json()), Some(link));
    let post = PostForJson {
        woa_time: "w".to_string(),
        title: "t".to_string(),
        content: strings(&["a", "b"]),
    };
    assert_eq!(
        post.to_json().print().unwrap(),
        "{\"woa_time\":\"w\",\"title\":\"t\",\"content\":[\"a\",\"b\"]}"
    );
    assert_eq!(PostForJson::from_json(&post.to_json()), Some(post));
    assert_eq!(BlogPostsForJson::from_json(&sample().to_json()), Some(sample()));
}

#[test]
fn a_later_member_of_one_name_stands_for_an_earlier_one() {
    let tree = Json::Object(vec![
        ("title".to_string(), Json::Text("old".to_string())),
        ("css".to_string(), Json::Text("c".to_string())),
        ("title".to_string(), Json::Text("new".to_string())),
    ]);
    let expected = Page { title: "new".to_string(), css: "c".to_string() };
    assert_eq!(Page::from_json(&tree), Some(expected));
}
