//! JSON documents as trees of plain values.
//!
//! A text is read, and a tree is written, by `serde_json`; what this module
//! looks up in a tree, it looks up itself.

use vstd::prelude::*;

verus! {

/// A JSON value.
#[derive(Debug, PartialEq, Eq)]
pub enum Json {
    /// `null`.
    Null,
    /// `true` or `false`.
    Bool(bool),
    /// A number, by its text.
    Number(String),
    /// A string, by its characters: escapes are undone.
    Text(String),
    /// An array: its items in order.
    Array(Vec<Json>),
    /// An object: its members in order, each a name and a value.
    Object(Vec<(String, Json)>),
}

/// The mathematical value of a [`Json`].
pub enum JsonView {
    Null,
    Bool(bool),
    Number(Seq<char>),
    Text(Seq<char>),
    Array(Seq<JsonView>),
    Object(Seq<(Seq<char>, JsonView)>),
}

/// What a tree holds, with each string as its characters.
pub open spec fn json_value(tree: Json) -> JsonView
    decreases tree,
{
    match tree {
        Json::Null => JsonView::Null,
        Json::Bool(b) => JsonView::Bool(b),
        Json::Number(text) => JsonView::Number(text@),
        Json::Text(text) => JsonView::Text(text@),
        Json::Array(items) => JsonView::Array(
            Seq::new(
                items@.len(),
                |i: int|
                    if 0 <= i < items@.len() {
                        json_value(items@[i])
                    } else {
                        JsonView::Null
                    },
            ),
        ),
        Json::Object(members) => JsonView::Object(
            Seq::new(
                members@.len(),
                |i: int|
                    if 0 <= i < members@.len() {
                        (members@[i].0@, json_value(members@[i].1))
                    } else {
                        (Seq::empty(), JsonView::Null)
                    },
            ),
        ),
    }
}

impl View for Json {
    type V = JsonView;

    open spec fn view(&self) -> JsonView {
        json_value(*self)
    }
}

impl DeepView for Json {
    type V = JsonView;

    open spec fn deep_view(&self) -> JsonView {
        self@
    }
}

/// The error of `serde_json`: why a text is no JSON, or a value has no text.
#[verifier::external_type_specification]
#[verifier::external_body]
pub struct ExJsonError(serde_json::Error);

/// The JSON value of `serde_json`, which its reader makes and its writer
/// takes.
#[verifier::external_type_specification]
#[verifier::external_body]
pub struct ExJsonValue(serde_json::Value);

/// The tree that `serde_json::from_str` reads from a text, or `None` where
/// it reads none.
pub uninterp spec fn json_parse(text: Seq<char>) -> Option<JsonView>;

/// The text that `serde_json::to_string` writes for a tree, or `None` where
/// it writes none.
pub uninterp spec fn json_text(tree: JsonView) -> Option<Seq<char>>;

/// Hands a `serde_json::Value` over as a [`Json`], variant by variant: a
/// number as the text that `serde_json` shows it by, an object as its
/// members in the order in which `serde_json` keeps them.
///
/// Trusted, and without a contract: it only changes the type of what
/// [`parse_json`] read.
#[verifier::external_body]
fn json_of_value(value: serde_json::Value) -> Json {
    match value {
        serde_json::Value::Null => Json::Null,
        serde_json::Value::Bool(b) => Json::Bool(b),
        serde_json::Value::Number(n) => Json::Number(n.to_string()),
        serde_json::Value::String(s) => Json::Text(s),
        serde_json::Value::Array(items) => Json::Array(
            items.into_iter().map(json_of_value).collect(),
        ),
        serde_json::Value::Object(members) => Json::Object(
            members.into_iter().map(|(k, v)| (k, json_of_value(v))).collect(),
        ),
    }
}

/// Hands a [`Json`] over as a `serde_json::Value`, variant by variant: a
/// number as what `serde_json` reads from its text, an object as the map
/// that `serde_json` collects from its members.
///
/// Trusted, and without a contract: it only changes the type of what
/// [`print_json`] writes. It fails where a number's text is no number.
#[verifier::external_body]
fn value_of_json(tree: &Json) -> Result<serde_json::Value, serde_json::Error> {
    Ok(match tree {
        Json::Null => serde_json::Value::Null,
        Json::Bool(b) => serde_json::Value::Bool(*b),
        Json::Number(text) => serde_json::Value::Number(text.parse()?),
        Json::Text(s) => serde_json::Value::String(s.clone()),
        Json::Array(items) => serde_json::Value::Array(
            items.iter().map(value_of_json).collect::<Result<_, _>>()?,
        ),
        Json::Object(members) => serde_json::Value::Object(
            members.iter().map(|(k, v)| value_of_json(v).map(|v| (k.clone(), v))).collect::<
                Result<_, _>,
            >()?,
        ),
    })
}

/// Reads a text as JSON through `serde_json::from_str`, at the type
/// `serde_json::Value`.
///
/// Trusted: what `serde_json` reads depends on the text alone, so the tree
/// has a name, [`json_parse`]; nothing more is claimed of it.
#[verifier::external_body]
pub(crate) fn parse_json(text: &str) -> (parsed: Result<Json, serde_json::Error>)
    ensures
        match parsed {
            Ok(tree) => json_parse(text@) == Some(tree@),
            Err(_) => json_parse(text@) is None,
        },
{
    serde_json::from_str::<serde_json::Value>(text).map(json_of_value)
}

/// Writes a tree as JSON through `serde_json::to_string`.
///
/// Trusted: what `serde_json` writes depends on the tree alone, so the text
/// has a name, [`json_text`]; nothing more is claimed of it.
#[verifier::external_body]
pub(crate) fn print_json(tree: &Json) -> (printed: Result<String, serde_json::Error>)
    ensures
        match printed {
            Ok(text) => json_text(tree@) == Some(text@),
            Err(_) => json_text(tree@) is None,
        },
{
    serde_json::to_string(&value_of_json(tree)?)
}

/// The value of the last of `members` that is named `key`, if any is: as in
/// a JSON text, a later member of a name stands for an earlier one.
pub open spec fn last_named(members: Seq<(Seq<char>, JsonView)>, key: Seq<char>) -> Option<
    JsonView,
>
    decreases members.len(),
{
    if members.len() == 0 {
        None
    } else if members.last().0 == key {
        Some(members.last().1)
    } else {
        last_named(members.drop_last(), key)
    }
}

/// A member put last is the one found under its name; under another name
/// the members before it decide.
pub proof fn lemma_last_named_push(
    members: Seq<(Seq<char>, JsonView)>,
    name: Seq<char>,
    value: JsonView,
    key: Seq<char>,
)
    ensures
        last_named(members.push((name, value)), key) == if name == key {
            Some(value)
        } else {
            last_named(members, key)
        },
{
    assert(members.push((name, value)).drop_last() =~= members);
}

/// In an object of two members of different names, each name finds its
/// member.
pub proof fn lemma_two_members(a: (Seq<char>, JsonView), b: (Seq<char>, JsonView))
    requires
        a.0 != b.0,
    ensures
        JsonView::Object(seq![a, b]).member(a.0) == Some(a.1),
        JsonView::Object(seq![a, b]).member(b.0) == Some(b.1),
{
    let one = Seq::empty().push(a);
    assert(seq![a, b] =~= one.push(b));
    lemma_last_named_push(one, b.0, b.1, a.0);
    lemma_last_named_push(one, b.0, b.1, b.0);
    lemma_last_named_push(Seq::empty(), a.0, a.1, a.0);
}

/// In an object of three members of different names, each name finds its
/// member.
pub proof fn lemma_three_members(
    a: (Seq<char>, JsonView),
    b: (Seq<char>, JsonView),
    c: (Seq<char>, JsonView),
)
    requires
        a.0 != b.0,
        a.0 != c.0,
        b.0 != c.0,
    ensures
        JsonView::Object(seq![a, b, c]).member(a.0) == Some(a.1),
        JsonView::Object(seq![a, b, c]).member(b.0) == Some(b.1),
        JsonView::Object(seq![a, b, c]).member(c.0) == Some(c.1),
{
    let two = seq![a, b];
    assert(seq![a, b, c] =~= two.push(c));
    lemma_two_members(a, b);
    lemma_last_named_push(two, c.0, c.1, a.0);
    lemma_last_named_push(two, c.0, c.1, b.0);
    lemma_last_named_push(two, c.0, c.1, c.0);
}

impl JsonView {
    /// The member named `key`, where this is an object that has one.
    pub open spec fn member(self, key: Seq<char>) -> Option<JsonView> {
        match self {
            JsonView::Object(members) => last_named(members, key),
            _ => None,
        }
    }

    /// The characters, where this is a string.
    pub open spec fn text(self) -> Option<Seq<char>> {
        match self {
            JsonView::Text(text) => Some(text),
            _ => None,
        }
    }

    /// The items, where this is an array.
    pub open spec fn items(self) -> Option<Seq<JsonView>> {
        match self {
            JsonView::Array(items) => Some(items),
            _ => None,
        }
    }

    /// The characters of the member named `key`, where this is an object
    /// that has one and it is a string.
    pub open spec fn text_member(self, key: Seq<char>) -> Option<Seq<char>> {
        match self.member(key) {
            Some(value) => value.text(),
            None => None,
        }
    }
}

impl Json {
    /// Makes a JSON string.
    pub fn text(text: &String) -> (tree: Json)
        ensures
            tree@ == JsonView::Text(text@),
    {
        Json::Text(text.clone())
    }

    /// Makes a JSON array of the given items.
    pub fn array(items: Vec<Json>) -> (tree: Json)
        ensures
            tree@ == JsonView::Array(items.deep_view()),
    {
        let tree = Json::Array(items);
        assert(tree@->Array_0 =~= items.deep_view());
        tree
    }

    /// Makes a JSON object of the given members.
    pub fn object(members: Vec<(String, Json)>) -> (tree: Json)
        ensures
            tree@ == JsonView::Object(members.deep_view()),
    {
        let tree = Json::Object(members);
        assert(tree@->Object_0 =~= members.deep_view());
        tree
    }

    /// Looks up the member named `key`: the last of that name, where this
    /// is an object and has one.
    pub fn member(&self, key: &str) -> (found: Option<&Json>)
        ensures
            found.deep_view() == self@.member(key@),
    {
        match self {
            Json::Object(members) => {
                let ghost all = members.deep_view();
                assert(self@->Object_0 =~= all);
                let wanted = String::from_str(key);
                let mut i: usize = members.len();
                assert(all.take(i as int) =~= all);
                while i > 0
                    invariant
                        i <= members.len(),
                        wanted@ == key@,
                        all == members.deep_view(),
                        self@ == JsonView::Object(all),
                        last_named(all, key@) == last_named(all.take(i as int), key@),
                    decreases i,
                {
                    i = i - 1;
                    assert(all.take(i + 1).drop_last() =~= all.take(i as int));
                    if members[i].0 == wanted {
                        return Some(&members[i].1);
                    }
                }
                None
            },
            _ => None,
        }
    }

    /// The string's characters, where this is a string.
    pub fn as_text(&self) -> (found: Option<&String>)
        ensures
            found.deep_view() == self@.text(),
    {
        match self {
            Json::Text(text) => Some(text),
            _ => None,
        }
    }

    /// The array's items, where this is an array.
    pub fn as_items(&self) -> (found: Option<&Vec<Json>>)
        ensures
            found.deep_view() == self@.items(),
    {
        match self {
            Json::Array(items) => Some(items),
            _ => None,
        }
    }

    /// Reads a JSON text, or gives `None` where the text is no JSON.
    pub fn parse(text: &str) -> (parsed: Option<Json>)
        ensures
            parsed.deep_view() == json_parse(text@),
    {
        match parse_json(text) {
            Ok(tree) => Some(tree),
            Err(_) => None,
        }
    }

    /// Writes the tree as JSON text, or gives `None` where it has none: a
    /// number in it is no number.
    pub fn print(&self) -> (printed: Option<String>)
        ensures
            printed.deep_view() == json_text(self@),
    {
        match print_json(self) {
            Ok(text) => Some(text),
            Err(_) => None,
        }
    }
}

} // verus!
