//! Kinds of values that JSON values stand for, and reading and writing
//! them: strings, lists, and through them the objects of a store.

use crate::json::{Json, JsonView};
use vstd::prelude::*;

verus! {

/// What `read` makes of each of `items`, where it makes something of each.
pub open spec fn each_of<T>(items: Seq<JsonView>, read: spec_fn(JsonView) -> Option<T>) -> Option<
    Seq<T>,
> {
    if forall|i: int| 0 <= i < items.len() ==> (#[trigger] read(items[i])) is Some {
        Some(Seq::new(items.len(), |i: int| read(items[i])->Some_0))
    } else {
        None
    }
}

/// Where every item reads as the item of `out` at its place, the items read
/// as `out`.
pub proof fn lemma_each_read<T>(
    items: Seq<JsonView>,
    read: spec_fn(JsonView) -> Option<T>,
    out: Seq<T>,
)
    requires
        out.len() == items.len(),
        forall|k: int| 0 <= k < items.len() ==> read(#[trigger] items[k]) == Some(out[k]),
    ensures
        each_of(items, read) == Some(out),
{
    assert(each_of(items, read)->Some_0 =~= out);
}

/// A kind of value that JSON values stand for: which value a JSON value
/// stands for, if any, and which JSON value a value is written as.
pub trait JsonShape: Sized + DeepView {
    /// The value that `tree` stands for, or `None` where it stands for none.
    spec fn value_of(tree: JsonView) -> Option<<Self as DeepView>::V>;

    /// The JSON value that `value` is written as.
    spec fn json_of(value: <Self as DeepView>::V) -> JsonView;

    /// Reads a value from the JSON value that stands for it.
    fn from_json(tree: &Json) -> (found: Option<Self>)
        ensures
            found.deep_view() == Self::value_of(tree@),
    ;

    /// Writes the value as JSON.
    fn to_json(&self) -> (tree: Json)
        ensures
            tree@ == Self::json_of(self.deep_view()),
    ;

    /// What a value is written as reads back as the value.
    proof fn lemma_reads_back(value: <Self as DeepView>::V)
        ensures
            Self::value_of(Self::json_of(value)) == Some(value),
    ;
}

/// Reads one value of the kind `T`.
pub open spec fn reader<T: JsonShape>() -> spec_fn(JsonView) -> Option<<T as DeepView>::V> {
    |item: JsonView| T::value_of(item)
}

/// The value of the kind `T` that the member of `tree` named `key` stands
/// for: `tree` is an object, has such a member, and the member stands for
/// one.
pub open spec fn member_value<T: JsonShape>(tree: JsonView, key: Seq<char>) -> Option<
    <T as DeepView>::V,
> {
    match tree.member(key) {
        Some(value) => T::value_of(value),
        None => None,
    }
}

/// Reads the member of `tree` named `key` as a value of the kind `T`.
pub fn read_member<T: JsonShape>(tree: &Json, key: &str) -> (found: Option<T>)
    ensures
        found.deep_view() == member_value::<T>(tree@, key@),
{
    match tree.member(key) {
        Some(value) => T::from_json(value),
        None => None,
    }
}

/// Puts one member, named `name`, behind the others.
pub fn put_member(members: &mut Vec<(String, Json)>, name: &str, value: Json)
    ensures
        final(members).deep_view() == old(members).deep_view().push((name@, value@)),
{
    members.push((String::from_str(name), value));
    assert(members.deep_view() =~= old(members).deep_view().push((name@, value@)));
}

/// A string is written as a JSON string.
impl JsonShape for String {
    open spec fn value_of(tree: JsonView) -> Option<Seq<char>> {
        tree.text()
    }

    open spec fn json_of(value: Seq<char>) -> JsonView {
        JsonView::Text(value)
    }

    fn from_json(tree: &Json) -> (found: Option<String>) {
        match tree.as_text() {
            Some(text) => Some(text.clone()),
            None => None,
        }
    }

    fn to_json(&self) -> (tree: Json) {
        Json::text(self)
    }

    proof fn lemma_reads_back(value: Seq<char>) {
    }
}

/// A list is written as a JSON array, item by item.
impl<T: JsonShape> JsonShape for Vec<T> {
    open spec fn value_of(tree: JsonView) -> Option<Seq<<T as DeepView>::V>> {
        match tree.items() {
            Some(items) => each_of(items, reader::<T>()),
            None => None,
        }
    }

    open spec fn json_of(value: Seq<<T as DeepView>::V>) -> JsonView {
        JsonView::Array(Seq::new(value.len(), |i: int| T::json_of(value[i])))
    }

    fn from_json(tree: &Json) -> (found: Option<Vec<T>>) {
        match tree.as_items() {
            None => None,
            Some(items) => {
                let mut values: Vec<T> = Vec::new();
                let mut i: usize = 0;
                while i < items.len()
                    invariant
                        tree@.items() == Some(items.deep_view()),
                        i <= items.len(),
                        values@.len() == i,
                        forall|k: int|
                            0 <= k < i ==> reader::<T>()(#[trigger] items.deep_view()[k]) == Some(
                                values@[k].deep_view(),
                            ),
                    decreases items.len() - i,
                {
                    match T::from_json(&items[i]) {
                        Some(value) => {
                            values.push(value);
                        },
                        None => {
                            assert(reader::<T>()(items.deep_view()[i as int]) is None);
                            return None;
                        },
                    }
                    i = i + 1;
                }
                proof {
                    lemma_each_read(items.deep_view(), reader::<T>(), values.deep_view());
                }
                Some(values)
            },
        }
    }

    fn to_json(&self) -> (tree: Json) {
        let mut items: Vec<Json> = Vec::new();
        let mut i: usize = 0;
        while i < self.len()
            invariant
                i <= self.len(),
                items@.len() == i,
                forall|k: int|
                    0 <= k < i ==> (#[trigger] items@[k])@ == T::json_of(self@[k].deep_view()),
            decreases self.len() - i,
        {
            items.push(self[i].to_json());
            i = i + 1;
        }
        let tree = Json::array(items);
        assert(tree@->Array_0 =~= Self::json_of(self.deep_view())->Array_0);
        tree
    }

    proof fn lemma_reads_back(value: Seq<<T as DeepView>::V>) {
        let items = Self::json_of(value)->Array_0;
        assert forall|k: int| 0 <= k < items.len() implies reader::<T>()(#[trigger] items[k])
            == Some(value[k]) by {
            T::lemma_reads_back(value[k]);
        }
        lemma_each_read(items, reader::<T>(), value);
    }
}

} // verus!
