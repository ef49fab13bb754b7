use crate::text::same_text;
use vstd::prelude::*;

verus! {

/// The mathematical content of a value of a configuration document.
pub enum Node {
    /// A string.
    Text(Seq<char>),
    /// An array, in document order.
    List(Seq<Node>),
    /// A table: its keys with their values, in iteration order.
    Table(Seq<(Seq<char>, Node)>),
    /// A value of any other kind: integer, float, boolean or date-time.
    Other,
}

/// The content of a table: its keys with their values, in iteration order.
pub type Fields = Seq<(Seq<char>, Node)>;

/// One key of a table with the value bound to it.
#[derive(Debug, PartialEq, Eq)]
pub struct Entry {
    pub key: String,
    pub value: Item,
}

/// A value of a configuration document.
#[derive(Debug, PartialEq, Eq)]
pub enum Item {
    /// A string.
    Text(String),
    /// An array, in document order.
    List(Vec<Item>),
    /// A table, in iteration order.
    Table(Vec<Entry>),
    /// A value of any other kind: integer, float, boolean or date-time.
    Other,
}

/// The content of a table's entries, in their order.
pub open spec fn entries_model(entries: Seq<Entry>) -> Fields {
    Seq::new(entries.len(), |i: int| (entries[i].key@, entries[i].value.model()))
}

/// The content of an array's items, in their order.
pub open spec fn items_model(items: Seq<Item>) -> Seq<Node> {
    Seq::new(items.len(), |i: int| items[i].model())
}

/// The value bound to `key` in a table: that of the first entry with this key.
pub open spec fn lookup(entries: Fields, key: Seq<char>) -> Option<Node>
    decreases entries.len(),
{
    if entries.len() == 0 {
        None
    } else if entries[0].0 == key {
        Some(entries[0].1)
    } else {
        lookup(entries.drop_first(), key)
    }
}

impl Item {
    /// The content of this value. `lemma_model` states it for arrays and
    /// tables over `items_model` and `entries_model`.
    pub open spec fn model(self) -> Node
        decreases self,
    {
        match self {
            Item::Text(text) => Node::Text(text@),
            Item::List(items) => Node::List(
                Seq::new(
                    items@.len(),
                    |i: int|
                        if 0 <= i < items@.len() {
                            items@[i].model()
                        } else {
                            Node::Other
                        },
                ),
            ),
            Item::Table(entries) => Node::Table(
                Seq::new(
                    entries@.len(),
                    |i: int|
                        if 0 <= i < entries@.len() {
                            (entries@[i].key@, entries@[i].value.model())
                        } else {
                            (Seq::empty(), Node::Other)
                        },
                ),
            ),
            Item::Other => Node::Other,
        }
    }

    /// The content of an array is that of its items, and the content of a
    /// table is that of its entries.
    pub proof fn lemma_model(self)
        ensures
            self matches Item::List(items) ==> self.model() == Node::List(items_model(items@)),
            self matches Item::Table(entries) ==> self.model() == Node::Table(
                entries_model(entries@),
            ),
    {
        match self {
            Item::List(items) => {
                assert(self.model()->List_0 =~= items_model(items@));
            },
            Item::Table(entries) => {
                assert(self.model()->Table_0 =~= entries_model(entries@));
            },
            _ => {},
        }
    }

    /// A copy of this value with the same content.
    #[verifier::loop_isolation(false)]
    pub fn duplicate(&self) -> (copy: Item)
        ensures
            copy.model() == self.model(),
        decreases self,
    {
        match self {
            Item::Text(text) => Item::Text(text.clone()),
            Item::List(items) => {
                let mut copies: Vec<Item> = Vec::new();
                let mut i: usize = 0;
                while i < items.len()
                    invariant
                        i <= items.len(),
                        copies.len() == i,
                        forall|j: int| 0 <= j < i ==> copies[j].model() == items[j].model(),
                    decreases items.len() - i,
                {
                    copies.push(items[i].duplicate());
                    i += 1;
                }
                let copy = Item::List(copies);
                proof {
                    copy.lemma_model();
                    self.lemma_model();
                    assert(items_model(copies@) =~= items_model(items@));
                }
                copy
            },
            Item::Table(entries) => {
                let mut copies: Vec<Entry> = Vec::new();
                let mut i: usize = 0;
                while i < entries.len()
                    invariant
                        i <= entries.len(),
                        copies.len() == i,
                        forall|j: int|
                            0 <= j < i ==> copies[j].key@ == entries[j].key@
                                && copies[j].value.model() == entries[j].value.model(),
                    decreases entries.len() - i,
                {
                    let entry = &entries[i];
                    copies.push(Entry { key: entry.key.clone(), value: entry.value.duplicate() });
                    i += 1;
                }
                let copy = Item::Table(copies);
                proof {
                    copy.lemma_model();
                    self.lemma_model();
                    assert(entries_model(copies@) =~= entries_model(entries@));
                }
                copy
            },
            Item::Other => Item::Other,
        }
    }
}

/// The value bound to `key` in a table of entries, if there is one.
pub fn find_value<'a>(entries: &'a Vec<Entry>, key: &str) -> (found: Option<&'a Item>)
    ensures
        match found {
            Some(item) => lookup(entries_model(entries@), key@) == Some(item.model()),
            None => lookup(entries_model(entries@), key@) is None,
        },
{
    let ghost all = entries_model(entries@);
    let mut i: usize = 0;
    assert(all.subrange(0, all.len() as int) =~= all);
    while i < entries.len()
        invariant
            i <= entries.len(),
            all == entries_model(entries@),
            lookup(all, key@) == lookup(all.subrange(i as int, all.len() as int), key@),
        decreases entries.len() - i,
    {
        let ghost rest = all.subrange(i as int, all.len() as int);
        assert(rest.drop_first() =~= all.subrange(i + 1, all.len() as int));
        assert(rest[0] == all[i as int]);
        if same_text(entries[i].key.as_str(), key) {
            return Some(&entries[i].value);
        }
        i += 1;
    }
    None
}

/// The `Value` enum of the `toml` crate, carried through as it comes.
#[verifier::external_type_specification]
#[verifier::external_body]
pub struct ExTomlValue(toml::Value);

/// The error of the `toml` crate's parser, carried through as it comes.
#[verifier::external_type_specification]
#[verifier::external_body]
pub struct ExTomlError(toml::de::Error);

/// What the `toml` crate's `FromStr` for `Table` makes of a text: the content
/// of the root table, or `None` where the text is refused.
pub uninterp spec fn toml_parse(content: Seq<char>) -> Option<Node>;

/// What a `toml::Value` holds.
pub uninterp spec fn toml_content(value: toml::Value) -> Node;

/// Calls `str::parse::<toml::Table>`, the `FromStr` of `toml::Table`, and
/// hands the table on as a `toml::Value::Table`. Trusted: the outcome depends
/// on the text alone, so it is `toml_parse` of the text; on success the value
/// holds that content.
#[verifier::external_body]
fn parse_toml(content: &str) -> (parsed: Result<toml::Value, toml::de::Error>)
    ensures
        match parsed {
            Ok(value) => toml_parse(content@) == Some(toml_content(value)),
            Err(_) => toml_parse(content@) is None,
        },
{
    match content.parse::<toml::Table>() {
        Ok(table) => Ok(toml::Value::Table(table)),
        Err(error) => Err(error),
    }
}

/// One level of a `toml::Value`: what kind of value it is, with what it
/// holds directly.
enum Shape<'a> {
    Text(&'a String),
    List(&'a Vec<toml::Value>),
    Table(Vec<(&'a String, &'a toml::Value)>),
    Other,
}

/// The content of a value of which one level is known.
spec fn shape_content(shape: Shape) -> Node {
    match shape {
        Shape::Text(text) => Node::Text(text@),
        Shape::List(items) => Node::List(
            Seq::new(items@.len(), |i: int| toml_content(items@[i])),
        ),
        Shape::Table(entries) => Node::Table(
            Seq::new(entries@.len(), |i: int| (entries@[i].0@, toml_content(*entries@[i].1))),
        ),
        Shape::Other => Node::Other,
    }
}

/// Tells the variants of `toml::Value` apart and hands out what the value
/// holds directly: the string, the items of the array, or the entries of the
/// table in the order of `toml::map::Map::iter`. Integer, float, boolean and
/// date-time are `Other`. Trusted: the value holds what its one level shows.
#[verifier::external_body]
fn shape_of(value: &toml::Value) -> (shape: Shape)
    ensures
        toml_content(*value) == shape_content(shape),
{
    match value {
        toml::Value::String(text) => Shape::Text(text),
        toml::Value::Array(items) => Shape::List(items),
        toml::Value::Table(table) => Shape::Table(table.iter().collect()),
        toml::Value::Integer(_) => Shape::Other,
        toml::Value::Float(_) => Shape::Other,
        toml::Value::Boolean(_) => Shape::Other,
        toml::Value::Datetime(_) => Shape::Other,
    }
}

/// Rebuilds a `toml::Value` as an `Item` with the same content.
#[verifier::loop_isolation(false)]
fn lift(value: &toml::Value) -> (lifted: Item)
    ensures
        lifted.model() == toml_content(*value),
    decreases toml_content(*value),
{
    match shape_of(value) {
        Shape::Text(text) => Item::Text(text.clone()),
        Shape::List(items) => {
            let ghost content = toml_content(*value)->List_0;
            let mut lifted: Vec<Item> = Vec::new();
            let mut i: usize = 0;
            while i < items.len()
                invariant
                    i <= items.len(),
                    lifted.len() == i,
                    forall|j: int| 0 <= j < i ==> lifted[j].model() == toml_content(items[j]),
                decreases items.len() - i,
            {
                assert(content[i as int] == toml_content(items[i as int]));
                lifted.push(lift(&items[i]));
                i += 1;
            }
            let list = Item::List(lifted);
            proof {
                list.lemma_model();
                assert(items_model(lifted@) =~= content);
            }
            list
        },
        Shape::Table(entries) => {
            let ghost content = toml_content(*value)->Table_0;
            let mut lifted: Vec<Entry> = Vec::new();
            let mut i: usize = 0;
            while i < entries.len()
                invariant
                    i <= entries.len(),
                    lifted.len() == i,
                    forall|j: int|
                        0 <= j < i ==> lifted[j].key@ == entries[j].0@ && lifted[j].value.model()
                            == toml_content(*entries[j].1),
                decreases entries.len() - i,
            {
                assert(content[i as int].1 == toml_content(*entries[i as int].1));
                let entry = Entry { key: entries[i].0.clone(), value: lift(entries[i].1) };
                lifted.push(entry);
                i += 1;
            }
            let table = Item::Table(lifted);
            proof {
                table.lemma_model();
                assert(entries_model(lifted@) =~= content);
            }
            table
        },
        Shape::Other => Item::Other,
    }
}

/// Calls `to_string` on the parser's error, which writes it out through its
/// `Display`. Trusted only to return.
#[verifier::external_body]
fn parse_error_message(error: &toml::de::Error) -> String {
    error.to_string()
}

/// Why a text is no configuration document.
#[derive(Debug, PartialEq, Eq)]
pub struct SyntaxError {
    /// What the parser said went wrong.
    pub message: String,
}

/// Reads a configuration document from its text.
pub fn read_document(content: &str) -> (read: Result<Item, SyntaxError>)
    ensures
        match read {
            Ok(document) => toml_parse(content@) == Some(document.model()),
            Err(_) => toml_parse(content@) is None,
        },
{
    match parse_toml(content) {
        Ok(value) => Ok(lift(&value)),
        Err(error) => Err(SyntaxError { message: parse_error_message(&error) }),
    }
}

} // verus!
