//! TOML documents as the library reads and edits them, parsed and written by the `toml` crate.

use vstd::prelude::*;

use crate::text::str_equal;

verus! {

#[verifier::external_type_specification]
#[verifier::external_body]
pub struct ExTomlValue(toml::Value);

#[verifier::external_type_specification]
#[verifier::external_body]
pub struct ExTomlDeError(toml::de::Error);

#[verifier::external_type_specification]
#[verifier::external_body]
pub struct ExTomlSerError(toml::ser::Error);

/// A TOML value: strings, arrays and tables (a table's entries in the order the `toml` crate
/// keeps them), and every other value (integers, floats, booleans, datetimes) carried through
/// unchanged as the `toml` crate parsed it.
#[derive(Debug)]
pub enum TomlValue {
    Text(String),
    Array(Vec<TomlValue>),
    Table(Vec<(String, TomlValue)>),
    Other(toml::Value),
}

/// What a `TomlValue` holds, with every string taken by its characters: two values with the
/// same tree hold the same TOML.
pub ghost enum TomlTree {
    Text(Seq<char>),
    Array(Seq<TomlTree>),
    Table(Seq<(Seq<char>, TomlTree)>),
    Other(toml::Value),
}

/// The tree of `value`.
pub open spec fn toml_tree(value: TomlValue) -> TomlTree
    decreases value,
{
    match value {
        TomlValue::Text(text) => TomlTree::Text(text@),
        TomlValue::Array(items) => TomlTree::Array(
            Seq::new(
                items@.len(),
                |i: int|
                    if 0 <= i < items@.len() {
                        toml_tree(items@[i])
                    } else {
                        TomlTree::Text(Seq::empty())
                    },
            ),
        ),
        TomlValue::Table(entries) => TomlTree::Table(
            Seq::new(
                entries@.len(),
                |i: int|
                    if 0 <= i < entries@.len() {
                        (entries@[i].0@, toml_tree(entries@[i].1))
                    } else {
                        (Seq::empty(), TomlTree::Text(Seq::empty()))
                    },
            ),
        ),
        TomlValue::Other(value) => TomlTree::Other(value),
    }
}

/// The value that `toml::from_str::<toml::Value>` parses from `text`, or `None` when it
/// rejects the text.
pub uninterp spec fn toml_document(text: Seq<char>) -> Option<TomlValue>;

/// The text that `toml::to_string` writes for a value with tree `tree`, or `None` when it
/// rejects the value.
pub uninterp spec fn toml_text(tree: TomlTree) -> Option<Seq<char>>;

/// The text that `toml::to_string_pretty` writes for a value with tree `tree`, or `None`
/// when it rejects the value.
pub uninterp spec fn toml_pretty_text(tree: TomlTree) -> Option<Seq<char>>;

/// The value that the `toml` crate parsed, in this library's terms: strings, arrays and
/// tables become `Text`, `Array` and `Table`, anything else is kept as it is.
#[verifier::external_body]
fn toml_model(value: toml::Value) -> TomlValue {
    match value {
        toml::Value::String(text) => TomlValue::Text(text),
        toml::Value::Array(items) => TomlValue::Array(items.into_iter().map(toml_model).collect()),
        toml::Value::Table(table) => TomlValue::Table(
            table.into_iter().map(|(key, item)| (key, toml_model(item))).collect(),
        ),
        other => TomlValue::Other(other),
    }
}

/// The `toml` crate's value for `model`: the inverse of `toml_model`.
#[verifier::external_body]
fn toml_crate_value(model: &TomlValue) -> toml::Value {
    match model {
        TomlValue::Text(text) => toml::Value::String(text.clone()),
        TomlValue::Array(items) => toml::Value::Array(items.iter().map(toml_crate_value).collect()),
        TomlValue::Table(entries) => toml::Value::Table(
            entries.iter().map(|(key, item)| (key.clone(), toml_crate_value(item))).collect(),
        ),
        TomlValue::Other(value) => value.clone(),
    }
}

/// Parses a TOML document with `toml::from_str::<toml::Value>`. The contract names the
/// result: an error exactly when the parser rejects the text, otherwise the parsed value.
/// What the name holds on given text is left to the `toml` crate.
#[verifier::external_body]
pub fn parse_toml(text: &str) -> (res: Result<TomlValue, toml::de::Error>)
    ensures
        res is Err <==> toml_document(text@) is None,
        res matches Ok(value) ==> toml_document(text@) == Some(value),
{
    match toml::from_str::<toml::Value>(text) {
        Ok(value) => Ok(toml_model(value)),
        Err(error) => Err(error),
    }
}

/// Writes `value` as TOML with `toml::to_string`. The contract names the outcome, which
/// depends on the value's tree alone: the text written, or `None` when the serializer
/// rejects the value. What the name holds on given trees is left to the `toml` crate.
#[verifier::external_body]
pub fn toml_to_string(value: &TomlValue) -> (res: Result<String, toml::ser::Error>)
    ensures
        res is Err <==> toml_text(toml_tree(*value)) is None,
        res matches Ok(text) ==> toml_text(toml_tree(*value)) == Some(text@),
{
    toml::to_string(&toml_crate_value(value))
}

/// Writes `value` as TOML with `toml::to_string_pretty`. The contract names the outcome,
/// which depends on the value's tree alone: the text written, or `None` when the serializer
/// rejects the value. What the name holds on given trees is left to the `toml` crate.
#[verifier::external_body]
pub fn toml_to_string_pretty(value: &TomlValue) -> (res: Result<String, toml::ser::Error>)
    ensures
        res is Err <==> toml_pretty_text(toml_tree(*value)) is None,
        res matches Ok(text) ==> toml_pretty_text(toml_tree(*value)) == Some(text@),
{
    toml::to_string_pretty(&toml_crate_value(value))
}

/// The trees of a table's entries, each key taken by its characters.
pub open spec fn tree_entries(entries: Seq<(String, TomlValue)>) -> Seq<(Seq<char>, TomlTree)> {
    Seq::new(entries.len(), |i: int| (entries[i].0@, toml_tree(entries[i].1)))
}

/// The tree of a table is the table of its entries' trees.
pub proof fn lemma_table_tree(entries: Vec<(String, TomlValue)>)
    ensures
        toml_tree(TomlValue::Table(entries)) == TomlTree::Table(tree_entries(entries@)),
{
    assert(match toml_tree(TomlValue::Table(entries)) {
        TomlTree::Table(trees) => trees =~= tree_entries(entries@),
        _ => false,
    });
}

/// `k` is the first of the tree entries whose key is `key`.
pub open spec fn first_tree_key(entries: Seq<(Seq<char>, TomlTree)>, key: Seq<char>, k: int) -> bool {
    &&& 0 <= k < entries.len()
    &&& entries[k].0 == key
    &&& forall|j: int| 0 <= j < k ==> (#[trigger] entries[j]).0 != key
}

/// The tree under the first entry with key `key`, if any.
pub open spec fn tree_lookup(entries: Seq<(Seq<char>, TomlTree)>, key: Seq<char>) -> Option<TomlTree> {
    if exists|k: int| first_tree_key(entries, key, k) {
        Some(entries[choose|k: int| first_tree_key(entries, key, k)].1)
    } else {
        None
    }
}

/// The entries with `value` under `key`: the first entry with that key replaced, or a new
/// last entry when there is none.
pub open spec fn tree_put(
    entries: Seq<(Seq<char>, TomlTree)>,
    key: Seq<char>,
    value: TomlTree,
) -> Seq<(Seq<char>, TomlTree)> {
    if exists|k: int| first_tree_key(entries, key, k) {
        entries.update(choose|k: int| first_tree_key(entries, key, k), (key, value))
    } else {
        entries.push((key, value))
    }
}

/// Only one entry is the first with a key.
pub proof fn lemma_first_tree_key_unique(
    entries: Seq<(Seq<char>, TomlTree)>,
    key: Seq<char>,
    a: int,
    b: int,
)
    requires
        first_tree_key(entries, key, a),
        first_tree_key(entries, key, b),
    ensures
        a == b,
{
    if a < b {
        assert(entries[a].0 != key);
    } else if b < a {
        assert(entries[b].0 != key);
    }
}

/// Replacing the value of the first entry with `key` puts the new value's tree under the key.
pub proof fn lemma_put_replaced(
    old: Seq<(String, TomlValue)>,
    new: Seq<(String, TomlValue)>,
    key: Seq<char>,
    k: int,
    value: TomlTree,
)
    requires
        first_with_key(old, key, k),
        replaced_at(old, new, k),
        toml_tree(new[k].1) == value,
    ensures
        tree_entries(new) == tree_put(tree_entries(old), key, value),
        tree_lookup(tree_entries(old), key) == Some(toml_tree(old[k].1)),
{
    let trees = tree_entries(old);
    assert(first_tree_key(trees, key, k));
    let c = choose|c: int| first_tree_key(trees, key, c);
    lemma_first_tree_key_unique(trees, key, k, c);
    assert(tree_entries(new) =~= trees.update(k, (key, value)));
}

/// Appending an entry for a key that no entry has puts its value's tree under the key.
pub proof fn lemma_put_appended(
    old: Seq<(String, TomlValue)>,
    new: Seq<(String, TomlValue)>,
    key: Seq<char>,
    value: TomlTree,
)
    requires
        lacks_key(old, key),
        new.len() == old.len() + 1,
        new.drop_last() == old,
        new.last().0@ == key,
        toml_tree(new.last().1) == value,
    ensures
        tree_entries(new) == tree_put(tree_entries(old), key, value),
        tree_lookup(tree_entries(old), key) is None,
{
    let trees = tree_entries(old);
    if exists|k: int| first_tree_key(trees, key, k) {
        let k = choose|k: int| first_tree_key(trees, key, k);
        assert(old[k].0@ == key);
    }
    assert forall|j: int| 0 <= j < old.len() implies new[j] == old[j] by {
        assert(new.drop_last()[j] == new[j]);
    }
    assert(tree_entries(new) =~= trees.push((key, value)));
}

/// `k` is the first entry of `entries` whose key is `key`.
pub open spec fn first_with_key(entries: Seq<(String, TomlValue)>, key: Seq<char>, k: int) -> bool {
    &&& 0 <= k < entries.len()
    &&& entries[k].0@ == key
    &&& forall|j: int| 0 <= j < k ==> (#[trigger] entries[j]).0@ != key
}

/// No entry of `entries` has the key `key`.
pub open spec fn lacks_key(entries: Seq<(String, TomlValue)>, key: Seq<char>) -> bool {
    forall|j: int| 0 <= j < entries.len() ==> (#[trigger] entries[j]).0@ != key
}

/// The value of the first entry with key `key`, as a table lookup reads it.
pub open spec fn table_get(entries: Seq<(String, TomlValue)>, key: Seq<char>) -> Option<TomlValue> {
    if exists|k: int| first_with_key(entries, key, k) {
        Some(entries[choose|k: int| first_with_key(entries, key, k)].1)
    } else {
        None
    }
}

/// What indexing `value` by `key` finds: the entry's value in a table, nothing otherwise.
pub open spec fn toml_get(value: TomlValue, key: Seq<char>) -> Option<TomlValue> {
    match value {
        TomlValue::Table(entries) => table_get(entries@, key),
        _ => None,
    }
}

/// The string that `value` holds, if it is one.
pub open spec fn toml_str(value: Option<TomlValue>) -> Option<Seq<char>> {
    match value {
        Some(TomlValue::Text(text)) => Some(text@),
        _ => None,
    }
}

/// `new` is `old` with the value of entry `k` replaced and every other entry kept.
pub open spec fn replaced_at(
    old: Seq<(String, TomlValue)>,
    new: Seq<(String, TomlValue)>,
    k: int,
) -> bool {
    &&& new.len() == old.len()
    &&& 0 <= k < old.len()
    &&& new[k].0@ == old[k].0@
    &&& forall|j: int| 0 <= j < old.len() && j != k ==> #[trigger] new[j] == old[j]
}

/// A lookup finds the first entry with the key.
pub proof fn lemma_table_get_first(entries: Seq<(String, TomlValue)>, key: Seq<char>, k: int)
    requires
        first_with_key(entries, key, k),
    ensures
        table_get(entries, key) == Some(entries[k].1),
{
    let c = choose|c: int| first_with_key(entries, key, c);
    assert(first_with_key(entries, key, c));
    if c < k {
        assert(entries[c].0@ != key);
    } else if k < c {
        assert(entries[k].0@ != key);
    }
}

/// A lookup of a key that no entry has finds nothing.
pub proof fn lemma_table_get_absent(entries: Seq<(String, TomlValue)>, key: Seq<char>)
    requires
        lacks_key(entries, key),
    ensures
        table_get(entries, key) is None,
{
    if exists|k: int| first_with_key(entries, key, k) {
        let k = choose|k: int| first_with_key(entries, key, k);
        assert(entries[k].0@ == key);
    }
}

/// Changing only entries with key `changed` (and appending entries with that key) leaves
/// every other key's lookup as it was.
pub proof fn lemma_other_keys_unchanged(
    old: Seq<(String, TomlValue)>,
    new: Seq<(String, TomlValue)>,
    changed: Seq<char>,
    key: Seq<char>,
)
    requires
        key != changed,
        old.len() <= new.len(),
        forall|j: int| 0 <= j < old.len() && (#[trigger] old[j]).0@ != changed ==> new[j] == old[j],
        forall|j: int| 0 <= j < old.len() ==> ((#[trigger] new[j]).0@ == changed <==> old[j].0@ == changed),
        forall|j: int| old.len() <= j < new.len() ==> (#[trigger] new[j]).0@ == changed,
    ensures
        table_get(new, key) == table_get(old, key),
{
    if exists|k: int| first_with_key(old, key, k) {
        let k = choose|k: int| first_with_key(old, key, k);
        assert(new[k] == old[k]);
        assert forall|j: int| 0 <= j < k implies (#[trigger] new[j]).0@ != key by {
            if old[j].0@ != changed {
                assert(new[j] == old[j]);
            }
        }
        assert(first_with_key(new, key, k));
        lemma_table_get_first(old, key, k);
        lemma_table_get_first(new, key, k);
    } else if exists|k: int| first_with_key(new, key, k) {
        let k = choose|k: int| first_with_key(new, key, k);
        assert(k < old.len());
        assert(old[k].0@ != changed);
        assert(new[k] == old[k]);
        assert forall|j: int| 0 <= j < k implies (#[trigger] old[j]).0@ != key by {
            if old[j].0@ != changed {
                assert(new[j] == old[j]);
            }
        }
        assert(first_with_key(old, key, k));
    }
}

/// The position of the first entry with key `key`, if any.
pub fn find_key(entries: &Vec<(String, TomlValue)>, key: &str) -> (res: Option<usize>)
    ensures
        res matches Some(k) ==> first_with_key(entries@, key@, k as int),
        res is None ==> lacks_key(entries@, key@),
        res matches Some(k) ==> table_get(entries@, key@) == Some(entries@[k as int].1),
        res is None ==> table_get(entries@, key@) is None,
{
    let mut i: usize = 0;
    while i < entries.len()
        invariant
            i <= entries@.len(),
            forall|j: int| 0 <= j < i ==> (#[trigger] entries@[j]).0@ != key@,
        decreases entries.len() - i,
    {
        if str_equal(entries[i].0.as_str(), key) {
            proof {
                lemma_table_get_first(entries@, key@, i as int);
            }
            return Some(i);
        }
        i = i + 1;
    }
    proof {
        lemma_table_get_absent(entries@, key@);
    }
    None
}

/// What indexing `value` by `key` finds: the entry's value in a table, nothing otherwise.
pub fn get<'a>(value: &'a TomlValue, key: &str) -> (res: Option<&'a TomlValue>)
    ensures
        res is None <==> toml_get(*value, key@) is None,
        res matches Some(found) ==> toml_get(*value, key@) == Some(*found),
{
    match value {
        TomlValue::Table(entries) => match find_key(entries, key) {
            Some(k) => Some(&entries[k].1),
            None => None,
        },
        _ => None,
    }
}

/// The string that `value` holds, if it is one.
pub fn text_of(value: &TomlValue) -> (res: Option<String>)
    ensures
        res is None <==> toml_str(Some(*value)) is None,
        res matches Some(text) ==> toml_str(Some(*value)) == Some(text@),
{
    match value {
        TomlValue::Text(text) => Some(text.clone()),
        _ => None,
    }
}

/// Replaces the value of entry `k` of a table, keeping its key and every other entry.
pub fn replace_value(entries: &mut Vec<(String, TomlValue)>, k: usize, value: TomlValue)
    requires
        k < old(entries)@.len(),
    ensures
        replaced_at(old(entries)@, final(entries)@, k as int),
        final(entries)@[k as int].1 == value,
{
    let (key, _) = entries.remove(k);
    entries.insert(k, (key, value));
    assert forall|j: int| 0 <= j < old(entries)@.len() && j != k implies #[trigger] entries@[j]
        == old(entries)@[j] by {
        if j < k {
        } else {
        }
    }
}

} // verus!
