//! JSON values: the tree that a value stands for, reading it, building it, and its way to and
//! from the bytes on the wire.

use vstd::prelude::*;
use crate::text::same_text;
use crate::text::opt_str;
use crate::text::opt_text;

verus! {

/// What a JSON number stands for. How it is held counts: `1` is held as an integer, and `1.0` as a
/// float.
pub enum NumberView {
    /// A number that is held as an integer.
    Integer(int),
    /// A number that is held as a float, by its printed text.
    Fraction(Seq<char>),
}

/// What a JSON value stands for. The members of an object have no order.
#[verifier::ext_equal]
pub enum JsonTree {
    Null,
    Bool(bool),
    Number(NumberView),
    Text(Seq<char>),
    List(Seq<JsonTree>),
    Object(Map<Seq<char>, JsonTree>),
}

/// The object without members.
pub open spec fn obj() -> JsonTree {
    JsonTree::Object(Map::empty())
}

/// The list without items.
pub open spec fn items() -> JsonTree {
    JsonTree::List(Seq::empty())
}

/// A number that is held as an integer.
pub open spec fn whole(i: int) -> JsonTree {
    JsonTree::Number(NumberView::Integer(i))
}

impl JsonTree {
    /// The object with one member set; any other value is left as it is.
    pub open spec fn put(self, name: Seq<char>, value: JsonTree) -> JsonTree {
        match self {
            JsonTree::Object(members) => JsonTree::Object(members.insert(name, value)),
            _ => self,
        }
    }

    /// The list with one more item at its end; any other value is left as it is.
    pub open spec fn and(self, item: JsonTree) -> JsonTree {
        match self {
            JsonTree::List(list) => JsonTree::List(list.push(item)),
            _ => self,
        }
    }

    /// The member of that name, where the value is an object that has it.
    pub open spec fn field(self, name: Seq<char>) -> Option<JsonTree> {
        match self {
            JsonTree::Object(members) if members.contains_key(name) => Some(members[name]),
            _ => None,
        }
    }

    pub open spec fn text(self) -> Option<Seq<char>> {
        match self {
            JsonTree::Text(s) => Some(s),
            _ => None,
        }
    }

    pub open spec fn boolean(self) -> Option<bool> {
        match self {
            JsonTree::Bool(b) => Some(b),
            _ => None,
        }
    }

    /// The number, where it is held as an integer and fits in 64 bits without a sign.
    pub open spec fn unsigned(self) -> Option<u64> {
        match self {
            JsonTree::Number(NumberView::Integer(i)) if 0 <= i <= u64::MAX => Some(i as u64),
            _ => None,
        }
    }

    pub open spec fn list(self) -> Option<Seq<JsonTree>> {
        match self {
            JsonTree::List(items) => Some(items),
            _ => None,
        }
    }

    /// The compact text of the value, as it stands in a message.
    pub open spec fn printed(self) -> Seq<char> {
        json_text(self)->0
    }

    /// The text of the member of that name, where both are there.
    pub open spec fn field_text(self, name: Seq<char>) -> Option<Seq<char>> {
        match self.field(name) {
            Some(value) => value.text(),
            None => None,
        }
    }

    /// The truth value of the member of that name, where both are there.
    pub open spec fn field_boolean(self, name: Seq<char>) -> Option<bool> {
        match self.field(name) {
            Some(value) => value.boolean(),
            None => None,
        }
    }

    /// The number of the member of that name, where both are there.
    pub open spec fn field_unsigned(self, name: Seq<char>) -> Option<u64> {
        match self.field(name) {
            Some(value) => value.unsigned(),
            None => None,
        }
    }

    /// The items of the member of that name, where both are there.
    pub open spec fn field_list(self, name: Seq<char>) -> Option<Seq<JsonTree>> {
        match self.field(name) {
            Some(value) => value.list(),
            None => None,
        }
    }
}

/// `serde_json::Number`, carried through as it is.
#[verifier::external_type_specification]
#[verifier::external_body]
pub struct ExNumber(serde_json::Number);

/// `serde_json::Value`, the tree that the JSON reader makes and the JSON writer takes.
#[verifier::external_type_specification]
#[verifier::external_body]
pub struct ExValue(serde_json::Value);

/// What a `serde_json::Number` holds.
pub uninterp spec fn number_view(n: serde_json::Number) -> NumberView;

/// What a `serde_json::Value` holds.
pub uninterp spec fn value_tree(v: serde_json::Value) -> JsonTree;

/// What `serde_json::from_slice` makes of some bytes: a tree, or the text of its error.
pub uninterp spec fn json_of_bytes(bytes: Seq<u8>) -> Result<JsonTree, Seq<char>>;

/// The compact text that `serde_json::to_string` writes for a tree.
pub uninterp spec fn json_text(tree: JsonTree) -> Option<Seq<char>>;

/// Whether a text holds no line break.
pub open spec fn one_line(s: Seq<char>) -> bool {
    forall|i: int| 0 <= i < s.len() ==> #[trigger] s[i] != '\n'
}

/// A JSON value. Of two members with one name, the later counts.
#[derive(Debug)]
pub enum Json {
    Null,
    Bool(bool),
    Number(serde_json::Number),
    Text(String),
    List(Vec<Json>),
    Object(Vec<Member>),
}

/// A member of an object.
#[derive(Debug)]
pub struct Member {
    pub name: String,
    pub value: Json,
}

/// One level of a `serde_json::Value`.
pub enum ValueParts {
    Null,
    Bool(bool),
    Number(serde_json::Number),
    Text(String),
    List(Vec<serde_json::Value>),
    Object(Vec<(String, serde_json::Value)>),
}

/// The members that a run of members leaves, each name with its last value.
pub open spec fn members_map(members: Seq<Member>) -> Map<Seq<char>, JsonTree>
    decreases members,
{
    if members.len() == 0 {
        Map::empty()
    } else {
        members_map(members.drop_last()).insert(members.last().name@, members.last().value.tree())
    }
}

/// The members that a run of named values leaves, each name with its last value.
pub open spec fn values_map(entries: Seq<(String, serde_json::Value)>) -> Map<Seq<char>, JsonTree>
    decreases entries.len(),
{
    if entries.len() == 0 {
        Map::empty()
    } else {
        values_map(entries.drop_last()).insert(entries.last().0@, value_tree(entries.last().1))
    }
}

/// The trees of a run of values.
pub open spec fn trees_of(items: Seq<Json>) -> Seq<JsonTree> {
    items.map_values(|j: Json| j.tree())
}

/// The tree that one level of a value stands for.
pub open spec fn parts_tree(parts: ValueParts) -> JsonTree {
    match parts {
        ValueParts::Null => JsonTree::Null,
        ValueParts::Bool(b) => JsonTree::Bool(b),
        ValueParts::Number(n) => JsonTree::Number(number_view(n)),
        ValueParts::Text(s) => JsonTree::Text(s@),
        ValueParts::List(items) => JsonTree::List(
            items@.map_values(|v: serde_json::Value| value_tree(v)),
        ),
        ValueParts::Object(entries) => JsonTree::Object(values_map(entries@)),
    }
}

/// Whether no name occurs twice.
pub open spec fn names_differ(entries: Seq<(String, serde_json::Value)>) -> bool {
    forall|i: int, j: int|
        0 <= i < j < entries.len() ==> (#[trigger] entries[i]).0@ != (#[trigger] entries[j]).0@
}

/// `serde_json::Number::as_u64`: the number where it is held as an integer from zero to `u64::MAX`;
/// none where it is negative or held as a float.
#[verifier::external_body]
fn number_as_u64(n: &serde_json::Number) -> (r: Option<u64>)
    ensures
        r == JsonTree::Number(number_view(*n)).unsigned(),
{
    n.as_u64()
}

/// `serde_json::Number::from` on an `i64`: the number that holds it.
#[verifier::external_body]
fn number_from_i64(i: i64) -> (n: serde_json::Number)
    ensures
        number_view(n) == NumberView::Integer(i as int),
{
    serde_json::Number::from(i)
}

/// `serde_json::Number::from` on a `u64`: the number that holds it.
#[verifier::external_body]
fn number_from_u64(i: u64) -> (n: serde_json::Number)
    ensures
        number_view(n) == NumberView::Integer(i as int),
{
    serde_json::Number::from(i)
}

/// `serde_json::Number::clone`: the copy holds what the number holds.
pub assume_specification[ <serde_json::Number as Clone>::clone ](n: &serde_json::Number) -> (r:
    serde_json::Number)
    ensures
        number_view(r) == number_view(*n),
;

/// Takes one level off a `serde_json::Value`: its variant with what that holds. An object hands
/// out each of its members once.
#[verifier::external_body]
fn split_value(v: serde_json::Value) -> (parts: ValueParts)
    ensures
        parts_tree(parts) == value_tree(v),
        parts matches ValueParts::Object(entries) ==> names_differ(entries@),
{
    match v {
        serde_json::Value::Null => ValueParts::Null,
        serde_json::Value::Bool(b) => ValueParts::Bool(b),
        serde_json::Value::Number(n) => ValueParts::Number(n),
        serde_json::Value::String(s) => ValueParts::Text(s),
        serde_json::Value::Array(items) => ValueParts::List(items),
        serde_json::Value::Object(members) => ValueParts::Object(members.into_iter().collect()),
    }
}

/// Makes a `serde_json::Value` of one level. The members of an object must differ in name.
#[verifier::external_body]
fn join_value(parts: ValueParts) -> (v: serde_json::Value)
    requires
        parts matches ValueParts::Object(entries) ==> names_differ(entries@),
    ensures
        value_tree(v) == parts_tree(parts),
{
    match parts {
        ValueParts::Null => serde_json::Value::Null,
        ValueParts::Bool(b) => serde_json::Value::Bool(b),
        ValueParts::Number(n) => serde_json::Value::Number(n),
        ValueParts::Text(s) => serde_json::Value::String(s),
        ValueParts::List(items) => serde_json::Value::Array(items),
        ValueParts::Object(entries) => serde_json::Value::Object(entries.into_iter().collect()),
    }
}

/// `serde_json::from_slice` into a `serde_json::Value`. Its result is named, and so is the text
/// of its error.
#[verifier::external_body]
fn read_value(bytes: &[u8]) -> (r: Result<serde_json::Value, String>)
    ensures
        match r {
            Ok(v) => json_of_bytes(bytes@) == Ok::<JsonTree, Seq<char>>(value_tree(v)),
            Err(e) => json_of_bytes(bytes@) == Err::<JsonTree, Seq<char>>(e@),
        },
{
    match serde_json::from_slice(bytes) {
        Ok(v) => Ok(v),
        Err(e) => Err(e.to_string()),
    }
}

/// `serde_json::to_string` of a `serde_json::Value`. Its result is named by the tree that the
/// value holds. Every value can be written, and its text holds no line break: the writer escapes
/// those in strings and sets none of its own.
#[verifier::external_body]
fn write_value(v: &serde_json::Value) -> (r: Option<String>)
    ensures
        opt_text(r) == json_text(value_tree(*v)),
        r is Some,
        r matches Some(text) ==> one_line(text@),
{
    serde_json::to_string(v).ok()
}

proof fn lemma_values_map_finite(entries: Seq<(String, serde_json::Value)>)
    ensures
        values_map(entries).dom().finite(),
    decreases entries.len(),
{
    if entries.len() > 0 {
        lemma_values_map_finite(entries.drop_last());
    }
}

/// Of a run of values whose names differ, each is found under its name.
proof fn lemma_values_map_holds(entries: Seq<(String, serde_json::Value)>, i: int)
    requires
        names_differ(entries),
        0 <= i < entries.len(),
    ensures
        values_map(entries).contains_key(entries[i].0@),
        values_map(entries)[entries[i].0@] == value_tree(entries[i].1),
        values_map(entries).dom().finite(),
    decreases entries.len(),
{
    let rest = entries.drop_last();
    lemma_values_map_finite(entries);
    if i < rest.len() {
        assert forall|a: int, b: int| 0 <= a < b < rest.len() implies (#[trigger] rest[a]).0@ != (
        #[trigger] rest[b]).0@ by {
            assert(entries[a].0@ != entries[b].0@);
        }
        lemma_values_map_holds(rest, i);
        assert(entries[i].0@ != entries[entries.len() - 1].0@);
    }
}

impl Json {
    /// The tree that the value stands for.
    pub open spec fn tree(self) -> JsonTree
        decreases self,
    {
        match self {
            Json::Null => JsonTree::Null,
            Json::Bool(b) => JsonTree::Bool(b),
            Json::Number(n) => JsonTree::Number(number_view(n)),
            Json::Text(s) => JsonTree::Text(s@),
            Json::List(items) => JsonTree::List(
                Seq::new(
                    items@.len(),
                    |i: int|
                        if 0 <= i < items@.len() {
                            items@[i].tree()
                        } else {
                            JsonTree::Null
                        },
                ),
            ),
            Json::Object(members) => JsonTree::Object(members_map(members@)),
        }
    }

    /// A list stands for the list of the trees of its items.
    pub broadcast proof fn lemma_list_tree(items: Vec<Json>)
        ensures
            #[trigger] Json::List(items).tree() == JsonTree::List(trees_of(items@)),
    {
        assert(Json::List(items).tree()->List_0 =~= trees_of(items@));
    }

    /// Takes over a `serde_json::Value`.
    pub fn from_value(v: serde_json::Value) -> (r: Json)
        ensures
            r.tree() == value_tree(v),
        decreases value_tree(v),
    {
        let ghost tree = value_tree(v);
        match split_value(v) {
            ValueParts::Null => Json::Null,
            ValueParts::Bool(b) => Json::Bool(b),
            ValueParts::Number(n) => Json::Number(n),
            ValueParts::Text(s) => Json::Text(s),
            ValueParts::List(items) => {
                let ghost trees = items@.map_values(|v: serde_json::Value| value_tree(v));
                let mut out: Vec<Json> = Vec::new();
                for item in it: items
                    invariant
                        tree == value_tree(v),
                        tree == JsonTree::List(trees),
                        trees == it.seq().map_values(|v: serde_json::Value| value_tree(v)),
                        out@.len() == it.index(),
                        forall|k: int|
                            0 <= k < out@.len() ==> (#[trigger] out@[k]).tree() == trees[k],
                {
                    assert(value_tree(item) == trees[it.index() as int]);
                    assert(decreases_to!(tree => tree->List_0));
                    assert(decreases_to!(trees => trees[it.index() as int]));
                    out.push(Json::from_value(item));
                }
                proof {
                    Json::lemma_list_tree(out);
                    assert(trees_of(out@) =~= trees);
                }
                Json::List(out)
            },
            ValueParts::Object(entries) => {
                let ghost all = entries@;
                let mut out: Vec<Member> = Vec::new();
                for entry in it: entries
                    invariant
                        it.seq() == all,
                        tree == value_tree(v),
                        tree == JsonTree::Object(values_map(all)),
                        names_differ(all),
                        out@.len() == it.index(),
                        members_map(out@) == values_map(all.take(it.index() as int)),
                {
                    let (name, item) = entry;
                    let ghost n = it.index() as int;
                    proof {
                        lemma_values_map_holds(all, n);
                        assert(decreases_to!(tree => tree->Object_0));
                        assert(decreases_to!(values_map(all) => values_map(all)[name@]));
                    }
                    let ghost before = out@;
                    out.push(Member { name: name, value: Json::from_value(item) });
                    proof {
                        assert(out@.drop_last() =~= before);
                        assert(all.take(n + 1).drop_last() =~= all.take(n));
                    }
                }
                assert(all.take(all.len() as int) =~= all);
                Json::Object(out)
            },
        }
    }

    /// Hands the value over as a `serde_json::Value`.
    pub fn to_value(&self) -> (v: serde_json::Value)
        ensures
            value_tree(v) == self.tree(),
        decreases self,
    {
        match self {
            Json::Null => join_value(ValueParts::Null),
            Json::Bool(b) => join_value(ValueParts::Bool(*b)),
            Json::Number(n) => join_value(ValueParts::Number(n.clone())),
            Json::Text(s) => join_value(ValueParts::Text(s.clone())),
            Json::List(items) => {
                let mut out: Vec<serde_json::Value> = Vec::new();
                let mut i: usize = 0;
                while i < items.len()
                    invariant
                        i <= items@.len(),
                        self == Json::List(*items),
                        out@.len() == i,
                        forall|k: int|
                            0 <= k < i ==> value_tree(#[trigger] out@[k]) == items@[k].tree(),
                    decreases items@.len() - i,
                {
                    assert(decreases_to!(self => self->List_0));
                    assert(decreases_to!(items@ => items@[i as int]));
                    out.push(items[i].to_value());
                    i += 1;
                }
                let parts = ValueParts::List(out);
                proof {
                    Json::lemma_list_tree(*items);
                    assert(parts_tree(parts)->List_0 =~= trees_of(items@));
                }
                join_value(parts)
            },
            Json::Object(members) => {
                let mut out: Vec<(String, serde_json::Value)> = Vec::new();
                let mut i: usize = 0;
                while i < members.len()
                    invariant
                        i <= members@.len(),
                        self == Json::Object(*members),
                        names_differ(out@),
                        values_map(out@) == members_map(members@.take(i as int)),
                    decreases members@.len() - i,
                {
                    assert(decreases_to!(self => self->Object_0));
                    assert(decreases_to!(members@ => members@[i as int]));
                    assert(decreases_to!(members@[i as int] => members@[i as int].value));
                    let value = members[i].value.to_value();
                    put_value(&mut out, &members[i].name, value);
                    assert(members@.take(i + 1).drop_last() =~= members@.take(i as int));
                    i += 1;
                }
                assert(members@.take(i as int) =~= members@);
                join_value(ValueParts::Object(out))
            },
        }
    }

    /// Reads the bytes as JSON; the error is the reader's text.
    pub fn from_bytes(bytes: &[u8]) -> (r: Result<Json, String>)
        ensures
            match r {
                Ok(j) => json_of_bytes(bytes@) == Ok::<JsonTree, Seq<char>>(j.tree()),
                Err(e) => json_of_bytes(bytes@) == Err::<JsonTree, Seq<char>>(e@),
            },
    {
        match read_value(bytes) {
            Ok(v) => Ok(Json::from_value(v)),
            Err(e) => Err(e),
        }
    }

    /// The compact text of the value.
    pub fn to_text(&self) -> (r: Option<String>)
        ensures
            opt_text(r) == json_text(self.tree()),
            r is Some,
            r matches Some(text) ==> one_line(text@),
    {
        let v = self.to_value();
        write_value(&v)
    }

    /// The compact text of the value, as it stands in a message.
    pub fn printed(&self) -> (r: String)
        ensures
            r@ == self.tree().printed(),
            one_line(r@),
    {
        match self.to_text() {
            Some(text) => text,
            None => String::new(),
        }
    }

    /// The object without members.
    pub fn object() -> (r: Json)
        ensures
            r.tree() == obj(),
    {
        let members: Vec<Member> = Vec::new();
        assert(members_map(members@) == Map::<Seq<char>, JsonTree>::empty());
        Json::Object(members)
    }

    /// The value with one member set, where it is an object.
    pub fn with(self, name: &str, value: Json) -> (r: Json)
        ensures
            r.tree() == self.tree().put(name@, value.tree()),
    {
        match self {
            Json::Object(members) => {
                let ghost before = members@;
                let mut out: Vec<Member> = members;
                out.push(Member { name: name.to_owned(), value: value });
                proof {
                    assert(out@.drop_last() =~= before);
                    assert(members_map(out@) == members_map(before).insert(name@, value.tree()));
                }
                Json::Object(out)
            },
            other => other,
        }
    }

    /// A text.
    pub fn text(s: &str) -> (r: Json)
        ensures
            r.tree() == JsonTree::Text(s@),
    {
        Json::Text(s.to_owned())
    }

    /// A number that is held as an integer.
    pub fn integer(i: i64) -> (r: Json)
        ensures
            r.tree() == whole(i as int),
    {
        Json::Number(number_from_i64(i))
    }

    /// A number without a sign that is held as an integer.
    pub fn unsigned(i: u64) -> (r: Json)
        ensures
            r.tree() == whole(i as int),
    {
        Json::Number(number_from_u64(i))
    }

    /// The list without items.
    pub fn list() -> (r: Json)
        ensures
            r.tree() == items(),
    {
        let list: Vec<Json> = Vec::new();
        proof {
            Json::lemma_list_tree(list);
            assert(trees_of(list@) =~= Seq::<JsonTree>::empty());
        }
        Json::List(list)
    }

    /// The value with one more item at its end, where it is a list.
    pub fn and(self, item: Json) -> (r: Json)
        ensures
            r.tree() == self.tree().and(item.tree()),
    {
        match self {
            Json::List(list) => {
                proof {
                    Json::lemma_list_tree(list);
                }
                let ghost before = list@;
                let mut out: Vec<Json> = list;
                out.push(item);
                proof {
                    Json::lemma_list_tree(out);
                    assert(trees_of(out@) =~= trees_of(before).push(item.tree()));
                }
                Json::List(out)
            },
            other => other,
        }
    }

    /// The member of that name, where the value is an object that has it.
    pub fn get(&self, name: &str) -> (r: Option<&Json>)
        ensures
            opt_tree(r) == self.tree().field(name@),
    {
        match self {
            Json::Object(members) => {
                let mut i: usize = members.len();
                assert(members@.take(i as int) =~= members@);
                while i > 0
                    invariant
                        i <= members@.len(),
                        self == Json::Object(*members),
                        members_map(members@).contains_key(name@) == members_map(
                            members@.take(i as int),
                        ).contains_key(name@),
                        members_map(members@).contains_key(name@) ==> members_map(members@)[name@]
                            == members_map(members@.take(i as int))[name@],
                    decreases i,
                {
                    i -= 1;
                    assert(members@.take(i + 1).drop_last() =~= members@.take(i as int));
                    if same_text(members[i].name.as_str(), name) {
                        return Some(&members[i].value);
                    }
                }
                assert(members@.take(0) =~= Seq::<Member>::empty());
                None
            },
            _ => None,
        }
    }

    /// The text, where the value is one.
    pub fn as_str(&self) -> (r: Option<&str>)
        ensures
            opt_str(r) == self.tree().text(),
    {
        match self {
            Json::Text(s) => Some(s.as_str()),
            _ => None,
        }
    }

    /// The truth value, where the value is one.
    pub fn as_bool(&self) -> (r: Option<bool>)
        ensures
            r == self.tree().boolean(),
    {
        match self {
            Json::Bool(b) => Some(*b),
            _ => None,
        }
    }

    /// The number, where the value is one that is held as an integer from zero to `u64::MAX`.
    pub fn as_u64(&self) -> (r: Option<u64>)
        ensures
            r == self.tree().unsigned(),
    {
        match self {
            Json::Number(n) => number_as_u64(n),
            _ => None,
        }
    }

    /// The items, where the value is a list.
    pub fn as_list(&self) -> (r: Option<&Vec<Json>>)
        ensures
            match r {
                Some(items) => self.tree().list() == Some(trees_of(items@)),
                None => self.tree().list() is None,
            },
    {
        match self {
            Json::List(items) => {
                proof {
                    Json::lemma_list_tree(*items);
                }
                Some(items)
            },
            _ => None,
        }
    }

    /// Whether the value is an object.
    pub fn is_object(&self) -> (r: bool)
        ensures
            r == (self.tree() is Object),
    {
        match self {
            Json::Object(_) => true,
            _ => false,
        }
    }

    /// Whether the value is null.
    pub fn is_null(&self) -> (r: bool)
        ensures
            r == (self.tree() is Null),
    {
        match self {
            Json::Null => true,
            _ => false,
        }
    }

    /// The text of the member of that name, where both are there.
    pub fn get_str(&self, name: &str) -> (r: Option<&str>)
        ensures
            opt_str(r) == self.tree().field_text(name@),
    {
        match self.get(name) {
            Some(value) => value.as_str(),
            None => None,
        }
    }

    /// The truth value of the member of that name, where both are there.
    pub fn get_bool(&self, name: &str) -> (r: Option<bool>)
        ensures
            r == self.tree().field_boolean(name@),
    {
        match self.get(name) {
            Some(value) => value.as_bool(),
            None => None,
        }
    }

    /// The number of the member of that name, where both are there.
    pub fn get_u64(&self, name: &str) -> (r: Option<u64>)
        ensures
            r == self.tree().field_unsigned(name@),
    {
        match self.get(name) {
            Some(value) => value.as_u64(),
            None => None,
        }
    }
}

/// The tree of an optional value.
pub open spec fn opt_tree(j: Option<&Json>) -> Option<JsonTree> {
    match j {
        Some(value) => Some(value.tree()),
        None => None,
    }
}

impl Clone for Json {
    fn clone(&self) -> (r: Self)
        ensures
            r.tree() == self.tree(),
        decreases self,
    {
        match self {
            Json::Null => Json::Null,
            Json::Bool(b) => Json::Bool(*b),
            Json::Number(n) => Json::Number(n.clone()),
            Json::Text(s) => Json::Text(s.clone()),
            Json::List(items) => {
                let mut out: Vec<Json> = Vec::new();
                let mut i: usize = 0;
                while i < items.len()
                    invariant
                        i <= items@.len(),
                        self == Json::List(*items),
                        out@.len() == i,
                        forall|k: int| 0 <= k < i ==> (#[trigger] out@[k]).tree() == items@[k].tree(),
                    decreases items@.len() - i,
                {
                    assert(decreases_to!(self => self->List_0));
                    assert(decreases_to!(items@ => items@[i as int]));
                    out.push(items[i].clone());
                    i += 1;
                }
                proof {
                    Json::lemma_list_tree(*items);
                    Json::lemma_list_tree(out);
                    assert(trees_of(out@) =~= trees_of(items@));
                }
                Json::List(out)
            },
            Json::Object(members) => {
                let mut out: Vec<Member> = Vec::new();
                let mut i: usize = 0;
                while i < members.len()
                    invariant
                        i <= members@.len(),
                        self == Json::Object(*members),
                        out@.len() == i,
                        members_map(out@) == members_map(members@.take(i as int)),
                    decreases members@.len() - i,
                {
                    assert(decreases_to!(self => self->Object_0));
                    assert(decreases_to!(members@ => members@[i as int]));
                    assert(decreases_to!(members@[i as int] => members@[i as int].value));
                    let ghost before = out@;
                    out.push(
                        Member { name: members[i].name.clone(), value: members[i].value.clone() },
                    );
                    proof {
                        assert(out@.drop_last() =~= before);
                        assert(members@.take(i + 1).drop_last() =~= members@.take(i as int));
                    }
                    i += 1;
                }
                assert(members@.take(i as int) =~= members@);
                Json::Object(out)
            },
        }
    }
}

impl Clone for Member {
    fn clone(&self) -> (r: Self)
        ensures
            r.name@ == self.name@,
            r.value.tree() == self.value.tree(),
    {
        Member { name: self.name.clone(), value: self.value.clone() }
    }
}

/// Sets one of a run of named values: in place where the name is there, else at the end.
fn put_value(entries: &mut Vec<(String, serde_json::Value)>, name: &String, value: serde_json::Value)
    requires
        names_differ(old(entries)@),
    ensures
        names_differ(final(entries)@),
        values_map(final(entries)@) == values_map(old(entries)@).insert(name@, value_tree(value)),
{
    let mut i: usize = 0;
    while i < entries.len()
        invariant
            i <= entries@.len(),
            entries@ == old(entries)@,
            names_differ(entries@),
            forall|k: int| 0 <= k < i ==> (#[trigger] entries@[k]).0@ != name@,
        decreases entries@.len() - i,
    {
        if same_text(entries[i].0.as_str(), name.as_str()) {
            let ghost before = entries@;
            let kept: String = entries[i].0.clone();
            entries.set(i, (kept, value));
            proof {
                lemma_update_value(before, i as int, entries@);
            }
            return;
        }
        i += 1;
    }
    let ghost before = entries@;
    entries.push((name.clone(), value));
    assert(entries@.drop_last() =~= before);
}

proof fn lemma_update_value(
    before: Seq<(String, serde_json::Value)>,
    i: int,
    after: Seq<(String, serde_json::Value)>,
)
    requires
        names_differ(before),
        0 <= i < before.len(),
        after.len() == before.len(),
        after[i].0@ == before[i].0@,
        forall|k: int| 0 <= k < before.len() && k != i ==> after[k] == before[k],
    ensures
        names_differ(after),
        values_map(after) == values_map(before).insert(before[i].0@, value_tree(after[i].1)),
    decreases before.len(),
{
    assert forall|a: int, b: int| 0 <= a < b < after.len() implies (#[trigger] after[a]).0@ != (
    #[trigger] after[b]).0@ by {
        assert(before[a].0@ != before[b].0@);
    }
    let last = before.len() - 1;
    if i < last {
        let b = before.drop_last();
        let a = after.drop_last();
        assert forall|x: int, y: int| 0 <= x < y < b.len() implies (#[trigger] b[x]).0@ != (
        #[trigger] b[y]).0@ by {
            assert(before[x].0@ != before[y].0@);
        }
        lemma_update_value(b, i, a);
        assert(before[i].0@ != before[last].0@);
        assert(values_map(after) =~= values_map(before).insert(
            before[i].0@,
            value_tree(after[i].1),
        ));
    } else {
        assert(before.drop_last() =~= after.drop_last());
        assert(values_map(after) =~= values_map(before).insert(
            before[i].0@,
            value_tree(after[i].1),
        ));
    }
}

/// A field that was put is there, as it was put; every other field is as it was; and where there is no
/// object, nothing is put.
pub proof fn law_fields_are_kept_as_put(
    tree: JsonTree,
    name: Seq<char>,
    other: Seq<char>,
    value: JsonTree,
)
    ensures
        tree is Object ==> tree.put(name, value).field(name) == Some(value),
        other != name ==> tree.put(name, value).field(other) == tree.field(other),
        !(tree is Object) ==> tree.put(name, value) == tree,
        tree is Object ==> tree.put(name, value) is Object,
        obj().field(name) is None,
{
}

/// An item goes to the end of a list and leaves the others in their places.
pub proof fn law_items_go_to_the_end(list: Seq<JsonTree>, item: JsonTree, i: int)
    requires
        0 <= i < list.len(),
    ensures
        JsonTree::List(list).and(item).list() matches Some(longer) && longer.len() == list.len() + 1
            && longer[list.len() as int] == item && longer[i] == list[i],
        items().list() == Some(Seq::<JsonTree>::empty()),
{
}

/// A value is read as what it is and never as anything else.
pub proof fn law_values_are_read_as_what_they_are(tree: JsonTree, name: Seq<char>)
    ensures
        tree.text() is Some <==> tree is Text,
        tree matches JsonTree::Text(s) ==> tree.text() == Some(s),
        tree.boolean() is Some <==> tree is Bool,
        tree matches JsonTree::Bool(b) ==> tree.boolean() == Some(b),
        tree.list() is Some <==> tree is List,
        tree matches JsonTree::List(items) ==> tree.list() == Some(items),
        tree.unsigned() is Some <==> (tree matches JsonTree::Number(NumberView::Integer(n)) && 0 <= n
            <= 18446744073709551615),
        tree.unsigned() matches Some(n) ==> tree == whole(n as int),
        tree.field_text(name) is Some <==> (tree.field(name) matches Some(JsonTree::Text(_))),
        tree.field_text(name) matches Some(s) ==> tree.field(name) == Some(JsonTree::Text(s)),
        tree.field_boolean(name) matches Some(b) ==> tree.field(name) == Some(JsonTree::Bool(b)),
        tree.field_unsigned(name) matches Some(n) ==> tree.field(name) == Some(whole(n as int)),
        tree.field_list(name) matches Some(items) ==> tree.field(name) == Some(JsonTree::List(items)),
        tree.field(name) matches Some(JsonTree::Bool(b)) ==> tree.field_boolean(name) == Some(b),
        tree.field(name) matches Some(JsonTree::List(items)) ==> tree.field_list(name) == Some(items),
        tree.field(name) matches Some(JsonTree::Number(NumberView::Integer(n))) ==> (0 <= n
            <= 18446744073709551615 ==> tree.field_unsigned(name) == Some(n as u64)),
        !(tree is Object) ==> tree.field(name) is None,
{
}

/// Of members under one name the last one counts.
pub proof fn law_the_last_member_counts(members: Seq<Member>, member: Member)
    ensures
        members_map(members.push(member)) == members_map(members).insert(
            member.name@,
            member.value.tree(),
        ),
        members_map(Seq::<Member>::empty()) == Map::<Seq<char>, JsonTree>::empty(),
{
    assert(members.push(member).drop_last() =~= members);
}

/// A value stands for the tree of the same shape, part by part.
pub proof fn law_values_stand_for_their_trees(
    s: String,
    b: bool,
    items: Vec<Json>,
    members: Vec<Member>,
    i: int,
)
    requires
        0 <= i < items@.len(),
    ensures
        Json::Null.tree() == JsonTree::Null,
        Json::Bool(b).tree() == JsonTree::Bool(b),
        Json::Text(s).tree() == JsonTree::Text(s@),
        Json::List(items).tree().list() matches Some(trees) && trees.len() == items@.len() && trees[i]
            == items@[i].tree(),
        trees_of(items@).len() == items@.len() && trees_of(items@)[i] == items@[i].tree(),
        Json::Object(members).tree() == JsonTree::Object(members_map(members@)),
{
}

/// A text is one line where no line break is anywhere in it.
pub proof fn law_one_line_has_no_break(s: Seq<char>)
    ensures
        one_line(s) <==> !s.contains('\n'),
{
    if one_line(s) {
        assert forall|i: int| 0 <= i < s.len() implies #[trigger] s[i] != '\n' by {
        }
    } else {
        let i = choose|i: int| 0 <= i < s.len() && #[trigger] s[i] == '\n';
        assert(s.contains('\n'));
    }
}

} // verus!
