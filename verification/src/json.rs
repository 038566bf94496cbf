//! JSON documents as plain values.
use vstd::prelude::*;
use vstd::string::StringExecFns;

verus! {

/// One member of a JSON object.
#[derive(Debug)]
pub struct Member {
    pub name: String,
    pub value: Json,
}

/// A JSON document.
///
/// A number is held as `Some(n)` where it is a non-negative integer that fits
/// in 64 bits, and as `None` otherwise: the library reads no other number.
#[derive(Debug)]
pub enum Json {
    Null,
    Bool(bool),
    Number(Option<u64>),
    Text(String),
    Array(Vec<Json>),
    Object(Vec<Member>),
}

/// The mathematical value of a `Json`.
pub ghost enum JsonValue {
    Null,
    Bool(bool),
    Number(Option<u64>),
    Text(Seq<char>),
    Array(Seq<JsonValue>),
    Object(Seq<(Seq<char>, JsonValue)>),
}

/// The value of the first member called `name` at or after position `from`.
pub open spec fn lookup(members: Seq<(Seq<char>, JsonValue)>, name: Seq<char>, from: int) -> Option<
    JsonValue,
>
    decreases members.len() - from,
{
    if from < 0 || from >= members.len() {
        None
    } else if members[from].0 == name {
        Some(members[from].1)
    } else {
        lookup(members, name, from + 1)
    }
}

impl JsonValue {
    /// The value of the first member called `name`, where this is an object
    /// that has such a member.
    pub open spec fn member(self, name: Seq<char>) -> Option<JsonValue> {
        match self {
            JsonValue::Object(members) => lookup(members, name, 0),
            _ => None,
        }
    }

    /// The characters of a string.
    pub open spec fn text(self) -> Option<Seq<char>> {
        match self {
            JsonValue::Text(s) => Some(s),
            _ => None,
        }
    }

    /// A number that is a non-negative integer of at most 64 bits.
    pub open spec fn number(self) -> Option<u64> {
        match self {
            JsonValue::Number(n) => n,
            _ => None,
        }
    }

    /// The elements of an array.
    pub open spec fn elements(self) -> Option<Seq<JsonValue>> {
        match self {
            JsonValue::Array(items) => Some(items),
            _ => None,
        }
    }

    /// The string held by the member called `name`.
    pub open spec fn text_member(self, name: Seq<char>) -> Option<Seq<char>> {
        match self.member(name) {
            Some(v) => v.text(),
            None => None,
        }
    }

    /// The number held by the member called `name`.
    pub open spec fn number_member(self, name: Seq<char>) -> Option<u64> {
        match self.member(name) {
            Some(v) => v.number(),
            None => None,
        }
    }
}

/// The values of the first `count` elements of `items`.
pub open spec fn values_of(items: &Vec<Json>, count: nat) -> Seq<JsonValue>
    decreases items, count,
{
    if count == 0 || count > items.len() {
        Seq::empty()
    } else {
        values_of(items, (count - 1) as nat).push(value_of(&items[count - 1]))
    }
}

/// The names and values of the first `count` members of `members`.
pub open spec fn pairs_of(members: &Vec<Member>, count: nat) -> Seq<(Seq<char>, JsonValue)>
    decreases members, count,
{
    if count == 0 || count > members.len() {
        Seq::empty()
    } else {
        pairs_of(members, (count - 1) as nat).push(
            (members[count - 1].name@, value_of(&members[count - 1].value)),
        )
    }
}

/// The mathematical value of a document.
pub open spec fn value_of(json: &Json) -> JsonValue
    decreases json, 0nat,
{
    match json {
        Json::Null => JsonValue::Null,
        Json::Bool(b) => JsonValue::Bool(*b),
        Json::Number(n) => JsonValue::Number(*n),
        Json::Text(s) => JsonValue::Text(s@),
        Json::Array(items) => JsonValue::Array(values_of(items, items.len() as nat)),
        Json::Object(members) => JsonValue::Object(pairs_of(members, members.len() as nat)),
    }
}

impl View for Json {
    type V = JsonValue;

    open spec fn view(&self) -> JsonValue {
        value_of(self)
    }
}

/// `values_of` lists the values of the elements in their order.
pub proof fn lemma_values_of(items: &Vec<Json>, count: nat)
    requires
        count <= items.len(),
    ensures
        values_of(items, count).len() == count,
        forall|i: int| 0 <= i < count ==> values_of(items, count)[i] == #[trigger] items[i]@,
    decreases count,
{
    if count > 0 {
        lemma_values_of(items, (count - 1) as nat);
    }
}

/// `pairs_of` lists the names and values of the members in their order.
pub proof fn lemma_pairs_of(members: &Vec<Member>, count: nat)
    requires
        count <= members.len(),
    ensures
        pairs_of(members, count).len() == count,
        forall|i: int|
            0 <= i < count ==> pairs_of(members, count)[i] == (
                #[trigger] members[i].name@,
                members[i].value@,
            ),
    decreases count,
{
    if count > 0 {
        lemma_pairs_of(members, (count - 1) as nat);
    }
}

impl Json {
    /// The value of the first member called `name`, where this is an object
    /// that has such a member.
    pub fn member(&self, name: &str) -> (found: Option<&Json>)
        ensures
            match found {
                Some(v) => self@.member(name@) == Some(v@),
                None => self@.member(name@).is_none(),
            },
    {
        match self {
            Json::Object(members) => {
                let wanted = String::from_str(name);
                let ghost pairs = self@->Object_0;
                proof {
                    lemma_pairs_of(members, members.len() as nat);
                }
                let mut i: usize = 0;
                while i < members.len()
                    invariant
                        i <= members.len(),
                        wanted@ == name@,
                        self@ == JsonValue::Object(pairs),
                        pairs.len() == members.len(),
                        forall|k: int|
                            0 <= k < members.len() ==> pairs[k] == (
                                #[trigger] members[k].name@,
                                members[k].value@,
                            ),
                        lookup(pairs, name@, 0) == lookup(pairs, name@, i as int),
                    decreases members.len() - i,
                {
                    if members[i].name == wanted {
                        return Some(&members[i].value);
                    }
                    i += 1;
                }
                None
            },
            _ => None,
        }
    }

    /// The string, where this is one.
    pub fn as_text(&self) -> (text: Option<&String>)
        ensures
            match text {
                Some(s) => self@.text() == Some(s@),
                None => self@.text().is_none(),
            },
    {
        match self {
            Json::Text(s) => Some(s),
            _ => None,
        }
    }

    /// The number, where this is a non-negative integer of at most 64 bits.
    pub fn as_number(&self) -> (number: Option<u64>)
        ensures
            number == self@.number(),
    {
        match self {
            Json::Number(n) => *n,
            _ => None,
        }
    }

    /// The elements, where this is an array.
    pub fn as_array(&self) -> (items: Option<&Vec<Json>>)
        ensures
            match items {
                Some(v) => self@.elements() matches Some(elements) && elements.len() == v.len()
                    && forall|i: int| 0 <= i < v.len() ==> elements[i] == #[trigger] v[i]@,
                None => self@.elements().is_none(),
            },
    {
        match self {
            Json::Array(items) => {
                proof {
                    lemma_values_of(items, items.len() as nat);
                }
                Some(items)
            },
            _ => None,
        }
    }

    /// The string held by the member called `name`.
    pub fn text_member(&self, name: &str) -> (text: Option<&String>)
        ensures
            match text {
                Some(s) => self@.text_member(name@) == Some(s@),
                None => self@.text_member(name@).is_none(),
            },
    {
        match self.member(name) {
            Some(v) => v.as_text(),
            None => None,
        }
    }

    /// The number held by the member called `name`.
    pub fn number_member(&self, name: &str) -> (number: Option<u64>)
        ensures
            number == self@.number_member(name@),
    {
        match self.member(name) {
            Some(v) => v.as_number(),
            None => None,
        }
    }
}

} // verus!
