//! JSON documents as plain values.
//!
//! The text of a document is parsed by `serde_json`; what comes out is held
//! in [`Json`], a tree of the library's own, so that everything that reads a
//! document is verified against its mathematical value, [`JsonValue`].

use crate::text::text_eq;
use vstd::prelude::*;
use vstd::string::StringExecFns;

verus! {

/// The mathematical value of a JSON document.
pub enum JsonValue {
    Null,
    Bool(bool),
    /// A number: its value where it is an integer that fits `i64`, and its
    /// decimal text.
    Number { integer: Option<i64>, text: Seq<char> },
    Text(Seq<char>),
    Array(Seq<JsonValue>),
    /// The members of an object, as pairs of key and value.
    Object(Seq<(Seq<char>, JsonValue)>),
}

/// A JSON document.
#[derive(Debug)]
pub enum Json {
    Null,
    Bool(bool),
    /// A number: its value where it is an integer that fits `i64`, and its
    /// decimal text.
    Number { integer: Option<i64>, text: String },
    Text(String),
    Array(Vec<Json>),
    /// The members of an object, as pairs of key and value.
    Object(Vec<(String, Json)>),
}

/// The value of the first member of `members` whose key is `key`.
pub open spec fn lookup(members: Seq<(Seq<char>, JsonValue)>, key: Seq<char>) -> Option<JsonValue>
    decreases members.len(),
{
    if members.len() == 0 {
        None
    } else if members[0].0 == key {
        Some(members[0].1)
    } else {
        lookup(members.drop_first(), key)
    }
}

impl JsonValue {
    /// The member `key` of an object; `None` for a missing member and for a
    /// value that is no object.
    pub open spec fn member(self, key: Seq<char>) -> Option<JsonValue> {
        match self {
            JsonValue::Object(members) => lookup(members, key),
            _ => None,
        }
    }

    /// The member `key` where it is present and not `null`.
    pub open spec fn optional_member(self, key: Seq<char>) -> Option<JsonValue> {
        match self.member(key) {
            Some(JsonValue::Null) => None,
            other => other,
        }
    }

    /// The text of a string.
    pub open spec fn as_text(self) -> Option<Seq<char>> {
        match self {
            JsonValue::Text(t) => Some(t),
            _ => None,
        }
    }

    /// The value of a number that is an integer and fits `i64`.
    pub open spec fn as_i64(self) -> Option<i64> {
        match self {
            JsonValue::Number { integer, .. } => integer,
            _ => None,
        }
    }

    /// The value of a number that is an integer and fits `i32`.
    pub open spec fn as_i32(self) -> Option<i32> {
        match self.as_i64() {
            Some(n) => if i32::MIN <= n <= i32::MAX {
                Some(n as i32)
            } else {
                None
            },
            None => None,
        }
    }

    /// The items of an array.
    pub open spec fn as_items(self) -> Option<Seq<JsonValue>> {
        match self {
            JsonValue::Array(items) => Some(items),
            _ => None,
        }
    }

    /// The member `key` that a document must have.
    pub open spec fn required(self, key: Seq<char>) -> Result<JsonValue, serde_json::Error> {
        match self.member(key) {
            Some(value) => Ok(value),
            None => Err(rejection("missing field"@, key)),
        }
    }

    /// Nothing, for an object; a rejection that names `what` for any other
    /// value.
    pub open spec fn object_or_rejection(self, what: Seq<char>) -> Result<(), serde_json::Error> {
        if self is Object {
            Ok(())
        } else {
            Err(rejection("invalid type: expected an object for"@, what))
        }
    }

    /// The string member `key` that a document must have.
    pub open spec fn text_member(self, key: Seq<char>) -> Result<Seq<char>, serde_json::Error> {
        match self.member(key) {
            Some(value) => match value.as_text() {
                Some(t) => Ok(t),
                None => Err(rejection("invalid type: expected a string for field"@, key)),
            },
            None => Err(rejection("missing field"@, key)),
        }
    }

    /// The string member `key` that a document may have: `None` where it is
    /// missing or `null`, a rejection where it is there and no string.
    pub open spec fn optional_text_member(self, key: Seq<char>) -> Result<
        Option<Seq<char>>,
        serde_json::Error,
    > {
        match self.optional_member(key) {
            Some(value) => match value.as_text() {
                Some(t) => Ok(Some(t)),
                None => Err(rejection("invalid type: expected a string for field"@, key)),
            },
            None => Ok(None),
        }
    }

    /// The `i32` member `key` that a document must have.
    pub open spec fn i32_member(self, key: Seq<char>) -> Result<i32, serde_json::Error> {
        match self.member(key) {
            Some(value) => match value.as_i32() {
                Some(n) => Ok(n),
                None => Err(rejection("invalid value: expected an i32 for field"@, key)),
            },
            None => Err(rejection("missing field"@, key)),
        }
    }

    /// The `i64` member `key` that a document must have.
    pub open spec fn i64_member(self, key: Seq<char>) -> Result<i64, serde_json::Error> {
        match self.member(key) {
            Some(value) => match value.as_i64() {
                Some(n) => Ok(n),
                None => Err(rejection("invalid value: expected an i64 for field"@, key)),
            },
            None => Err(rejection("missing field"@, key)),
        }
    }

    /// The items of the array member `key` that a document must have.
    pub open spec fn items_member(self, key: Seq<char>) -> Result<
        Seq<JsonValue>,
        serde_json::Error,
    > {
        match self.member(key) {
            Some(value) => match value.as_items() {
                Some(items) => Ok(items),
                None => Err(rejection("invalid type: expected an array for field"@, key)),
            },
            None => Err(rejection("missing field"@, key)),
        }
    }

    /// The items of the array member `key` that a document may have: `None`
    /// where it is missing or `null`, a rejection where it is there and no
    /// array.
    pub open spec fn optional_items_member(self, key: Seq<char>) -> Result<
        Option<Seq<JsonValue>>,
        serde_json::Error,
    > {
        match self.optional_member(key) {
            Some(value) => match value.as_items() {
                Some(items) => Ok(Some(items)),
                None => Err(rejection("invalid type: expected an array for field"@, key)),
            },
            None => Ok(None),
        }
    }
}

/// The error that `serde_json::from_str` gives for a text that is no JSON
/// document.
pub uninterp spec fn json_failure(text: Seq<char>) -> serde_json::Error;

/// The error that `serde::de::Error::custom` makes of a message.
pub uninterp spec fn custom_error(message: Seq<char>) -> serde_json::Error;

/// The message that reports a document of the wrong shape: the problem,
/// then the name it is about between backticks.
pub open spec fn complaint(problem: Seq<char>, name: Seq<char>) -> Seq<char> {
    problem + " `"@ + name + "`"@
}

/// The error that reports a document of the wrong shape.
pub open spec fn rejection(problem: Seq<char>, name: Seq<char>) -> serde_json::Error {
    custom_error(complaint(problem, name))
}

/// The values that `f` gives for the items of an array, where it gives one
/// for each; the rejection of the first item that it rejects.
pub open spec fn each_of<T>(
    items: Seq<JsonValue>,
    f: spec_fn(JsonValue) -> Result<T, serde_json::Error>,
) -> Result<Seq<T>, serde_json::Error>
    decreases items.len(),
{
    if items.len() == 0 {
        Ok(Seq::empty())
    } else {
        match f(items[0]) {
            Ok(first) => match each_of(items.drop_first(), f) {
                Ok(rest) => Ok(seq![first] + rest),
                Err(e) => Err(e),
            },
            Err(e) => Err(e),
        }
    }
}

/// A type whose values are decoded from JSON documents.
pub trait FromJson: Sized + View {
    /// The value that a document stands for, and for a document that stands
    /// for none the error that says why.
    spec fn of(doc: JsonValue) -> Result<Self::V, serde_json::Error>;

    /// Decodes a document.
    fn decode(doc: &Json) -> (out: Result<Self, serde_json::Error>)
        ensures
            match out {
                Ok(x) => Self::of(doc@) == Ok::<Self::V, serde_json::Error>(x@),
                Err(e) => Self::of(doc@) == Err::<Self::V, serde_json::Error>(e),
            },
    ;
}

/// [`FromJson::of`] as a function value.
pub open spec fn decoder<T: FromJson>() -> spec_fn(JsonValue) -> Result<T::V, serde_json::Error> {
    |doc: JsonValue| T::of(doc)
}

/// The value of the member `key`, which a document must have, decoded as a
/// `T`.
pub open spec fn decoded_member<T: FromJson>(doc: JsonValue, key: Seq<char>) -> Result<
    T::V,
    serde_json::Error,
> {
    match doc.required(key) {
        Ok(value) => T::of(value),
        Err(e) => Err(e),
    }
}

/// The value of the member `key`, which a document may have or hold as
/// `null`, decoded as a `T`.
pub open spec fn optional_decoded_member<T: FromJson>(doc: JsonValue, key: Seq<char>) -> Result<
    Option<T::V>,
    serde_json::Error,
> {
    match doc.optional_member(key) {
        Some(value) => match T::of(value) {
            Ok(x) => Ok(Some(x)),
            Err(e) => Err(e),
        },
        None => Ok(None),
    }
}

/// The items of the array member `key`, which a document must have, each
/// decoded as a `T`.
pub open spec fn decoded_list<T: FromJson>(doc: JsonValue, key: Seq<char>) -> Result<
    Seq<T::V>,
    serde_json::Error,
> {
    match doc.items_member(key) {
        Ok(items) => each_of(items, decoder::<T>()),
        Err(e) => Err(e),
    }
}

/// The items of the array member `key`, which a document may have or hold
/// as `null`, each decoded as a `T`.
pub open spec fn optional_decoded_list<T: FromJson>(doc: JsonValue, key: Seq<char>) -> Result<
    Option<Seq<T::V>>,
    serde_json::Error,
> {
    match doc.optional_items_member(key) {
        Ok(Some(items)) => match each_of(items, decoder::<T>()) {
            Ok(list) => Ok(Some(list)),
            Err(e) => Err(e),
        },
        Ok(None) => Ok(None),
        Err(e) => Err(e),
    }
}

/// The values of a list.
pub open spec fn views<T: View>(items: Seq<T>) -> Seq<T::V> {
    items.map_values(|x: T| x@)
}

impl Json {
    /// The values of a sequence of documents.
    pub open spec fn view_items(items: Seq<Json>) -> Seq<JsonValue>
        decreases items,
    {
        if items.len() == 0 {
            Seq::empty()
        } else {
            Json::view_items(items.drop_last()).push(items.last().view())
        }
    }

    /// The values of the members of an object.
    pub open spec fn view_members(members: Seq<(String, Json)>) -> Seq<(Seq<char>, JsonValue)>
        decreases members,
    {
        if members.len() == 0 {
            Seq::empty()
        } else {
            Json::view_members(members.drop_last()).push(
                (members.last().0@, members.last().1.view()),
            )
        }
    }
}

impl View for Json {
    type V = JsonValue;

    open spec fn view(&self) -> JsonValue
        decreases self,
    {
        match self {
            Json::Null => JsonValue::Null,
            Json::Bool(b) => JsonValue::Bool(*b),
            Json::Number { integer, text } => JsonValue::Number { integer: *integer, text: text@ },
            Json::Text(s) => JsonValue::Text(s@),
            Json::Array(items) => JsonValue::Array(Json::view_items(items@)),
            Json::Object(members) => JsonValue::Object(Json::view_members(members@)),
        }
    }
}

/// The value of a sequence of documents holds the value of each, in order.
pub proof fn lemma_view_items(items: Seq<Json>)
    ensures
        Json::view_items(items).len() == items.len(),
        forall|i: int| 0 <= i < items.len() ==> #[trigger] Json::view_items(items)[i] == items[i]@,
    decreases items.len(),
{
    if items.len() > 0 {
        lemma_view_items(items.drop_last());
        assert(Json::view_items(items) == Json::view_items(items.drop_last()).push(
            items.last().view(),
        ));
    } else {
        assert(Json::view_items(items) == Seq::<JsonValue>::empty());
    }
}

/// The value of an object's members holds each key with its value, in order.
pub proof fn lemma_view_members(members: Seq<(String, Json)>)
    ensures
        Json::view_members(members).len() == members.len(),
        forall|i: int|
            0 <= i < members.len() ==> #[trigger] Json::view_members(members)[i] == (
                members[i].0@,
                members[i].1@,
            ),
    decreases members.len(),
{
    if members.len() > 0 {
        lemma_view_members(members.drop_last());
        assert(Json::view_members(members) == Json::view_members(members.drop_last()).push(
            (members.last().0@, members.last().1.view()),
        ));
    } else {
        assert(Json::view_members(members) == Seq::<(Seq<char>, JsonValue)>::empty());
    }
}

/// A member that no key before position `i` matches is looked up from `i` on.
pub proof fn lemma_lookup_skip(members: Seq<(Seq<char>, JsonValue)>, key: Seq<char>, i: int)
    requires
        0 <= i <= members.len(),
        forall|j: int| 0 <= j < i ==> (#[trigger] members[j]).0 != key,
    ensures
        lookup(members, key) == lookup(members.skip(i), key),
    decreases i,
{
    if i == 0 {
        assert(members.skip(0) =~= members);
    } else {
        let rest = members.drop_first();
        assert(members[0].0 != key);
        assert forall|j: int| 0 <= j < i - 1 implies (#[trigger] rest[j]).0 != key by {
            assert(rest[j] == members[j + 1]);
        }
        lemma_lookup_skip(rest, key, i - 1);
        assert(rest.skip(i - 1) =~= members.skip(i));
    }
}

impl Clone for Json {
    #[verifier::loop_isolation(false)]
    fn clone(&self) -> (out: Json)
        ensures
            out@ == self@,
        decreases self,
    {
        match self {
            Json::Null => Json::Null,
            Json::Bool(b) => Json::Bool(*b),
            Json::Number { integer, text } => Json::Number { integer: *integer, text: text.clone() },
            Json::Text(s) => Json::Text(s.clone()),
            Json::Array(items) => {
                let mut copy: Vec<Json> = Vec::new();
                let mut i: usize = 0;
                while i < items.len()
                    invariant
                        i <= items.len(),
                        copy.len() == i,
                        forall|j: int| 0 <= j < i ==> (#[trigger] copy@[j])@ == items@[j]@,
                    decreases items.len() - i,
                {
                    copy.push(items[i].clone());
                    i = i + 1;
                }
                proof {
                    lemma_view_items(items@);
                    lemma_view_items(copy@);
                    assert(Json::view_items(copy@) =~= Json::view_items(items@));
                }
                Json::Array(copy)
            },
            Json::Object(members) => {
                let mut copy: Vec<(String, Json)> = Vec::new();
                let mut i: usize = 0;
                while i < members.len()
                    invariant
                        i <= members.len(),
                        copy.len() == i,
                        forall|j: int|
                            0 <= j < i ==> (#[trigger] copy@[j]).0@ == members@[j].0@ && copy@[j].1@
                                == members@[j].1@,
                    decreases members.len() - i,
                {
                    copy.push((members[i].0.clone(), members[i].1.clone()));
                    i = i + 1;
                }
                proof {
                    lemma_view_members(members@);
                    lemma_view_members(copy@);
                    assert(Json::view_members(copy@) =~= Json::view_members(members@));
                }
                Json::Object(copy)
            },
        }
    }
}

impl Json {
    /// A copy of a list of documents.
    pub fn clone_items(items: &Vec<Json>) -> (out: Vec<Json>)
        ensures
            Json::view_items(out@) == Json::view_items(items@),
    {
        let mut copy: Vec<Json> = Vec::new();
        let mut i: usize = 0;
        while i < items.len()
            invariant
                i <= items.len(),
                copy.len() == i,
                forall|j: int| 0 <= j < i ==> (#[trigger] copy@[j])@ == items@[j]@,
            decreases items.len() - i,
        {
            copy.push(items[i].clone());
            i = i + 1;
        }
        proof {
            lemma_view_items(items@);
            lemma_view_items(copy@);
            assert(Json::view_items(copy@) =~= Json::view_items(items@));
        }
        copy
    }

    /// The member `key` of an object.
    pub fn get<'a>(&'a self, key: &str) -> (out: Option<&'a Json>)
        ensures
            match out {
                Some(value) => self@.member(key@) == Some(value@),
                None => self@.member(key@) is None,
            },
    {
        match self {
            Json::Object(members) => {
                let mut i: usize = 0;
                while i < members.len()
                    invariant
                        i <= members.len(),
                        self@ == JsonValue::Object(Json::view_members(members@)),
                        forall|j: int| 0 <= j < i ==> (#[trigger] members@[j]).0@ != key@,
                    decreases members.len() - i,
                {
                    if text_eq(members[i].0.as_str(), key) {
                        proof {
                            let all = Json::view_members(members@);
                            lemma_view_members(members@);
                            assert forall|j: int| 0 <= j < i implies (#[trigger] all[j]).0
                                != key@ by {
                                assert(all[j].0 == members@[j].0@);
                            }
                            lemma_lookup_skip(all, key@, i as int);
                            let rest = all.skip(i as int);
                            assert(rest[0] == all[i as int]);
                            assert(all[i as int] == (members@[i as int].0@, members@[i as int].1@));
                            assert(lookup(rest, key@) == Some(rest[0].1));
                        }
                        return Some(&members[i].1);
                    }
                    i = i + 1;
                }
                proof {
                    let all = Json::view_members(members@);
                    lemma_view_members(members@);
                    assert forall|j: int| 0 <= j < all.len() implies (#[trigger] all[j]).0
                        != key@ by {
                        assert(all[j].0 == members@[j].0@);
                    }
                    lemma_lookup_skip(all, key@, all.len() as int);
                    assert(all.skip(all.len() as int) =~= Seq::empty());
                }
                None
            },
            _ => None,
        }
    }

    /// The member `key` where it is present and not `null`.
    pub fn get_optional<'a>(&'a self, key: &str) -> (out: Option<&'a Json>)
        ensures
            match out {
                Some(value) => self@.optional_member(key@) == Some(value@),
                None => self@.optional_member(key@) is None,
            },
    {
        match self.get(key) {
            Some(Json::Null) => None,
            other => other,
        }
    }

    /// The member `key`, which the document must have.
    pub fn field<'a>(&'a self, key: &str) -> (out: Result<&'a Json, serde_json::Error>)
        ensures
            match out {
                Ok(value) => self@.required(key@) == Ok::<JsonValue, serde_json::Error>(value@),
                Err(e) => self@.required(key@) == Err::<JsonValue, serde_json::Error>(e),
            },
    {
        match self.get(key) {
            Some(value) => Ok(value),
            None => Err(schema_error("missing field", key)),
        }
    }

    /// Accepts an object and rejects any other value, naming `what`.
    pub fn expect_object(&self, what: &str) -> (out: Result<(), serde_json::Error>)
        ensures
            out == self@.object_or_rejection(what@),
    {
        if self.is_object() {
            Ok(())
        } else {
            Err(schema_error("invalid type: expected an object for", what))
        }
    }

    /// Whether the document is an object.
    pub fn is_object(&self) -> (out: bool)
        ensures
            out == (self@ is Object),
    {
        match self {
            Json::Object(_) => true,
            _ => false,
        }
    }

    /// The text of a string.
    pub fn as_str<'a>(&'a self) -> (out: Option<&'a str>)
        ensures
            match out {
                Some(t) => self@.as_text() == Some(t@),
                None => self@.as_text() is None,
            },
    {
        match self {
            Json::Text(t) => Some(t.as_str()),
            _ => None,
        }
    }

    /// The value of a number that is an integer and fits `i64`.
    pub fn as_i64(&self) -> (out: Option<i64>)
        ensures
            out == self@.as_i64(),
    {
        match self {
            Json::Number { integer, .. } => *integer,
            _ => None,
        }
    }

    /// The value of a number that is an integer and fits `i32`.
    pub fn as_i32(&self) -> (out: Option<i32>)
        ensures
            out == self@.as_i32(),
    {
        match self.as_i64() {
            Some(n) => {
                if -2147483648 <= n && n <= 2147483647 {
                    Some(n as i32)
                } else {
                    None
                }
            },
            None => None,
        }
    }

    /// The items of an array.
    pub fn as_array<'a>(&'a self) -> (out: Option<&'a Vec<Json>>)
        ensures
            match out {
                Some(items) => self@.as_items() == Some(Json::view_items(items@)),
                None => self@.as_items() is None,
            },
    {
        match self {
            Json::Array(items) => Some(items),
            _ => None,
        }
    }

    /// The string member `key`, which the document must have.
    pub fn text_field(&self, key: &str) -> (out: Result<String, serde_json::Error>)
        ensures
            match out {
                Ok(t) => self@.text_member(key@) == Ok::<Seq<char>, serde_json::Error>(t@),
                Err(e) => self@.text_member(key@) == Err::<Seq<char>, serde_json::Error>(e),
            },
    {
        match self.get(key) {
            Some(value) => match value.as_str() {
                Some(t) => Ok(t.to_owned()),
                None => Err(schema_error("invalid type: expected a string for field", key)),
            },
            None => Err(schema_error("missing field", key)),
        }
    }

    /// The string member `key`, which the document may have or hold as `null`.
    pub fn optional_text_field(&self, key: &str) -> (out: Result<Option<String>, serde_json::Error>)
        ensures
            match out {
                Ok(t) => self@.optional_text_member(key@) == Ok::<
                    Option<Seq<char>>,
                    serde_json::Error,
                >(t.deep_view()),
                Err(e) => self@.optional_text_member(key@) == Err::<
                    Option<Seq<char>>,
                    serde_json::Error,
                >(e),
            },
    {
        match self.get_optional(key) {
            Some(value) => match value.as_str() {
                Some(t) => Ok(Some(t.to_owned())),
                None => Err(schema_error("invalid type: expected a string for field", key)),
            },
            None => Ok(None),
        }
    }

    /// The `i32` member `key`, which the document must have.
    pub fn i32_field(&self, key: &str) -> (out: Result<i32, serde_json::Error>)
        ensures
            out == self@.i32_member(key@),
    {
        match self.get(key) {
            Some(value) => match value.as_i32() {
                Some(n) => Ok(n),
                None => Err(schema_error("invalid value: expected an i32 for field", key)),
            },
            None => Err(schema_error("missing field", key)),
        }
    }

    /// The `i64` member `key`, which the document must have.
    pub fn i64_field(&self, key: &str) -> (out: Result<i64, serde_json::Error>)
        ensures
            out == self@.i64_member(key@),
    {
        match self.get(key) {
            Some(value) => match value.as_i64() {
                Some(n) => Ok(n),
                None => Err(schema_error("invalid value: expected an i64 for field", key)),
            },
            None => Err(schema_error("missing field", key)),
        }
    }

    /// The items of the array member `key`, which the document must have.
    pub fn array_field<'a>(&'a self, key: &str) -> (out: Result<&'a Vec<Json>, serde_json::Error>)
        ensures
            match out {
                Ok(items) => self@.items_member(key@) == Ok::<Seq<JsonValue>, serde_json::Error>(
                    Json::view_items(items@),
                ),
                Err(e) => self@.items_member(key@) == Err::<Seq<JsonValue>, serde_json::Error>(e),
            },
    {
        match self.get(key) {
            Some(value) => match value.as_array() {
                Some(items) => Ok(items),
                None => Err(schema_error("invalid type: expected an array for field", key)),
            },
            None => Err(schema_error("missing field", key)),
        }
    }

    /// The items of the array member `key`, which the document may have or
    /// hold as `null`.
    pub fn optional_array_field<'a>(&'a self, key: &str) -> (out: Result<
        Option<&'a Vec<Json>>,
        serde_json::Error,
    >)
        ensures
            match out {
                Ok(Some(items)) => self@.optional_items_member(key@) == Ok::<
                    Option<Seq<JsonValue>>,
                    serde_json::Error,
                >(Some(Json::view_items(items@))),
                Ok(None) => self@.optional_items_member(key@) == Ok::<
                    Option<Seq<JsonValue>>,
                    serde_json::Error,
                >(None),
                Err(e) => self@.optional_items_member(key@) == Err::<
                    Option<Seq<JsonValue>>,
                    serde_json::Error,
                >(e),
            },
    {
        match self.get_optional(key) {
            Some(value) => match value.as_array() {
                Some(items) => Ok(Some(items)),
                None => Err(schema_error("invalid type: expected an array for field", key)),
            },
            None => Ok(None),
        }
    }
}

/// Each item of an array decodes by itself: the values of a list are those
/// of its first item and of the rest.
pub proof fn lemma_each_of_skip<T>(
    items: Seq<JsonValue>,
    f: spec_fn(JsonValue) -> Result<T, serde_json::Error>,
    i: int,
    done: Seq<T>,
)
    requires
        0 <= i <= items.len(),
        done.len() == i,
        forall|j: int| 0 <= j < i ==> f(items[j]) == Ok::<T, serde_json::Error>(done[j]),
    ensures
        each_of(items, f) == match each_of(items.skip(i), f) {
            Ok(rest) => Ok::<Seq<T>, serde_json::Error>(done + rest),
            Err(e) => Err(e),
        },
    decreases i,
{
    if i == 0 {
        assert(items.skip(0) =~= items);
        match each_of(items, f) {
            Ok(rest) => {
                assert(done + rest =~= rest);
            },
            Err(_) => {},
        }
    } else {
        let tail = items.drop_first();
        let done_tail = done.drop_first();
        assert forall|j: int| 0 <= j < i - 1 implies f(tail[j]) == Ok::<T, serde_json::Error>(
            done_tail[j],
        ) by {
            assert(tail[j] == items[j + 1]);
            assert(done_tail[j] == done[j + 1]);
        }
        lemma_each_of_skip(tail, f, i - 1, done_tail);
        assert(tail.skip(i - 1) =~= items.skip(i));
        match each_of(items.skip(i), f) {
            Ok(rest) => {
                assert(seq![done[0]] + (done_tail + rest) =~= done + rest);
            },
            Err(_) => {},
        }
    }
}

/// Decodes the items of an array, each as a `T`. The first item that cannot
/// be decoded fails the list, with its own error.
pub fn decode_items<T: FromJson>(items: &Vec<Json>) -> (out: Result<Vec<T>, serde_json::Error>)
    ensures
        match out {
            Ok(list) => each_of(Json::view_items(items@), decoder::<T>()) == Ok::<
                Seq<T::V>,
                serde_json::Error,
            >(views(list@)),
            Err(e) => each_of(Json::view_items(items@), decoder::<T>()) == Err::<
                Seq<T::V>,
                serde_json::Error,
            >(e),
        },
{
    let ghost docs = Json::view_items(items@);
    proof {
        lemma_view_items(items@);
    }
    let mut list: Vec<T> = Vec::new();
    let mut i: usize = 0;
    while i < items.len()
        invariant
            i <= items.len(),
            list.len() == i,
            docs == Json::view_items(items@),
            docs.len() == items.len(),
            forall|j: int| 0 <= j < items.len() ==> docs[j] == (#[trigger] items@[j])@,
            forall|j: int|
                0 <= j < i ==> decoder::<T>()(docs[j]) == Ok::<T::V, serde_json::Error>(
                    #[trigger] views(list@)[j],
                ),
        decreases items.len() - i,
    {
        let ghost before = views(list@);
        match T::decode(&items[i]) {
            Ok(item) => {
                list.push(item);
                proof {
                    assert(views(list@) =~= before.push(item@));
                }
            },
            Err(e) => {
                proof {
                    lemma_each_of_skip(docs, decoder::<T>(), i as int, views(list@));
                    let rest = docs.skip(i as int);
                    assert(rest[0] == docs[i as int]);
                    assert(decoder::<T>()(rest[0]) == Err::<T::V, serde_json::Error>(e));
                }
                return Err(e);
            },
        }
        i = i + 1;
    }
    proof {
        lemma_each_of_skip(docs, decoder::<T>(), i as int, views(list@));
        assert(docs.skip(i as int) =~= Seq::<JsonValue>::empty());
        assert(views(list@) + Seq::<T::V>::empty() =~= views(list@));
    }
    Ok(list)
}

/// Decodes the member `key`, which the document must have, as a `T`.
pub fn member_as<T: FromJson>(doc: &Json, key: &str) -> (out: Result<T, serde_json::Error>)
    ensures
        match out {
            Ok(x) => decoded_member::<T>(doc@, key@) == Ok::<T::V, serde_json::Error>(x@),
            Err(e) => decoded_member::<T>(doc@, key@) == Err::<T::V, serde_json::Error>(e),
        },
{
    T::decode(doc.field(key)?)
}

/// Decodes the member `key`, which the document may have or hold as `null`,
/// as a `T`.
pub fn optional_member_as<T: FromJson>(doc: &Json, key: &str) -> (out: Result<
    Option<T>,
    serde_json::Error,
>)
    ensures
        match out {
            Ok(Some(x)) => optional_decoded_member::<T>(doc@, key@) == Ok::<
                Option<T::V>,
                serde_json::Error,
            >(Some(x@)),
            Ok(None) => optional_decoded_member::<T>(doc@, key@) == Ok::<
                Option<T::V>,
                serde_json::Error,
            >(None),
            Err(e) => optional_decoded_member::<T>(doc@, key@) == Err::<
                Option<T::V>,
                serde_json::Error,
            >(e),
        },
{
    match doc.get_optional(key) {
        Some(value) => Ok(Some(T::decode(value)?)),
        None => Ok(None),
    }
}

/// Decodes the items of the array member `key`, which the document must
/// have, each as a `T`.
pub fn list_field<T: FromJson>(doc: &Json, key: &str) -> (out: Result<Vec<T>, serde_json::Error>)
    ensures
        match out {
            Ok(list) => decoded_list::<T>(doc@, key@) == Ok::<Seq<T::V>, serde_json::Error>(
                views(list@),
            ),
            Err(e) => decoded_list::<T>(doc@, key@) == Err::<Seq<T::V>, serde_json::Error>(e),
        },
{
    decode_items::<T>(doc.array_field(key)?)
}

/// Decodes the items of the array member `key`, which the document may have
/// or hold as `null`, each as a `T`.
pub fn optional_list_field<T: FromJson>(doc: &Json, key: &str) -> (out: Result<
    Option<Vec<T>>,
    serde_json::Error,
>)
    ensures
        match out {
            Ok(Some(list)) => optional_decoded_list::<T>(doc@, key@) == Ok::<
                Option<Seq<T::V>>,
                serde_json::Error,
            >(Some(views(list@))),
            Ok(None) => optional_decoded_list::<T>(doc@, key@) == Ok::<
                Option<Seq<T::V>>,
                serde_json::Error,
            >(None),
            Err(e) => optional_decoded_list::<T>(doc@, key@) == Err::<
                Option<Seq<T::V>>,
                serde_json::Error,
            >(e),
        },
{
    match doc.optional_array_field(key)? {
        Some(items) => Ok(Some(decode_items::<T>(items)?)),
        None => Ok(None),
    }
}

/// `serde_json::Error`, the error of the JSON parser: carried, never read.
#[verifier::external_type_specification]
#[verifier::external_body]
pub struct ExJsonError(serde_json::Error);

/// `serde_json::Value`, the tree that the JSON parser builds. It is read
/// through the functions below and copied into a [`Json`] as soon as it is
/// there.
#[verifier::external_type_specification]
#[verifier::external_body]
pub struct ExJsonTree(serde_json::Value);

/// The document that a text denotes, and `None` for a text that is no JSON
/// document: what `serde_json::from_str` makes of it.
pub uninterp spec fn json_document(text: Seq<char>) -> Option<JsonValue>;

/// What a tree of `serde_json::Value` holds: a number with the integer that
/// `Value::as_i64` gives for it and with the text that its `Display` writes,
/// an array with its items in order, an object with its members in the order
/// in which its map hands them out.
pub uninterp spec fn tree_value(tree: serde_json::Value) -> JsonValue;

/// `serde_json::Map`, the map that holds the members of an object.
#[verifier::external_type_specification]
#[verifier::external_body]
#[verifier::reject_recursive_types(K)]
#[verifier::reject_recursive_types(V)]
pub struct ExJsonMap<K, V>(serde_json::Map<K, V>);

/// What a map of `serde_json::Map` holds: its members, in the order in which
/// `Map::iter` hands them out.
pub uninterp spec fn map_members(map: serde_json::Map<String, serde_json::Value>) -> Seq<
    (Seq<char>, JsonValue),
>;

/// What a list of trees holds.
pub open spec fn tree_values(trees: Seq<serde_json::Value>) -> Seq<JsonValue> {
    Seq::new(trees.len(), |i: int| tree_value(trees[i]))
}

/// What a list of members holds.
pub open spec fn member_values(members: Seq<(&String, &serde_json::Value)>) -> Seq<
    (Seq<char>, JsonValue),
> {
    Seq::new(members.len(), |i: int| (members[i].0@, tree_value(*members[i].1)))
}

/// Parses a text with `serde_json::from_str`. The contract says that the
/// outcome is a function of the text alone: the same text gives a tree that
/// holds the same document, or fails with the same error, wherever it is
/// parsed.
#[verifier::external_body]
fn serde_parse(text: &str) -> (out: Result<serde_json::Value, serde_json::Error>)
    ensures
        match out {
            Ok(tree) => json_document(text@) == Some(tree_value(tree)),
            Err(e) => json_document(text@) is None && e == json_failure(text@),
        },
{
    serde_json::from_str::<serde_json::Value>(text)
}

/// `Value::is_null`: whether the tree is `null`.
#[verifier::external_body]
fn tree_is_null(tree: &serde_json::Value) -> (out: bool)
    ensures
        out == (tree_value(*tree) is Null),
{
    tree.is_null()
}

/// `Value::as_bool`: the truth value of a tree that is one.
#[verifier::external_body]
fn tree_as_bool(tree: &serde_json::Value) -> (out: Option<bool>)
    ensures
        match out {
            Some(b) => tree_value(*tree) == JsonValue::Bool(b),
            None => !(tree_value(*tree) is Bool),
        },
{
    tree.as_bool()
}

/// `Value::as_i64`: the value of a tree that is a number, where that is an
/// integer and fits `i64`.
#[verifier::external_body]
fn tree_as_i64(tree: &serde_json::Value) -> (out: Option<i64>)
    ensures
        out == tree_value(*tree).as_i64(),
{
    tree.as_i64()
}

/// `Value::is_number`: whether the tree is a number.
#[verifier::external_body]
fn tree_is_number(tree: &serde_json::Value) -> (out: bool)
    ensures
        out == (tree_value(*tree) is Number),
{
    tree.is_number()
}

/// The `Display` of a `serde_json::Value`, which writes a number as its
/// decimal text.
#[verifier::external_body]
fn tree_text(tree: &serde_json::Value) -> (out: String)
    ensures
        tree_value(*tree) is Number ==> out@ == tree_value(*tree)->text,
{
    tree.to_string()
}

/// `Value::as_str`: the text of a tree that is a string.
#[verifier::external_body]
fn tree_as_str(tree: &serde_json::Value) -> (out: Option<&str>)
    ensures
        match out {
            Some(text) => tree_value(*tree) == JsonValue::Text(text@),
            None => !(tree_value(*tree) is Text),
        },
{
    tree.as_str()
}

/// `Value::as_array`: the items of a tree that is an array.
#[verifier::external_body]
fn tree_as_array(tree: &serde_json::Value) -> (out: Option<&Vec<serde_json::Value>>)
    ensures
        match out {
            Some(items) => tree_value(*tree) == JsonValue::Array(tree_values(items@)),
            None => !(tree_value(*tree) is Array),
        },
{
    tree.as_array()
}

/// `Value::as_object`: the map of a tree that is an object.
#[verifier::external_body]
fn tree_as_object(tree: &serde_json::Value) -> (out: Option<
    &serde_json::Map<String, serde_json::Value>,
>)
    ensures
        match out {
            Some(map) => tree_value(*tree) == JsonValue::Object(map_members(*map)),
            None => !(tree_value(*tree) is Object),
        },
{
    tree.as_object()
}

/// `Map::iter`: the members of a map, in the order in which it hands them
/// out.
#[verifier::external_body]
fn map_entries(map: &serde_json::Map<String, serde_json::Value>) -> (out: Vec<
    (&String, &serde_json::Value),
>)
    ensures
        member_values(out@) == map_members(*map),
{
    map.iter().collect()
}

/// Copies a tree into a document of the library's own.
fn json_from_tree(tree: &serde_json::Value) -> (out: Json)
    ensures
        out@ == tree_value(*tree),
    decreases tree_value(*tree),
{
    if tree_is_null(tree) {
        return Json::Null;
    }
    if let Some(b) = tree_as_bool(tree) {
        return Json::Bool(b);
    }
    if tree_is_number(tree) {
        return Json::Number { integer: tree_as_i64(tree), text: tree_text(tree) };
    }
    if let Some(text) = tree_as_str(tree) {
        return Json::Text(text.to_owned());
    }
    if let Some(items) = tree_as_array(tree) {
        let mut copy: Vec<Json> = Vec::new();
        let mut i: usize = 0;
        while i < items.len()
            invariant
                i <= items.len(),
                copy.len() == i,
                tree_value(*tree) == JsonValue::Array(tree_values(items@)),
                forall|j: int| 0 <= j < i ==> (#[trigger] copy@[j])@ == tree_value(items@[j]),
            decreases items.len() - i,
        {
            proof {
                let whole = tree_value(*tree);
                let values = tree_values(items@);
                assert(values[i as int] == tree_value(items@[i as int]));
                assert(decreases_to!(whole => whole->Array_0));
                assert(decreases_to!(values => values[i as int]));
            }
            copy.push(json_from_tree(&items[i]));
            i = i + 1;
        }
        proof {
            lemma_view_items(copy@);
            assert(Json::view_items(copy@) =~= tree_values(items@));
        }
        return Json::Array(copy);
    }
    if let Some(map) = tree_as_object(tree) {
        let members = map_entries(map);
        let mut copy: Vec<(String, Json)> = Vec::new();
        let mut i: usize = 0;
        while i < members.len()
            invariant
                i <= members.len(),
                copy.len() == i,
                tree_value(*tree) == JsonValue::Object(member_values(members@)),
                forall|j: int|
                    0 <= j < i ==> (#[trigger] copy@[j]).0@ == members@[j].0@ && copy@[j].1@
                        == tree_value(*members@[j].1),
            decreases members.len() - i,
        {
            proof {
                let whole = tree_value(*tree);
                let values = member_values(members@);
                assert(values[i as int].1 == tree_value(*members@[i as int].1));
                assert(decreases_to!(whole => whole->Object_0));
                assert(decreases_to!(values => values[i as int]));
                assert(decreases_to!(values[i as int] => values[i as int].1));
            }
            let key = members[i].0.clone();
            let value = json_from_tree(members[i].1);
            copy.push((key, value));
            i = i + 1;
        }
        proof {
            lemma_view_members(copy@);
            assert(Json::view_members(copy@) =~= member_values(members@));
        }
        return Json::Object(copy);
    }
    Json::Null
}

/// Parses the text of a JSON document.
pub fn parse_json(text: &str) -> (out: Result<Json, serde_json::Error>)
    ensures
        match out {
            Ok(doc) => json_document(text@) == Some(doc@),
            Err(e) => json_document(text@) is None && e == json_failure(text@),
        },
{
    match serde_parse(text) {
        Ok(tree) => Ok(json_from_tree(&tree)),
        Err(e) => Err(e),
    }
}

/// Makes an error with the given message, with `serde::de::Error::custom`:
/// the error is a function of the message alone.
#[verifier::external_body]
fn error_with_message(message: &str) -> (out: serde_json::Error)
    ensures
        out == custom_error(message@),
{
    <serde_json::Error as serde::de::Error>::custom(message)
}

/// The message that reports a document of the wrong shape.
pub fn complaint_text(problem: &str, name: &str) -> (out: String)
    ensures
        out@ == complaint(problem@, name@),
{
    String::from_str(problem).concat(" `").concat(name).concat("`")
}

/// The error that reports a document of the wrong shape.
pub fn schema_error(problem: &str, name: &str) -> (out: serde_json::Error)
    ensures
        out == rejection(problem@, name@),
{
    error_with_message(complaint_text(problem, name).as_str())
}

/// The message of a JSON error, as its `Display` gives it. Nothing is
/// claimed of the text.
#[verifier::external_body]
pub(crate) fn json_error_text(error: &serde_json::Error) -> String {
    error.to_string()
}

} // verus!
