//! JSON documents as plain values, read and written by `serde_json`.

use crate::error::{outcome, AppError, AppErrorView};
use vstd::prelude::*;
use vstd::string::*;

verus! {

/// A JSON document.
#[derive(Debug)]
pub enum JsonValue {
    Null,
    Bool(bool),
    /// A number that is an integer and fits in 64 bits with a sign.
    Integer(i64),
    /// Any other number, as its digits.
    Number(String),
    Text(String),
    Array(Vec<JsonValue>),
    /// The members in the order in which they are listed.
    Object(Vec<(String, JsonValue)>),
}

/// A [`JsonValue`] over sequences.
pub enum JsonView {
    Null,
    Bool(bool),
    Integer(i64),
    Number(Seq<char>),
    Text(Seq<char>),
    Array(Seq<JsonView>),
    Object(Seq<(Seq<char>, JsonView)>),
}

/// The document that `value` holds.
pub open spec fn json_view(value: JsonValue) -> JsonView
    decreases value,
{
    match value {
        JsonValue::Null => JsonView::Null,
        JsonValue::Bool(b) => JsonView::Bool(b),
        JsonValue::Integer(i) => JsonView::Integer(i),
        JsonValue::Number(digits) => JsonView::Number(digits@),
        JsonValue::Text(text) => JsonView::Text(text@),
        JsonValue::Array(items) => JsonView::Array(
            Seq::new(
                items@.len(),
                |i: int|
                    if 0 <= i < items@.len() {
                        json_view(items@[i])
                    } else {
                        JsonView::Null
                    },
            ),
        ),
        JsonValue::Object(members) => JsonView::Object(
            Seq::new(
                members@.len(),
                |i: int|
                    if 0 <= i < members@.len() {
                        (members@[i].0@, json_view(members@[i].1))
                    } else {
                        (Seq::empty(), JsonView::Null)
                    },
            ),
        ),
    }
}

impl View for JsonValue {
    type V = JsonView;

    open spec fn view(&self) -> JsonView {
        json_view(*self)
    }
}

/// The value of the first member named `name`, if there is one.
pub open spec fn member(members: Seq<(Seq<char>, JsonView)>, name: Seq<char>) -> Option<JsonView>
    decreases members.len(),
{
    if members.len() == 0 {
        None
    } else if members[0].0 == name {
        Some(members[0].1)
    } else {
        member(members.drop_first(), name)
    }
}

impl DeepView for JsonValue {
    type V = JsonView;

    open spec fn deep_view(&self) -> JsonView {
        json_view(*self)
    }
}

/// The error for a member that is missing or holds a value of the wrong type.
pub open spec fn wrong_member(name: Seq<char>) -> AppErrorView {
    AppErrorView::Serialization("missing or invalid field: "@ + name)
}

/// The texts of `items`.
pub open spec fn texts_of(items: Seq<JsonView>) -> Seq<Seq<char>> {
    Seq::new(items.len(), |i: int| items[i]->Text_0)
}

impl JsonView {
    /// The member `name` of an object; `None` for anything that is not an object with
    /// such a member.
    pub open spec fn get(self, name: Seq<char>) -> Option<JsonView> {
        match self {
            JsonView::Object(members) => member(members, name),
            _ => None,
        }
    }

    /// The text in member `name`, which must be there.
    pub open spec fn text_member(self, name: Seq<char>) -> Result<Seq<char>, AppErrorView> {
        match self.get(name) {
            Some(JsonView::Text(text)) => Ok(text),
            _ => Err(wrong_member(name)),
        }
    }

    /// The text in member `name`, where the member may be missing or `null`.
    pub open spec fn optional_text_member(self, name: Seq<char>) -> Result<
        Option<Seq<char>>,
        AppErrorView,
    > {
        match self.get(name) {
            None => Ok(None),
            Some(JsonView::Null) => Ok(None),
            Some(JsonView::Text(text)) => Ok(Some(text)),
            _ => Err(wrong_member(name)),
        }
    }

    /// The integer in member `name`, which must be there.
    pub open spec fn integer_member(self, name: Seq<char>) -> Result<i64, AppErrorView> {
        match self.get(name) {
            Some(JsonView::Integer(i)) => Ok(i),
            _ => Err(wrong_member(name)),
        }
    }

    /// The integer in member `name`, where the member may be missing or `null`.
    pub open spec fn optional_integer_member(self, name: Seq<char>) -> Result<
        Option<i64>,
        AppErrorView,
    > {
        match self.get(name) {
            None => Ok(None),
            Some(JsonView::Null) => Ok(None),
            Some(JsonView::Integer(i)) => Ok(Some(i)),
            _ => Err(wrong_member(name)),
        }
    }

    /// The integer in member `name`, which must be there and fit in 32 bits without a sign.
    pub open spec fn u32_member(self, name: Seq<char>) -> Result<u32, AppErrorView> {
        match self.get(name) {
            Some(JsonView::Integer(i)) => if 0 <= i <= u32::MAX {
                Ok(i as u32)
            } else {
                Err(wrong_member(name))
            },
            _ => Err(wrong_member(name)),
        }
    }

    /// The integer in member `name`, where the member may be missing or `null` and must
    /// otherwise fit in 32 bits without a sign.
    pub open spec fn optional_u32_member(self, name: Seq<char>) -> Result<
        Option<u32>,
        AppErrorView,
    > {
        match self.get(name) {
            None => Ok(None),
            Some(JsonView::Null) => Ok(None),
            Some(JsonView::Integer(i)) => if 0 <= i <= u32::MAX {
                Ok(Some(i as u32))
            } else {
                Err(wrong_member(name))
            },
            _ => Err(wrong_member(name)),
        }
    }

    /// The truth value in member `name`, where the member may be missing or `null`.
    pub open spec fn optional_bool_member(self, name: Seq<char>) -> Result<
        Option<bool>,
        AppErrorView,
    > {
        match self.get(name) {
            None => Ok(None),
            Some(JsonView::Null) => Ok(None),
            Some(JsonView::Bool(b)) => Ok(Some(b)),
            _ => Err(wrong_member(name)),
        }
    }

    /// The texts in member `name`, an array of texts, where the member may be missing or
    /// `null`.
    pub open spec fn optional_texts_member(self, name: Seq<char>) -> Result<
        Option<Seq<Seq<char>>>,
        AppErrorView,
    > {
        match self.get(name) {
            None => Ok(None),
            Some(JsonView::Null) => Ok(None),
            Some(JsonView::Array(items)) => if forall|i: int|
                0 <= i < items.len() ==> items[i] is Text {
                Ok(Some(texts_of(items)))
            } else {
                Err(wrong_member(name))
            },
            _ => Err(wrong_member(name)),
        }
    }
}

/// What `serde_json::from_str` makes of `text`: the document, or the message of its error.
pub uninterp spec fn json_parse(text: Seq<char>) -> Result<JsonView, Seq<char>>;

/// The text that `serde_json::to_string` writes for `value`, once `value` has become a
/// `serde_json::Value`. On the way the members of an object go through `serde_json`'s map,
/// which keeps one member of each name and has an order of its own, and digits that are
/// no JSON number become `null`.
pub uninterp spec fn json_text(value: JsonView) -> Seq<char>;

/// `serde_json::Value`, of which nothing is known here: it only passes between the
/// functions below.
#[verifier::external_type_specification]
#[verifier::external_body]
pub struct ExValue(serde_json::Value);

/// The conversion inside [`parse_text`], and called by nothing else: turns a
/// `serde_json::Value` into a [`JsonValue`], variant by variant. A number becomes
/// `Integer` where `Number::as_i64` has a value for it, else `Number` with what its
/// `Display` prints.
#[verifier::external_body]
fn lift(value: serde_json::Value) -> JsonValue {
    match value {
        serde_json::Value::Null => JsonValue::Null,
        serde_json::Value::Bool(b) => JsonValue::Bool(b),
        serde_json::Value::Number(n) => match n.as_i64() {
            Some(i) => JsonValue::Integer(i),
            None => JsonValue::Number(n.to_string()),
        },
        serde_json::Value::String(s) => JsonValue::Text(s),
        serde_json::Value::Array(items) => JsonValue::Array(items.into_iter().map(lift).collect()),
        serde_json::Value::Object(m) => JsonValue::Object(
            m.into_iter().map(|(k, v)| (k, lift(v))).collect(),
        ),
    }
}

/// The conversion inside [`render_text`], and called by nothing else: turns a
/// [`JsonValue`] into a `serde_json::Value`, variant by variant. The digits of a
/// `Number` go through `str::parse`; digits that are no JSON number become `null`.
#[verifier::external_body]
fn lower(value: &JsonValue) -> serde_json::Value {
    match value {
        JsonValue::Null => serde_json::Value::Null,
        JsonValue::Bool(b) => serde_json::Value::Bool(*b),
        JsonValue::Integer(i) => serde_json::Value::Number(serde_json::Number::from(*i)),
        JsonValue::Number(digits) => digits.parse::<serde_json::Number>().map_or(
            serde_json::Value::Null,
            serde_json::Value::Number,
        ),
        JsonValue::Text(s) => serde_json::Value::String(s.clone()),
        JsonValue::Array(items) => serde_json::Value::Array(items.iter().map(lower).collect()),
        JsonValue::Object(members) => serde_json::Value::Object(
            members.iter().map(|(k, v)| (k.clone(), lower(v))).collect(),
        ),
    }
}

/// `serde_json::from_str` at the type `serde_json::Value`. The result is the document that
/// the text denotes, or the text of the error: both are named by [`json_parse`].
#[verifier::external_body]
fn parse_text(text: &str) -> (parsed: Result<JsonValue, String>)
    ensures
        match parsed {
            Ok(value) => json_parse(text@) == Ok::<JsonView, Seq<char>>(value@),
            Err(message) => json_parse(text@) == Err::<JsonView, Seq<char>>(message@),
        },
{
    match serde_json::from_str::<serde_json::Value>(text) {
        Ok(value) => Ok(lift(value)),
        Err(e) => Err(e.to_string()),
    }
}

/// `serde_json::to_string` on a `serde_json::Value`, which it always serialises. The result
/// is named by [`json_text`].
#[verifier::external_body]
fn render_text(value: &JsonValue) -> (text: String)
    ensures
        text@ == json_text(value@),
{
    serde_json::to_string(&lower(value)).unwrap_or_default()
}

/// How reading `text` as JSON ends.
pub open spec fn parse_outcome(text: Seq<char>) -> Result<JsonView, AppErrorView> {
    match json_parse(text) {
        Ok(value) => Ok(value),
        Err(message) => Err(AppErrorView::Serialization(message)),
    }
}

/// Whether `result` is the outcome `expected`.
pub open spec fn is_json_outcome(
    result: Result<JsonValue, AppError>,
    expected: Result<JsonView, AppErrorView>,
) -> bool {
    match result {
        Ok(value) => expected == Ok::<JsonView, AppErrorView>(value@),
        Err(e) => expected == Err::<JsonView, AppErrorView>(e@),
    }
}

impl JsonValue {
    /// Reads `text` as one JSON document. Text that is no JSON gives `Serialization` with
    /// the parser's message.
    pub fn parse(text: &str) -> (result: Result<JsonValue, AppError>)
        ensures
            is_json_outcome(result, parse_outcome(text@)),
    {
        match parse_text(text) {
            Ok(value) => Ok(value),
            Err(message) => Err(AppError::Serialization(message)),
        }
    }

    /// Writes the document as compact JSON, as `serde_json` writes it. The members of an
    /// object come out in the order of `serde_json`'s map, sorted by name as this library
    /// builds it, and of members with the same name only one is written. A `Number`
    /// whose digits are no JSON number is written as `null`.
    pub fn render(&self) -> (text: String)
        ensures
            text@ == json_text(self@),
    {
        render_text(self)
    }

    /// The member `name` of an object.
    pub fn get(&self, name: &str) -> (found: Option<&JsonValue>)
        ensures
            match found {
                Some(value) => self@.get(name@) == Some(value@),
                None => self@.get(name@) is None,
            },
    {
        match self {
            JsonValue::Object(members) => {
                let wanted = String::from_str(name);
                let mut i: usize = 0;
                assert(self@->Object_0.subrange(0, members@.len() as int) =~= self@->Object_0);
                while i < members.len()
                    invariant
                        i <= members@.len(),
                        wanted@ == name@,
                        self@ is Object,
                        self@->Object_0.len() == members@.len(),
                        forall|j: int|
                            #![trigger self@->Object_0[j]]
                            0 <= j < members@.len() ==> self@->Object_0[j] == (
                                members@[j].0@,
                                members@[j].1@,
                            ),
                        member(self@->Object_0, name@) == member(
                            self@->Object_0.subrange(i as int, members@.len() as int),
                            name@,
                        ),
                    decreases members@.len() - i,
                {
                    let ghost rest = self@->Object_0.subrange(i as int, members@.len() as int);
                    assert(rest.len() > 0);
                    assert(rest[0] == self@->Object_0[i as int]);
                    assert(rest[0].0 == members@[i as int].0@);
                    assert(rest.drop_first() =~= self@->Object_0.subrange(
                        i as int + 1,
                        members@.len() as int,
                    ));
                    if members[i].0 == wanted {
                        return Some(&members[i].1);
                    }
                    i = i + 1;
                }
                None
            },
            _ => None,
        }
    }
}

/// `members` with a text member added, where there is a text to add.
pub open spec fn with_text(
    members: Seq<(Seq<char>, JsonView)>,
    name: Seq<char>,
    value: Option<Seq<char>>,
) -> Seq<(Seq<char>, JsonView)> {
    match value {
        Some(text) => members.push((name, JsonView::Text(text))),
        None => members,
    }
}

/// `members` with an integer member added, where there is an integer to add.
pub open spec fn with_integer(
    members: Seq<(Seq<char>, JsonView)>,
    name: Seq<char>,
    value: Option<i64>,
) -> Seq<(Seq<char>, JsonView)> {
    match value {
        Some(i) => members.push((name, JsonView::Integer(i))),
        None => members,
    }
}

/// The array of the texts `texts`.
pub open spec fn text_array(texts: Seq<Seq<char>>) -> JsonView {
    JsonView::Array(Seq::new(texts.len(), |i: int| JsonView::Text(texts[i])))
}

/// `members` with an array of texts added, where there are texts to add.
pub open spec fn with_texts(
    members: Seq<(Seq<char>, JsonView)>,
    name: Seq<char>,
    value: Option<Seq<Seq<char>>>,
) -> Seq<(Seq<char>, JsonView)> {
    match value {
        Some(texts) => members.push((name, text_array(texts))),
        None => members,
    }
}

/// `members` with a document added, where there is one to add.
pub open spec fn with_value(
    members: Seq<(Seq<char>, JsonView)>,
    name: Seq<char>,
    value: Option<JsonView>,
) -> Seq<(Seq<char>, JsonView)> {
    match value {
        Some(document) => members.push((name, document)),
        None => members,
    }
}

/// The array of the texts `texts`.
pub fn texts_json(texts: &Vec<String>) -> (array: JsonValue)
    ensures
        array@ == text_array(texts.deep_view()),
{
    let mut items: Vec<JsonValue> = Vec::new();
    let mut i: usize = 0;
    while i < texts.len()
        invariant
            i <= texts@.len(),
            items@.len() == i,
            forall|j: int| 0 <= j < i ==> (#[trigger] items@[j])@ == JsonView::Text(texts@[j]@),
        decreases texts@.len() - i,
    {
        items.push(JsonValue::Text(texts[i].clone()));
        i = i + 1;
    }
    let array = JsonValue::Array(items);
    assert(array@->Array_0 =~= text_array(texts.deep_view())->Array_0);
    array
}

/// The members of an object, collected one by one.
pub struct ObjectBuilder {
    members: Vec<(String, JsonValue)>,
}

impl ObjectBuilder {
    /// The members collected so far, in the order in which they were added.
    pub closed spec fn members(self) -> Seq<(Seq<char>, JsonView)> {
        self.members.deep_view()
    }

    /// A builder without members.
    pub fn new() -> (builder: ObjectBuilder)
        ensures
            builder.members() == Seq::<(Seq<char>, JsonView)>::empty(),
    {
        let builder = ObjectBuilder { members: Vec::new() };
        assert(builder.members() =~= Seq::<(Seq<char>, JsonView)>::empty());
        builder
    }

    /// Adds the member `name` with the document `value`.
    pub fn value(&mut self, name: &str, value: JsonValue)
        ensures
            final(self).members() == old(self).members().push((name@, value@)),
    {
        self.members.push((String::from_str(name), value));
        assert(self.members() =~= old(self).members().push((name@, value@)));
    }

    /// Adds the member `name` with the text `value`.
    pub fn text(&mut self, name: &str, value: &str)
        ensures
            final(self).members() == old(self).members().push((name@, JsonView::Text(value@))),
    {
        self.value(name, JsonValue::Text(String::from_str(value)));
    }

    /// Adds the member `name` with the truth value `value`.
    pub fn boolean(&mut self, name: &str, value: bool)
        ensures
            final(self).members() == old(self).members().push((name@, JsonView::Bool(value))),
    {
        self.value(name, JsonValue::Bool(value));
    }

    /// Adds the member `name` with the integer `value`, if there is one; an absent value
    /// adds nothing.
    pub fn optional_integer(&mut self, name: &str, value: Option<i64>)
        ensures
            final(self).members() == with_integer(old(self).members(), name@, value),
    {
        match value {
            Some(i) => {
                self.integer(name, i);
            },
            None => {},
        }
    }

    /// Adds the member `name` with the array of the texts `value`, if there are any; an
    /// absent value adds nothing.
    pub fn optional_texts(&mut self, name: &str, value: &Option<Vec<String>>)
        ensures
            final(self).members() == with_texts(old(self).members(), name@, value.deep_view()),
    {
        match value {
            Some(texts) => {
                self.value(name, texts_json(texts));
            },
            None => {},
        }
    }

    /// Adds the member `name` with the text `value`, if there is one; an absent value adds
    /// nothing.
    pub fn optional_text(&mut self, name: &str, value: &Option<String>)
        ensures
            final(self).members() == with_text(old(self).members(), name@, value.deep_view()),
    {
        match value {
            Some(text) => {
                self.text(name, text.as_str());
            },
            None => {},
        }
    }

    /// Adds the member `name` with the integer `value`.
    pub fn integer(&mut self, name: &str, value: i64)
        ensures
            final(self).members() == old(self).members().push((name@, JsonView::Integer(value))),
    {
        self.value(name, JsonValue::Integer(value));
    }

    /// The object with the members collected.
    pub fn build(self) -> (object: JsonValue)
        ensures
            object@ == JsonView::Object(self.members()),
    {
        let object = JsonValue::Object(self.members);
        assert(object@->Object_0 =~= self.members());
        object
    }
}

/// The error for a member that is missing or holds a value of the wrong type.
fn wrong_member_error(name: &str) -> (e: AppError)
    ensures
        e@ == wrong_member(name@),
{
    AppError::Serialization(crate::text::join("missing or invalid field: ", name))
}

impl JsonValue {
    /// The text in member `name`, which must be there.
    pub fn text_member(&self, name: &str) -> (result: Result<String, AppError>)
        ensures
            outcome(result) == self@.text_member(name@),
    {
        match self.get(name) {
            Some(JsonValue::Text(text)) => Ok(text.clone()),
            _ => Err(wrong_member_error(name)),
        }
    }

    /// The text in member `name`, where the member may be missing or `null`.
    pub fn optional_text_member(&self, name: &str) -> (result: Result<Option<String>, AppError>)
        ensures
            outcome(result) == self@.optional_text_member(name@),
    {
        match self.get(name) {
            None => Ok(None),
            Some(JsonValue::Null) => Ok(None),
            Some(JsonValue::Text(text)) => Ok(Some(text.clone())),
            _ => Err(wrong_member_error(name)),
        }
    }

    /// The integer in member `name`, which must be there.
    pub fn integer_member(&self, name: &str) -> (result: Result<i64, AppError>)
        ensures
            outcome(result) == self@.integer_member(name@),
    {
        match self.get(name) {
            Some(JsonValue::Integer(i)) => Ok(*i),
            _ => Err(wrong_member_error(name)),
        }
    }

    /// The integer in member `name`, where the member may be missing or `null`.
    pub fn optional_integer_member(&self, name: &str) -> (result: Result<Option<i64>, AppError>)
        ensures
            outcome(result) == self@.optional_integer_member(name@),
    {
        match self.get(name) {
            None => Ok(None),
            Some(JsonValue::Null) => Ok(None),
            Some(JsonValue::Integer(i)) => Ok(Some(*i)),
            _ => Err(wrong_member_error(name)),
        }
    }

    /// The integer in member `name`, which must be there and fit in 32 bits without a sign.
    pub fn u32_member(&self, name: &str) -> (result: Result<u32, AppError>)
        ensures
            outcome(result) == self@.u32_member(name@),
    {
        match self.get(name) {
            Some(JsonValue::Integer(i)) => {
                if 0 <= *i && *i <= 0xffff_ffff {
                    Ok(*i as u32)
                } else {
                    Err(wrong_member_error(name))
                }
            },
            _ => Err(wrong_member_error(name)),
        }
    }

    /// The integer in member `name`, where the member may be missing or `null` and must
    /// otherwise fit in 32 bits without a sign.
    pub fn optional_u32_member(&self, name: &str) -> (result: Result<Option<u32>, AppError>)
        ensures
            outcome(result) == self@.optional_u32_member(name@),
    {
        match self.get(name) {
            None => Ok(None),
            Some(JsonValue::Null) => Ok(None),
            Some(JsonValue::Integer(i)) => {
                if 0 <= *i && *i <= 0xffff_ffff {
                    Ok(Some(*i as u32))
                } else {
                    Err(wrong_member_error(name))
                }
            },
            _ => Err(wrong_member_error(name)),
        }
    }

    /// The truth value in member `name`, where the member may be missing or `null`.
    pub fn optional_bool_member(&self, name: &str) -> (result: Result<Option<bool>, AppError>)
        ensures
            outcome(result) == self@.optional_bool_member(name@),
    {
        match self.get(name) {
            None => Ok(None),
            Some(JsonValue::Null) => Ok(None),
            Some(JsonValue::Bool(b)) => Ok(Some(*b)),
            _ => Err(wrong_member_error(name)),
        }
    }

    /// The texts in member `name`, an array of texts, where the member may be missing or
    /// `null`.
    pub fn optional_texts_member(&self, name: &str) -> (result: Result<
        Option<Vec<String>>,
        AppError,
    >)
        ensures
            outcome(result) == self@.optional_texts_member(name@),
    {
        match self.get(name) {
            None => Ok(None),
            Some(JsonValue::Null) => Ok(None),
            Some(JsonValue::Array(items)) => {
                let ghost found = self@.get(name@)->Some_0->Array_0;
                let mut texts: Vec<String> = Vec::new();
                let mut i: usize = 0;
                while i < items.len()
                    invariant
                        i <= items@.len(),
                        found.len() == items@.len(),
                        forall|j: int|
                            #![trigger found[j]]
                            0 <= j < items@.len() ==> found[j] == items@[j]@,
                        texts@.len() == i,
                        forall|j: int| 0 <= j < i ==> found[j] is Text,
                        forall|j: int| 0 <= j < i ==> (#[trigger] texts@[j])@ == found[j]->Text_0,
                        self@.get(name@) == Some(JsonView::Array(found)),
                    decreases items@.len() - i,
                {
                    match &items[i] {
                        JsonValue::Text(text) => {
                            texts.push(text.clone());
                        },
                        _ => {
                            assert(!(found[i as int] is Text));
                            return Err(wrong_member_error(name));
                        },
                    }
                    i = i + 1;
                }
                assert(texts.deep_view() =~= texts_of(found));
                Ok(Some(texts))
            },
            _ => Err(wrong_member_error(name)),
        }
    }
}

} // verus!
