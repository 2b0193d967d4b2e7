//! JSON documents, as `serde_json` writes them.
use vstd::prelude::*;

verus! {

/// What a JSON document holds. The fields of an object stand in the order in which they are
/// written.
pub enum JsonView {
    Null,
    Bool(bool),
    Number(u64),
    Text(Seq<char>),
    Array(Seq<JsonView>),
    Object(Seq<(Seq<char>, JsonView)>),
}

/// A JSON document.
#[derive(Debug, PartialEq, Eq)]
pub enum Json {
    Null,
    Bool(bool),
    Number(u64),
    Text(String),
    Array(Vec<Json>),
    Object(JsonObject),
}

/// The fields of a JSON object, in order. No two of them have the same name.
#[derive(Debug, PartialEq, Eq)]
pub struct JsonObject {
    fields: Vec<(String, Json)>,
}

/// Whether no two of `fields` have the same name.
pub open spec fn distinct_names(fields: Seq<(Seq<char>, JsonView)>) -> bool {
    forall|i: int, j: int|
        0 <= i < j < fields.len() ==> (#[trigger] fields[i]).0 != (#[trigger] fields[j]).0
}

/// Whether one of `fields` is named `name`.
pub open spec fn has_field(fields: Seq<(Seq<char>, JsonView)>, name: Seq<char>) -> bool {
    exists|i: int| 0 <= i < fields.len() && (#[trigger] fields[i]).0 == name
}

/// `fields` with the value `value` under `name`: in place where there is such a field, else
/// behind the others.
pub open spec fn with_field(
    fields: Seq<(Seq<char>, JsonView)>,
    name: Seq<char>,
    value: JsonView,
) -> Seq<(Seq<char>, JsonView)> {
    if has_field(fields, name) {
        fields.map_values(
            |field: (Seq<char>, JsonView)|
                if field.0 == name {
                    (name, value)
                } else {
                    field
                },
        )
    } else {
        fields.push((name, value))
    }
}

/// What the documents `items` hold.
pub open spec fn item_views(items: Seq<Json>) -> Seq<JsonView> {
    items.map_values(|item: Json| item@)
}

/// What a `serde_json::Value` holds.
pub uninterp spec fn value_view(value: serde_json::Value) -> JsonView;

/// The bytes that `serde_json::to_vec` writes for a document.
pub uninterp spec fn json_bytes(document: JsonView) -> Seq<u8>;

/// `serde_json`'s JSON document.
#[verifier::external_type_specification]
#[verifier::external_body]
pub struct ExValue(serde_json::Value);

/// `serde_json`'s error.
#[verifier::external_type_specification]
#[verifier::external_body]
pub struct ExError(serde_json::Error);

/// Makes the variant `Null` of [`serde_json::Value`]. Trusted: it holds null.
#[verifier::external_body]
fn null_value() -> (value: serde_json::Value)
    ensures
        value_view(value) == JsonView::Null,
{
    serde_json::Value::Null
}

/// Calls `From<bool>` of [`serde_json::Value`]. Trusted: the value holds the boolean.
#[verifier::external_body]
fn bool_value(truth: bool) -> (value: serde_json::Value)
    ensures
        value_view(value) == JsonView::Bool(truth),
{
    serde_json::Value::from(truth)
}

/// Calls `From<u64>` of [`serde_json::Value`]. Trusted: the value holds the number.
#[verifier::external_body]
fn number_value(number: u64) -> (value: serde_json::Value)
    ensures
        value_view(value) == JsonView::Number(number),
{
    serde_json::Value::from(number)
}

/// Calls `From<String>` of [`serde_json::Value`]. Trusted: the value holds the text.
#[verifier::external_body]
fn text_value(text: String) -> (value: serde_json::Value)
    ensures
        value_view(value) == JsonView::Text(text@),
{
    serde_json::Value::from(text)
}

/// Calls `From<Vec<Value>>` of [`serde_json::Value`]. Trusted: the value is the array of the
/// items, in their order.
#[verifier::external_body]
fn array_value(items: Vec<serde_json::Value>) -> (value: serde_json::Value)
    ensures
        value_view(value) == JsonView::Array(
            items@.map_values(|item: serde_json::Value| value_view(item)),
        ),
{
    serde_json::Value::from(items)
}

/// Collects `fields` into a [`serde_json::Map`] and calls `From<Map>` of [`serde_json::Value`].
/// Trusted: the value is the object of those fields, and, since the crate is built to preserve
/// the order of insertion, in their order.
#[verifier::external_body]
fn object_value(fields: Vec<(String, serde_json::Value)>) -> (value: serde_json::Value)
    requires
        forall|i: int, j: int|
            0 <= i < j < fields@.len() ==> (#[trigger] fields@[i]).0@ != (#[trigger] fields@[j]).0@,
    ensures
        value_view(value) == JsonView::Object(
            fields@.map_values(
                |field: (String, serde_json::Value)| (field.0@, value_view(field.1)),
            ),
        ),
{
    serde_json::Value::from(fields.into_iter().collect::<serde_json::Map<_, _>>())
}

/// Calls [`serde_json::to_vec`]. Trusted: on a `Value` it succeeds, since a `Value` has text for
/// the names of its fields and never refuses to be written, and a vector takes every byte; the
/// bytes depend on what the value holds alone.
#[verifier::external_body]
fn value_to_vec(value: &serde_json::Value) -> (written: Result<Vec<u8>, serde_json::Error>)
    ensures
        written is Ok,
        written->Ok_0@ == json_bytes(value_view(*value)),
{
    serde_json::to_vec(value)
}

impl Json {
    /// What the document holds.
    pub open spec fn view(&self) -> JsonView
        decreases self,
    {
        match self {
            Json::Null => JsonView::Null,
            Json::Bool(truth) => JsonView::Bool(*truth),
            Json::Number(number) => JsonView::Number(*number),
            Json::Text(text) => JsonView::Text(text@),
            Json::Array(items) => JsonView::Array(
                Seq::new(
                    items@.len(),
                    |i: int|
                        if 0 <= i < items@.len() {
                            items@[i].view()
                        } else {
                            JsonView::Null
                        },
                ),
            ),
            Json::Object(object) => JsonView::Object(object.view()),
        }
    }

    /// The document as `serde_json` has it.
    fn to_value(&self) -> (value: serde_json::Value)
        ensures
            value_view(value) == self@,
        decreases self,
    {
        match self {
            Json::Null => null_value(),
            Json::Bool(truth) => bool_value(*truth),
            Json::Number(number) => number_value(*number),
            Json::Text(text) => text_value(text.clone()),
            Json::Array(items) => {
                let mut values: Vec<serde_json::Value> = Vec::new();
                for i in 0..items.len()
                    invariant
                        self is Array,
                        self->Array_0 == *items,
                        values@.len() == i,
                        forall|j: int|
                            0 <= j < i ==> value_view(#[trigger] values@[j]) == items@[j]@,
                {
                    values.push(items[i].to_value());
                }
                assert(values@.map_values(|item: serde_json::Value| value_view(item))
                    =~= self@->Array_0);
                array_value(values)
            },
            Json::Object(object) => object.to_value(),
        }
    }

    /// The document in writing: compact JSON text, in UTF-8.
    pub fn to_vec(&self) -> (bytes: Vec<u8>)
        ensures
            bytes@ == json_bytes(self@),
    {
        value_to_vec(&self.to_value()).unwrap()
    }

    /// The same document once more.
    fn copy(&self) -> (document: Json)
        ensures
            document@ == self@,
        decreases self,
    {
        match self {
            Json::Null => Json::Null,
            Json::Bool(truth) => Json::Bool(*truth),
            Json::Number(number) => Json::Number(*number),
            Json::Text(text) => Json::Text(text.clone()),
            Json::Array(items) => {
                let mut copies: Vec<Json> = Vec::new();
                for i in 0..items.len()
                    invariant
                        self is Array,
                        self->Array_0 == *items,
                        copies@.len() == i,
                        forall|j: int| 0 <= j < i ==> (#[trigger] copies@[j])@ == items@[j]@,
                {
                    copies.push(items[i].copy());
                }
                let document = Json::Array(copies);
                assert(document@->Array_0 =~= self@->Array_0);
                document
            },
            Json::Object(object) => Json::Object(object.copy()),
        }
    }
}

/// What an array of documents holds.
pub proof fn lemma_array_view(items: Vec<Json>)
    ensures
        Json::Array(items)@ == JsonView::Array(item_views(items@)),
{
    assert(Json::Array(items)@->Array_0 =~= item_views(items@));
}

impl JsonObject {
    /// The names and the values of the fields.
    pub closed spec fn view(&self) -> Seq<(Seq<char>, JsonView)>
        decreases self,
    {
        Seq::new(
            self.fields@.len(),
            |i: int|
                if 0 <= i < self.fields@.len() {
                    (self.fields@[i].0@, self.fields@[i].1.view())
                } else {
                    (Seq::empty(), JsonView::Null)
                },
        )
    }

    #[verifier::type_invariant]
    spec fn names_are_distinct(self) -> bool {
        distinct_names(self.view())
    }

    /// An object without fields.
    pub fn new() -> (object: JsonObject)
        ensures
            object@ == Seq::<(Seq<char>, JsonView)>::empty(),
    {
        let fields: Vec<(String, Json)> = Vec::new();
        let ghost bare = JsonObject { fields };
        assert(bare@ =~= Seq::<(Seq<char>, JsonView)>::empty());
        JsonObject { fields }
    }

    /// Puts `value` under `name`: in place where there is such a field, else behind the others.
    pub fn insert(&mut self, name: String, value: Json)
        ensures
            final(self)@ == with_field(old(self)@, name@, value@),
    {
        proof {
            use_type_invariant(&*self);
        }
        let mut fields: Vec<(String, Json)> = Vec::new();
        let ghost before = self@;
        let ghost empty = JsonObject { fields };
        assert(empty@ =~= Seq::<(Seq<char>, JsonView)>::empty());
        std::mem::swap(&mut fields, &mut self.fields);
        let ghost bare = JsonObject { fields };
        assert(bare@ =~= before);
        let mut i: usize = 0;
        while i < fields.len() && fields[i].0 != name
            invariant
                i <= fields@.len(),
                forall|j: int| 0 <= j < i ==> (#[trigger] fields@[j]).0@ != name@,
            decreases fields@.len() - i,
        {
            i = i + 1;
        }
        if i < fields.len() {
            assert(before[i as int].0 == name@);
            fields[i] = (name, value);
        } else {
            fields.push((name, value));
        }
        let ghost after = JsonObject { fields };
        assert(after@ =~= with_field(before, name@, value@));
        self.fields = fields;
    }

    /// The object as `serde_json` has it.
    fn to_value(&self) -> (value: serde_json::Value)
        ensures
            value_view(value) == JsonView::Object(self@),
        decreases self,
    {
        proof {
            use_type_invariant(self);
        }
        let mut values: Vec<(String, serde_json::Value)> = Vec::new();
        for i in 0..self.fields.len()
            invariant
                values@.len() == i,
                forall|j: int| 0 <= j < i ==> (#[trigger] values@[j]).0@ == self.fields@[j].0@,
                forall|j: int|
                    0 <= j < i ==> value_view((#[trigger] values@[j]).1) == self.fields@[j].1@,
        {
            values.push((self.fields[i].0.clone(), self.fields[i].1.to_value()));
        }
        assert forall|i: int, j: int| 0 <= i < j < values@.len() implies (#[trigger] values@[i]).0@
            != (#[trigger] values@[j]).0@ by {
            assert(self@[i].0 != self@[j].0);
        }
        assert(values@.map_values(
            |field: (String, serde_json::Value)| (field.0@, value_view(field.1)),
        ) =~= self@);
        object_value(values)
    }

    /// The same fields once more.
    fn copy(&self) -> (object: JsonObject)
        ensures
            object@ == self@,
        decreases self,
    {
        proof {
            use_type_invariant(self);
        }
        let mut copies: Vec<(String, Json)> = Vec::new();
        for i in 0..self.fields.len()
            invariant
                copies@.len() == i,
                forall|j: int| 0 <= j < i ==> (#[trigger] copies@[j]).0@ == self.fields@[j].0@,
                forall|j: int| 0 <= j < i ==> (#[trigger] copies@[j]).1@ == self.fields@[j].1@,
        {
            copies.push((self.fields[i].0.clone(), self.fields[i].1.copy()));
        }
        let ghost bare = JsonObject { fields: copies };
        assert(bare@ =~= self@);
        JsonObject { fields: copies }
    }
}

impl Clone for Json {
    fn clone(&self) -> (document: Json)
        ensures
            document@ == self@,
    {
        self.copy()
    }
}

impl Clone for JsonObject {
    fn clone(&self) -> (object: JsonObject)
        ensures
            object@ == self@,
    {
        self.copy()
    }
}

/// The names of `fields`, in their order.
pub open spec fn field_names(fields: Seq<(Seq<char>, JsonView)>) -> Seq<Seq<char>> {
    fields.map_values(|field: (Seq<char>, JsonView)| field.0)
}

/// Whether the value `value` stands under `name`.
pub open spec fn tells(
    fields: Seq<(Seq<char>, JsonView)>,
    name: Seq<char>,
    value: JsonView,
) -> bool {
    fields.contains((name, value))
}

/// What is put into an object stands there under its name. What stood under other names stays,
/// and nothing else comes in. A name that was there keeps its place, a new one stands last.
pub proof fn law_field_is_put(
    fields: Seq<(Seq<char>, JsonView)>,
    name: Seq<char>,
    value: JsonView,
    other: Seq<char>,
    other_value: JsonView,
)
    requires
        distinct_names(fields),
    ensures
        tells(with_field(fields, name, value), name, other_value) <==> other_value == value,
        other != name ==> (tells(with_field(fields, name, value), other, other_value) <==> tells(
            fields,
            other,
            other_value,
        )),
        field_names(with_field(fields, name, value)) == if field_names(fields).contains(name) {
            field_names(fields)
        } else {
            field_names(fields).push(name)
        },
        distinct_names(with_field(fields, name, value)),
{
    let after = with_field(fields, name, value);
    if has_field(fields, name) {
        let at = choose|i: int| 0 <= i < fields.len() && (#[trigger] fields[i]).0 == name;
        assert(field_names(fields)[at] == name);
        assert(after[at] == (name, value));
        assert(field_names(after) =~= field_names(fields));
        if tells(fields, other, other_value) {
            let i = fields.index_of((other, other_value));
            assert(other != name ==> after[i] == (other, other_value));
        }
        if tells(after, other, other_value) {
            let i = after.index_of((other, other_value));
            assert(other != name ==> fields[i] == (other, other_value));
        }
    } else {
        if field_names(fields).contains(name) {
            let at = field_names(fields).index_of(name);
            assert(fields[at].0 == name);
        }
        assert(after[fields.len() as int] == (name, value));
        assert(field_names(after) =~= field_names(fields).push(name));
        if tells(fields, other, other_value) {
            let i = fields.index_of((other, other_value));
            assert(after[i] == (other, other_value));
        }
        if tells(after, other, other_value) && other != name {
            let i = after.index_of((other, other_value));
            assert(fields[i] == (other, other_value));
        }
        if tells(after, name, other_value) {
            let i = after.index_of((name, other_value));
            assert(i < fields.len() ==> fields[i].0 == name);
        }
    }
}

/// A document is seen as what it is: the boolean, the number or the text, the items of an array in
/// their order, the fields of an object.
pub proof fn law_document_is_seen(document: Json)
    ensures
        document is Null <==> document@ is Null,
        document is Bool ==> document@ == JsonView::Bool(document->Bool_0),
        document is Number ==> document@ == JsonView::Number(document->Number_0),
        document is Text ==> document@ == JsonView::Text(document->Text_0@),
        document is Array ==> {
            &&& document@ is Array
            &&& document@->Array_0.len() == document->Array_0@.len()
            &&& forall|i: int|
                0 <= i < document->Array_0@.len() ==> #[trigger] document@->Array_0[i]
                    == document->Array_0@[i]@
        },
        document is Object ==> document@ == JsonView::Object(document->Object_0@),
{
    if document is Array {
        lemma_array_view(document->Array_0);
    }
}

} // verus!
