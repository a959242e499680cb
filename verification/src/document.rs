//! Flat JSON documents, in which results are printed and kept.

use vstd::prelude::*;

verus! {

/// A JSON object.
#[verifier::external_type_specification]
#[verifier::external_body]
#[verifier::reject_recursive_types(K)]
#[verifier::reject_recursive_types(V)]
pub struct ExObject<K, V>(serde_json::Map<K, V>);

/// A JSON value.
#[verifier::external_type_specification]
#[verifier::external_body]
pub struct ExValue(serde_json::Value);

/// A failure to write JSON.
#[verifier::external_type_specification]
#[verifier::external_body]
pub struct ExError(serde_json::Error);

/// A value of a flat document.
pub enum Scalar {
    Null,
    Bool(bool),
    Number(nat),
    Text(Seq<char>),
}

/// The entries of a JSON object. Null, flags, unsigned numbers and texts are
/// themselves. Objects with other values do not arise here: the functions below
/// alone make and fill them. For such an object any other value stands as some
/// scalar of its own, so that different objects have different entries.
///
/// The claims of `write_compact` and `write_pretty` need keys to be sorted. The
/// program that uses this library must leave the `preserve_order` feature of
/// `serde_json` off too.
pub uninterp spec fn object_fields(
    object: serde_json::Map<String, serde_json::Value>,
) -> Map<Seq<char>, Scalar>;

/// The entries of a document that has none.
pub open spec fn no_fields() -> Map<Seq<char>, Scalar> {
    Map::empty()
}

/// Makes an object with `serde_json::Map::new`. Claimed: it has no entries.
#[verifier::external_body]
fn new_object() -> (object: serde_json::Map<String, serde_json::Value>)
    ensures
        object_fields(object) == no_fields(),
{
    serde_json::Map::new()
}

/// Calls `serde_json::Map::insert` with `Value::from` of a `bool`. Claimed: the
/// key now has that value, and nothing else changes.
#[verifier::external_body]
fn insert_bool(object: &mut serde_json::Map<String, serde_json::Value>, key: &str, value: bool)
    ensures
        object_fields(*final(object)) == object_fields(*old(object)).insert(
            key@,
            Scalar::Bool(value),
        ),
{
    object.insert(key.to_string(), serde_json::Value::from(value));
}

/// Calls `serde_json::Map::insert` with `Value::from` of a `u64`. Claimed: the
/// key now has that number, and nothing else changes.
#[verifier::external_body]
fn insert_number(object: &mut serde_json::Map<String, serde_json::Value>, key: &str, value: u64)
    ensures
        object_fields(*final(object)) == object_fields(*old(object)).insert(
            key@,
            Scalar::Number(value as nat),
        ),
{
    object.insert(key.to_string(), serde_json::Value::from(value));
}

/// Calls `serde_json::Map::insert` with `Value::from` of a `&str`. Claimed: the
/// key now has that text, and nothing else changes.
#[verifier::external_body]
fn insert_text(object: &mut serde_json::Map<String, serde_json::Value>, key: &str, value: &str)
    ensures
        object_fields(*final(object)) == object_fields(*old(object)).insert(
            key@,
            Scalar::Text(value@),
        ),
{
    object.insert(key.to_string(), serde_json::Value::from(value));
}

/// Calls `serde_json::Map::insert` with `Value::Null`. Claimed: the key now has
/// the null value, and nothing else changes.
#[verifier::external_body]
fn insert_null(object: &mut serde_json::Map<String, serde_json::Value>, key: &str)
    ensures
        object_fields(*final(object)) == object_fields(*old(object)).insert(key@, Scalar::Null),
{
    object.insert(key.to_string(), serde_json::Value::Null);
}

/// A document as compact JSON on one line.
pub uninterp spec fn compact_json(fields: Map<Seq<char>, Scalar>) -> Seq<char>;

/// Writes an object with the `Display` impl of `serde_json::Value`.
///
/// Claimed: the text is a function of the entries. The object keeps its keys
/// sorted, as `serde_json` does without its `preserve_order` feature, so the
/// order of insertion does not show.
#[verifier::external_body]
fn write_compact(object: &serde_json::Map<String, serde_json::Value>) -> (line: String)
    ensures
        line@ == compact_json(object_fields(*object)),
{
    serde_json::Value::Object(object.clone()).to_string()
}

/// What each object of a list holds.
pub open spec fn object_list(
    objects: Seq<serde_json::Map<String, serde_json::Value>>,
) -> Seq<Map<Seq<char>, Scalar>> {
    objects.map_values(
        |object: serde_json::Map<String, serde_json::Value>| object_fields(object),
    )
}

/// A list of documents as pretty-printed JSON.
pub uninterp spec fn pretty_json(documents: Seq<Map<Seq<char>, Scalar>>) -> Seq<u8>;

/// Writes a list of objects with `serde_json::to_vec_pretty`.
///
/// Claimed: the bytes are a function of the entries of the objects. Writing
/// succeeds: the target is a vector, and every key is a string.
#[verifier::external_body]
fn write_pretty(objects: &Vec<serde_json::Map<String, serde_json::Value>>) -> (written: Result<
    Vec<u8>,
    serde_json::Error,
>)
    ensures
        written is Ok,
        written->Ok_0@ == pretty_json(object_list(objects@)),
{
    serde_json::to_vec_pretty(objects)
}

/// A flat JSON document.
pub struct Document {
    object: serde_json::Map<String, serde_json::Value>,
}

impl View for Document {
    type V = Map<Seq<char>, Scalar>;

    closed spec fn view(&self) -> Map<Seq<char>, Scalar> {
        object_fields(self.object)
    }
}

/// The scalar for an optional text.
pub open spec fn optional_scalar(text: Option<Seq<char>>) -> Scalar {
    match text {
        Some(text) => Scalar::Text(text),
        None => Scalar::Null,
    }
}

impl Document {
    /// Makes a document without entries.
    pub fn empty() -> (document: Document)
        ensures
            document@ == no_fields(),
    {
        Document { object: new_object() }
    }

    /// Sets an entry to a flag.
    pub fn set_bool(&mut self, key: &str, value: bool)
        ensures
            final(self)@ == old(self)@.insert(key@, Scalar::Bool(value)),
    {
        insert_bool(&mut self.object, key, value);
    }

    /// Sets an entry to a number.
    pub fn set_number(&mut self, key: &str, value: u64)
        ensures
            final(self)@ == old(self)@.insert(key@, Scalar::Number(value as nat)),
    {
        insert_number(&mut self.object, key, value);
    }

    /// Sets an entry to a text.
    pub fn set_text(&mut self, key: &str, value: &str)
        ensures
            final(self)@ == old(self)@.insert(key@, Scalar::Text(value@)),
    {
        insert_text(&mut self.object, key, value);
    }

    /// Sets an entry to a text, or to null where there is none.
    pub fn set_optional(&mut self, key: &str, value: &Option<String>)
        ensures
            final(self)@ == old(self)@.insert(
                key@,
                optional_scalar(crate::text::optional_view(*value)),
            ),
    {
        match value {
            Some(text) => insert_text(&mut self.object, key, text.as_str()),
            None => insert_null(&mut self.object, key),
        }
    }

    /// Writes the document on one line.
    pub fn line(&self) -> (line: String)
        ensures
            line@ == compact_json(self@),
    {
        write_compact(&self.object)
    }
}

/// The documents of a run so far, in order.
pub struct Summary {
    objects: Vec<serde_json::Map<String, serde_json::Value>>,
}

impl View for Summary {
    type V = Seq<Map<Seq<char>, Scalar>>;

    closed spec fn view(&self) -> Seq<Map<Seq<char>, Scalar>> {
        object_list(self.objects@)
    }
}

impl Summary {
    /// Starts a summary without documents.
    pub fn empty() -> (summary: Summary)
        ensures
            summary@.len() == 0,
    {
        Summary { objects: Vec::new() }
    }

    /// Adds a document at the end.
    pub fn add(&mut self, document: Document)
        ensures
            final(self)@ == old(self)@.push(document@),
    {
        self.objects.push(document.object);
    }

    /// Gives the number of documents.
    pub fn len(&self) -> (count: usize)
        ensures
            count == self@.len(),
    {
        self.objects.len()
    }

    /// Writes all documents as they are to be kept.
    pub fn write(&self) -> (bytes: Vec<u8>)
        ensures
            bytes@ == pretty_json(self@),
    {
        write_pretty(&self.objects).unwrap()
    }
}

/// A missing text is null, and one that is there stands as it is, an empty one
/// too.
pub proof fn law_optional_text_is_null_or_itself(text: Seq<char>)
    ensures
        optional_scalar(None) is Null,
        optional_scalar(Some(text)) == Scalar::Text(text),
{
}

/// A list of objects is written with every object, in order.
pub proof fn law_lists_keep_every_object(
    objects: Seq<serde_json::Map<String, serde_json::Value>>,
)
    ensures
        object_list(objects).len() == objects.len(),
        forall|i: int|
            0 <= i < objects.len() ==> #[trigger] object_list(objects)[i] == object_fields(
                objects[i],
            ),
        no_fields().dom().len() == 0,
{
    assert(no_fields().dom() =~= Set::empty());
}

} // verus!
