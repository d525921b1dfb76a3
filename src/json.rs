use vstd::prelude::*;

use crate::model::{ConvertError, Document, Element, Entry, FieldValue};

verus! {

#[verifier::external_type_specification]
#[verifier::external_body]
pub struct ExValue(serde_json::Value);

#[verifier::external_type_specification]
#[verifier::external_body]
#[verifier::reject_recursive_types(K)]
#[verifier::reject_recursive_types(V)]
pub struct ExMap<K, V>(serde_json::Map<K, V>);

/// What serde_json's parser makes of a text: the value, or the text of its
/// diagnostic. It depends on the text alone.
pub uninterp spec fn json_parse(s: Seq<char>) -> Result<serde_json::Value, Seq<char>>;

/// The elements of a value that is an array; `None` for any other value.
pub uninterp spec fn array_items(v: serde_json::Value) -> Option<Seq<serde_json::Value>>;

/// The map of a value that is an object; `None` for any other value.
pub uninterp spec fn object_of(v: serde_json::Value) -> Option<
    serde_json::Map<String, serde_json::Value>,
>;

/// The key/value pairs of an object's map, in the map's iteration order.
pub uninterp spec fn object_pairs(m: serde_json::Map<String, serde_json::Value>) -> Seq<
    (Seq<char>, serde_json::Value),
>;

/// The field value that a JSON value becomes in a record.
pub uninterp spec fn field_of(v: serde_json::Value) -> FieldValue;

/// Whether a text is a well-formed JSON document.
pub open spec fn is_json_text(s: Seq<char>) -> bool {
    json_parse(s) is Ok
}

/// The parser's diagnostic for a text that is not well-formed.
pub open spec fn json_diagnostic(s: Seq<char>) -> Seq<char> {
    json_parse(s)->Err_0
}

/// A record as the conversion reads it: its (key, value) pairs in order, or
/// `None` for an element that is not an object.
pub open spec fn record_model(x: serde_json::Value) -> Option<Seq<(Seq<char>, FieldValue)>> {
    match object_of(x) {
        Some(m) => Some(
            object_pairs(m).map_values(|p: (Seq<char>, serde_json::Value)| (p.0, field_of(p.1))),
        ),
        None => None,
    }
}

/// A document as the conversion reads it: the records of an array root, or
/// `None` for any other root.
pub open spec fn document_model(v: serde_json::Value) -> Option<
    Seq<Option<Seq<(Seq<char>, FieldValue)>>>,
> {
    match array_items(v) {
        Some(items) => Some(items.map_values(|x: serde_json::Value| record_model(x))),
        None => None,
    }
}

/// The document of a well-formed JSON text.
pub open spec fn json_document(s: Seq<char>) -> Option<Seq<Option<Seq<(Seq<char>, FieldValue)>>>> {
    document_model(json_parse(s)->Ok_0)
}

/// The (key, value) pairs of a record's entries.
pub open spec fn entry_pairs(es: Seq<Entry>) -> Seq<(Seq<char>, FieldValue)> {
    es.map_values(|x: Entry| (x.key@, x.value))
}

/// What an element holds, in the terms of `record_model`.
pub open spec fn element_view(e: Element) -> Option<Seq<(Seq<char>, FieldValue)>> {
    match e {
        Element::Object(es) => Some(entry_pairs(es@)),
        Element::Other => None,
    }
}

pub open spec fn element_views(elems: Seq<Element>) -> Seq<Option<Seq<(Seq<char>, FieldValue)>>> {
    elems.map_values(|e: Element| element_view(e))
}

/// Relies on `serde_json::from_str` into a `Value`, and on the `Display` of
/// its error for the diagnostic: both depend on the text alone.
#[verifier::external_body]
fn parse_value(text: &str) -> (r: Result<serde_json::Value, String>)
    ensures
        match r {
            Ok(v) => json_parse(text@) is Ok && json_parse(text@)->Ok_0 == v,
            Err(m) => json_parse(text@) is Err && json_parse(text@)->Err_0 == m@,
        },
{
    serde_json::from_str(text).map_err(|e| e.to_string())
}

pub assume_specification[ serde_json::Value::as_array ](v: &serde_json::Value) -> (r: Option<
    &Vec<serde_json::Value>,
>)
    ensures
        match r {
            Some(a) => array_items(*v) == Some(a@),
            None => array_items(*v) is None,
        },
;

pub assume_specification[ serde_json::Value::as_object ](v: &serde_json::Value) -> (r: Option<
    &serde_json::Map<String, serde_json::Value>,
>)
    ensures
        match r {
            Some(m) => object_of(*v) == Some(*m),
            None => object_of(*v) is None,
        },
;

/// Relies on `serde_json::Map::iter`: the key/value pairs of an object in the
/// map's iteration order, which is the order of insertion under the
/// `preserve_order` feature.
#[verifier::external_body]
fn map_entries(m: &serde_json::Map<String, serde_json::Value>) -> (r: Vec<(String, &serde_json::Value)>)
    ensures
        r@.map_values(|p: (String, &serde_json::Value)| (p.0@, *p.1)) == object_pairs(*m),
{
    m.iter().map(|(k, x)| (k.clone(), x)).collect()
}

/// Relies on serde_json's rendering of values: the `Display` of `Number`
/// (canonical decimal text) and the compact `Display` of a nested array or
/// object. Strings, booleans and null are moved over as they are.
#[verifier::external_body]
fn field_value(v: &serde_json::Value) -> (r: FieldValue)
    ensures
        r == field_of(*v),
{
    match v {
        serde_json::Value::Null => FieldValue::Null,
        serde_json::Value::Bool(b) => FieldValue::Bool(*b),
        serde_json::Value::Number(n) => FieldValue::Number(n.to_string()),
        serde_json::Value::String(s) => FieldValue::Str(s.clone()),
        serde_json::Value::Array(_) => FieldValue::Nested(v.to_string()),
        serde_json::Value::Object(_) => FieldValue::Nested(v.to_string()),
    }
}

/// The record that an array element stands for.
fn element_of(v: &serde_json::Value) -> (e: Element)
    ensures
        element_view(e) == record_model(*v),
{
    match v.as_object() {
        Some(m) => {
            let pairs = map_entries(m);
            let ghost model = object_pairs(*m);
            assert(pairs@.len() == model.len());
            let mut entries: Vec<Entry> = Vec::new();
            let mut i: usize = 0;
            while i < pairs.len()
                invariant
                    i <= pairs.len(),
                    pairs@.map_values(|p: (String, &serde_json::Value)| (p.0@, *p.1)) == model,
                    entries.len() == i,
                    forall|j: int|
                        0 <= j < i ==> (#[trigger] entries@[j]).key@ == model[j].0
                            && entries@[j].value == field_of(model[j].1),
                decreases pairs.len() - i,
            {
                let (key, x) = &pairs[i];
                assert(pairs@.map_values(|p: (String, &serde_json::Value)| (p.0@, *p.1))[i as int]
                    == model[i as int]);
                entries.push(Entry { key: key.clone(), value: field_value(x) });
                i = i + 1;
            }
            let e = Element::Object(entries);
            assert(entry_pairs(entries@) =~= model.map_values(
                |p: (Seq<char>, serde_json::Value)| (p.0, field_of(p.1)),
            ));
            e
        },
        None => Element::Other,
    }
}

/// The document that a parsed value stands for.
fn document_of(v: &serde_json::Value) -> (d: Document)
    ensures
        match d {
            Document::Array(elems) => document_model(*v) == Some(element_views(elems@)),
            Document::Other => document_model(*v) is None,
        },
{
    match v.as_array() {
        Some(items) => {
            let mut elems: Vec<Element> = Vec::new();
            let mut i: usize = 0;
            while i < items.len()
                invariant
                    i <= items.len(),
                    elems.len() == i,
                    forall|j: int|
                        0 <= j < i ==> element_view(#[trigger] elems@[j]) == record_model(
                            items@[j],
                        ),
                decreases items.len() - i,
            {
                elems.push(element_of(&items[i]));
                i = i + 1;
            }
            assert(element_views(elems@) =~= items@.map_values(
                |x: serde_json::Value| record_model(x),
            ));
            Document::Array(elems)
        },
        None => Document::Other,
    }
}

/// Parses a JSON text into the document that the conversion reads. It fails,
/// with the parser's diagnostic, exactly when the text is not well-formed;
/// otherwise the document holds the records of the text's array root, or
/// says that the root is not an array.
pub fn parse_document(text: &str) -> (r: Result<Document, ConvertError>)
    ensures
        r is Ok <==> is_json_text(text@),
        r matches Ok(d) ==> match d {
            Document::Array(elems) => json_document(text@) == Some(element_views(elems@)),
            Document::Other => json_document(text@) is None,
        },
        r matches Err(e) ==> e matches ConvertError::Parse(m) && m@ == json_diagnostic(text@),
{
    match parse_value(text) {
        Ok(v) => Ok(document_of(&v)),
        Err(m) => Err(ConvertError::Parse(m)),
    }
}

} // verus!
