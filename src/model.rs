use vstd::prelude::*;

verus! {

/// A field value of a record, as the table needs it.
///
/// Numbers and nested arrays or objects are held as the text that the JSON
/// library renders for them: a number in its canonical decimal form, a nested
/// value in its compact serialization.
pub enum FieldValue {
    Null,
    Bool(bool),
    Number(String),
    Str(String),
    Nested(String),
}

/// One key/value pair of a record, in the record's own order.
pub struct Entry {
    pub key: String,
    pub value: FieldValue,
}

/// One element of the top-level array.
pub enum Element {
    /// A JSON object, with its entries in their original order.
    Object(Vec<Entry>),
    /// Any element that is not an object.
    Other,
}

/// A parsed document, reduced to what the conversion reads.
pub enum Document {
    /// The root is an array.
    Array(Vec<Element>),
    /// The root is anything else.
    Other,
}

/// Why a conversion failed.
pub enum ConvertError {
    /// The text is not well-formed JSON; holds the parser's diagnostic.
    Parse(String),
    /// The root of the document is not an array.
    Shape,
    /// The spreadsheet could not be built or saved; holds the cause.
    Write(String),
    /// The finished spreadsheet could not be read back; holds the cause.
    Io(String),
}

/// The content of the single worksheet: the header row and one row of cell
/// texts per element of the input array.
pub struct Table {
    pub header: Vec<String>,
    pub rows: Vec<Vec<String>>,
}

/// The keys of a record's entries, in order.
pub open spec fn entry_keys(entries: Seq<Entry>) -> Seq<Seq<char>> {
    entries.map_values(|e: Entry| e.key@)
}

/// The text that a field value is written as.
pub open spec fn cell_text_of(v: FieldValue) -> Seq<char> {
    match v {
        FieldValue::Null => Seq::empty(),
        FieldValue::Bool(b) => if b { "true"@ } else { "false"@ },
        FieldValue::Number(t) => t@,
        FieldValue::Str(s) => s@,
        FieldValue::Nested(t) => t@,
    }
}

/// The entries of the first element that is an object, if there is one.
pub open spec fn first_object(elems: Seq<Element>) -> Option<Seq<Entry>>
    decreases elems.len(),
{
    if elems.len() == 0 {
        None
    } else {
        match elems[0] {
            Element::Object(entries) => Some(entries@),
            Element::Other => first_object(elems.drop_first()),
        }
    }
}

/// The column names: the keys of the first object, in its own order.
pub open spec fn columns_of(elems: Seq<Element>) -> Seq<Seq<char>> {
    match first_object(elems) {
        Some(entries) => entry_keys(entries),
        None => Seq::empty(),
    }
}

/// The cells of one data row. A record fills the columns by position with its
/// own values, in its own order, and gives no more cells than there are
/// columns; an element that is not an object gives none.
pub open spec fn row_of(e: Element, ncols: nat) -> Seq<Seq<char>> {
    match e {
        Element::Object(entries) => {
            let n: int = if entries@.len() < ncols { entries@.len() as int } else { ncols as int };
            entries@.take(n).map_values(|x: Entry| cell_text_of(x.value))
        },
        Element::Other => Seq::empty(),
    }
}

/// The data rows: one per element of the array.
pub open spec fn rows_of(elems: Seq<Element>) -> Seq<Seq<Seq<char>>> {
    elems.map_values(|e: Element| row_of(e, columns_of(elems).len()))
}

/// The texts held by a sequence of strings.
pub open spec fn texts_view(v: Seq<String>) -> Seq<Seq<char>> {
    v.map_values(|s: String| s@)
}

impl Table {
    pub open spec fn header_view(&self) -> Seq<Seq<char>> {
        texts_view(self.header@)
    }

    pub open spec fn rows_view(&self) -> Seq<Seq<Seq<char>>> {
        self.rows@.map_values(|r: Vec<String>| texts_view(r@))
    }

    /// This table is the one that the array `elems` converts to.
    pub open spec fn is_table_of(&self, elems: Seq<Element>) -> bool {
        &&& self.header_view() == columns_of(elems)
        &&& self.rows_view() == rows_of(elems)
    }
}

} // verus!
