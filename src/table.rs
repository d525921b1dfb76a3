use vstd::prelude::*;

use crate::model::{
    cell_text_of, columns_of, entry_keys, first_object, row_of, rows_of, texts_view, ConvertError, Document,
    Element, Entry, FieldValue, Table,
};

verus! {

/// The text of a boolean cell.
pub fn bool_text(b: bool) -> (r: String)
    ensures
        r@ == (if b { "true"@ } else { "false"@ }),
{
    proof {
        reveal_strlit("true");
        reveal_strlit("false");
    }
    if b {
        String::from_str("true")
    } else {
        String::from_str("false")
    }
}

/// Coerces a field value to the text of its cell: a string verbatim, a number
/// or a nested value as its rendered text, a boolean as `true` or `false`, and
/// null as the empty text.
pub fn cell_text(v: &FieldValue) -> (r: String)
    ensures
        r@ == cell_text_of(*v),
{
    match v {
        FieldValue::Null => String::new(),
        FieldValue::Bool(b) => bool_text(*b),
        FieldValue::Number(t) => t.clone(),
        FieldValue::Str(s) => s.clone(),
        FieldValue::Nested(t) => t.clone(),
    }
}

proof fn lemma_first_object_skip(elems: Seq<Element>, i: int)
    requires
        0 <= i < elems.len(),
        elems[i] is Other,
    ensures
        first_object(elems.skip(i)) == first_object(elems.skip(i + 1)),
{
    assert(elems.skip(i).drop_first() =~= elems.skip(i + 1));
}

/// The entries of the first element of `elems` that is an object.
pub fn first_record(elems: &Vec<Element>) -> (r: Option<&Vec<Entry>>)
    ensures
        match r {
            Some(es) => first_object(elems@) == Some(es@),
            None => first_object(elems@) is None,
        },
{
    let mut i: usize = 0;
    assert(elems@.skip(0) =~= elems@);
    while i < elems.len()
        invariant
            i <= elems.len(),
            first_object(elems@) == first_object(elems@.skip(i as int)),
        decreases elems.len() - i,
    {
        match &elems[i] {
            Element::Object(es) => {
                return Some(es);
            },
            Element::Other => {
                proof {
                    lemma_first_object_skip(elems@, i as int);
                }
            },
        }
        i = i + 1;
    }
    None
}

/// The keys of a record, in its own order.
pub fn keys_of(entries: &Vec<Entry>) -> (r: Vec<String>)
    ensures
        texts_view(r@) == entry_keys(entries@),
{
    let mut out: Vec<String> = Vec::new();
    let mut i: usize = 0;
    while i < entries.len()
        invariant
            i <= entries.len(),
            out.len() == i,
            forall|j: int| 0 <= j < i ==> #[trigger] out@[j]@ == entries@[j].key@,
        decreases entries.len() - i,
    {
        out.push(entries[i].key.clone());
        i = i + 1;
    }
    assert(texts_view(out@) =~= entry_keys(entries@));
    out
}

/// The column names of the array `elems`: the keys of its first object.
pub fn column_names(elems: &Vec<Element>) -> (r: Vec<String>)
    ensures
        texts_view(r@) == columns_of(elems@),
{
    match first_record(elems) {
        Some(es) => keys_of(es),
        None => {
            let out: Vec<String> = Vec::new();
            assert(texts_view(out@) =~= Seq::<Seq<char>>::empty());
            out
        },
    }
}

/// The cells of the data row of one element, given the number of columns.
pub fn row_cells(e: &Element, ncols: usize) -> (r: Vec<String>)
    ensures
        texts_view(r@) == row_of(*e, ncols as nat),
{
    let mut out: Vec<String> = Vec::new();
    match e {
        Element::Object(entries) => {
            let n: usize = if entries.len() < ncols { entries.len() } else { ncols };
            let mut i: usize = 0;
            while i < n
                invariant
                    i <= n,
                    n <= entries.len(),
                    out.len() == i,
                    forall|j: int|
                        0 <= j < i ==> #[trigger] out@[j]@ == cell_text_of(entries@[j].value),
                decreases n - i,
            {
                out.push(cell_text(&entries[i].value));
                i = i + 1;
            }
            assert(texts_view(out@) =~= row_of(*e, ncols as nat));
        },
        Element::Other => {
            assert(texts_view(out@) =~= Seq::<Seq<char>>::empty());
        },
    }
    out
}

/// Lays an array of records out as a table: the header holds the keys of the
/// first object, and each element gives one data row.
pub fn table_of(elems: &Vec<Element>) -> (t: Table)
    ensures
        t.is_table_of(elems@),
{
    let header = column_names(elems);
    let ncols = header.len();
    let mut rows: Vec<Vec<String>> = Vec::new();
    let mut i: usize = 0;
    while i < elems.len()
        invariant
            i <= elems.len(),
            ncols == columns_of(elems@).len(),
            rows.len() == i,
            forall|j: int|
                0 <= j < i ==> #[trigger] texts_view(rows@[j]@) == row_of(
                    elems@[j],
                    ncols as nat,
                ),
        decreases elems.len() - i,
    {
        let row = row_cells(&elems[i], ncols);
        rows.push(row);
        i = i + 1;
    }
    let t = Table { header, rows };
    assert(t.rows_view() =~= rows_of(elems@));
    t
}

/// Converts a document to its table. The root must be an array; any other
/// root is refused with a shape error and yields no table.
pub fn normalize(doc: &Document) -> (r: Result<Table, ConvertError>)
    ensures
        match doc {
            Document::Array(elems) => r matches Ok(t) && t.is_table_of(elems@),
            Document::Other => r matches Err(ConvertError::Shape),
        },
{
    match doc {
        Document::Array(elems) => Ok(table_of(elems)),
        Document::Other => Err(ConvertError::Shape),
    }
}

} // verus!
