use vstd::prelude::*;

pub mod cache;
pub mod json;
pub mod laws;
pub mod model;
pub mod sheet;
pub mod table;

use crate::json::{element_views, is_json_text, json_diagnostic, json_document, parse_document};
use crate::model::Element;
use crate::model::{ConvertError, Document, Table};
use crate::table::normalize;

verus! {

/// Converts a JSON text to the table of its worksheet.
///
/// Text that is not well-formed JSON fails with a parse error that carries the
/// parser's diagnostic; a document whose root is not an array fails with a
/// shape error. Otherwise the result is the table of the root array's
/// records. No other error comes from this step.
pub fn convert_to_table(text: &str) -> (r: Result<Table, ConvertError>)
    ensures
        r matches Err(ConvertError::Parse(_)) <==> !is_json_text(text@),
        r matches Err(ConvertError::Parse(m)) ==> m@ == json_diagnostic(text@),
        is_json_text(text@) ==> (r matches Err(ConvertError::Shape) <==> json_document(
            text@,
        ) is None),
        is_json_text(text@) && json_document(text@) is Some ==> r is Ok,
        r matches Ok(t) ==> exists|elems: Seq<Element>|
            #[trigger] element_views(elems) == json_document(text@)->Some_0 && t.is_table_of(
                elems,
            ),
        r matches Err(e) ==> e is Parse || e is Shape,
{
    match parse_document(text) {
        Ok(doc) => {
            let r = normalize(&doc);
            proof {
                if doc is Array && r is Ok {
                    let elems = doc->Array_0@;
                    assert(element_views(elems) == json_document(text@)->Some_0
                        && r->Ok_0.is_table_of(elems));
                }
            }
            r
        },
        Err(e) => Err(e),
    }
}

impl ConvertError {
    /// A message for the user.
    pub fn message(&self) -> (r: String)
        ensures
            match self {
                ConvertError::Parse(d) => r@ == "invalid JSON: "@ + d@,
                ConvertError::Shape => r@ == "root must be an array"@,
                ConvertError::Write(c) => r@ == "could not write the spreadsheet: "@ + c@,
                ConvertError::Io(c) => r@ == "could not read the spreadsheet: "@ + c@,
            },
    {
        match self {
            ConvertError::Parse(d) => String::from_str("invalid JSON: ").concat(d.as_str()),
            ConvertError::Shape => String::from_str("root must be an array"),
            ConvertError::Write(c) => String::from_str("could not write the spreadsheet: ").concat(
                c.as_str(),
            ),
            ConvertError::Io(c) => String::from_str("could not read the spreadsheet: ").concat(
                c.as_str(),
            ),
        }
    }
}

} // verus!
