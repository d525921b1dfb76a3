use vstd::prelude::*;

use crate::model::{cell_text_of, columns_of, entry_keys, first_object, row_of, Element, Table};
use crate::sheet::{data_layout, row_layout, sheet_layout};

verus! {

/// When the first element of the array is an object, the header is that
/// object's keys, in their original order.
pub proof fn law_header_is_first_record(elems: Seq<Element>, t: Table)
    requires
        elems.len() > 0,
        elems[0] is Object,
        t.is_table_of(elems),
    ensures
        t.header_view() == entry_keys(elems[0]->Object_0@),
{
}

/// There is one data row per element of the array, and the header has as many
/// cells as the first element has keys.
pub proof fn law_row_and_column_counts(elems: Seq<Element>, t: Table)
    requires
        t.is_table_of(elems),
    ensures
        t.rows_view().len() == elems.len(),
        elems.len() > 0 && elems[0] is Object ==> t.header_view().len()
            == elems[0]->Object_0@.len(),
{
}

/// An array of `n` objects with `k` fields each gives `n` data rows of
/// exactly `k` cells, each cell the coerced text of the record's own value.
pub proof fn law_uniform_records(elems: Seq<Element>, k: nat, t: Table)
    requires
        elems.len() > 0,
        forall|i: int|
            0 <= i < elems.len() ==> #[trigger] elems[i] is Object && elems[i]->Object_0@.len()
                == k,
        t.is_table_of(elems),
    ensures
        t.header_view().len() == k,
        t.rows_view().len() == elems.len(),
        forall|i: int| 0 <= i < elems.len() ==> (#[trigger] t.rows_view()[i]).len() == k,
        forall|i: int, j: int|
            0 <= i < elems.len() && 0 <= j < k ==> #[trigger] t.rows_view()[i][j] == cell_text_of(
                elems[i]->Object_0@[j].value,
            ),
{
    assert(columns_of(elems).len() == k);
    assert forall|i: int| 0 <= i < elems.len() implies (#[trigger] t.rows_view()[i]).len() == k by {
        assert(t.rows_view()[i] == row_of(elems[i], k));
    }
    assert forall|i: int, j: int|
        0 <= i < elems.len() && 0 <= j < k implies #[trigger] t.rows_view()[i][j] == cell_text_of(
            elems[i]->Object_0@[j].value,
        ) by {
        assert(t.rows_view()[i] == row_of(elems[i], k));
    }
}

/// An empty array gives no header cells, no data rows and no cells at all.
pub proof fn law_empty_array(t: Table)
    requires
        t.is_table_of(Seq::empty()),
    ensures
        t.header_view().len() == 0,
        t.rows_view().len() == 0,
        sheet_layout(t.header_view(), t.rows_view()).len() == 0,
{
    assert(first_object(Seq::<Element>::empty()) is None);
    assert(row_layout(0, t.header_view()) =~= Seq::empty());
    assert(data_layout(t.rows_view()) =~= Seq::empty());
}

} // verus!
