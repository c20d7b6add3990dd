use vstd::prelude::*;

verus! {

/// A listing cell: the backend's value, or blank where it gave none.
pub open spec fn cell_or_blank(v: Option<String>) -> Seq<char> {
    match v {
        Some(s) => s@,
        None => Seq::<char>::empty(),
    }
}

/// Whether a table row displays exactly one backend record: its three fields
/// in order, each blank where the backend gave none.
pub open spec fn row_matches(
    row: Vec<String>,
    entry: (Option<String>, Option<String>, Option<String>),
) -> bool {
    &&& row@.len() == 3
    &&& row@[0]@ == cell_or_blank(entry.0)
    &&& row@[1]@ == cell_or_blank(entry.1)
    &&& row@[2]@ == cell_or_blank(entry.2)
}

/// The text of one cell: the backend's value, or blank where it gave none.
pub fn cell_text(v: &Option<String>) -> (r: String)
    ensures
        r@ == cell_or_blank(*v),
{
    match v {
        Some(s) => s.clone(),
        None => String::new(),
    }
}

/// One row of a listing table, built from one backend record.
pub fn listing_row(first: &Option<String>, second: &Option<String>, third: &Option<String>) -> (r:
    Vec<String>)
    ensures
        row_matches(r, (*first, *second, *third)),
{
    let mut row: Vec<String> = Vec::new();
    row.push(cell_text(first));
    row.push(cell_text(second));
    row.push(cell_text(third));
    row
}

/// Appends one listing row per record of a freshly fetched page, in the
/// page's order, leaving the rows gathered from earlier pages unchanged.
pub fn append_page_rows(
    rows: &mut Vec<Vec<String>>,
    page: &Vec<(Option<String>, Option<String>, Option<String>)>,
)
    ensures
        final(rows)@.len() == old(rows)@.len() + page@.len(),
        forall|i: int| 0 <= i < old(rows)@.len() ==> final(rows)@[i] == #[trigger] old(rows)@[i],
        forall|i: int|
            0 <= i < page@.len() ==> row_matches(
                final(rows)@[old(rows)@.len() + i],
                #[trigger] page@[i],
            ),
{
    let ghost rows0 = rows@;
    let mut i: usize = 0;
    while i < page.len()
        invariant
            i <= page@.len(),
            rows@.len() == rows0.len() + i,
            forall|j: int| 0 <= j < rows0.len() ==> rows@[j] == #[trigger] rows0[j],
            forall|j: int|
                0 <= j < i ==> row_matches(rows@[rows0.len() + j], #[trigger] page@[j]),
        decreases page@.len() - i,
    {
        let ghost rows_before = rows@;
        let entry = &page[i];
        let row = listing_row(&entry.0, &entry.1, &entry.2);
        rows.push(row);
        proof {
            assert forall|j: int|
                0 <= j < i as int + 1 implies row_matches(
                rows@[rows0.len() + j],
                #[trigger] page@[j],
            ) by {
                if j < i as int {
                    assert(rows@[rows0.len() + j] == rows_before[rows0.len() + j]);
                    assert(row_matches(rows_before[rows0.len() + j], page@[j]));
                } else {
                    assert(rows@[rows0.len() + j] == row);
                    assert(*entry == page@[j]);
                    assert(row_matches(row, page@[j]));
                }
            }
        }
        i = i + 1;
    }
}

} // verus!
