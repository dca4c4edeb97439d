//! Laws of the worksheet assembly, proved once and for all over the
//! functional model that the writer's contracts use.

use vstd::prelude::*;
use crate::errs::XErr;
use crate::jsonsrc::JVal;
use crate::jsonsrc::map_fields;
use crate::sheet::CellS;
use crate::sheet::header_outcome;
use crate::sheet::in_bounds;
use crate::sheet::no_cells;
use crate::sheet::rendered_arr;
use crate::sheet::rendered_obj;
use crate::sheet::row_outcome;
use crate::sheet::rows_outcome;
use crate::sheet::sheet_outcome;
use crate::sheet::value_cell_map;
use crate::sheet::value_write_ok;

verus! {

/// The cell a successful write of this value leaves at the coordinate:
/// None when the write leaves the coordinate untouched (an empty text, or
/// a null blanked outside the sheet bounds, where the write is ignored).
pub open spec fn written_cell(v: JVal, row: int, col: int) -> Option<CellS> {
    match v {
        JVal::Null => if in_bounds(row, col) {
            Some(CellS::Blank)
        } else {
            None
        },
        JVal::Bool(b) => Some(CellS::Bool(b)),
        JVal::Num(n) => Some(CellS::Num(n)),
        JVal::Text(s) => if s@.len() == 0 {
            None
        } else {
            Some(CellS::Text(s@))
        },
        JVal::Arr(a) => if rendered_arr(a@).len() == 0 {
            None
        } else {
            Some(CellS::Text(rendered_arr(a@)))
        },
        JVal::Obj(m) => if rendered_obj(m).len() == 0 {
            None
        } else {
            Some(CellS::Text(rendered_obj(m)))
        },
    }
}

/// The field list of one record in the parsed sequence; a parse failure
/// carries no fields.
pub open spec fn row_fields(r: Result<serde_json::Map<String, serde_json::Value>, XErr>) -> Seq<
    (String, JVal),
> {
    match r {
        Ok(m) => map_fields(m),
        Err(_) => Seq::empty(),
    }
}

/// A row whose writes all succeed leaves every other coordinate as it was,
/// and leaves at (row, k) exactly the cell its value writes.
proof fn row_preserves(cells: Map<(int, int), CellS>, row: int, fields: Seq<(String, JVal)>, j: int)
    requires
        0 <= j <= fields.len(),
        row_outcome(cells, row, fields, j).1 is None,
    ensures
        forall|p: (int, int)|
            (p.0 != row || p.1 < j || p.1 >= fields.len()) ==> (#[trigger] row_outcome(
                cells,
                row,
                fields,
                j,
            ).0.dom().contains(p) == cells.dom().contains(p) && (cells.dom().contains(p)
                ==> row_outcome(cells, row, fields, j).0[p] == cells[p])),
        forall|k: int|
            j <= k < fields.len() ==> (match written_cell(#[trigger] fields[k].1, row, k) {
                Some(c) => row_outcome(cells, row, fields, j).0.dom().contains((row, k))
                    && row_outcome(cells, row, fields, j).0[(row, k)] == c,
                None => row_outcome(cells, row, fields, j).0.dom().contains((row, k))
                    == cells.dom().contains((row, k)) && (cells.dom().contains((row, k))
                    ==> row_outcome(cells, row, fields, j).0[(row, k)] == cells[(row, k)]),
            }),
    decreases fields.len() - j,
{
    if j < fields.len() {
        let c2 = value_cell_map(cells, row, j, fields[j].1);
        row_preserves(c2, row, fields, j + 1);
    }
}

/// A row of values that are all accepted at their positions succeeds.
proof fn row_succeeds(cells: Map<(int, int), CellS>, row: int, fields: Seq<(String, JVal)>, j: int)
    requires
        0 <= j,
        fields.len() <= 65536,
        forall|k: int| j <= k < fields.len() ==> value_write_ok(row, k, #[trigger] fields[k].1),
    ensures
        row_outcome(cells, row, fields, j).1 is None,
    decreases fields.len() - j,
{
    if j < fields.len() {
        row_succeeds(value_cell_map(cells, row, j, fields[j].1), row, fields, j + 1);
    }
}

/// The header writes touch only row 0, and leave at (0, k) exactly the
/// k-th name (empty names leave their column untouched).
proof fn header_preserves(cells: Map<(int, int), CellS>, names: Seq<String>, j: int)
    requires
        0 <= j <= names.len(),
        header_outcome(cells, names, j).1 is None,
    ensures
        forall|p: (int, int)|
            (p.0 != 0 || p.1 < j || p.1 >= names.len()) ==> (#[trigger] header_outcome(
                cells,
                names,
                j,
            ).0.dom().contains(p) == cells.dom().contains(p) && (cells.dom().contains(p)
                ==> header_outcome(cells, names, j).0[p] == cells[p])),
        forall|k: int|
            j <= k < names.len() ==> (if (#[trigger] names[k])@.len() == 0 {
                header_outcome(cells, names, j).0.dom().contains((0, k)) == cells.dom().contains(
                    (0, k),
                ) && (cells.dom().contains((0, k)) ==> header_outcome(cells, names, j).0[(0, k)]
                    == cells[(0, k)])
            } else {
                header_outcome(cells, names, j).0.dom().contains((0, k)) && header_outcome(
                    cells,
                    names,
                    j,
                ).0[(0, k)] == CellS::Text(names[k]@)
            }),
    decreases names.len() - j,
{
    if j < names.len() {
        let c2 = crate::sheet::text_cells(cells, 0, j, names[j]@);
        header_preserves(c2, names, j + 1);
    }
}

/// The data rows touch only rows i+1 ..= recs.len(), one row per record,
/// and each record's row holds exactly what its values write.
proof fn rows_preserve(
    cells: Map<(int, int), CellS>,
    recs: Seq<Result<serde_json::Map<String, serde_json::Value>, XErr>>,
    i: int,
)
    requires
        0 <= i <= recs.len(),
        rows_outcome(cells, recs, i).1 is None,
    ensures
        forall|p: (int, int)|
            (p.0 <= i || p.0 > recs.len()) ==> (#[trigger] rows_outcome(
                cells,
                recs,
                i,
            ).0.dom().contains(p) == cells.dom().contains(p) && (cells.dom().contains(p)
                ==> rows_outcome(cells, recs, i).0[p] == cells[p])),
        forall|k: int| i <= k < recs.len() ==> #[trigger] recs[k] is Ok,
        forall|k: int, j: int|
            #![trigger rows_outcome(cells, recs, i).0.dom().contains((k + 1, j))]
            i <= k < recs.len() && (j < 0 || j >= row_fields(recs[k]).len()) ==> (rows_outcome(
                cells,
                recs,
                i,
            ).0.dom().contains((k + 1, j)) == cells.dom().contains(((k + 1, j)))
                && (cells.dom().contains((k + 1, j)) ==> rows_outcome(cells, recs, i).0[(k + 1, j)]
                == cells[(k + 1, j)])),
        forall|k: int, j: int|
            i <= k < recs.len() && 0 <= j < row_fields(recs[k]).len() ==> (match written_cell(
                #[trigger] row_fields(recs[k])[j].1,
                k + 1,
                j,
            ) {
                Some(c) => rows_outcome(cells, recs, i).0.dom().contains((k + 1, j))
                    && rows_outcome(cells, recs, i).0[(k + 1, j)] == c,
                None => rows_outcome(cells, recs, i).0.dom().contains((k + 1, j))
                    == cells.dom().contains((k + 1, j)) && (cells.dom().contains((k + 1, j))
                    ==> rows_outcome(cells, recs, i).0[(k + 1, j)] == cells[(k + 1, j)]),
            }),
    decreases recs.len() - i,
{
    if i < recs.len() {
        let m = recs[i]->Ok_0;
        let stepped = row_outcome(cells, i + 1, map_fields(m), 0);
        row_preserves(cells, i + 1, map_fields(m), 0);
        rows_preserve(stepped.0, recs, i + 1);
    }
}

/// The shape of a successfully assembled worksheet: every written cell
/// lies in the header row or in one of the rows 1 ..= recs.len() (one data
/// row per record, in input order, and no others); the header row holds
/// the given names as text cells; and each record's row holds exactly the
/// cells its values write, an explicitly blank cell for each null within
/// the sheet bounds, and nothing at the positions its values leave
/// untouched.
pub proof fn lemma_sheet_shape(
    keys: Seq<String>,
    recs: Seq<Result<serde_json::Map<String, serde_json::Value>, XErr>>,
)
    requires
        sheet_outcome(no_cells(), keys, recs).1 is None,
    ensures
        forall|p: (int, int)|
            #[trigger] sheet_outcome(no_cells(), keys, recs).0.dom().contains(p) ==> 0 <= p.0
                <= recs.len(),
        forall|j: int|
            0 <= j < keys.len() && (#[trigger] keys[j])@.len() > 0 ==> (sheet_outcome(
                no_cells(),
                keys,
                recs,
            ).0.dom().contains((0, j)) && sheet_outcome(no_cells(), keys, recs).0[(0, j)]
                == CellS::Text(keys[j]@)),
        forall|k: int| 0 <= k < recs.len() ==> #[trigger] recs[k] is Ok,
        forall|k: int, j: int|
            0 <= k < recs.len() && 0 <= j < row_fields(recs[k]).len() ==> (match written_cell(
                #[trigger] row_fields(recs[k])[j].1,
                k + 1,
                j,
            ) {
                Some(c) => sheet_outcome(no_cells(), keys, recs).0.dom().contains((k + 1, j))
                    && sheet_outcome(no_cells(), keys, recs).0[(k + 1, j)] == c,
                None => !sheet_outcome(no_cells(), keys, recs).0.dom().contains((k + 1, j)),
            }),
{
    let headed = header_outcome(no_cells(), keys, 0);
    header_preserves(no_cells(), keys, 0);
    rows_preserve(headed.0, recs, 0);
    assert forall|p: (int, int)| #[trigger]
        sheet_outcome(no_cells(), keys, recs).0.dom().contains(p) implies 0 <= p.0
        <= recs.len() by {
        if p.0 <= 0 || p.0 > recs.len() {
            assert(headed.0.dom().contains(p) == no_cells().dom().contains(p) || (0 <= p.0
                <= recs.len()));
        }
    }
}

/// A record whose values are all null succeeds and yields a data row of
/// explicitly blank cells across the sheet's columns: each in-bounds
/// coordinate of the row is present in the cell map holding Blank — a
/// stored blank cell, distinct from a coordinate that was never written —
/// while null positions beyond the sheet's column bound leave their
/// coordinates untouched. (That the scratch buffer is untouched by such a
/// row is part of the row writer's own contract, since no value is a
/// composite.)
pub proof fn lemma_all_null_record_blank_row(
    cells: Map<(int, int), CellS>,
    row: int,
    fields: Seq<(String, JVal)>,
)
    requires
        1 <= row < 1048576,
        fields.len() <= 65536,
        forall|j: int| 0 <= j < fields.len() ==> #[trigger] fields[j].1 is Null,
    ensures
        row_outcome(cells, row, fields, 0).1 is None,
        forall|j: int|
            #![trigger row_outcome(cells, row, fields, 0).0.dom().contains((row, j))]
            0 <= j < fields.len() && j < 16384 ==> (row_outcome(
                cells,
                row,
                fields,
                0,
            ).0.dom().contains(((row, j))) && row_outcome(cells, row, fields, 0).0[(row, j)]
                == CellS::Blank),
        forall|j: int|
            #![trigger row_outcome(cells, row, fields, 0).0.dom().contains((row, j))]
            16384 <= j < fields.len() ==> row_outcome(cells, row, fields, 0).0.dom().contains(
                ((row, j)),
            ) == cells.dom().contains((row, j)),
        forall|j: int|
            #![trigger row_outcome(cells, row, fields, 0).0[(row, j)]]
            16384 <= j < fields.len() && cells.dom().contains((row, j)) ==> row_outcome(
                cells,
                row,
                fields,
                0,
            ).0[(row, j)] == cells[(row, j)],
{
    row_succeeds(cells, row, fields, 0);
    row_preserves(cells, row, fields, 0);
    assert forall|j: int|
        #![trigger row_outcome(cells, row, fields, 0).0.dom().contains((row, j))]
        0 <= j < fields.len() && j < 16384 implies (row_outcome(
        cells,
        row,
        fields,
        0,
    ).0.dom().contains(((row, j))) && row_outcome(cells, row, fields, 0).0[(row, j)]
        == CellS::Blank) by {
        assert(fields[j].1 is Null);
        assert(written_cell(fields[j].1, row, j) == Some(CellS::Blank));
    }
    assert forall|j: int|
        #![trigger row_outcome(cells, row, fields, 0).0.dom().contains((row, j))]
        16384 <= j < fields.len() implies row_outcome(cells, row, fields, 0).0.dom().contains(
        ((row, j)),
    ) == cells.dom().contains((row, j)) by {
        assert(fields[j].1 is Null);
        assert(written_cell(fields[j].1, row, j) is None);
    }
    assert forall|j: int|
        #![trigger row_outcome(cells, row, fields, 0).0[(row, j)]]
        16384 <= j < fields.len() && cells.dom().contains((row, j)) implies row_outcome(
        cells,
        row,
        fields,
        0,
    ).0[(row, j)] == cells[(row, j)] by {
        assert(fields[j].1 is Null);
        assert(written_cell(fields[j].1, row, j) is None);
    }
}

/// For a non-empty record sequence whose worksheet is assembled in full,
/// under a header of non-empty field names: row 0 holds exactly those
/// names as text cells; every record is well-formed; the data rows occupy
/// rows 1 ..= recs.len(), one per record in input order, and no row
/// beyond; and each record's row holds exactly the cells its values
/// write. (The pipeline driver passes the first record's field names as
/// the header, so under it these names are the first record's.)
pub proof fn lemma_header_and_row_count(
    keys: Seq<String>,
    recs: Seq<Result<serde_json::Map<String, serde_json::Value>, XErr>>,
)
    requires
        recs.len() > 0,
        sheet_outcome(no_cells(), keys, recs).1 is None,
        forall|j: int| 0 <= j < keys.len() ==> (#[trigger] keys[j])@.len() > 0,
    ensures
        forall|j: int|
            0 <= j < keys.len() ==> (sheet_outcome(no_cells(), keys, recs).0.dom().contains(
                (0, j),
            ) && sheet_outcome(no_cells(), keys, recs).0[(0, j)] == CellS::Text(
                (#[trigger] keys[j])@,
            )),
        forall|p: (int, int)|
            #[trigger] sheet_outcome(no_cells(), keys, recs).0.dom().contains(p) ==> 0 <= p.0
                <= recs.len(),
        forall|k: int| 0 <= k < recs.len() ==> #[trigger] recs[k] is Ok,
        forall|k: int, j: int|
            0 <= k < recs.len() && 0 <= j < row_fields(recs[k]).len() ==> (match written_cell(
                #[trigger] row_fields(recs[k])[j].1,
                k + 1,
                j,
            ) {
                Some(c) => sheet_outcome(no_cells(), keys, recs).0.dom().contains((k + 1, j))
                    && sheet_outcome(no_cells(), keys, recs).0[(k + 1, j)] == c,
                None => !sheet_outcome(no_cells(), keys, recs).0.dom().contains((k + 1, j)),
            }),
{
    lemma_sheet_shape(keys, recs);
    assert forall|j: int|
        0 <= j < keys.len() implies (sheet_outcome(no_cells(), keys, recs).0.dom().contains(
        (0, j),
    ) && sheet_outcome(no_cells(), keys, recs).0[(0, j)] == CellS::Text(keys[j]@)) by {
        assert(keys[j]@.len() > 0);
    }
}

} // verus!
