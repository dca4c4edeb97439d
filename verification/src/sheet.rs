//! The worksheet writer: one worksheet, written cell by cell.
//!
//! The worksheet itself is rust_xlsxwriter's; its contents are modelled as a
//! map from (row, column) to the cell written there, and every write method
//! states exactly how it changes that map and on which inputs it fails.
//! Rows and columns are bounded by the spreadsheet format: 1048576 rows,
//! 16384 columns, 32767 characters per text cell; column positions beyond
//! the 16-bit index range are a distinct overflow error.

use vstd::prelude::*;
use vstd::pervasive::arbitrary;
use vstd::utf8::decode_utf8;
use crate::errs::ErrKind;
use crate::errs::XErr;
use crate::errs::kind_of;
use crate::jsonsrc::JVal;
use crate::jsonsrc::bytes_to_str;
use crate::jsonsrc::jsonc_arr;
use crate::jsonsrc::jsonc_obj;
use crate::jsonsrc::map_fields;
use crate::jsonsrc::map_to_fields;
use crate::jsonsrc::num_is_double;
use crate::jsonsrc::to_json_arr;
use crate::jsonsrc::to_json_obj;

verus! {

#[verifier::external_type_specification]
#[verifier::external_body]
pub struct ExWorksheet(rust_xlsxwriter::Worksheet);

/// What one worksheet cell holds. A Blank cell was explicitly blanked:
/// it is stored in the document, which is distinct from a coordinate that
/// was never written at all (the latter is absent from the cell map).
pub enum CellS {
    Blank,
    Bool(bool),
    Num(serde_json::Number),
    Text(Seq<char>),
}

/// The cells written to a worksheet so far, by (row, column).
pub uninterp spec fn ws_cells(ws: rust_xlsxwriter::Worksheet) -> Map<(int, int), CellS>;

/// The worksheet's display name.
pub uninterp spec fn ws_name(ws: rust_xlsxwriter::Worksheet) -> Seq<char>;

/// The coordinate lies within the spreadsheet format's sheet bounds.
pub open spec fn in_bounds(row: int, col: int) -> bool {
    0 <= row < 1048576 && 0 <= col < 16384
}

/// A text write is accepted: empty text is silently ignored, and any other
/// text needs an in-bounds coordinate and at most 32767 characters.
pub open spec fn text_write_ok(row: int, col: int, s: Seq<char>) -> bool {
    s.len() == 0 || (in_bounds(row, col) && s.len() <= 32767)
}

/// The cell map after a text write: unchanged for empty text, else the text
/// lands at the coordinate.
pub open spec fn text_cells(
    cells: Map<(int, int), CellS>,
    row: int,
    col: int,
    s: Seq<char>,
) -> Map<(int, int), CellS> {
    if s.len() == 0 {
        cells
    } else {
        cells.insert((row, col), CellS::Text(s))
    }
}

/// The characters of the compact JSON rendering of an array.
pub open spec fn rendered_arr(a: Seq<serde_json::Value>) -> Seq<char> {
    decode_utf8(jsonc_arr(a))
}

/// The characters of the compact JSON rendering of an object.
pub open spec fn rendered_obj(m: serde_json::Map<String, serde_json::Value>) -> Seq<char> {
    decode_utf8(jsonc_obj(m))
}

/// Writing this value at this coordinate succeeds: null always (blanking
/// is never rejected), scalars within the sheet bounds (a number also needs a
/// finite double representation), text and composites under the text rules.
pub open spec fn value_write_ok(row: int, col: int, v: JVal) -> bool {
    match v {
        JVal::Null => true,
        JVal::Bool(_) => in_bounds(row, col),
        JVal::Num(n) => num_is_double(n) && in_bounds(row, col),
        JVal::Text(s) => text_write_ok(row, col, s@),
        JVal::Arr(a) => text_write_ok(row, col, rendered_arr(a@)),
        JVal::Obj(m) => text_write_ok(row, col, rendered_obj(m)),
    }
}

/// The cell map after successfully writing this value at this coordinate.
pub open spec fn value_cell_map(
    cells: Map<(int, int), CellS>,
    row: int,
    col: int,
    v: JVal,
) -> Map<(int, int), CellS> {
    match v {
        JVal::Null => if in_bounds(row, col) {
            cells.insert((row, col), CellS::Blank)
        } else {
            cells
        },
        JVal::Bool(b) => cells.insert((row, col), CellS::Bool(b)),
        JVal::Num(n) => cells.insert((row, col), CellS::Num(n)),
        JVal::Text(s) => text_cells(cells, row, col, s@),
        JVal::Arr(a) => text_cells(cells, row, col, rendered_arr(a@)),
        JVal::Obj(m) => text_cells(cells, row, col, rendered_obj(m)),
    }
}

/// The error kind a rejected value write reports. Meaningful only when
/// value_write_ok fails, so never for null.
pub open spec fn value_err_kind(row: int, col: int, v: JVal) -> ErrKind {
    match v {
        JVal::Null => arbitrary(),
        JVal::Bool(_) => ErrKind::UnableToWriteBool,
        JVal::Num(n) => if !num_is_double(n) {
            ErrKind::InvalidNumber
        } else {
            ErrKind::UnableToWriteDouble
        },
        JVal::Text(_) => ErrKind::UnableToWriteString,
        JVal::Arr(_) => ErrKind::UnableToWriteString,
        JVal::Obj(_) => ErrKind::UnableToWriteString,
    }
}

/// The value is a composite (an array or an object): only these use the
/// scratch buffer.
pub open spec fn is_composite(v: JVal) -> bool {
    v is Arr || v is Obj
}

/// Some field of the row holds a composite value.
pub open spec fn row_has_composite(fields: Seq<(String, JVal)>) -> bool {
    exists|j: int| 0 <= j < fields.len() && is_composite(#[trigger] fields[j].1)
}

/// Some record of the sequence holds a composite value.
pub open spec fn recs_have_composite(
    recs: Seq<Result<serde_json::Map<String, serde_json::Value>, XErr>>,
) -> bool {
    exists|i: int|
        0 <= i < recs.len() && (#[trigger] recs[i] matches Ok(m) && row_has_composite(
            map_fields(m),
        ))
}

/// The sheet name is accepted by the encoder: 1 to 31 characters, none of
/// the forbidden characters, no leading or trailing apostrophe.
pub open spec fn valid_sheet_char(c: char) -> bool {
    c != '*' && c != '?' && c != ':' && c != '[' && c != ']' && c != '\\' && c != '/'
}

/// The encoder's worksheet naming rules.
pub open spec fn valid_sheet_name(s: Seq<char>) -> bool {
    1 <= s.len() <= 31 && (forall|i: int| 0 <= i < s.len() ==> valid_sheet_char(#[trigger] s[i]))
        && s[0] != '\'' && s[s.len() - 1] != '\''
}

/// Writing one record's fields across a row, left to right from the given
/// position: the resulting cell map, and the first failure if one occurs.
/// Positions past the 16-bit column index range overflow before the value
/// is even examined.
pub open spec fn row_outcome(
    cells: Map<(int, int), CellS>,
    row: int,
    fields: Seq<(String, JVal)>,
    j: int,
) -> (Map<(int, int), CellS>, Option<ErrKind>)
    decreases fields.len() - j,
{
    if j >= fields.len() {
        (cells, None)
    } else if j >= 65536 {
        (cells, Some(ErrKind::ColumnOverflow))
    } else if !value_write_ok(row, j, fields[j].1) {
        (cells, Some(value_err_kind(row, j, fields[j].1)))
    } else {
        row_outcome(value_cell_map(cells, row, j, fields[j].1), row, fields, j + 1)
    }
}

/// Writing the header names as text cells across row 0, analogously.
pub open spec fn header_outcome(
    cells: Map<(int, int), CellS>,
    names: Seq<String>,
    j: int,
) -> (Map<(int, int), CellS>, Option<ErrKind>)
    decreases names.len() - j,
{
    if j >= names.len() {
        (cells, None)
    } else if j >= 65536 {
        (cells, Some(ErrKind::ColumnOverflow))
    } else if !text_write_ok(0, j, names[j]@) {
        (cells, Some(ErrKind::UnableToWriteString))
    } else {
        header_outcome(text_cells(cells, 0, j, names[j]@), names, j + 1)
    }
}

/// Writing the records as data rows 1, 2, ... in order: each step first
/// checks that the row index fits the encoder's 32-bit row type, then
/// propagates a parse failure, then writes the record's row; the first
/// failure aborts with the cells written so far.
pub open spec fn rows_outcome(
    cells: Map<(int, int), CellS>,
    recs: Seq<Result<serde_json::Map<String, serde_json::Value>, XErr>>,
    i: int,
) -> (Map<(int, int), CellS>, Option<ErrKind>)
    decreases recs.len() - i,
{
    if i >= recs.len() {
        (cells, None)
    } else if i + 1 > u32::MAX as int {
        (cells, Some(ErrKind::RowOverflow))
    } else {
        match recs[i] {
            Err(e) => (cells, Some(kind_of(e))),
            Ok(m) => {
                let stepped = row_outcome(cells, i + 1, map_fields(m), 0);
                if stepped.1 is Some {
                    stepped
                } else {
                    rows_outcome(stepped.0, recs, i + 1)
                }
            },
        }
    }
}

/// The whole worksheet body: the header across row 0, then one data row
/// per record.
pub open spec fn sheet_outcome(
    cells: Map<(int, int), CellS>,
    keys: Seq<String>,
    recs: Seq<Result<serde_json::Map<String, serde_json::Value>, XErr>>,
) -> (Map<(int, int), CellS>, Option<ErrKind>) {
    let headed = header_outcome(cells, keys, 0);
    if headed.1 is Some {
        headed
    } else {
        rows_outcome(headed.0, recs, 0)
    }
}

/// The cell map of a worksheet that nothing was written to.
pub open spec fn no_cells() -> Map<(int, int), CellS> {
    Map::empty()
}

/// Relies on Worksheet::new: a fresh worksheet holds no cells and has an
/// empty name (a name is assigned later).
#[verifier::external_body]
pub fn ws_new() -> (ws: rust_xlsxwriter::Worksheet)
    ensures
        ws_cells(ws) == no_cells(),
        ws_name(ws) == Seq::<char>::empty(),
{
    rust_xlsxwriter::Worksheet::new()
}

/// Relies on Worksheet::set_name (validate_sheetname): the name is accepted
/// exactly when it is 1 to 31 characters, contains none of * ? : [ ] \ /,
/// and neither starts nor ends with an apostrophe; the cells are untouched
/// either way.
#[verifier::external_body]
pub(crate) fn ws_set_name(ws: &mut rust_xlsxwriter::Worksheet, name: &str) -> (r: Result<(), XErr>)
    ensures
        (r is Ok <==> valid_sheet_name(name@)),
        r is Ok ==> ws_name(*final(ws)) == name@,
        r is Err ==> ws_name(*final(ws)) == ws_name(*old(ws)),
        ws_cells(*final(ws)) == ws_cells(*old(ws)),
        (r matches Err(e) ==> kind_of(e) == ErrKind::InvalidSheetName),
{
    ws.set_name(name)
        .map(|_| ())
        .map_err(|e| XErr::InvalidSheetName(format!("unable to set the sheet name: {e}")))
}

/// Relies on Worksheet::write_blank with the unformatted default format:
/// within the sheet bounds it stores an explicit blank cell, which is
/// written into the document and so is distinct from a cell that was never
/// written; outside the bounds the write is rejected, and that rejection
/// is dropped here, so blanking never fails.
#[verifier::external_body]
fn ws_blank_cell(ws: &mut rust_xlsxwriter::Worksheet, row: u32, col: u16)
    ensures
        ws_cells(*final(ws)) == (if in_bounds(row as int, col as int) {
            ws_cells(*old(ws)).insert((row as int, col as int), CellS::Blank)
        } else {
            ws_cells(*old(ws))
        }),
        ws_name(*final(ws)) == ws_name(*old(ws)),
{
    let _ = ws.write_blank(row, col, &rust_xlsxwriter::Format::new());
}

/// Relies on Worksheet::write_boolean: succeeds exactly within the sheet
/// bounds, storing a boolean cell; out of bounds nothing is written.
#[verifier::external_body]
fn ws_write_bool(ws: &mut rust_xlsxwriter::Worksheet, row: u32, col: u16, val: bool) -> (r: Result<
    (),
    XErr,
>)
    ensures
        (r is Ok <==> in_bounds(row as int, col as int)),
        r is Ok ==> ws_cells(*final(ws)) == ws_cells(*old(ws)).insert(
            (row as int, col as int),
            CellS::Bool(val),
        ),
        r is Err ==> ws_cells(*final(ws)) == ws_cells(*old(ws)),
        (r matches Err(e) ==> kind_of(e) == ErrKind::UnableToWriteBool),
        ws_name(*final(ws)) == ws_name(*old(ws)),
{
    ws.write_boolean(row, col, val)
        .map(|_| ())
        .map_err(|_| XErr::UnableToWriteBool(format!("rejected value: {val}")))
}

/// Relies on Number::as_f64 and Worksheet::write_number. With arbitrary
/// precision numbers, as_f64 yields Some exactly when the literal parses as
/// a finite double; the worksheet then accepts the (finite) double exactly
/// within the sheet bounds, storing a numeric cell. The two calls share one
/// body because the intermediate double cannot appear in a verified
/// signature.
#[verifier::external_body]
fn ws_write_num(ws: &mut rust_xlsxwriter::Worksheet, row: u32, col: u16, val: &serde_json::Number) -> (r: Result<
    (),
    XErr,
>)
    ensures
        (r is Ok <==> (num_is_double(*val) && in_bounds(row as int, col as int))),
        r is Ok ==> ws_cells(*final(ws)) == ws_cells(*old(ws)).insert(
            (row as int, col as int),
            CellS::Num(*val),
        ),
        r is Err ==> ws_cells(*final(ws)) == ws_cells(*old(ws)),
        (r matches Err(e) ==> (!num_is_double(*val) ==> kind_of(e) == ErrKind::InvalidNumber)),
        (r matches Err(e) ==> (num_is_double(*val) ==> kind_of(e) == ErrKind::UnableToWriteDouble)),
        ws_name(*final(ws)) == ws_name(*old(ws)),
{
    match val.as_f64() {
        None => Err(XErr::InvalidNumber(format!("rejected value: {val}"))),
        Some(f) => ws.write_number(row, col, f)
            .map(|_| ())
            .map_err(|_| XErr::UnableToWriteDouble(format!("rejected value: {f}"))),
    }
}

/// Relies on Worksheet::write_string: empty text is silently ignored;
/// other text is accepted exactly within the sheet bounds and the 32767
/// character limit, storing a text cell; nothing is written on failure.
#[verifier::external_body]
fn ws_write_str(ws: &mut rust_xlsxwriter::Worksheet, row: u32, col: u16, val: &str) -> (r: Result<
    (),
    XErr,
>)
    ensures
        (r is Ok <==> text_write_ok(row as int, col as int, val@)),
        r is Ok ==> ws_cells(*final(ws)) == text_cells(
            ws_cells(*old(ws)),
            row as int,
            col as int,
            val@,
        ),
        r is Err ==> ws_cells(*final(ws)) == ws_cells(*old(ws)),
        (r matches Err(e) ==> kind_of(e) == ErrKind::UnableToWriteString),
        ws_name(*final(ws)) == ws_name(*old(ws)),
{
    ws.write_string(row, col, val)
        .map(|_| ())
        .map_err(|_| XErr::UnableToWriteString(format!("rejected value: {val}")))
}

/// Relies on the format macro to render the detail message for an index
/// that exceeded a limit.
#[verifier::external_body]
fn idx_msg(what: &str, idx: usize) -> (r: String) {
    format!("rejected {what} index: {idx}")
}

/// One worksheet being written.
pub struct Sheet {
    pub ws: rust_xlsxwriter::Worksheet,
}

impl Sheet {
    /// The cells written so far.
    pub open spec fn cells(self) -> Map<(int, int), CellS> {
        ws_cells(self.ws)
    }

    /// The worksheet's name.
    pub open spec fn name(self) -> Seq<char> {
        ws_name(self.ws)
    }

    /// Blanks the target cell: an explicit empty cell, never a failure.
    pub fn write_null(&mut self, row: u32, col: u16)
        ensures
            final(self).cells() == (if in_bounds(row as int, col as int) {
                old(self).cells().insert((row as int, col as int), CellS::Blank)
            } else {
                old(self).cells()
            }),
            final(self).name() == old(self).name(),
    {
        ws_blank_cell(&mut self.ws, row, col);
    }

    /// Writes a boolean cell; fails out of the sheet bounds.
    pub fn write_bool(&mut self, row: u32, col: u16, val: bool) -> (r: Result<(), XErr>)
        ensures
            (r is Ok <==> in_bounds(row as int, col as int)),
            r is Ok ==> final(self).cells() == old(self).cells().insert(
                (row as int, col as int),
                CellS::Bool(val),
            ),
            r is Err ==> final(self).cells() == old(self).cells(),
            (r matches Err(e) ==> kind_of(e) == ErrKind::UnableToWriteBool),
            final(self).name() == old(self).name(),
    {
        ws_write_bool(&mut self.ws, row, col, val)
    }

    /// Writes a numeric cell as a double; fails with InvalidNumber when the
    /// literal has no finite double representation, else out of bounds.
    pub fn write_number(&mut self, row: u32, col: u16, val: &serde_json::Number) -> (r: Result<
        (),
        XErr,
    >)
        ensures
            (r is Ok <==> num_is_double(*val) && in_bounds(row as int, col as int)),
            r is Ok ==> final(self).cells() == old(self).cells().insert(
                (row as int, col as int),
                CellS::Num(*val),
            ),
            r is Err ==> final(self).cells() == old(self).cells(),
            (r matches Err(e) ==> kind_of(e) == (if !num_is_double(*val) {
                ErrKind::InvalidNumber
            } else {
                ErrKind::UnableToWriteDouble
            })),
            final(self).name() == old(self).name(),
    {
        ws_write_num(&mut self.ws, row, col, val)
    }

    /// Writes a text cell; empty text is ignored, over-long or out-of-bounds
    /// text is rejected.
    pub fn write_str(&mut self, row: u32, col: u16, val: &str) -> (r: Result<(), XErr>)
        ensures
            (r is Ok <==> text_write_ok(row as int, col as int, val@)),
            r is Ok ==> final(self).cells() == text_cells(
                old(self).cells(),
                row as int,
                col as int,
                val@,
            ),
            r is Err ==> final(self).cells() == old(self).cells(),
            (r matches Err(e) ==> kind_of(e) == ErrKind::UnableToWriteString),
            final(self).name() == old(self).name(),
    {
        ws_write_str(&mut self.ws, row, col, val)
    }

    /// As write_str, for an owned string.
    pub fn write_string(&mut self, row: u32, col: u16, val: String) -> (r: Result<(), XErr>)
        ensures
            (r is Ok <==> text_write_ok(row as int, col as int, val@)),
            r is Ok ==> final(self).cells() == text_cells(
                old(self).cells(),
                row as int,
                col as int,
                val@,
            ),
            r is Err ==> final(self).cells() == old(self).cells(),
            (r matches Err(e) ==> kind_of(e) == ErrKind::UnableToWriteString),
            final(self).name() == old(self).name(),
    {
        self.write_str(row, col, val.as_str())
    }

    /// Serializes the array to compact JSON in the scratch buffer and writes
    /// it as a text cell.
    pub fn write_array(
        &mut self,
        row: u32,
        col: u16,
        val: &Vec<serde_json::Value>,
        buf: &mut Vec<u8>,
    ) -> (r: Result<(), XErr>)
        ensures
            (r is Ok <==> text_write_ok(row as int, col as int, rendered_arr(val@))),
            r is Ok ==> final(self).cells() == text_cells(
                old(self).cells(),
                row as int,
                col as int,
                rendered_arr(val@),
            ),
            r is Err ==> final(self).cells() == old(self).cells(),
            (r matches Err(e) ==> kind_of(e) == ErrKind::UnableToWriteString),
            final(self).name() == old(self).name(),
            final(buf)@ == jsonc_arr(val@),
    {
        match to_json_arr(val, buf) {
            Err(e) => Err(e),
            Ok(()) => match bytes_to_str(buf) {
                None => Err(XErr::InvalidString),
                Some(s) => self.write_str(row, col, s),
            },
        }
    }

    /// Serializes the object to compact JSON in the scratch buffer and
    /// writes it as a text cell.
    pub fn write_object(
        &mut self,
        row: u32,
        col: u16,
        val: &serde_json::Map<String, serde_json::Value>,
        buf: &mut Vec<u8>,
    ) -> (r: Result<(), XErr>)
        ensures
            (r is Ok <==> text_write_ok(row as int, col as int, rendered_obj(*val))),
            r is Ok ==> final(self).cells() == text_cells(
                old(self).cells(),
                row as int,
                col as int,
                rendered_obj(*val),
            ),
            r is Err ==> final(self).cells() == old(self).cells(),
            (r matches Err(e) ==> kind_of(e) == ErrKind::UnableToWriteString),
            final(self).name() == old(self).name(),
            final(buf)@ == jsonc_obj(*val),
    {
        match to_json_obj(val, buf) {
            Err(e) => Err(e),
            Ok(()) => match bytes_to_str(buf) {
                None => Err(XErr::InvalidString),
                Some(s) => self.write_str(row, col, s),
            },
        }
    }

    /// Writes one value at the target cell, dispatching on its kind: null
    /// blanks the cell, scalars become typed cells, composites become their
    /// compact JSON text.
    pub fn write_value(&mut self, row: u32, col: u16, val: &JVal, buf: &mut Vec<u8>) -> (r: Result<
        (),
        XErr,
    >)
        ensures
            (r is Ok <==> value_write_ok(row as int, col as int, *val)),
            r is Ok ==> final(self).cells() == value_cell_map(
                old(self).cells(),
                row as int,
                col as int,
                *val,
            ),
            r is Err ==> final(self).cells() == old(self).cells(),
            (r matches Err(e) ==> kind_of(e) == value_err_kind(row as int, col as int, *val)),
            final(self).name() == old(self).name(),
            (!is_composite(*val) ==> final(buf)@ == old(buf)@),
    {
        match val {
            JVal::Null => {
                self.write_null(row, col);
                Ok(())
            },
            JVal::Bool(b) => self.write_bool(row, col, *b),
            JVal::Num(n) => self.write_number(row, col, n),
            JVal::Text(s) => self.write_str(row, col, s.as_str()),
            JVal::Arr(a) => self.write_array(row, col, a, buf),
            JVal::Obj(m) => self.write_object(row, col, m, buf),
        }
    }

    /// Writes one record as one row, each field at its own position in the
    /// record's field order; aborts at the first rejected cell, leaving the
    /// cells already written.
    #[verifier::loop_isolation(false)]
    pub fn write_row(
        &mut self,
        row: u32,
        val: &serde_json::Map<String, serde_json::Value>,
        buf: &mut Vec<u8>,
    ) -> (r: Result<(), XErr>)
        ensures
            final(self).cells() == row_outcome(
                old(self).cells(),
                row as int,
                map_fields(*val),
                0,
            ).0,
            (r is Ok <==> row_outcome(old(self).cells(), row as int, map_fields(*val), 0).1
                is None),
            (r matches Err(e) ==> row_outcome(old(self).cells(), row as int, map_fields(*val), 0).1
                == Some(kind_of(e))),
            final(self).name() == old(self).name(),
            (!row_has_composite(map_fields(*val)) ==> final(buf)@ == old(buf)@),
    {
        let ghost cells0 = self.cells();
        let ghost name0 = self.name();
        let ghost buf0 = buf@;
        let fields = map_to_fields(val);
        let mut cno: usize = 0;
        while cno < fields.len()
            invariant
                cno <= fields@.len(),
                fields@ == map_fields(*val),
                !row_has_composite(fields@) ==> buf@ == buf0,
                row_outcome(cells0, row as int, fields@, 0) == row_outcome(
                    self.cells(),
                    row as int,
                    fields@,
                    cno as int,
                ),
                self.name() == name0,
            decreases fields@.len() - cno,
        {
            if cno > 65535 {
                return Err(XErr::ColumnOverflow(idx_msg("column", cno)));
            }
            let col: u16 = cno as u16;
            match self.write_value(row, col, &fields[cno].1, buf) {
                Ok(()) => {},
                Err(e) => {
                    return Err(e);
                },
            }
            cno = cno + 1;
        }
        Ok(())
    }

    /// Writes the header names as text cells across row 0, each at its own
    /// position.
    #[verifier::loop_isolation(false)]
    pub fn write_header(&mut self, headers: &Vec<String>) -> (r: Result<(), XErr>)
        ensures
            final(self).cells() == header_outcome(old(self).cells(), headers@, 0).0,
            (r is Ok <==> header_outcome(old(self).cells(), headers@, 0).1 is None),
            (r matches Err(e) ==> header_outcome(old(self).cells(), headers@, 0).1 == Some(
                kind_of(e),
            )),
            final(self).name() == old(self).name(),
    {
        let ghost cells0 = self.cells();
        let ghost name0 = self.name();
        let mut cno: usize = 0;
        while cno < headers.len()
            invariant
                cno <= headers@.len(),
                header_outcome(cells0, headers@, 0) == header_outcome(
                    self.cells(),
                    headers@,
                    cno as int,
                ),
                self.name() == name0,
            decreases headers@.len() - cno,
        {
            if cno > 65535 {
                return Err(XErr::ColumnOverflow(idx_msg("column", cno)));
            }
            let col: u16 = cno as u16;
            match self.write_str(0, col, headers[cno].as_str()) {
                Ok(()) => {},
                Err(e) => {
                    return Err(e);
                },
            }
            cno = cno + 1;
        }
        Ok(())
    }

    /// Writes the header at row 0, then every record as a data row from
    /// row 1 on, in input order; the first failure of any kind (a row index
    /// beyond the 32-bit range, a record's parse failure, or a rejected
    /// cell) aborts with the cells written so far.
    #[verifier::loop_isolation(false)]
    pub fn write_rows(
        &mut self,
        values: Vec<Result<serde_json::Map<String, serde_json::Value>, XErr>>,
        buf: &mut Vec<u8>,
        keys: &Vec<String>,
    ) -> (r: Result<(), XErr>)
        ensures
            final(self).cells() == sheet_outcome(old(self).cells(), keys@, values@).0,
            (r is Ok <==> sheet_outcome(old(self).cells(), keys@, values@).1 is None),
            (r matches Err(e) ==> sheet_outcome(old(self).cells(), keys@, values@).1 == Some(
                kind_of(e),
            )),
            final(self).name() == old(self).name(),
            (!recs_have_composite(values@) ==> final(buf)@ == old(buf)@),
    {
        let ghost cells0 = self.cells();
        let ghost name0 = self.name();
        let ghost buf0 = buf@;
        let ghost recs = values@;
        match self.write_header(keys) {
            Ok(()) => {},
            Err(e) => {
                return Err(e);
            },
        }
        let ghost headed = header_outcome(cells0, keys@, 0).0;
        let mut vals = values;
        let mut rno: usize = 0;
        while vals.len() > 0
            invariant
                rno + vals@.len() == recs.len(),
                vals@ == recs.subrange(rno as int, recs.len() as int),
                rows_outcome(headed, recs, 0) == rows_outcome(self.cells(), recs, rno as int),
                self.name() == name0,
                sheet_outcome(cells0, keys@, recs) == rows_outcome(headed, recs, 0),
                !recs_have_composite(recs) ==> buf@ == buf0,
            decreases vals@.len(),
        {
            if rno >= (u32::MAX as usize) {
                return Err(XErr::RowOverflow(idx_msg("row", rno)));
            }
            let rix: usize = rno + 1;
            let ru: u32 = rix as u32;
            proof {
                assert(recs[rno as int] == vals@[0]);
            }
            match vals.remove(0) {
                Err(e) => {
                    return Err(e);
                },
                Ok(m) => {
                    match self.write_row(ru, &m, buf) {
                        Ok(()) => {},
                        Err(e) => {
                            return Err(e);
                        },
                    }
                },
            }
            rno = rno + 1;
            proof {
                assert(vals@ =~= recs.subrange(rno as int, recs.len() as int));
            }
        }
        Ok(())
    }
}

} // verus!
