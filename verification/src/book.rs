//! The document assembler: owns the workbook, fills one named worksheet
//! from the record sequence, and renders the whole document to bytes.

use vstd::prelude::*;
use crate::errs::ErrKind;
use crate::errs::XErr;
use crate::errs::kind_of;
use crate::sheet::Sheet;
use crate::sheet::no_cells;
use crate::sheet::sheet_outcome;
use crate::sheet::valid_sheet_name;
use crate::sheet::ws_cells;
use crate::sheet::ws_name;
use crate::sheet::ws_new;
use crate::sheet::ws_set_name;

verus! {

#[verifier::external_type_specification]
#[verifier::external_body]
pub struct ExWorkbook(rust_xlsxwriter::Workbook);

/// The worksheets a workbook holds, in order.
pub uninterp spec fn wb_sheets(wb: rust_xlsxwriter::Workbook) -> Seq<rust_xlsxwriter::Worksheet>;

/// Relies on Workbook::new: a fresh workbook holds no worksheets.
#[verifier::external_body]
fn wb_new() -> (wb: rust_xlsxwriter::Workbook)
    ensures
        wb_sheets(wb) == Seq::<rust_xlsxwriter::Worksheet>::empty(),
{
    rust_xlsxwriter::Workbook::new()
}

/// Relies on Workbook::push_worksheet: appends the worksheet as it is. (A
/// worksheet with an empty name would get a generated one instead, so an
/// empty name is excluded here.)
#[verifier::external_body]
fn wb_push(wb: &mut rust_xlsxwriter::Workbook, ws: rust_xlsxwriter::Worksheet)
    requires
        ws_name(ws).len() > 0,
    ensures
        wb_sheets(*final(wb)) == wb_sheets(*old(wb)).push(ws),
{
    wb.push_worksheet(ws);
}

/// Relies on Workbook::save_to_buffer: renders the workbook as a complete
/// xlsx document to in-memory bytes, a non-empty container on success.
/// Which bytes come out is not promised (the container embeds metadata
/// such as timestamps); a failure of the underlying container writer is
/// reported as a save failure. Serialization reads the worksheets' cell
/// tables and names without changing them; only a workbook with no
/// worksheet at all gains a default one.
#[verifier::external_body]
fn wb_save(wb: &mut rust_xlsxwriter::Workbook) -> (r: Result<Vec<u8>, XErr>)
    ensures
        (r matches Err(e) ==> kind_of(e) == ErrKind::UnableToSaveToBuffer),
        (r matches Ok(bytes) ==> bytes@.len() > 0),
        (wb_sheets(*old(wb)).len() > 0 ==> wb_sheets(*final(wb)).len() == wb_sheets(
            *old(wb),
        ).len()),
        forall|i: int|
            0 <= i < wb_sheets(*old(wb)).len() && i < wb_sheets(*final(wb)).len()
                ==> ws_cells(#[trigger] wb_sheets(*final(wb))[i]) == ws_cells(
                wb_sheets(*old(wb))[i],
            ) && ws_name(wb_sheets(*final(wb))[i]) == ws_name(wb_sheets(*old(wb))[i]),
{
    wb.save_to_buffer().map_err(|e| XErr::UnableToSaveToBuffer(e.to_string()))
}

/// The workbook being assembled.
pub struct Book {
    pub wb: rust_xlsxwriter::Workbook,
}

impl Book {
    /// The worksheets assembled so far.
    pub open spec fn sheets(self) -> Seq<rust_xlsxwriter::Worksheet> {
        wb_sheets(self.wb)
    }
}

impl Default for Book {
    /// An empty workbook.
    fn default() -> (r: Self)
        ensures
            r.sheets() == Seq::<rust_xlsxwriter::Worksheet>::empty(),
    {
        Book { wb: wb_new() }
    }
}

impl Book {
    /// Creates a worksheet, names it, writes the header and the records
    /// into it, and appends it to the workbook. On any failure the workbook
    /// is left untouched and the error says what was rejected: the sheet
    /// name by the naming rules, or the first rejected record or cell.
    #[verifier::loop_isolation(false)]
    pub fn jsons2sheet(
        &mut self,
        jsons: Vec<Result<serde_json::Map<String, serde_json::Value>, XErr>>,
        sheet_name: String,
        buf: &mut Vec<u8>,
        keys: &Vec<String>,
    ) -> (r: Result<(), XErr>)
        ensures
            (r is Ok <==> (valid_sheet_name(sheet_name@) && sheet_outcome(
                no_cells(),
                keys@,
                jsons@,
            ).1 is None)),
            r is Ok ==> final(self).sheets().len() == old(self).sheets().len() + 1,
            r is Ok ==> final(self).sheets().drop_last() == old(self).sheets(),
            r is Ok ==> ws_name(final(self).sheets().last()) == sheet_name@,
            r is Ok ==> ws_cells(final(self).sheets().last()) == sheet_outcome(
                no_cells(),
                keys@,
                jsons@,
            ).0,
            r is Err ==> final(self).sheets() == old(self).sheets(),
            (r matches Err(e) ==> (!valid_sheet_name(sheet_name@) ==> kind_of(e)
                == ErrKind::InvalidSheetName)),
            (r matches Err(e) ==> (valid_sheet_name(sheet_name@) ==> sheet_outcome(
                no_cells(),
                keys@,
                jsons@,
            ).1 == Some(kind_of(e)))),
            (!crate::sheet::recs_have_composite(jsons@) ==> final(buf)@ == old(buf)@),
    {
        let mut ws = ws_new();
        match ws_set_name(&mut ws, sheet_name.as_str()) {
            Err(e) => {
                return Err(e);
            },
            Ok(()) => {},
        }
        let mut s = Sheet { ws };
        match s.write_rows(jsons, buf, keys) {
            Err(e) => {
                return Err(e);
            },
            Ok(()) => {},
        }
        let ghost before = self.sheets();
        wb_push(&mut self.wb, s.ws);
        proof {
            assert(self.sheets().drop_last() =~= before);
        }
        Ok(())
    }

    /// Renders the whole workbook to xlsx bytes in memory: a non-empty
    /// document on success, with every assembled worksheet's cells and
    /// name untouched either way.
    pub fn save_to_buffer(&mut self) -> (r: Result<Vec<u8>, XErr>)
        ensures
            (r matches Err(e) ==> kind_of(e) == ErrKind::UnableToSaveToBuffer),
            (r matches Ok(bytes) ==> bytes@.len() > 0),
            (old(self).sheets().len() > 0 ==> final(self).sheets().len() == old(
                self,
            ).sheets().len()),
            forall|i: int|
                0 <= i < old(self).sheets().len() && i < final(self).sheets().len()
                    ==> ws_cells(#[trigger] final(self).sheets()[i]) == ws_cells(
                    old(self).sheets()[i],
                ) && ws_name(final(self).sheets()[i]) == ws_name(old(self).sheets()[i]),
    {
        wb_save(&mut self.wb)
    }
}

} // verus!
