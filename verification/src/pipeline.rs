//! The pipeline driver: bytes in, a complete spreadsheet document out.
//!
//! It peeks at the first record to fix the header, then feeds the whole
//! record sequence (the first record included) through the assembler.

use vstd::prelude::*;
use crate::book::Book;
use crate::errs::ErrKind;
use crate::errs::XErr;
use crate::errs::kind_of;
use crate::jsonsrc::JVal;
use crate::jsonsrc::field_keys;
use crate::jsonsrc::field_names;
use crate::jsonsrc::jsonl_records;
use crate::jsonsrc::map_fields;
use crate::jsonsrc::map_to_fields;
use crate::jsonsrc::rdr2jsons;
use crate::sheet::no_cells;
use crate::sheet::sheet_outcome;
use crate::sheet::valid_sheet_name;

verus! {

/// The worksheet name used when none is configured.
pub const SHEET_NAME_DEFAULT: &'static str = "Sheet1";

/// The initial capacity of the scratch buffer.
pub const BUF_CAP_DEFAULT: usize = 0;

/// The header taken from the first record: its field names in order.
pub open spec fn first_keys(
    recs: Seq<Result<serde_json::Map<String, serde_json::Value>, XErr>>,
) -> Seq<String> {
    match recs[0] {
        Ok(m) => field_names(map_fields(m)),
        Err(_) => Seq::empty(),
    }
}

/// The abort the conversion reports on this input with this sheet name:
/// empty input, a malformed first record, a rejected sheet name, or the
/// first failure while writing the worksheet body; None when the worksheet
/// is assembled in full and only serialization remains.
pub open spec fn pipeline_err(bytes: Seq<u8>, name: Seq<char>) -> Option<ErrKind> {
    let recs = jsonl_records(bytes, 0);
    if recs.len() == 0 {
        Some(ErrKind::EmptyInput)
    } else if recs[0] is Err {
        Some(ErrKind::UnableToParseLine)
    } else if !valid_sheet_name(name) {
        Some(ErrKind::InvalidSheetName)
    } else {
        sheet_outcome(no_cells(), first_keys(recs), recs).1
    }
}

/// Runs the whole conversion on the given input bytes: derives the header
/// from the first record, assembles the worksheet, and renders the
/// document, returning its bytes. The scratch buffer is reused for every
/// composite value; its final contents are unspecified.
pub fn reader2jsons2sheet2writer(input: &[u8], sheet_name: String, buf: &mut Vec<u8>) -> (r:
    Result<Vec<u8>, XErr>)
    ensures
        (r is Ok ==> pipeline_err(input@, sheet_name@) is None),
        (pipeline_err(input@, sheet_name@) matches Some(k) ==> (r matches Err(e) && kind_of(e)
            == k)),
        (pipeline_err(input@, sheet_name@) is None ==> (r is Ok || (r matches Err(e) && kind_of(e)
            == ErrKind::UnableToSaveToBuffer))),
        (r matches Ok(bytes) ==> bytes@.len() > 0),
{
    let ghost recs = jsonl_records(input@, 0);
    let mut jsons = rdr2jsons(input);
    if jsons.len() == 0 {
        return Err(XErr::EmptyInput);
    }
    let first = jsons.remove(0);
    let m0 = match first {
        Err(e) => {
            proof {
                assert(recs[0] is Err && e == recs[0]->Err_0);
                assert(e matches XErr::UnableToParseLine(_));
            }
            return Err(e);
        },
        Ok(m) => m,
    };
    let fields0 = map_to_fields(&m0);
    let keys = field_keys(&fields0);
    jsons.insert(0, Ok(m0));
    proof {
        assert(jsons@ =~= recs);
        assert(keys@ == first_keys(recs));
    }
    let mut bk = Book::default();
    match bk.jsons2sheet(jsons, sheet_name, buf, &keys) {
        Err(e) => {
            return Err(e);
        },
        Ok(()) => {},
    }
    bk.save_to_buffer()
}

/// The conversion as the standard-stream entry point performs it, on the
/// bytes that stream would carry: default sheet name, fresh scratch buffer.
pub fn stdin2jsons2sheet2stdout_default(input: &[u8]) -> (r: Result<Vec<u8>, XErr>)
    ensures
        (r is Ok ==> pipeline_err(input@, SHEET_NAME_DEFAULT@) is None),
        (pipeline_err(input@, SHEET_NAME_DEFAULT@) matches Some(k) ==> (r matches Err(e)
            && kind_of(e) == k)),
        (pipeline_err(input@, SHEET_NAME_DEFAULT@) is None ==> (r is Ok || (r matches Err(e)
            && kind_of(e) == ErrKind::UnableToSaveToBuffer))),
        (r matches Ok(bytes) ==> bytes@.len() > 0),
{
    let mut buf: Vec<u8> = Vec::with_capacity(BUF_CAP_DEFAULT);
    reader2jsons2sheet2writer(input, SHEET_NAME_DEFAULT.to_owned(), &mut buf)
}

} // verus!
