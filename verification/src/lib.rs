//! Transcodes a stream of JSON records (one JSON object per input value,
//! conventionally one per line) into a single-worksheet spreadsheet document.
//!
//! The pipeline is: bytes -> parsed records -> cell writes -> workbook bytes.
//! The header row is taken from the first record's field names; every later
//! record is written positionally below it, one record per row.

pub mod errs;
pub mod jsonsrc;
pub mod sheet;
pub mod book;
pub mod pipeline;
pub mod laws;

pub use errs::XErr;
pub use jsonsrc::JVal;
pub use jsonsrc::rdr2jsons;
pub use sheet::Sheet;
pub use book::Book;
pub use pipeline::reader2jsons2sheet2writer;
pub use pipeline::stdin2jsons2sheet2stdout_default;
pub use pipeline::SHEET_NAME_DEFAULT;
pub use pipeline::BUF_CAP_DEFAULT;






