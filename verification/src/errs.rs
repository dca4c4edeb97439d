//! The error taxonomy of the conversion pipeline.
//!
//! Every failure is fail-fast: the first error of any kind aborts the whole
//! conversion. Each variant carries a human-readable detail string where one
//! is useful; contracts speak of the variant (the kind), not of the message.

use vstd::prelude::*;

verus! {

/// One failure kind per distinct way the conversion can abort.
#[derive(Debug, Clone)]
pub enum XErr {
    UnableToWriteBool(String),
    UnableToWriteDouble(String),
    UnableToWriteString(String),
    UnableToConvertArrayToJson(String),
    UnableToConvertObjectToJson(String),
    InvalidString,
    InvalidNumber(String),
    ColumnOverflow(String),
    RowOverflow(String),
    UnableToParseLine(String),
    InvalidSheetName(String),
    UnableToSaveToBuffer(String),
    UnableToWriteToWriter,
    UnableToFlush,
    EmptyInput,
}

/// An error kind stripped of its detail message, for use in contracts:
/// two errors of the same kind differ only in their descriptive text.
pub enum ErrKind {
    UnableToWriteBool,
    UnableToWriteDouble,
    UnableToWriteString,
    UnableToConvertArrayToJson,
    UnableToConvertObjectToJson,
    InvalidString,
    InvalidNumber,
    ColumnOverflow,
    RowOverflow,
    UnableToParseLine,
    InvalidSheetName,
    UnableToSaveToBuffer,
    UnableToWriteToWriter,
    UnableToFlush,
    EmptyInput,
}

/// The kind of an error value.
pub open spec fn kind_of(e: XErr) -> ErrKind {
    match e {
        XErr::UnableToWriteBool(_) => ErrKind::UnableToWriteBool,
        XErr::UnableToWriteDouble(_) => ErrKind::UnableToWriteDouble,
        XErr::UnableToWriteString(_) => ErrKind::UnableToWriteString,
        XErr::UnableToConvertArrayToJson(_) => ErrKind::UnableToConvertArrayToJson,
        XErr::UnableToConvertObjectToJson(_) => ErrKind::UnableToConvertObjectToJson,
        XErr::InvalidString => ErrKind::InvalidString,
        XErr::InvalidNumber(_) => ErrKind::InvalidNumber,
        XErr::ColumnOverflow(_) => ErrKind::ColumnOverflow,
        XErr::RowOverflow(_) => ErrKind::RowOverflow,
        XErr::UnableToParseLine(_) => ErrKind::UnableToParseLine,
        XErr::InvalidSheetName(_) => ErrKind::InvalidSheetName,
        XErr::UnableToSaveToBuffer(_) => ErrKind::UnableToSaveToBuffer,
        XErr::UnableToWriteToWriter => ErrKind::UnableToWriteToWriter,
        XErr::UnableToFlush => ErrKind::UnableToFlush,
        XErr::EmptyInput => ErrKind::EmptyInput,
    }
}

} // verus!
