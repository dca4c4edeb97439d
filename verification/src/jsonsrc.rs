//! The record source: parses a byte stream of consecutive JSON objects
//! (conventionally one per line) into ordered field lists, and renders
//! composite values back to compact JSON text.
//!
//! The JSON tokenizer itself is serde_json's; this module states what each
//! call returns and keeps the streaming logic (offset bookkeeping, abort on
//! the first malformed record) in verified code.

use vstd::prelude::*;
use crate::errs::XErr;

verus! {

#[verifier::external_type_specification]
#[verifier::external_body]
pub struct ExValue(serde_json::Value);

#[verifier::external_type_specification]
#[verifier::external_body]
pub struct ExNumber(serde_json::Number);

#[verifier::external_type_specification]
#[verifier::external_body]
#[verifier::reject_recursive_types(K)]
#[verifier::reject_recursive_types(V)]
pub struct ExMap<K, V>(serde_json::Map<K, V>);

/// A JSON-shaped value as the cell mapper sees it: the scalar payloads are
/// plain values, while composite payloads stay in serde_json's own types,
/// to be re-serialized whole.
pub enum JVal {
    Null,
    Bool(bool),
    Num(serde_json::Number),
    Text(String),
    Arr(Vec<serde_json::Value>),
    Obj(serde_json::Map<String, serde_json::Value>),
}

/// The ordered field list of a record: serde_json keeps object members in
/// insertion order, so this order is the record's own field order.
pub uninterp spec fn map_fields(m: serde_json::Map<String, serde_json::Value>) -> Seq<(String, JVal)>;

/// Whether serde_json::Number::as_f64 represents this number as a finite
/// double-precision float.
pub uninterp spec fn num_is_double(n: serde_json::Number) -> bool;

/// The compact JSON rendering of an array, as bytes.
pub uninterp spec fn jsonc_arr(a: Seq<serde_json::Value>) -> Seq<u8>;

/// The compact JSON rendering of an object, as bytes.
pub uninterp spec fn jsonc_obj(m: serde_json::Map<String, serde_json::Value>) -> Seq<u8>;

/// One step of reading the input: either the stream is exhausted, or one
/// record was read (with the byte offset just past it), or this record is
/// malformed and parsing cannot continue.
pub enum ParseStep {
    End,
    Rec(serde_json::Map<String, serde_json::Value>, usize),
    Fail(String),
}

/// What one parse step yields on the given bytes at the given offset.
/// The result is a function of the bytes and the offset alone.
pub uninterp spec fn parse_step(bytes: Seq<u8>, pos: int) -> ParseStep;

/// Relies on serde_json::Deserializer::from_slice / StreamDeserializer::next:
/// reads one JSON value from the remaining bytes (skipping leading
/// whitespace) as an ordered string-keyed object, reporting the offset just
/// past it, or reports the end of the stream (always so when no bytes
/// remain), or a parse failure. A successfully read value occupies at
/// least one byte, so the offset strictly advances and never passes the
/// end.
#[verifier::external_body]
fn parse_one(bytes: &[u8], pos: usize) -> (r: ParseStep)
    requires
        pos <= bytes@.len(),
    ensures
        r == parse_step(bytes@, pos as int),
        (r matches ParseStep::Rec(m, np) ==> pos < np <= bytes@.len()),
        (pos == bytes@.len() ==> r is End),
{
    let mut it = serde_json::Deserializer::from_slice(&bytes[pos..])
        .into_iter::<serde_json::Map<String, serde_json::Value>>();
    match it.next() {
        None => ParseStep::End,
        Some(Ok(m)) => ParseStep::Rec(m, pos + it.byte_offset()),
        Some(Err(e)) => ParseStep::Fail(e.to_string()),
    }
}

/// Relies on serde_json::Map::iter and the Clone impls of serde_json's
/// types: hands the object's members out in order, each value retagged,
/// one variant for one variant, into the library's own value type.
#[verifier::external_body]
pub fn map_to_fields(m: &serde_json::Map<String, serde_json::Value>) -> (r: Vec<(String, JVal)>)
    ensures
        r@ == map_fields(*m),
{
    m.iter()
        .map(|(k, v)| (k.clone(), match v {
            serde_json::Value::Null => JVal::Null,
            serde_json::Value::Bool(b) => JVal::Bool(*b),
            serde_json::Value::Number(n) => JVal::Num(n.clone()),
            serde_json::Value::String(s) => JVal::Text(s.clone()),
            serde_json::Value::Array(a) => JVal::Arr(a.clone()),
            serde_json::Value::Object(o) => JVal::Obj(o.clone()),
        }))
        .collect()
}

/// Relies on serde_json::to_writer: clears the buffer, then writes the
/// compact JSON rendering of the array into it. For a tree of
/// serde_json::Value (all object keys are strings) written to a Vec, the
/// serializer cannot fail, and its output is valid UTF-8.
#[verifier::external_body]
pub fn to_json_arr(val: &Vec<serde_json::Value>, buf: &mut Vec<u8>) -> (r: Result<(), XErr>)
    ensures
        r is Ok,
        final(buf)@ == jsonc_arr(val@),
        vstd::utf8::valid_utf8(final(buf)@),
{
    buf.clear();
    serde_json::to_writer(&mut *buf, val)
        .map_err(|e| XErr::UnableToConvertArrayToJson(e.to_string()))
}

/// Relies on serde_json::to_writer: as to_json_arr, for an object.
#[verifier::external_body]
pub fn to_json_obj(val: &serde_json::Map<String, serde_json::Value>, buf: &mut Vec<u8>) -> (r: Result<(), XErr>)
    ensures
        r is Ok,
        final(buf)@ == jsonc_obj(*val),
        vstd::utf8::valid_utf8(final(buf)@),
{
    buf.clear();
    serde_json::to_writer(&mut *buf, val)
        .map_err(|e| XErr::UnableToConvertObjectToJson(e.to_string()))
}

/// Relies on str::from_utf8: succeeds exactly on valid UTF-8, and then
/// decodes the bytes.
#[verifier::external_body]
pub fn bytes_to_str(bytes: &Vec<u8>) -> (r: Option<&str>)
    ensures
        r is Some <==> vstd::utf8::valid_utf8(bytes@),
        (r matches Some(s) ==> s@ == vstd::utf8::decode_utf8(bytes@)),
{
    std::str::from_utf8(bytes).ok()
}

/// The sequence of records that the byte stream yields from the given
/// offset on: records up to the first malformed one, which contributes the
/// final parse-failure element; a well-formed stream ends at end of input.
pub open spec fn jsonl_records(bytes: Seq<u8>, pos: int) -> Seq<
    Result<serde_json::Map<String, serde_json::Value>, XErr>,
>
    decreases bytes.len() - pos,
{
    if pos >= bytes.len() {
        Seq::empty()
    } else {
        match parse_step(bytes, pos) {
            ParseStep::End => Seq::empty(),
            ParseStep::Fail(msg) => seq![Err(XErr::UnableToParseLine(msg))],
            ParseStep::Rec(m, np) => if pos < np <= bytes.len() {
                seq![Ok(m)] + jsonl_records(bytes, np as int)
            } else {
                seq![Ok(m)]
            },
        }
    }
}

/// Reads the whole input into its record sequence: every record up to the
/// end of the input, or up to and including the first parse failure.
pub fn rdr2jsons(bytes: &[u8]) -> (r: Vec<
    Result<serde_json::Map<String, serde_json::Value>, XErr>,
>)
    ensures
        r@ == jsonl_records(bytes@, 0),
{
    let mut out: Vec<Result<serde_json::Map<String, serde_json::Value>, XErr>> = Vec::new();
    let mut pos: usize = 0;
    loop
        invariant
            pos <= bytes@.len(),
            jsonl_records(bytes@, 0) == out@ + jsonl_records(bytes@, pos as int),
        decreases bytes@.len() - pos,
    {
        match parse_one(bytes, pos) {
            ParseStep::End => {
                proof {
                    assert(jsonl_records(bytes@, pos as int) =~= Seq::empty());
                    assert(out@ + Seq::empty() =~= out@);
                }
                return out;
            },
            ParseStep::Fail(msg) => {
                proof {
                    assert(jsonl_records(bytes@, pos as int) =~= seq![
                        Err::<serde_json::Map<String, serde_json::Value>, XErr>(
                            XErr::UnableToParseLine(msg),
                        ),
                    ]);
                }
                let ghost prev = out@;
                out.push(Err(XErr::UnableToParseLine(msg)));
                proof {
                    assert(out@ =~= prev + jsonl_records(bytes@, pos as int));
                }
                return out;
            },
            ParseStep::Rec(m, np) => {
                proof {
                    assert(jsonl_records(bytes@, pos as int) =~= seq![
                        Ok::<serde_json::Map<String, serde_json::Value>, XErr>(m),
                    ] + jsonl_records(bytes@, np as int));
                }
                let ghost prev = out@;
                out.push(Ok(m));
                proof {
                    assert(out@ + jsonl_records(bytes@, np as int) =~= prev + jsonl_records(
                        bytes@,
                        pos as int,
                    ));
                }
                pos = np;
            },
        }
    }
}

/// The field names of a field list, in order.
pub open spec fn field_names(fields: Seq<(String, JVal)>) -> Seq<String> {
    Seq::new(fields.len(), |i: int| fields[i].0)
}

/// Copies the field names out of a field list, in order.
pub fn field_keys(fields: &Vec<(String, JVal)>) -> (r: Vec<String>)
    ensures
        r@ == field_names(fields@),
{
    let mut r: Vec<String> = Vec::new();
    let mut i: usize = 0;
    while i < fields.len()
        invariant
            i <= fields@.len(),
            r@ == field_names(fields@).take(i as int),
        decreases fields@.len() - i,
    {
        r.push(fields[i].0.clone());
        proof {
            assert(r@ =~= field_names(fields@).take(i as int + 1));
        }
        i = i + 1;
    }
    proof {
        assert(field_names(fields@).take(fields@.len() as int) =~= field_names(fields@));
    }
    r
}

} // verus!
