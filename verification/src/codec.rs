//! The two binary encodings of a batch, made by `arrow` and `parquet`.
//!
//! The cells of a batch are handed over column by column, its fields as
//! they are. What the two crates answer is not spelled out here: it is
//! named, by [`ipc_stream_outcome`] and [`parquet_outcome`], as a function
//! of what is handed over.

use crate::batch::{text_view, ColumnView, FieldView, Schema};
use arrow::array::{
    Array, ArrayRef, Float32Array, StringArray, UInt16Array, UInt32Array, UInt8Array,
};
use arrow::datatypes::{ArrowPrimitiveType, Field, Float32Type, Schema as ArrowSchema};
use arrow::error::ArrowError;
use arrow::ipc::writer::StreamWriter;
use arrow::record_batch::RecordBatch;
use parquet::arrow::ArrowWriter;
use parquet::errors::ParquetError;
use parquet::file::properties::WriterProperties;
use std::sync::Arc;
use vstd::prelude::*;

verus! {

/// `arrow::error::ArrowError`, carried from the writer to the caller.
#[verifier::external_type_specification]
#[verifier::external_body]
pub struct ExArrowError(ArrowError);

/// `parquet::errors::ParquetError`, carried from the writer to the caller.
#[verifier::external_type_specification]
#[verifier::external_body]
pub struct ExParquetError(ParquetError);

/// The cells of one column as `arrow` holds them: an
/// `arrow::array::ArrayRef`. Values are made by the five functions below
/// and by nothing else.
#[verifier::external_body]
pub struct ArrowArray {
    array: ArrayRef,
}

/// The cells of an [`ArrowArray`].
pub uninterp spec fn arrow_array_cells(array: ArrowArray) -> ColumnView;

/// What `arrow::ipc::writer::StreamWriter` answers for a schema of the
/// given fields followed by one record batch of the given columns: the
/// bytes that it writes, or nothing where `arrow` refuses the batch.
pub uninterp spec fn ipc_stream_outcome(fields: Seq<FieldView>, columns: Seq<ColumnView>) -> Option<
    Seq<u8>,
>;

/// What `parquet::arrow::ArrowWriter` answers for one record batch of the
/// given fields and columns, written as one row group under the
/// compression that `codec` names to `parquet`: the bytes that it writes,
/// or nothing where `arrow` or `parquet` refuses the batch or the name.
pub uninterp spec fn parquet_outcome(
    fields: Seq<FieldView>,
    columns: Seq<ColumnView>,
    codec: Seq<char>,
) -> Option<Seq<u8>>;

/// Whether the stream writer accepts a batch of the given fields and
/// columns.
pub open spec fn ipc_stream_accepted(fields: Seq<FieldView>, columns: Seq<ColumnView>) -> bool {
    ipc_stream_outcome(fields, columns) is Some
}

/// The bytes of the stream of a batch that the writer accepts.
pub open spec fn ipc_stream_encoding(fields: Seq<FieldView>, columns: Seq<ColumnView>) -> Seq<u8> {
    match ipc_stream_outcome(fields, columns) {
        Some(bytes) => bytes,
        None => Seq::empty(),
    }
}

/// Whether the file writer accepts a batch of the given fields and
/// columns under the compression that `codec` names.
pub open spec fn parquet_accepted(
    fields: Seq<FieldView>,
    columns: Seq<ColumnView>,
    codec: Seq<char>,
) -> bool {
    parquet_outcome(fields, columns, codec) is Some
}

/// The bytes of the file of a batch that the writer accepts.
pub open spec fn parquet_encoding(
    fields: Seq<FieldView>,
    columns: Seq<ColumnView>,
    codec: Seq<char>,
) -> Seq<u8> {
    match parquet_outcome(fields, columns, codec) {
        Some(bytes) => bytes,
        None => Seq::empty(),
    }
}

/// The cells of a sequence of arrays.
pub open spec fn arrow_cells(arrays: Seq<ArrowArray>) -> Seq<ColumnView> {
    arrays.map_values(|a: ArrowArray| arrow_array_cells(a))
}

/// Whether there is one array for each field, of the field's type.
pub open spec fn arrays_fit(fields: Seq<FieldView>, arrays: Seq<ArrowArray>) -> bool {
    &&& arrays.len() == fields.len()
    &&& forall|c: int|
        0 <= c < arrays.len() ==> arrow_array_cells(#[trigger] arrays[c]).data_type()
            == fields[c].data_type
}

/// Number of bytes that the texts take when written as UTF-8, one after
/// the other.
pub open spec fn text_bytes(cells: Seq<Seq<char>>) -> nat
    decreases cells.len(),
{
    if cells.len() == 0 {
        0
    } else {
        text_bytes(cells.drop_last()) + vstd::utf8::encode_utf8(cells.last()).len()
    }
}

/// `UInt32Array::from`: an array that holds the given values, none of them
/// null.
#[verifier::external_body]
pub(crate) fn arrow_u32_array(values: &Vec<u32>) -> (array: ArrowArray)
    ensures
        arrow_array_cells(array) == ColumnView::UInt32(values@),
{
    ArrowArray { array: Arc::new(UInt32Array::from(values.clone())) }
}

/// `UInt16Array::from`: an array that holds the given values, none of them
/// null.
#[verifier::external_body]
pub(crate) fn arrow_u16_array(values: &Vec<u16>) -> (array: ArrowArray)
    ensures
        arrow_array_cells(array) == ColumnView::UInt16(values@),
{
    ArrowArray { array: Arc::new(UInt16Array::from(values.clone())) }
}

/// `UInt8Array::from`: an array that holds the given values, none of them
/// null.
#[verifier::external_body]
pub(crate) fn arrow_u8_array(values: &Vec<u8>) -> (array: ArrowArray)
    ensures
        arrow_array_cells(array) == ColumnView::UInt8(values@),
{
    ArrowArray { array: Arc::new(UInt8Array::from(values.clone())) }
}

/// `Float32Array::from`: an array that holds the 32-bit IEEE-754 numbers
/// with the given bit patterns, none of them null.
#[verifier::external_body]
pub(crate) fn arrow_price_array(bits: &Vec<u32>) -> (array: ArrowArray)
    ensures
        arrow_array_cells(array) == ColumnView::Float32(bits@),
{
    let values: Vec<_> = bits.iter().map(
        |b| <<Float32Type as ArrowPrimitiveType>::Native>::from_bits(*b),
    ).collect();
    ArrowArray { array: Arc::new(Float32Array::from(values)) }
}

/// `StringArray::from_iter_values`: an array that holds the given texts,
/// none of them null. `arrow` panics where the texts together take more
/// bytes than a 32-bit offset can count.
#[verifier::external_body]
pub(crate) fn arrow_text_array(values: &Vec<String>) -> (array: ArrowArray)
    requires
        text_bytes(text_view(values@)) <= i32::MAX,
    ensures
        arrow_array_cells(array) == ColumnView::Utf8(text_view(values@)),
{
    ArrowArray { array: Arc::new(StringArray::from_iter_values(values.iter())) }
}

/// `Field::new` for each field, with the type of its array, then
/// `RecordBatch::try_new`, then `StreamWriter::try_new`, `write` and
/// `finish` into a buffer of the given capacity: the stream of the schema
/// and of one record batch. Whether `arrow` accepts the batch, and the
/// bytes it then writes, depend on the fields and cells alone.
#[verifier::external_body]
pub(crate) fn arrow_ipc_encode(schema: &Schema, arrays: Vec<ArrowArray>, capacity: usize) -> (encoded:
    Result<Vec<u8>, ArrowError>)
    requires
        arrays_fit(schema@, arrays@),
    ensures
        match encoded {
            Ok(bytes) => ipc_stream_outcome(schema@, arrow_cells(arrays@)) == Some(bytes@),
            Err(_) => ipc_stream_outcome(schema@, arrow_cells(arrays@)) is None,
        },
{
    let fields: Vec<Field> = schema.fields.iter().zip(&arrays).map(
        |(f, a)| Field::new(&f.name, a.array.data_type().clone(), f.nullable),
    ).collect();
    let columns = arrays.into_iter().map(|a| a.array).collect();
    let batch = RecordBatch::try_new(Arc::new(ArrowSchema::new(fields)), columns)?;
    let mut buffer = Vec::with_capacity(capacity);
    let mut writer = StreamWriter::try_new(&mut buffer, &batch.schema())?;
    writer.write(&batch)?;
    writer.finish()?;
    drop(writer);
    Ok(buffer)
}

/// `Field::new` for each field, with the type of its array, then
/// `RecordBatch::try_new`, then `ArrowWriter::try_new` with the
/// compression that `str::parse` makes of `codec` and without a limit on
/// the rows of a row group, `write` and `close` into a buffer of the given
/// capacity: a file of one row group. Whether `arrow` and `parquet` accept
/// the batch, and the bytes they then write, depend on the fields, the
/// cells and the name of the compression alone. `parquet` panics on a
/// compression that it is built without; it is always built with none.
#[verifier::external_body]
pub(crate) fn parquet_encode(
    schema: &Schema,
    arrays: Vec<ArrowArray>,
    codec: &str,
    capacity: usize,
) -> (encoded: Result<Vec<u8>, ParquetError>)
    requires
        arrays_fit(schema@, arrays@),
        codec@ == "UNCOMPRESSED"@,
    ensures
        match encoded {
            Ok(bytes) => parquet_outcome(schema@, arrow_cells(arrays@), codec@) == Some(bytes@),
            Err(_) => parquet_outcome(schema@, arrow_cells(arrays@), codec@) is None,
        },
{
    let fields: Vec<Field> = schema.fields.iter().zip(&arrays).map(
        |(f, a)| Field::new(&f.name, a.array.data_type().clone(), f.nullable),
    ).collect();
    let columns = arrays.into_iter().map(|a| a.array).collect();
    let batch = RecordBatch::try_new(Arc::new(ArrowSchema::new(fields)), columns)?;
    let props = WriterProperties::builder().set_compression(codec.parse()?);
    let props = props.set_max_row_group_row_count(None).build();
    let mut buffer = Vec::with_capacity(capacity);
    let mut writer = ArrowWriter::try_new(&mut buffer, batch.schema(), Some(props))?;
    writer.write(&batch)?;
    writer.close()?;
    Ok(buffer)
}

/// `ArrowError`'s `Display`: what the error says.
#[verifier::external_body]
pub(crate) fn arrow_error_text(error: &ArrowError) -> (text: String) {
    error.to_string()
}

/// `ParquetError`'s `Display`: what the error says.
#[verifier::external_body]
pub(crate) fn parquet_error_text(error: &ParquetError) -> (text: String) {
    error.to_string()
}

} // verus!
