//! A batch as bytes: the streaming format and the columnar file format,
//! each with a ceiling on its size.

use crate::batch::{text_view, Batch, Column, ColumnView, FieldView};
use crate::codec::{
    arrays_fit, arrow_array_cells, arrow_cells, arrow_error_text, arrow_ipc_encode,
    arrow_price_array, arrow_text_array, arrow_u16_array, arrow_u32_array, arrow_u8_array,
    ipc_stream_accepted, ipc_stream_encoding, ipc_stream_outcome, parquet_accepted,
    parquet_encode, parquet_encoding, parquet_error_text, parquet_outcome, text_bytes,
    ArrowArray,
};
use crate::text::joined;
use crate::types::{tick_columns, tick_schema, TickBatchBuilder, TickRow};
use vstd::prelude::*;

verus! {

/// The most bytes that a stream may take: 100 MiB.
pub const IPC_SIZE_LIMIT: usize = 104857600;

/// The most bytes that a file may take: 50 MiB.
pub const PARQUET_SIZE_LIMIT: usize = 52428800;

/// The most bytes set aside for a stream before it is written: 1 MiB.
pub const IPC_BUFFER_CAP: usize = 1048576;

/// The most bytes set aside for a file before it is written: 512 KiB.
pub const PARQUET_BUFFER_CAP: usize = 524288;

/// The most bytes that the texts of one column may take together.
pub const TEXT_BYTES_LIMIT: usize = 2147483647;

/// How the pages of a file are compressed. The writer is built without
/// any codec, so there is one policy.
#[derive(Clone, Copy, Debug, PartialEq, Eq, Structural)]
pub enum FileCompression {
    /// Not at all.
    Uncompressed,
}

impl FileCompression {
    /// The name by which the writer knows the compression.
    pub open spec fn codec_text(self) -> Seq<char> {
        "UNCOMPRESSED"@
    }

    /// The name by which the writer knows the compression.
    pub fn codec_name(&self) -> (name: &'static str)
        ensures
            name@ == self.codec_text(),
    {
        "UNCOMPRESSED"
    }
}

impl Default for FileCompression {
    fn default() -> (policy: FileCompression)
        ensures
            policy == FileCompression::Uncompressed,
    {
        FileCompression::Uncompressed
    }
}

/// The two encodings.
#[derive(Clone, Copy, Debug, PartialEq, Eq, Structural)]
pub enum Format {
    /// The streaming format.
    Stream,
    /// The columnar file format.
    File,
}

/// Why a batch was not encoded.
pub enum EncodeError {
    /// The batch has no fields.
    EmptySchema,
    /// The texts of a column take more bytes than a column can hold.
    TextTooLong,
    /// The writer of the format refused the batch; the text is what it
    /// said.
    Writer(Format, String),
    /// The encoding is longer than its format allows.
    TooLarge(Format),
}

/// Whether the texts of some column take more bytes than a column can
/// hold.
pub open spec fn has_oversized_text(columns: Seq<ColumnView>) -> bool {
    exists|c: int|
        0 <= c < columns.len() && (#[trigger] columns[c] matches ColumnView::Utf8(cells)
            && text_bytes(cells) > TEXT_BYTES_LIMIT)
}

/// The bytes to set aside for `rows` times `columns` cells of
/// `cell_bytes` bytes each, and `cap` where that is more.
pub open spec fn estimated_size(rows: nat, columns: nat, cell_bytes: nat, cap: nat) -> nat {
    if rows * columns * cell_bytes <= cap {
        rows * columns * cell_bytes
    } else {
        cap
    }
}

/// Whether `result` is how the encoding of a batch in `format` ends,
/// where `outcome` is what the writer answers for it.
///
/// A batch without fields is refused, then one with a text column that is
/// too long. For any other batch the result is the refusal of the writer
/// where it refuses, its bytes where they are at most `limit`, and the
/// error `TooLarge` where they are more.
pub open spec fn is_encode_result(
    format: Format,
    fields: Seq<FieldView>,
    columns: Seq<ColumnView>,
    outcome: Option<Seq<u8>>,
    limit: usize,
    result: Result<Vec<u8>, EncodeError>,
) -> bool {
    if fields.len() == 0 {
        result matches Err(EncodeError::EmptySchema)
    } else if has_oversized_text(columns) {
        result matches Err(EncodeError::TextTooLong)
    } else {
        match outcome {
            None => result matches Err(EncodeError::Writer(f, _)) && f == format,
            Some(encoding) => if encoding.len() > limit {
                result matches Err(EncodeError::TooLarge(f)) && f == format
            } else {
                result matches Ok(bytes) && bytes@ == encoding
            },
        }
    }
}

/// Whether the library itself lets a batch through to the writer: it has
/// fields, and no text column of it is too long.
pub open spec fn reaches_writer(fields: Seq<FieldView>, columns: Seq<ColumnView>) -> bool {
    fields.len() > 0 && !has_oversized_text(columns)
}

/// The bytes to set aside before writing.
pub fn estimate_buffer_size(rows: usize, columns: usize, cell_bytes: usize, cap: usize) -> (size:
    usize)
    ensures
        size == estimated_size(rows as nat, columns as nat, cell_bytes as nat, cap as nat),
{
    if rows == 0 || columns == 0 || cell_bytes == 0 {
        assert(rows * columns * cell_bytes == 0) by (nonlinear_arith)
            requires
                rows == 0 || columns == 0 || cell_bytes == 0,
        ;
        return 0;
    }
    match rows.checked_mul(columns) {
        Some(cells) => match cells.checked_mul(cell_bytes) {
            Some(bytes) => if bytes <= cap {
                bytes
            } else {
                cap
            },
            None => cap,
        },
        None => {
            assert(rows * columns * cell_bytes >= rows * columns) by (nonlinear_arith)
                requires
                    rows > 0,
                    columns > 0,
                    cell_bytes > 0,
            ;
            cap
        },
    }
}

/// What comes of the answer of the writer of `format`: its bytes where
/// they are at most `limit`, `TooLarge` where they are more, and its
/// refusal as it is.
pub fn check_encoded(encoded: Result<Vec<u8>, String>, format: Format, limit: usize) -> (result:
    Result<Vec<u8>, EncodeError>)
    ensures
        match encoded {
            Ok(bytes) => if bytes.len() > limit {
                result matches Err(EncodeError::TooLarge(f)) && f == format
            } else {
                result == Ok::<Vec<u8>, EncodeError>(bytes)
            },
            Err(text) => result == Err::<Vec<u8>, EncodeError>(EncodeError::Writer(format, text)),
        },
{
    match encoded {
        Ok(bytes) => if bytes.len() > limit {
            Err(EncodeError::TooLarge(format))
        } else {
            Ok(bytes)
        },
        Err(text) => Err(EncodeError::Writer(format, text)),
    }
}

/// One more text adds its bytes.
proof fn lemma_text_bytes_step(cells: Seq<Seq<char>>, i: int)
    requires
        0 <= i < cells.len(),
    ensures
        text_bytes(cells.take(i + 1)) == text_bytes(cells.take(i)) + vstd::utf8::encode_utf8(
            cells[i],
        ).len(),
{
    assert(cells.take(i + 1).drop_last() =~= cells.take(i));
}

/// The bytes of the first texts are among the bytes of all.
proof fn lemma_text_bytes_grow(cells: Seq<Seq<char>>, i: int)
    requires
        0 <= i <= cells.len(),
    ensures
        text_bytes(cells.take(i)) <= text_bytes(cells),
    decreases cells.len() - i,
{
    if i < cells.len() {
        lemma_text_bytes_step(cells, i);
        lemma_text_bytes_grow(cells, i + 1);
    } else {
        assert(cells.take(i) =~= cells);
    }
}

/// Whether the texts together take no more bytes than a column can hold.
fn text_fits(cells: &Vec<String>) -> (fits: bool)
    ensures
        fits == (text_bytes(text_view(cells@)) <= TEXT_BYTES_LIMIT),
{
    let mut total: usize = 0;
    let mut i: usize = 0;
    while i < cells.len()
        invariant
            i <= cells.len(),
            total == text_bytes(text_view(cells@).take(i as int)),
            total <= TEXT_BYTES_LIMIT,
        decreases cells.len() - i,
    {
        proof {
            lemma_text_bytes_step(text_view(cells@), i as int);
            lemma_text_bytes_grow(text_view(cells@), i + 1);
        }
        let text = cells[i].as_str();
        let length: usize = text.as_bytes().len();
        assert(text_view(cells@)[i as int] == text@);
        assert(length == vstd::utf8::encode_utf8(text@).len());
        if length > TEXT_BYTES_LIMIT - total {
            return false;
        }
        total = total + length;
        i += 1;
    }
    assert(text_view(cells@).take(cells.len() as int) =~= text_view(cells@));
    true
}

/// The columns of `batch` as the writers take them.
fn to_arrow_arrays(batch: &Batch) -> (made: Result<Vec<ArrowArray>, EncodeError>)
    ensures
        match made {
            Ok(arrays) => !has_oversized_text(batch@.columns) && arrow_cells(arrays@)
                == batch@.columns && arrays_fit(batch@.fields, arrays@),
            Err(e) => has_oversized_text(batch@.columns) && e matches EncodeError::TextTooLong,
        },
{
    let count = batch.num_columns();
    let mut arrays: Vec<ArrowArray> = Vec::new();
    let mut c: usize = 0;
    while c < count
        invariant
            c <= count,
            count == batch@.columns.len(),
            count == batch@.fields.len(),
            arrays.len() == c,
            forall|k: int|
                0 <= k < c ==> arrow_array_cells(#[trigger] arrays@[k]) == batch@.columns[k]
                    && batch@.columns[k].data_type() == batch@.fields[k].data_type,
            forall|k: int|
                0 <= k < c ==> !(#[trigger] batch@.columns[k] matches ColumnView::Utf8(cells)
                    && text_bytes(cells) > TEXT_BYTES_LIMIT),
        decreases count - c,
    {
        let array = match batch.column(c) {
            Column::UInt32(cells) => arrow_u32_array(cells),
            Column::UInt16(cells) => arrow_u16_array(cells),
            Column::UInt8(cells) => arrow_u8_array(cells),
            Column::Float32(cells) => arrow_price_array(cells),
            Column::Utf8(cells) => {
                if !text_fits(cells) {
                    return Err(EncodeError::TextTooLong);
                }
                arrow_text_array(cells)
            },
        };
        arrays.push(array);
        c += 1;
    }
    assert(arrow_cells(arrays@) =~= batch@.columns);
    Ok(arrays)
}

/// The batch in the streaming format: its schema, then all its rows as one
/// record batch.
///
/// A batch without fields is refused, as is one with a text column too
/// long to hold. The buffer is sized beforehand from the numbers of rows
/// and columns, at most 1 MiB. Every other batch is handed to the writer.
/// The result is the stream exactly where the writer accepts the batch and
/// the stream is at most 100 MiB long. A batch without rows is encoded
/// like any other.
pub fn serialize_batch_to_ipc(batch: &Batch) -> (result: Result<Vec<u8>, EncodeError>)
    ensures
        is_encode_result(
            Format::Stream,
            batch@.fields,
            batch@.columns,
            ipc_stream_outcome(batch@.fields, batch@.columns),
            IPC_SIZE_LIMIT,
            result,
        ),
        reaches_writer(batch@.fields, batch@.columns) ==> (result is Ok <==> ipc_stream_accepted(
            batch@.fields,
            batch@.columns,
        ) && ipc_stream_encoding(batch@.fields, batch@.columns).len() <= IPC_SIZE_LIMIT),
        reaches_writer(batch@.fields, batch@.columns) ==> (result matches Err(
            EncodeError::Writer(_, _),
        ) <==> !ipc_stream_accepted(batch@.fields, batch@.columns)),
        result matches Ok(bytes) ==> bytes@ == ipc_stream_encoding(batch@.fields, batch@.columns),
{
    if batch.num_columns() == 0 {
        return Err(EncodeError::EmptySchema);
    }
    let arrays = match to_arrow_arrays(batch) {
        Ok(arrays) => arrays,
        Err(e) => {
            return Err(e);
        },
    };
    let capacity = estimate_buffer_size(batch.num_rows(), batch.num_columns(), 8, IPC_BUFFER_CAP);
    let encoded = match arrow_ipc_encode(batch.schema(), arrays, capacity) {
        Ok(bytes) => Ok(bytes),
        Err(error) => Err(arrow_error_text(&error)),
    };
    check_encoded(encoded, Format::Stream, IPC_SIZE_LIMIT)
}

/// The stream of a tick batch without rows.
pub fn serialize_empty_batch_to_ipc() -> (result: Result<Vec<u8>, EncodeError>)
    ensures
        is_encode_result(
            Format::Stream,
            tick_schema(),
            tick_columns(Seq::<TickRow>::empty()),
            ipc_stream_outcome(tick_schema(), tick_columns(Seq::<TickRow>::empty())),
            IPC_SIZE_LIMIT,
            result,
        ),
        result is Ok <==> ipc_stream_accepted(tick_schema(), tick_columns(Seq::<TickRow>::empty()))
            && ipc_stream_encoding(tick_schema(), tick_columns(Seq::<TickRow>::empty())).len()
            <= IPC_SIZE_LIMIT,
{
    let empty_batch = TickBatchBuilder::new(0).finish();
    proof {
        lemma_empty_tick_batch_reaches_writer();
    }
    serialize_batch_to_ipc(&empty_batch)
}

/// The batch in the columnar file format: one row group, not compressed.
///
/// A batch without fields is refused, as is one with a text column too
/// long to hold. The buffer is sized beforehand from the numbers of rows
/// and columns, at most 512 KiB. Every other batch is handed to the
/// writer. The result is the file exactly where the writer accepts the
/// batch and the file is at most 50 MiB long. A batch without rows is
/// encoded like any other.
pub fn serialize_batch_to_parquet(batch: &Batch) -> (result: Result<Vec<u8>, EncodeError>)
    ensures
        is_encode_result(
            Format::File,
            batch@.fields,
            batch@.columns,
            parquet_outcome(
                batch@.fields,
                batch@.columns,
                FileCompression::Uncompressed.codec_text(),
            ),
            PARQUET_SIZE_LIMIT,
            result,
        ),
        reaches_writer(batch@.fields, batch@.columns) ==> (result is Ok <==> parquet_accepted(
            batch@.fields,
            batch@.columns,
            FileCompression::Uncompressed.codec_text(),
        ) && parquet_encoding(
            batch@.fields,
            batch@.columns,
            FileCompression::Uncompressed.codec_text(),
        ).len() <= PARQUET_SIZE_LIMIT),
        reaches_writer(batch@.fields, batch@.columns) ==> (result matches Err(
            EncodeError::Writer(_, _),
        ) <==> !parquet_accepted(
            batch@.fields,
            batch@.columns,
            FileCompression::Uncompressed.codec_text(),
        )),
        result matches Ok(bytes) ==> bytes@ == parquet_encoding(
            batch@.fields,
            batch@.columns,
            FileCompression::Uncompressed.codec_text(),
        ),
{
    if batch.num_columns() == 0 {
        return Err(EncodeError::EmptySchema);
    }
    let arrays = match to_arrow_arrays(batch) {
        Ok(arrays) => arrays,
        Err(e) => {
            return Err(e);
        },
    };
    let capacity = estimate_buffer_size(
        batch.num_rows(),
        batch.num_columns(),
        4,
        PARQUET_BUFFER_CAP,
    );
    let compression = FileCompression::default();
    let encoded = match parquet_encode(batch.schema(), arrays, compression.codec_name(), capacity) {
        Ok(bytes) => Ok(bytes),
        Err(error) => Err(parquet_error_text(&error)),
    };
    check_encoded(encoded, Format::File, PARQUET_SIZE_LIMIT)
}

/// The file of a tick batch without rows.
pub fn serialize_empty_batch_to_parquet() -> (result: Result<Vec<u8>, EncodeError>)
    ensures
        is_encode_result(
            Format::File,
            tick_schema(),
            tick_columns(Seq::<TickRow>::empty()),
            parquet_outcome(
                tick_schema(),
                tick_columns(Seq::<TickRow>::empty()),
                FileCompression::Uncompressed.codec_text(),
            ),
            PARQUET_SIZE_LIMIT,
            result,
        ),
        result is Ok <==> parquet_accepted(
            tick_schema(),
            tick_columns(Seq::<TickRow>::empty()),
            FileCompression::Uncompressed.codec_text(),
        ) && parquet_encoding(
            tick_schema(),
            tick_columns(Seq::<TickRow>::empty()),
            FileCompression::Uncompressed.codec_text(),
        ).len() <= PARQUET_SIZE_LIMIT,
{
    let empty_batch = TickBatchBuilder::new(0).finish();
    proof {
        lemma_empty_tick_batch_reaches_writer();
    }
    serialize_batch_to_parquet(&empty_batch)
}

/// A tick batch without rows has fields, and none of its text columns is
/// too long: the library itself never refuses it.
pub proof fn lemma_empty_tick_batch_reaches_writer()
    ensures
        reaches_writer(tick_schema(), tick_columns(Seq::<TickRow>::empty())),
{
    let columns = tick_columns(Seq::<TickRow>::empty());
    assert(tick_schema().len() == 14);
    assert forall|c: int| 0 <= c < columns.len() implies !(#[trigger] columns[c] matches ColumnView::Utf8(
        cells,
    ) && text_bytes(cells) > TEXT_BYTES_LIMIT) by {
        match columns[c] {
            ColumnView::Utf8(cells) => {
                assert(cells.len() == 0);
                assert(text_bytes(cells) == 0);
            },
            _ => {},
        }
    }
}

impl EncodeError {
    /// What [`EncodeError::message`] returns.
    pub open spec fn message_text(self) -> Seq<char> {
        match self {
            EncodeError::EmptySchema => "Cannot serialize batch with empty schema"@,
            EncodeError::TextTooLong => "Cannot serialize text column beyond 2 GiB"@,
            EncodeError::Writer(Format::Stream, text) => "Failed to write RecordBatch: "@ + text@,
            EncodeError::Writer(Format::File, text) => "Failed to write Parquet batch: "@ + text@,
            EncodeError::TooLarge(Format::Stream) => "Serialized data exceeds size limit"@,
            EncodeError::TooLarge(Format::File) => "Serialized Parquet data exceeds size limit"@,
        }
    }

    /// The error in words, with what the writer said where it refused.
    pub fn message(&self) -> (text: String)
        ensures
            text@ == self.message_text(),
    {
        match self {
            EncodeError::EmptySchema => "Cannot serialize batch with empty schema".to_owned(),
            EncodeError::TextTooLong => "Cannot serialize text column beyond 2 GiB".to_owned(),
            EncodeError::Writer(Format::Stream, text) => joined(
                "Failed to write RecordBatch: ",
                text.as_str(),
            ),
            EncodeError::Writer(Format::File, text) => joined(
                "Failed to write Parquet batch: ",
                text.as_str(),
            ),
            EncodeError::TooLarge(Format::Stream) => {
                "Serialized data exceeds size limit".to_owned()
            },
            EncodeError::TooLarge(Format::File) => {
                "Serialized Parquet data exceeds size limit".to_owned()
            },
        }
    }
}

} // verus!
