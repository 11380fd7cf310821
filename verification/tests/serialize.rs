use arrow::array::{
    Array, Float32Array, RecordBatch, StringArray, UInt16Array, UInt32Array, UInt8Array,
};
use arrow::datatypes::DataType as ArrowType;
use arrow::ipc::reader::StreamReader;
use fast_parser::batch::{Batch, Column, DataType, Field, Schema};
use fast_parser::serialize::{
    check_encoded, estimate_buffer_size, serialize_batch_to_ipc, serialize_batch_to_parquet,
    serialize_empty_batch_to_ipc, serialize_empty_batch_to_parquet, EncodeError,
    FileCompression, Format, IPC_BUFFER_CAP, IPC_SIZE_LIMIT, PARQUET_BUFFER_CAP,
    PARQUET_SIZE_LIMIT,
};
use fast_parser::types::{JsonContract, JsonTick, TickBatchBuilder};
use parquet::arrow::arrow_reader::ParquetRecordBatchReaderBuilder;

fn bits(price: f64) -> u32 {
    (price as f32).to_bits()
}

fn sample() -> Batch {
    let mut builder = TickBatchBuilder::new(3);
    let call = JsonContract {
        root: "AAPL".to_string(),
        expiration: 20231117,
        strike: 1500000,
        right: "C".to_string(),
    };
    let put = JsonContract {
        root: "MSFT".to_string(),
        expiration: 20231215,
        strike: 3300000,
        right: "P".to_string(),
    };
    builder.append_tick(
        &JsonTick(34200000, 10, 47, bits(149.50), 50, 11, 48, bits(150.00), 51, 20231110),
        &call,
    );
    builder.append_tick(
        &JsonTick(34200001, 12, 1, bits(0.0), 2, 13, 3, bits(-1.5), 4, 20231111),
        &put,
    );
    builder.append_tick(
        &JsonTick(u32::MAX, 65535, 255, f32::NAN.to_bits(), 255, 0, 0, f32::INFINITY.to_bits(), 0, 0),
        &call,
    );
    builder.finish()
}

fn read_stream(bytes: &[u8]) -> Vec<RecordBatch> {
    let reader = StreamReader::try_new(std::io::Cursor::new(bytes.to_vec()), None).unwrap();
    reader.map(|batch| batch.unwrap()).collect()
}

fn read_file(bytes: &[u8]) -> Vec<RecordBatch> {
    let builder = ParquetRecordBatchReaderBuilder::try_new(bytes::Bytes::from(bytes.to_vec()));
    builder.unwrap().build().unwrap().map(|batch| batch.unwrap()).collect()
}

fn arrow_type(data_type: &DataType) -> ArrowType {
    match data_type {
        DataType::UInt32 => ArrowType::UInt32,
        DataType::UInt16 => ArrowType::UInt16,
        DataType::UInt8 => ArrowType::UInt8,
        DataType::Float32 => ArrowType::Float32,
        DataType::Utf8 => ArrowType::Utf8,
    }
}

/// Holds what came back against the batch that went in: fields in order,
/// number of rows, and every cell.
fn assert_same(batch: &Batch, read: &RecordBatch) {
    assert_eq!(read.num_rows(), batch.num_rows());
    assert_eq!(read.num_columns(), batch.num_columns());
    let schema = read.schema();
    for c in 0..batch.num_columns() {
        let field = &batch.schema().fields[c];
        assert_eq!(schema.field(c).name(), &field.name);
        assert_eq!(schema.field(c).data_type(), &arrow_type(&field.data_type));
        assert_eq!(schema.field(c).is_nullable(), field.nullable);
        let array = read.column(c);
        assert_eq!(array.null_count(), 0);
        match batch.column(c) {
            Column::UInt32(cells) => {
                let values = array.as_any().downcast_ref::<UInt32Array>().unwrap();
                assert_eq!(values.values().to_vec(), *cells);
            }
            Column::UInt16(cells) => {
                let values = array.as_any().downcast_ref::<UInt16Array>().unwrap();
                assert_eq!(values.values().to_vec(), *cells);
            }
            Column::UInt8(cells) => {
                let values = array.as_any().downcast_ref::<UInt8Array>().unwrap();
                assert_eq!(values.values().to_vec(), *cells);
            }
            Column::Float32(cells) => {
                let values = array.as_any().downcast_ref::<Float32Array>().unwrap();
                let patterns: Vec<u32> = values.values().iter().map(|v| v.to_bits()).collect();
                assert_eq!(patterns, *cells);
            }
            Column::Utf8(cells) => {
                let values = array.as_any().downcast_ref::<StringArray>().unwrap();
                let texts: Vec<String> =
                    (0..values.len()).map(|i| values.value(i).to_string()).collect();
                assert_eq!(texts, *cells);
            }
        }
    }
}

#[test]
fn a_stream_reads_back_as_the_batch_it_came_from() {
    let batch = sample();
    let bytes = serialize_batch_to_ipc(&batch).ok().unwrap();
    let read = read_stream(&bytes);
    assert_eq!(read.len(), 1);
    assert_same(&batch, &read[0]);
    let prices = read[0].column(3).as_any().downcast_ref::<Float32Array>().unwrap();
    assert_eq!(prices.value(0), 149.5);
}

#[test]
fn a_file_reads_back_as_the_batch_it_came_from() {
    let batch = sample();
    let bytes = serialize_batch_to_parquet(&batch).ok().unwrap();
    assert_eq!(&bytes[..4], b"PAR1");
    assert_eq!(&bytes[bytes.len() - 4..], b"PAR1");
    let read = read_file(&bytes);
    assert_eq!(read.len(), 1);
    assert_same(&batch, &read[0]);
    let prices = read[0].column(7).as_any().downcast_ref::<Float32Array>().unwrap();
    assert_eq!(prices.value(1), -1.5);
}

#[test]
fn encoding_is_the_same_each_time() {
    let first = serialize_batch_to_ipc(&sample()).ok().unwrap();
    let second = serialize_batch_to_ipc(&sample()).ok().unwrap();
    assert_eq!(first, second);
    let first = serialize_batch_to_parquet(&sample()).ok().unwrap();
    let second = serialize_batch_to_parquet(&sample()).ok().unwrap();
    assert_eq!(first, second);
}

#[test]
fn a_stream_without_rows_has_the_full_schema() {
    let bytes = serialize_empty_batch_to_ipc().ok().unwrap();
    let reader = StreamReader::try_new(std::io::Cursor::new(bytes.clone()), None).unwrap();
    let schema = reader.schema();
    assert_eq!(schema.fields().len(), 14);
    assert_eq!(schema.field(0).name(), "ms_of_day");
    assert_eq!(schema.field(3).data_type(), &ArrowType::Float32);
    assert_eq!(schema.field(13).name(), "right");
    let rows: usize = read_stream(&bytes).iter().map(|batch| batch.num_rows()).sum();
    assert_eq!(rows, 0);
    let same = serialize_batch_to_ipc(&TickBatchBuilder::new(0).finish()).ok().unwrap();
    assert_eq!(bytes, same);
}

#[test]
fn a_file_without_rows_has_the_full_schema() {
    let bytes = serialize_empty_batch_to_parquet().ok().unwrap();
    let builder =
        ParquetRecordBatchReaderBuilder::try_new(bytes::Bytes::from(bytes.clone())).unwrap();
    assert_eq!(builder.schema().fields().len(), 14);
    assert_eq!(builder.schema().field(10).name(), "root");
    assert_eq!(builder.metadata().file_metadata().num_rows(), 0);
    let rows: usize = read_file(&bytes).iter().map(|batch| batch.num_rows()).sum();
    assert_eq!(rows, 0);
}

#[test]
fn a_file_is_one_row_group_without_compression() {
    let bytes = serialize_batch_to_parquet(&sample()).ok().unwrap();
    let builder = ParquetRecordBatchReaderBuilder::try_new(bytes::Bytes::from(bytes)).unwrap();
    let metadata = builder.metadata();
    assert_eq!(metadata.num_row_groups(), 1);
    assert_eq!(metadata.file_metadata().num_rows(), 3);
    for column in metadata.row_group(0).columns() {
        assert_eq!(column.compression(), parquet::basic::Compression::UNCOMPRESSED);
    }
}

#[test]
fn a_batch_without_fields_is_refused() {
    let bare = Batch::new_empty(Schema { fields: vec![] });
    assert!(matches!(serialize_batch_to_ipc(&bare), Err(EncodeError::EmptySchema)));
    assert!(matches!(serialize_batch_to_parquet(&bare), Err(EncodeError::EmptySchema)));
}

#[test]
fn a_batch_of_other_fields_is_encoded() {
    let schema = Schema {
        fields: vec![
            Field { name: "n".to_string(), data_type: DataType::UInt8, nullable: true },
            Field { name: "t".to_string(), data_type: DataType::Utf8, nullable: false },
        ],
    };
    let columns = vec![
        Column::UInt8(vec![1, 2]),
        Column::Utf8(vec!["".to_string(), "gr\u{fc}n \u{1f600}".to_string()]),
    ];
    let batch = Batch::try_new(schema, columns).ok().unwrap();
    let read = read_stream(&serialize_batch_to_ipc(&batch).ok().unwrap());
    assert_same(&batch, &read[0]);
    let read = read_file(&serialize_batch_to_parquet(&batch).ok().unwrap());
    assert_same(&batch, &read[0]);
}

#[test]
fn the_buffer_is_sized_from_rows_and_columns() {
    assert_eq!(estimate_buffer_size(5, 14, 8, IPC_BUFFER_CAP), 560);
    assert_eq!(estimate_buffer_size(5, 14, 4, PARQUET_BUFFER_CAP), 280);
    assert_eq!(estimate_buffer_size(0, 14, 8, IPC_BUFFER_CAP), 0);
    assert_eq!(estimate_buffer_size(9, 0, 8, IPC_BUFFER_CAP), 0);
    assert_eq!(estimate_buffer_size(9362, 14, 8, IPC_BUFFER_CAP), 1048544);
    assert_eq!(estimate_buffer_size(9363, 14, 8, IPC_BUFFER_CAP), 1048576);
    assert_eq!(estimate_buffer_size(1 << 20, 14, 4, PARQUET_BUFFER_CAP), 524288);
    assert_eq!(estimate_buffer_size(usize::MAX, usize::MAX, 8, IPC_BUFFER_CAP), 1048576);
    assert_eq!(estimate_buffer_size(usize::MAX, 1, 8, 77), 77);
    assert_eq!(estimate_buffer_size(usize::MAX, 2, 0, 77), 0);
    assert_eq!(IPC_BUFFER_CAP, 1024 * 1024);
    assert_eq!(PARQUET_BUFFER_CAP, 512 * 1024);
}

#[test]
fn bytes_beyond_the_ceiling_are_refused() {
    assert_eq!(IPC_SIZE_LIMIT, 100 * 1024 * 1024);
    assert_eq!(PARQUET_SIZE_LIMIT, 50 * 1024 * 1024);
    let stream = Format::Stream;
    let file = Format::File;
    assert!(matches!(
        check_encoded(Ok(vec![0; 11]), stream, 10),
        Err(EncodeError::TooLarge(Format::Stream))
    ));
    assert!(matches!(
        check_encoded(Ok(vec![0; 11]), file, 10),
        Err(EncodeError::TooLarge(Format::File))
    ));
    assert!(matches!(check_encoded(Ok(vec![7; 10]), file, 10), Ok(bytes) if bytes == vec![7; 10]));
    assert!(matches!(check_encoded(Ok(vec![]), stream, 0), Ok(bytes) if bytes.is_empty()));
}

#[test]
fn the_refusal_of_the_writer_is_passed_on() {
    let refused = check_encoded(Err("no room".to_string()), Format::File, 10);
    assert!(matches!(refused, Err(EncodeError::Writer(Format::File, text)) if text == "no room"));
    let refused = check_encoded(Err("no room".to_string()), Format::Stream, 10);
    assert!(matches!(refused, Err(EncodeError::Writer(Format::Stream, text)) if text == "no room"));
}

#[test]
fn no_compression_is_the_policy() {
    assert!(FileCompression::default() == FileCompression::Uncompressed);
    assert_eq!(FileCompression::Uncompressed.codec_name(), "UNCOMPRESSED");
    let name: parquet::basic::Compression = FileCompression::default().codec_name().parse().unwrap();
    assert_eq!(name, parquet::basic::Compression::UNCOMPRESSED);
}

#[test]
fn a_file_of_many_rows_is_still_one_row_group() {
    let rows = 1024 * 1024 + 5;
    let schema = Schema {
        fields: vec![Field { name: "n".to_string(), data_type: DataType::UInt8, nullable: false }],
    };
    let cells: Vec<u8> = (0..rows).map(|i| (i % 7) as u8).collect();
    let batch = Batch::try_new(schema, vec![Column::UInt8(cells)]).ok().unwrap();
    let bytes = serialize_batch_to_parquet(&batch).ok().unwrap();
    let builder = ParquetRecordBatchReaderBuilder::try_new(bytes::Bytes::from(bytes)).unwrap();
    assert_eq!(builder.metadata().num_row_groups(), 1);
    assert_eq!(builder.metadata().file_metadata().num_rows(), rows as i64);
    assert_eq!(builder.metadata().row_group(0).num_rows(), rows as i64);
}

#[test]
fn an_empty_batch_is_never_an_error() {
    assert!(serialize_empty_batch_to_ipc().is_ok());
    assert!(serialize_empty_batch_to_parquet().is_ok());
    let schema = Schema {
        fields: vec![Field { name: "t".to_string(), data_type: DataType::Utf8, nullable: true }],
    };
    let empty = Batch::new_empty(schema);
    assert!(serialize_batch_to_ipc(&empty).is_ok());
    assert!(serialize_batch_to_parquet(&empty).is_ok());
}
