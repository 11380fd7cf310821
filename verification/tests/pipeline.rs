use arrow::array::{Array, RecordBatch, StringArray, UInt32Array};
use arrow::ipc::reader::StreamReader;
use fast_parser::calendar::DateError;
use fast_parser::filter::FilterError;
use fast_parser::pipeline::{
    filter_contracts_to_ipc_bytes, filter_contracts_to_parquet_bytes, PipelineError,
};
use parquet::arrow::arrow_reader::ParquetRecordBatchReaderBuilder;
use fast_parser::types::{
    JsonContract, JsonEntry, JsonHeader, JsonResponse, JsonStockResponse, JsonStockTick, JsonTick,
};

fn bits(price: f64) -> u32 {
    (price as f32).to_bits()
}

fn midpoint(bid: u32, ask: u32) -> u32 {
    ((f32::from_bits(bid) + f32::from_bits(ask)) / 2.0).to_bits()
}

fn scale(base_pct: u64, dte: i64) -> u32 {
    (f64::from_bits(base_pct) as f32 * (dte as f32).sqrt()).to_bits()
}

fn within(strike: u32, price: u32, threshold: u32) -> bool {
    let strike = (strike as f64 * 0.0001) as f32;
    let underlying = f32::from_bits(price);
    (strike - underlying).abs() <= underlying * f32::from_bits(threshold)
}

fn header(latency_ms: u32) -> JsonHeader {
    JsonHeader { latency_ms, format: vec!["ms_of_day".to_string(), "bid_size".to_string()] }
}

fn contract(strike: u32) -> JsonContract {
    JsonContract {
        root: "AAPL".to_string(),
        expiration: 20231117,
        strike,
        right: "C".to_string(),
    }
}

fn create_test_option_response() -> JsonResponse {
    JsonResponse {
        header: header(100),
        response: vec![
            JsonEntry {
                ticks: vec![
                    JsonTick(34200000, 10, 47, bits(149.50), 50, 10, 47, bits(150.00), 50, 20231117),
                    JsonTick(35100000, 13, 47, bits(148.75), 50, 11, 47, bits(149.25), 50, 20231117),
                ],
                contract: contract(1500000),
            },
            JsonEntry {
                ticks: vec![JsonTick(
                    34200000,
                    8,
                    47,
                    bits(164.50),
                    50,
                    8,
                    47,
                    bits(165.00),
                    50,
                    20231117,
                )],
                contract: contract(1650000),
            },
        ],
    }
}

fn create_test_stock_response() -> JsonStockResponse {
    JsonStockResponse {
        header: header(50),
        response: vec![
            JsonStockTick(34200000, 100, 47, bits(149.75), 50, 100, 47, bits(149.85), 50, 20231117),
            JsonStockTick(35100000, 150, 47, bits(148.95), 50, 120, 47, bits(149.05), 50, 20231117),
        ],
    }
}

#[test]
fn test_arrow_ipc_filtering() {
    let result = filter_contracts_to_ipc_bytes(
        create_test_option_response(),
        create_test_stock_response(),
        20231110,
        30,
        0.1f64.to_bits(),
        &midpoint,
        &scale,
        &within,
    );
    assert!(result.is_ok());
    let ipc_bytes = result.ok().unwrap();
    assert!(!ipc_bytes.is_empty());
    assert!(ipc_bytes.len() > 200);
}

#[test]
fn test_parquet_filtering() {
    let result = filter_contracts_to_parquet_bytes(
        create_test_option_response(),
        create_test_stock_response(),
        20231110,
        30,
        0.1f64.to_bits(),
        &midpoint,
        &scale,
        &within,
    );
    assert!(result.is_ok());
    let parquet_bytes = result.ok().unwrap();
    assert!(!parquet_bytes.is_empty());
    assert!(parquet_bytes.len() > 100);
}

fn run_stream(as_of: u32, max_dte: i64, base_pct: f64) -> Result<Vec<u8>, PipelineError> {
    filter_contracts_to_ipc_bytes(
        create_test_option_response(),
        create_test_stock_response(),
        as_of,
        max_dte,
        base_pct.to_bits(),
        &midpoint,
        &scale,
        &within,
    )
}

fn run_file(as_of: u32, max_dte: i64, base_pct: f64) -> Result<Vec<u8>, PipelineError> {
    filter_contracts_to_parquet_bytes(
        create_test_option_response(),
        create_test_stock_response(),
        as_of,
        max_dte,
        base_pct.to_bits(),
        &midpoint,
        &scale,
        &within,
    )
}

fn read_stream(bytes: Vec<u8>) -> RecordBatch {
    let mut reader = StreamReader::try_new(std::io::Cursor::new(bytes), None).unwrap();
    reader.next().unwrap().unwrap()
}

fn strikes(batch: &RecordBatch) -> Vec<u32> {
    let column = batch.column_by_name("strike").unwrap();
    column.as_any().downcast_ref::<UInt32Array>().unwrap().values().to_vec()
}

#[test]
fn the_stream_holds_the_rows_that_pass() {
    let batch = read_stream(run_stream(20231110, 30, 0.1).ok().unwrap());
    assert_eq!(batch.num_columns(), 14);
    assert_eq!(strikes(&batch), vec![1500000, 1500000, 1650000]);
    let rights = batch.column_by_name("right").unwrap();
    let rights = rights.as_any().downcast_ref::<StringArray>().unwrap();
    assert!((0..rights.len()).all(|i| rights.value(i) == "C"));
    let times = batch.column_by_name("ms_of_day").unwrap();
    let times = times.as_any().downcast_ref::<UInt32Array>().unwrap();
    assert_eq!(times.values().to_vec(), vec![34200000, 35100000, 34200000]);
}

#[test]
fn a_narrow_band_leaves_the_near_strike() {
    let batch = read_stream(run_stream(20231110, 30, 0.01).ok().unwrap());
    assert_eq!(strikes(&batch), vec![1500000, 1500000]);
}

#[test]
fn the_file_holds_the_rows_that_pass() {
    let bytes = run_file(20231110, 30, 0.1).ok().unwrap();
    let builder = ParquetRecordBatchReaderBuilder::try_new(bytes::Bytes::from(bytes)).unwrap();
    let batches: Vec<RecordBatch> = builder.build().unwrap().map(|b| b.unwrap()).collect();
    assert_eq!(batches.len(), 1);
    assert_eq!(strikes(&batches[0]), vec![1500000, 1500000, 1650000]);
}

#[test]
fn a_short_horizon_leaves_a_stream_without_rows() {
    let bytes = run_stream(20231110, 6, 0.1).ok().unwrap();
    let reader = StreamReader::try_new(std::io::Cursor::new(bytes), None).unwrap();
    assert_eq!(reader.schema().fields().len(), 14);
    let rows: usize = reader.map(|batch| batch.unwrap().num_rows()).sum();
    assert_eq!(rows, 0);
}

#[test]
fn documents_without_quotes_give_the_empty_encodings() {
    let empty = || {
        (
            JsonResponse { header: header(1), response: vec![] },
            JsonStockResponse { header: header(1), response: vec![] },
        )
    };
    let (options, stock) = empty();
    let stream =
        filter_contracts_to_ipc_bytes(options, stock, 20231110, 0, 0, &midpoint, &scale, &within);
    assert_eq!(
        stream.ok().unwrap(),
        fast_parser::serialize::serialize_empty_batch_to_ipc().ok().unwrap()
    );
    let (options, stock) = empty();
    let file = filter_contracts_to_parquet_bytes(
        options, stock, 20231110, 0, 0, &midpoint, &scale, &within,
    );
    assert_eq!(
        file.ok().unwrap(),
        fast_parser::serialize::serialize_empty_batch_to_parquet().ok().unwrap()
    );
}

#[test]
fn an_as_of_date_that_names_no_day_is_refused_first() {
    assert!(matches!(
        run_stream(20231310, 0, 7.0),
        Err(PipelineError::Date(DateError::InvalidFormat(20231310)))
    ));
    assert!(matches!(
        run_file(20230230, 30, 0.1),
        Err(PipelineError::Date(DateError::InvalidDate(20230230)))
    ));
}

#[test]
fn the_refusal_of_the_filter_is_passed_on() {
    assert!(matches!(
        run_stream(20231110, 0, 0.1),
        Err(PipelineError::Filter(FilterError::NonPositiveMaxDte))
    ));
    assert!(matches!(
        run_file(20231110, 30, 1.5),
        Err(PipelineError::Filter(FilterError::BasePctOutOfRange))
    ));
    let stock = JsonStockResponse { header: header(1), response: vec![] };
    let refused = filter_contracts_to_ipc_bytes(
        create_test_option_response(),
        stock,
        20231110,
        30,
        0.1f64.to_bits(),
        &midpoint,
        &scale,
        &within,
    );
    assert!(matches!(refused, Err(PipelineError::Filter(FilterError::EmptyPriceIndex))));
}
