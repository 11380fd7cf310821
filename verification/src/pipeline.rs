//! The whole way from two decoded documents to the bytes of the contracts
//! that pass the filter.

use crate::batch::{BatchView, ColumnView, FieldView};
use crate::calendar::{
    has_date_format, is_yyyymmdd, parse_current_date_fast, yyyymmdd_day_number, DateError,
};
use crate::codec::{ipc_stream_outcome, parquet_outcome};
use crate::filter::{filter_contracts_arrow_native, filter_refusal, is_filtered, FilterError};
use crate::parser::{is_price_index, option_rows, parse_combined_data, stock_rows};
use crate::serialize::{
    is_encode_result, serialize_batch_to_ipc, serialize_batch_to_parquet,
    serialize_empty_batch_to_ipc, serialize_empty_batch_to_parquet, EncodeError, FileCompression,
    Format, IPC_SIZE_LIMIT, PARQUET_SIZE_LIMIT,
};
use crate::text::joined;
use crate::types::{tick_batch, JsonResponse, JsonStockResponse, TickRow};
use vstd::prelude::*;

verus! {

/// Why no bytes were made, by the step that failed.
pub enum PipelineError {
    /// The as-of date names no day.
    Date(DateError),
    /// The filter refused the call.
    Filter(FilterError),
    /// The batch was not encoded.
    Encode(EncodeError),
}

/// The refusal of an as-of date, if it names no day.
pub open spec fn date_refusal(date: u32) -> Option<DateError> {
    if !has_date_format(date) {
        Some(DateError::InvalidFormat(date))
    } else if !is_yyyymmdd(date) {
        Some(DateError::InvalidDate(date))
    } else {
        None
    }
}

/// How the encoding step of the pipeline ended, if the pipeline came to
/// it.
pub open spec fn encode_outcome(result: Result<Vec<u8>, PipelineError>) -> Option<
    Result<Vec<u8>, EncodeError>,
> {
    match result {
        Ok(bytes) => Some(Ok(bytes)),
        Err(PipelineError::Encode(e)) => Some(Err(e)),
        Err(_) => None,
    }
}

/// Whether `result` is how the encoding of `batch` ends, in the format
/// `format` whose writer answers as `writer` says and whose ceiling is
/// `limit`:
/// the bytes of the writer where it accepts the batch and they are at most
/// `limit`, and else the one error that says why not.
pub open spec fn is_encoded_batch(
    format: Format,
    batch: BatchView,
    writer: spec_fn(Seq<FieldView>, Seq<ColumnView>) -> Option<Seq<u8>>,
    limit: usize,
    result: Result<Vec<u8>, PipelineError>,
) -> bool {
    match encode_outcome(result) {
        Some(outcome) => is_encode_result(
            format,
            batch.fields,
            batch.columns,
            writer(batch.fields, batch.columns),
            limit,
            outcome,
        ),
        None => false,
    }
}

/// Whether `result` is how the pipeline may end on the given documents and
/// parameters.
///
/// An as-of date that names no day is refused first. Documents without
/// any quote give the encoding of a tick batch without rows. Otherwise
/// the batch of all quotes is filtered against the price index of the
/// underlying; its refusal is the result, or else the encoding of the
/// rows that passed.
pub open spec fn is_pipeline_result<
    M: Fn(u32, u32) -> u32,
    S: Fn(u64, i64) -> u32,
    W: Fn(u32, u32, u32) -> bool,
>(
    option_response: JsonResponse,
    stock_response: JsonStockResponse,
    current_yyyymmdd: u32,
    max_dte: i64,
    base_pct: u64,
    midpoint: M,
    scale: S,
    within: W,
    format: Format,
    writer: spec_fn(Seq<FieldView>, Seq<ColumnView>) -> Option<Seq<u8>>,
    limit: usize,
    result: Result<Vec<u8>, PipelineError>,
) -> bool {
    let rows = option_rows(option_response.response@) + stock_rows(stock_response.response@);
    let batch = tick_batch(rows);
    match date_refusal(current_yyyymmdd) {
        Some(e) => result matches Err(PipelineError::Date(d)) && d == e,
        None => if rows.len() == 0 {
            is_encoded_batch(format, batch, writer, limit, result)
        } else {
            exists|index: Map<u32, u32>|
                {
                    &&& #[trigger] is_price_index(stock_response.response@, midpoint, index)
                    &&& match filter_refusal(batch, index, max_dte, base_pct) {
                        Some(e) => result matches Err(PipelineError::Filter(f)) && f == e,
                        None => exists|out: BatchView|
                            #[trigger] is_filtered(
                                batch,
                                yyyymmdd_day_number(current_yyyymmdd),
                                index,
                                max_dte,
                                base_pct,
                                scale,
                                within,
                                out,
                            ) && is_encoded_batch(format, out, writer, limit, result),
                    }
                }
        },
    }
}

/// The stream of the contracts that pass the filter.
///
/// `midpoint` gives the price of the underlying from a bid and an ask,
/// `scale` the threshold from the base percentage and the days to
/// expiration, and `within` says whether a strike lies within a threshold
/// of a price.
pub fn filter_contracts_to_ipc_bytes<
    M: Fn(u32, u32) -> u32,
    S: Fn(u64, i64) -> u32,
    W: Fn(u32, u32, u32) -> bool,
>(
    option_response: JsonResponse,
    stock_response: JsonStockResponse,
    current_yyyymmdd: u32,
    max_dte: i64,
    base_pct: u64,
    midpoint: &M,
    scale: &S,
    within: &W,
) -> (result: Result<Vec<u8>, PipelineError>)
    requires
        forall|bid: u32, ask: u32| midpoint.requires((bid, ask)),
        forall|dte: i64| dte > 0 ==> scale.requires((base_pct, dte)),
        forall|strike: u32, price: u32, threshold: u32|
            within.requires((strike, price, threshold)),
    ensures
        is_pipeline_result(
            option_response,
            stock_response,
            current_yyyymmdd,
            max_dte,
            base_pct,
            *midpoint,
            *scale,
            *within,
            Format::Stream,
            |fields: Seq<FieldView>, columns: Seq<ColumnView>| ipc_stream_outcome(fields, columns),
            IPC_SIZE_LIMIT,
            result,
        ),
{
    let current_date = match parse_current_date_fast(current_yyyymmdd) {
        Ok(date) => date,
        Err(e) => {
            return Err(PipelineError::Date(e));
        },
    };
    let (batch, price_index) = parse_combined_data(option_response, stock_response, midpoint);
    if batch.num_rows() == 0 {
        assert(option_rows(option_response.response@) + stock_rows(stock_response.response@)
            =~= Seq::<TickRow>::empty());
        return match serialize_empty_batch_to_ipc() {
            Ok(bytes) => Ok(bytes),
            Err(e) => Err(PipelineError::Encode(e)),
        };
    }
    let filtered_batch = match filter_contracts_arrow_native(
        batch,
        current_date,
        price_index,
        max_dte,
        base_pct,
        scale,
        within,
    ) {
        Ok(filtered) => filtered,
        Err(e) => {
            assert(is_price_index(stock_response.response@, *midpoint, price_index@));
            return Err(PipelineError::Filter(e));
        },
    };
    let result = match serialize_batch_to_ipc(&filtered_batch) {
        Ok(bytes) => Ok(bytes),
        Err(e) => Err(PipelineError::Encode(e)),
    };
    proof {
        assert(is_price_index(stock_response.response@, *midpoint, price_index@));
        assert(is_filtered(
            batch@,
            yyyymmdd_day_number(current_yyyymmdd),
            price_index@,
            max_dte,
            base_pct,
            *scale,
            *within,
            filtered_batch@,
        ));
    }
    result
}

/// The file of the contracts that pass the filter.
///
/// `midpoint` gives the price of the underlying from a bid and an ask,
/// `scale` the threshold from the base percentage and the days to
/// expiration, and `within` says whether a strike lies within a threshold
/// of a price.
pub fn filter_contracts_to_parquet_bytes<
    M: Fn(u32, u32) -> u32,
    S: Fn(u64, i64) -> u32,
    W: Fn(u32, u32, u32) -> bool,
>(
    option_response: JsonResponse,
    stock_response: JsonStockResponse,
    current_yyyymmdd: u32,
    max_dte: i64,
    base_pct: u64,
    midpoint: &M,
    scale: &S,
    within: &W,
) -> (result: Result<Vec<u8>, PipelineError>)
    requires
        forall|bid: u32, ask: u32| midpoint.requires((bid, ask)),
        forall|dte: i64| dte > 0 ==> scale.requires((base_pct, dte)),
        forall|strike: u32, price: u32, threshold: u32|
            within.requires((strike, price, threshold)),
    ensures
        is_pipeline_result(
            option_response,
            stock_response,
            current_yyyymmdd,
            max_dte,
            base_pct,
            *midpoint,
            *scale,
            *within,
            Format::File,
            |fields: Seq<FieldView>, columns: Seq<ColumnView>|
                parquet_outcome(fields, columns, FileCompression::Uncompressed.codec_text()),
            PARQUET_SIZE_LIMIT,
            result,
        ),
{
    let current_date = match parse_current_date_fast(current_yyyymmdd) {
        Ok(date) => date,
        Err(e) => {
            return Err(PipelineError::Date(e));
        },
    };
    let (batch, price_index) = parse_combined_data(option_response, stock_response, midpoint);
    if batch.num_rows() == 0 {
        assert(option_rows(option_response.response@) + stock_rows(stock_response.response@)
            =~= Seq::<TickRow>::empty());
        return match serialize_empty_batch_to_parquet() {
            Ok(bytes) => Ok(bytes),
            Err(e) => Err(PipelineError::Encode(e)),
        };
    }
    let filtered_batch = match filter_contracts_arrow_native(
        batch,
        current_date,
        price_index,
        max_dte,
        base_pct,
        scale,
        within,
    ) {
        Ok(filtered) => filtered,
        Err(e) => {
            assert(is_price_index(stock_response.response@, *midpoint, price_index@));
            return Err(PipelineError::Filter(e));
        },
    };
    let result = match serialize_batch_to_parquet(&filtered_batch) {
        Ok(bytes) => Ok(bytes),
        Err(e) => Err(PipelineError::Encode(e)),
    };
    proof {
        assert(is_price_index(stock_response.response@, *midpoint, price_index@));
        assert(is_filtered(
            batch@,
            yyyymmdd_day_number(current_yyyymmdd),
            price_index@,
            max_dte,
            base_pct,
            *scale,
            *within,
            filtered_batch@,
        ));
    }
    result
}

impl PipelineError {
    /// What [`PipelineError::message`] returns.
    pub open spec fn message_text(self) -> Seq<char> {
        match self {
            PipelineError::Date(e) => e.message_text(),
            PipelineError::Filter(e) => "Filtering failed: "@ + e.message_text(),
            PipelineError::Encode(e) => e.message_text(),
        }
    }

    /// The error in words: which step failed, and why.
    pub fn message(&self) -> (text: String)
        ensures
            text@ == self.message_text(),
    {
        match self {
            PipelineError::Date(e) => e.message(),
            PipelineError::Filter(e) => joined("Filtering failed: ", e.message().as_str()),
            PipelineError::Encode(e) => e.message(),
        }
    }
}

} // verus!
