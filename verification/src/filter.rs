//! The contract filter: which rows of a batch expire within the horizon
//! and lie near the money of the underlying at their own time of day.
//!
//! Prices and thresholds are 32-bit IEEE-754 numbers held as bit patterns.
//! The two steps that compute with them are handed in by the caller: how
//! a threshold grows with the days to expiration, and whether a strike
//! lies within a threshold of a price. Everything else is decided here.

use crate::batch::{
    filter_record_batch, is_ascending, kept_positions, lemma_field_position,
    lemma_kept_positions_ascending, lemma_kept_positions_in_range, text_view, Batch, BatchView,
    Column, ColumnView, DataType,
};
use crate::calendar::{is_yyyymmdd, parse_yyyymmdd_branchless, yyyymmdd_day_number, Date};
use crate::text::joined;
use std::collections::HashMap;
use vstd::prelude::*;
use vstd::string::StringExecFns;

verus! {

broadcast use vstd::std_specs::hash::group_hash_axioms;

/// Bit pattern of the 64-bit IEEE-754 number 1.0.
pub const ONE_BITS: u64 = 0x3FF0_0000_0000_0000;

/// The columns that the filter reads.
#[derive(Clone, Copy, Debug, PartialEq, Eq, Structural)]
pub enum RequiredColumn {
    Expiration,
    Strike,
    MsOfDay,
    Right,
}

/// Why the filter refused a call.
#[derive(Clone, Copy, Debug, PartialEq, Eq, Structural)]
pub enum FilterError {
    EmptyPriceIndex,
    NonPositiveMaxDte,
    BasePctOutOfRange,
    MissingColumn(RequiredColumn),
    InvalidColumnType(RequiredColumn),
    LengthMismatch,
}

/// Whether `bits` is the pattern of a 64-bit IEEE-754 number greater than
/// 0 and at most 1. Among the numbers above zero a greater number has the
/// greater pattern, so these are the patterns from 1 to that of 1.0.
pub open spec fn is_base_pct(bits: u64) -> bool {
    0 < bits <= ONE_BITS
}

/// The text that marks a row of the underlying.
pub open spec fn underlying_marker() -> Seq<char> {
    "U"@
}

/// Days from the day numbered `today` to the day that `expiration` names,
/// if it names one.
pub open spec fn days_to_expiration(expiration: u32, today: int) -> Option<int> {
    if is_yyyymmdd(expiration) {
        Some(yyyymmdd_day_number(expiration) - today)
    } else {
        None
    }
}

/// Whether `expiration` names a day after the day numbered `today` and at
/// most `max_dte` days after it.
pub open spec fn within_horizon(expiration: u32, today: int, max_dte: i64) -> bool {
    match days_to_expiration(expiration, today) {
        Some(dte) => 0 < dte <= max_dte,
        None => false,
    }
}

/// Whether `thresholds` is what `scale` gives for each expiration: its
/// answer for the base percentage and the days to expiration where those
/// are more than zero, and the pattern of 0.0 elsewhere.
pub open spec fn is_threshold_column<S: Fn(u64, i64) -> u32>(
    expirations: Seq<u32>,
    today: int,
    base_pct: u64,
    scale: S,
    thresholds: Seq<u32>,
) -> bool {
    &&& thresholds.len() == expirations.len()
    &&& forall|i: int|
        0 <= i < thresholds.len() ==> match days_to_expiration(expirations[i], today) {
            Some(dte) if dte > 0 => scale.ensures((base_pct, dte as i64), #[trigger] thresholds[i]),
            _ => thresholds[i] == 0,
        }
}

/// Whether `mask` is the moneyness mask of the given columns: false for a
/// row of the underlying and for a row without a price at its time of day,
/// and elsewhere the answer of `within` for the row's strike, the price at
/// its time of day and its threshold.
pub open spec fn is_moneyness_mask<W: Fn(u32, u32, u32) -> bool>(
    strikes: Seq<u32>,
    times: Seq<u32>,
    rights: Seq<Seq<char>>,
    thresholds: Seq<u32>,
    index: Map<u32, u32>,
    within: W,
    mask: Seq<bool>,
) -> bool {
    &&& mask.len() == strikes.len()
    &&& forall|i: int|
        0 <= i < mask.len() ==> if rights[i] == underlying_marker() || !index.contains_key(
            times[i],
        ) {
            !#[trigger] mask[i]
        } else {
            within.ensures((strikes[i], index[times[i]], thresholds[i]), mask[i])
        }
}

/// The rows that pass both masks.
pub open spec fn combined_mask(
    expirations: Seq<u32>,
    today: int,
    max_dte: i64,
    moneyness: Seq<bool>,
) -> Seq<bool> {
    Seq::new(
        expirations.len(),
        |i: int| within_horizon(expirations[i], today, max_dte) && moneyness[i],
    )
}

/// Days from `current_date` to the day that `expiration` names.
fn expiration_dte(expiration: u32, current_date: Date) -> (dte: Option<i64>)
    ensures
        match dte {
            Some(d) => days_to_expiration(expiration, current_date.day_number()) == Some(d as int),
            None => days_to_expiration(expiration, current_date.day_number()) is None,
        },
{
    match parse_yyyymmdd_branchless(expiration) {
        Some(exp_date) => Some(exp_date.days_since(&current_date)),
        None => None,
    }
}

/// The horizon mask: for each expiration, whether it names a day after
/// `current_date` and at most `max_dte` days after it.
pub fn filter_dte_arrow(expiration_array: &Vec<u32>, current_date: Date, max_dte: i64) -> (mask:
    Vec<bool>)
    ensures
        mask.len() == expiration_array.len(),
        forall|i: int|
            0 <= i < mask.len() ==> #[trigger] mask[i] == within_horizon(
                expiration_array[i],
                current_date.day_number(),
                max_dte,
            ),
{
    let mut mask: Vec<bool> = Vec::with_capacity(expiration_array.len());
    let mut i: usize = 0;
    while i < expiration_array.len()
        invariant
            i <= expiration_array.len(),
            mask.len() == i,
            forall|k: int|
                0 <= k < i ==> #[trigger] mask[k] == within_horizon(
                    expiration_array[k],
                    current_date.day_number(),
                    max_dte,
                ),
        decreases expiration_array.len() - i,
    {
        let passes = match expiration_dte(expiration_array[i], current_date) {
            Some(dte) => dte > 0 && dte <= max_dte,
            None => false,
        };
        mask.push(passes);
        i += 1;
    }
    mask
}

/// The threshold of each row: what `scale` answers for the base
/// percentage and the days to expiration, and the pattern of 0.0 where the
/// expiration names no day or none after `current_date`.
pub fn compute_dynamic_thresholds<S: Fn(u64, i64) -> u32>(
    expiration_array: &Vec<u32>,
    current_date: Date,
    base_pct: u64,
    scale: &S,
) -> (thresholds: Vec<u32>)
    requires
        forall|dte: i64| dte > 0 ==> scale.requires((base_pct, dte)),
    ensures
        is_threshold_column(
            expiration_array@,
            current_date.day_number(),
            base_pct,
            *scale,
            thresholds@,
        ),
{
    let mut thresholds: Vec<u32> = Vec::with_capacity(expiration_array.len());
    let mut i: usize = 0;
    while i < expiration_array.len()
        invariant
            i <= expiration_array.len(),
            thresholds.len() == i,
            forall|dte: i64| dte > 0 ==> scale.requires((base_pct, dte)),
            forall|k: int|
                0 <= k < i ==> match days_to_expiration(
                    expiration_array[k],
                    current_date.day_number(),
                ) {
                    Some(dte) if dte > 0 => scale.ensures(
                        (base_pct, dte as i64),
                        #[trigger] thresholds[k],
                    ),
                    _ => thresholds[k] == 0,
                },
        decreases expiration_array.len() - i,
    {
        let threshold: u32 = match expiration_dte(expiration_array[i], current_date) {
            Some(dte) => if dte > 0 {
                scale(base_pct, dte)
            } else {
                0
            },
            None => 0,
        };
        thresholds.push(threshold);
        i += 1;
    }
    thresholds
}

/// Whether the four columns that the moneyness mask is made from have
/// one length.
pub open spec fn have_one_length(strikes: nat, times: nat, rights: nat, thresholds: nat) -> bool {
    times == strikes && rights == strikes && thresholds == strikes
}

/// The moneyness mask. A row of the underlying never passes, nor does a
/// row at whose exact time of day the index has no price. For every other
/// row `within` decides, from the strike, that price and the row's
/// threshold. Columns of different lengths are refused.
pub fn moneyness_mask<W: Fn(u32, u32, u32) -> bool>(
    strike_array: &Vec<u32>,
    ms_of_day_array: &Vec<u32>,
    right_array: &Vec<String>,
    thresholds: &Vec<u32>,
    price_index: &HashMap<u32, u32>,
    within: &W,
) -> (made: Result<Vec<bool>, FilterError>)
    requires
        forall|strike: u32, price: u32, threshold: u32|
            within.requires((strike, price, threshold)),
    ensures
        match made {
            Ok(mask) => have_one_length(
                strike_array@.len(),
                ms_of_day_array@.len(),
                right_array@.len(),
                thresholds@.len(),
            ) && is_moneyness_mask(
                strike_array@,
                ms_of_day_array@,
                text_view(right_array@),
                thresholds@,
                price_index@,
                *within,
                mask@,
            ),
            Err(e) => e == FilterError::LengthMismatch && !have_one_length(
                strike_array@.len(),
                ms_of_day_array@.len(),
                right_array@.len(),
                thresholds@.len(),
            ),
        },
{
    if ms_of_day_array.len() != strike_array.len() || right_array.len() != strike_array.len()
        || thresholds.len() != strike_array.len() {
        return Err(FilterError::LengthMismatch);
    }
    let marker: String = "U".to_owned();
    let mut mask: Vec<bool> = Vec::with_capacity(strike_array.len());
    let mut i: usize = 0;
    while i < strike_array.len()
        invariant
            i <= strike_array.len(),
            mask.len() == i,
            marker@ == underlying_marker(),
            ms_of_day_array.len() == strike_array.len(),
            right_array.len() == strike_array.len(),
            thresholds.len() == strike_array.len(),
            forall|strike: u32, price: u32, threshold: u32|
                within.requires((strike, price, threshold)),
            forall|k: int|
                0 <= k < i ==> if text_view(right_array@)[k] == underlying_marker()
                    || !price_index@.contains_key(ms_of_day_array[k]) {
                    !#[trigger] mask[k]
                } else {
                    within.ensures(
                        (strike_array[k], price_index@[ms_of_day_array[k]], thresholds[k]),
                        mask[k],
                    )
                },
        decreases strike_array.len() - i,
    {
        let ms_of_day: u32 = ms_of_day_array[i];
        let passes = if right_array[i] == marker {
            false
        } else {
            match price_index.get(&ms_of_day) {
                Some(price) => within(strike_array[i], *price, thresholds[i]),
                None => false,
            }
        };
        mask.push(passes);
        i += 1;
    }
    Ok(mask)
}

/// The cells of the first column called `name`, where it holds unsigned
/// 32-bit integers.
pub open spec fn u32_cells(batch: BatchView, name: Seq<char>) -> Seq<u32> {
    match batch.named_column(name) {
        Some(ColumnView::UInt32(cells)) => cells,
        _ => Seq::empty(),
    }
}

/// The cells of the first column called `name`, where it holds text.
pub open spec fn text_cells(batch: BatchView, name: Seq<char>) -> Seq<Seq<char>> {
    match batch.named_column(name) {
        Some(ColumnView::Utf8(cells)) => cells,
        _ => Seq::empty(),
    }
}

/// What is wrong with the column called `name`, if anything: it is
/// missing, or it does not hold `data_type`.
pub open spec fn column_refusal(
    batch: BatchView,
    name: Seq<char>,
    data_type: DataType,
    which: RequiredColumn,
) -> Option<FilterError> {
    match batch.named_column(name) {
        None => Some(FilterError::MissingColumn(which)),
        Some(column) => if column.data_type() == data_type {
            None
        } else {
            Some(FilterError::InvalidColumnType(which))
        },
    }
}

/// The refusal that the filter answers a batch with rows with, if any:
/// the first of its conditions that does not hold.
pub open spec fn filter_refusal(
    batch: BatchView,
    index: Map<u32, u32>,
    max_dte: i64,
    base_pct: u64,
) -> Option<FilterError> {
    let expiration = column_refusal(
        batch,
        "expiration"@,
        DataType::UInt32,
        RequiredColumn::Expiration,
    );
    let strike = column_refusal(batch, "strike"@, DataType::UInt32, RequiredColumn::Strike);
    let ms_of_day = column_refusal(
        batch,
        "ms_of_day"@,
        DataType::UInt32,
        RequiredColumn::MsOfDay,
    );
    let right = column_refusal(batch, "right"@, DataType::Utf8, RequiredColumn::Right);
    if index.is_empty() {
        Some(FilterError::EmptyPriceIndex)
    } else if max_dte <= 0 {
        Some(FilterError::NonPositiveMaxDte)
    } else if !is_base_pct(base_pct) {
        Some(FilterError::BasePctOutOfRange)
    } else if expiration is Some {
        expiration
    } else if strike is Some {
        strike
    } else if ms_of_day is Some {
        ms_of_day
    } else {
        right
    }
}

/// Whether `out` is `batch` reduced to the rows that pass the horizon
/// mask and a moneyness mask, the latter made with thresholds that `scale`
/// gave and answers that `within` gave.
pub open spec fn is_filtered<S: Fn(u64, i64) -> u32, W: Fn(u32, u32, u32) -> bool>(
    batch: BatchView,
    today: int,
    index: Map<u32, u32>,
    max_dte: i64,
    base_pct: u64,
    scale: S,
    within: W,
    out: BatchView,
) -> bool {
    let expirations = u32_cells(batch, "expiration"@);
    exists|thresholds: Seq<u32>, moneyness: Seq<bool>|
        {
            &&& is_threshold_column(expirations, today, base_pct, scale, thresholds)
            &&& #[trigger] is_moneyness_mask(
                u32_cells(batch, "strike"@),
                u32_cells(batch, "ms_of_day"@),
                text_cells(batch, "right"@),
                thresholds,
                index,
                within,
                moneyness,
            )
            &&& out == batch.select(combined_mask(expirations, today, max_dte, moneyness))
        }
}

/// The cells of both masks that are true in both.
fn combine_masks(left: &Vec<bool>, right: &Vec<bool>) -> (both: Vec<bool>)
    requires
        left.len() == right.len(),
    ensures
        both.len() == left.len(),
        forall|i: int| 0 <= i < both.len() ==> #[trigger] both[i] == (left[i] && right[i]),
{
    let mut both: Vec<bool> = Vec::with_capacity(left.len());
    let mut i: usize = 0;
    while i < left.len()
        invariant
            i <= left.len(),
            left.len() == right.len(),
            both.len() == i,
            forall|k: int| 0 <= k < i ==> #[trigger] both[k] == (left[k] && right[k]),
        decreases left.len() - i,
    {
        both.push(left[i] && right[i]);
        i += 1;
    }
    both
}

/// The rows of `batch` whose option expires within the horizon and whose
/// strike lies near the money.
///
/// A batch without rows comes back as it is, whatever the other arguments
/// hold. Otherwise the price index must not be empty, `max_dte` must be
/// more than zero, `base_pct` must be the pattern of a number above 0 and
/// at most 1, and the batch must have the columns `expiration`, `strike`
/// and `ms_of_day` of unsigned 32-bit integers and `right` of text; the
/// first of these that fails is the error. A row is kept where its
/// expiration names a day after `current_date` and at most `max_dte` days
/// after it, its right is not `U`, the index has a price at its exact time
/// of day, and `within` accepts its strike against that price and the
/// threshold that `scale` gave for its days to expiration. The rows kept
/// stand in their old order, under the same fields.
pub fn filter_contracts_arrow_native<S: Fn(u64, i64) -> u32, W: Fn(u32, u32, u32) -> bool>(
    batch: Batch,
    current_date: Date,
    price_index: HashMap<u32, u32>,
    max_dte: i64,
    base_pct: u64,
    scale: &S,
    within: &W,
) -> (filtered: Result<Batch, FilterError>)
    requires
        forall|dte: i64| dte > 0 ==> scale.requires((base_pct, dte)),
        forall|strike: u32, price: u32, threshold: u32|
            within.requires((strike, price, threshold)),
    ensures
        filtered matches Ok(out) ==> forall|j: int|
            0 <= j < text_cells(out@, "right"@).len() ==> #[trigger] text_cells(out@, "right"@)[j]
                != underlying_marker(),
        match filtered {
            Ok(out) => out@.wf() && if batch@.row_count == 0 {
                out@ == batch@
            } else {
                &&& filter_refusal(batch@, price_index@, max_dte, base_pct) is None
                &&& is_filtered(
                    batch@,
                    current_date.day_number(),
                    price_index@,
                    max_dte,
                    base_pct,
                    *scale,
                    *within,
                    out@,
                )
            },
            Err(e) => batch@.row_count != 0 && filter_refusal(
                batch@,
                price_index@,
                max_dte,
                base_pct,
            ) == Some(e),
        },
{
    if batch.num_rows() == 0 {
        proof {
            use_type_invariant(&batch);
            if batch@.has_field("right"@) {
                lemma_field_position(batch@, "right"@);
            }
        }
        return Ok(batch);
    }
    if price_index.is_empty() {
        return Err(FilterError::EmptyPriceIndex);
    }
    if max_dte <= 0 {
        return Err(FilterError::NonPositiveMaxDte);
    }
    if base_pct == 0 || base_pct > ONE_BITS {
        return Err(FilterError::BasePctOutOfRange);
    }
    let expiration_array = match batch.column_by_name("expiration") {
        None => {
            return Err(FilterError::MissingColumn(RequiredColumn::Expiration));
        },
        Some(Column::UInt32(cells)) => cells,
        Some(_) => {
            return Err(FilterError::InvalidColumnType(RequiredColumn::Expiration));
        },
    };
    let strike_array = match batch.column_by_name("strike") {
        None => {
            return Err(FilterError::MissingColumn(RequiredColumn::Strike));
        },
        Some(Column::UInt32(cells)) => cells,
        Some(_) => {
            return Err(FilterError::InvalidColumnType(RequiredColumn::Strike));
        },
    };
    let ms_of_day_array = match batch.column_by_name("ms_of_day") {
        None => {
            return Err(FilterError::MissingColumn(RequiredColumn::MsOfDay));
        },
        Some(Column::UInt32(cells)) => cells,
        Some(_) => {
            return Err(FilterError::InvalidColumnType(RequiredColumn::MsOfDay));
        },
    };
    let right_array = match batch.column_by_name("right") {
        None => {
            return Err(FilterError::MissingColumn(RequiredColumn::Right));
        },
        Some(Column::Utf8(cells)) => cells,
        Some(_) => {
            return Err(FilterError::InvalidColumnType(RequiredColumn::Right));
        },
    };
    let dte_mask = filter_dte_arrow(expiration_array, current_date, max_dte);
    let thresholds = compute_dynamic_thresholds(expiration_array, current_date, base_pct, scale);
    let moneyness = match moneyness_mask(
        strike_array,
        ms_of_day_array,
        right_array,
        &thresholds,
        &price_index,
        within,
    ) {
        Ok(mask) => mask,
        Err(e) => {
            assert(false);
            return Err(e);
        },
    };
    let final_mask = combine_masks(&dte_mask, &moneyness);
    assert(final_mask@ =~= combined_mask(
        expiration_array@,
        current_date.day_number(),
        max_dte,
        moneyness@,
    ));
    proof {
        assert(u32_cells(batch@, "expiration"@) == expiration_array@);
        assert(u32_cells(batch@, "strike"@) == strike_array@);
        assert(u32_cells(batch@, "ms_of_day"@) == ms_of_day_array@);
        assert(text_cells(batch@, "right"@) == text_view(right_array@));
        assert(final_mask.len() == batch@.row_count);
    }
    match filter_record_batch(&batch, &final_mask) {
        Ok(out) => {
            assert(is_moneyness_mask(
                u32_cells(batch@, "strike"@),
                u32_cells(batch@, "ms_of_day"@),
                text_cells(batch@, "right"@),
                thresholds@,
                price_index@,
                *within,
                moneyness@,
            ));
            proof {
                use_type_invariant(&batch);
                lemma_filter_drops_underlying(
                    batch@,
                    current_date.day_number(),
                    price_index@,
                    max_dte,
                    base_pct,
                    *scale,
                    *within,
                    out@,
                );
            }
            Ok(out)
        },
        Err(_) => {
            assert(false);
            Ok(batch)
        },
    }
}

/// No row of the underlying passes the filter: in a filtered batch no cell
/// of the column `right` is `U`.
pub proof fn lemma_filter_drops_underlying<S: Fn(u64, i64) -> u32, W: Fn(u32, u32, u32) -> bool>(
    batch: BatchView,
    today: int,
    index: Map<u32, u32>,
    max_dte: i64,
    base_pct: u64,
    scale: S,
    within: W,
    out: BatchView,
)
    requires
        batch.wf(),
        filter_refusal(batch, index, max_dte, base_pct) is None,
        is_filtered(batch, today, index, max_dte, base_pct, scale, within, out),
    ensures
        forall|j: int|
            0 <= j < text_cells(out, "right"@).len() ==> #[trigger] text_cells(out, "right"@)[j]
                != underlying_marker(),
{
    let expirations = u32_cells(batch, "expiration"@);
    let rights = text_cells(batch, "right"@);
    let (thresholds, moneyness) = choose|thresholds: Seq<u32>, moneyness: Seq<bool>|
        {
            &&& is_threshold_column(expirations, today, base_pct, scale, thresholds)
            &&& #[trigger] is_moneyness_mask(
                u32_cells(batch, "strike"@),
                u32_cells(batch, "ms_of_day"@),
                rights,
                thresholds,
                index,
                within,
                moneyness,
            )
            &&& out == batch.select(combined_mask(expirations, today, max_dte, moneyness))
        };
    let mask = combined_mask(expirations, today, max_dte, moneyness);
    let kept = kept_positions(mask);
    lemma_kept_positions_in_range(mask);
    let p = batch.field_position("right"@);
    lemma_field_position(batch, "right"@);
    lemma_field_position(batch, "strike"@);
    lemma_field_position(batch, "expiration"@);
    assert(out.fields == batch.fields);
    assert(out.has_field("right"@)) by {
        assert(out.fields[p].name == "right"@);
    }
    assert(out.field_position("right"@) == p) by {
        let q = out.field_position("right"@);
        lemma_field_position(out, "right"@);
        if q < p {
            assert(batch.fields[q].name != "right"@);
        }
        if p < q {
            assert(out.fields[p].name != "right"@);
        }
    }
    assert(out.columns[p] == batch.columns[p].select(mask));
    assert(batch.columns[p].len() == batch.row_count);
    assert(batch.columns[batch.field_position("strike"@)].len() == batch.row_count);
    assert(batch.columns[batch.field_position("expiration"@)].len() == batch.row_count);
    assert forall|j: int| 0 <= j < text_cells(out, "right"@).len() implies #[trigger] text_cells(
        out,
        "right"@,
    )[j] != underlying_marker() by {
        let i = kept[j];
        assert(mask[i]);
        assert(moneyness[i]);
        assert(text_cells(out, "right"@)[j] == rights[i]);
    }
}

/// Filtering keeps the order of the rows: a filtered batch holds rows of
/// the batch it came from at ascending positions.
pub proof fn lemma_filter_preserves_order<S: Fn(u64, i64) -> u32, W: Fn(u32, u32, u32) -> bool>(
    batch: BatchView,
    today: int,
    index: Map<u32, u32>,
    max_dte: i64,
    base_pct: u64,
    scale: S,
    within: W,
    out: BatchView,
)
    requires
        batch.wf(),
        filter_refusal(batch, index, max_dte, base_pct) is None,
        is_filtered(batch, today, index, max_dte, base_pct, scale, within, out),
    ensures
        exists|positions: Seq<int>|
            is_ascending(positions, batch.row_count) && out == #[trigger] batch.gather(positions),
{
    let expirations = u32_cells(batch, "expiration"@);
    let (thresholds, moneyness) = choose|thresholds: Seq<u32>, moneyness: Seq<bool>|
        {
            &&& is_threshold_column(expirations, today, base_pct, scale, thresholds)
            &&& #[trigger] is_moneyness_mask(
                u32_cells(batch, "strike"@),
                u32_cells(batch, "ms_of_day"@),
                text_cells(batch, "right"@),
                thresholds,
                index,
                within,
                moneyness,
            )
            &&& out == batch.select(combined_mask(expirations, today, max_dte, moneyness))
        };
    let mask = combined_mask(expirations, today, max_dte, moneyness);
    lemma_kept_positions_ascending(mask);
    lemma_field_position(batch, "expiration"@);
    assert(batch.columns[batch.field_position("expiration"@)].len() == batch.row_count);
    assert(mask.len() == batch.row_count);
    assert(out == batch.gather(kept_positions(mask)));
}

impl RequiredColumn {
    /// The name of the column.
    pub open spec fn name_text(self) -> Seq<char> {
        match self {
            RequiredColumn::Expiration => "expiration"@,
            RequiredColumn::Strike => "strike"@,
            RequiredColumn::MsOfDay => "ms_of_day"@,
            RequiredColumn::Right => "right"@,
        }
    }

    /// The name of the column.
    pub fn name(&self) -> (text: &'static str)
        ensures
            text@ == self.name_text(),
    {
        match self {
            RequiredColumn::Expiration => "expiration",
            RequiredColumn::Strike => "strike",
            RequiredColumn::MsOfDay => "ms_of_day",
            RequiredColumn::Right => "right",
        }
    }
}

impl FilterError {
    /// What [`FilterError::message`] returns.
    pub open spec fn message_text(self) -> Seq<char> {
        match self {
            FilterError::EmptyPriceIndex => "Price index cannot be empty"@,
            FilterError::NonPositiveMaxDte => "Max DTE must be positive"@,
            FilterError::BasePctOutOfRange => "Base percentage must be between 0 and 1"@,
            FilterError::MissingColumn(column) => "Missing "@ + column.name_text() + " column"@,
            FilterError::InvalidColumnType(column) => "Invalid "@ + column.name_text()
                + " column type"@,
            FilterError::LengthMismatch => "Array lengths are mismatched"@,
        }
    }

    /// The error in words.
    pub fn message(&self) -> (text: String)
        ensures
            text@ == self.message_text(),
    {
        match self {
            FilterError::EmptyPriceIndex => "Price index cannot be empty".to_owned(),
            FilterError::NonPositiveMaxDte => "Max DTE must be positive".to_owned(),
            FilterError::BasePctOutOfRange => "Base percentage must be between 0 and 1".to_owned(),
            FilterError::MissingColumn(column) => {
                let mut text = joined("Missing ", column.name());
                text.append(" column");
                text
            },
            FilterError::InvalidColumnType(column) => {
                let mut text = joined("Invalid ", column.name());
                text.append(" column type");
                text
            },
            FilterError::LengthMismatch => "Array lengths are mismatched".to_owned(),
        }
    }
}

} // verus!
