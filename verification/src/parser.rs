//! From the two decoded documents to one tick batch and the price index of
//! the underlying.

use crate::batch::Batch;
use crate::types::{
    tick_batch, tick_row, tick_schema, ContractView, JsonContract, JsonEntry, JsonResponse,
    JsonStockResponse, JsonStockTick, JsonTick, TickBatchBuilder, TickData, TickRow,
};
use std::collections::HashMap;
use vstd::prelude::*;

verus! {

broadcast use vstd::std_specs::hash::group_hash_axioms;

/// The rows of one entry: one for each of its quotes, all under its
/// contract.
pub open spec fn entry_rows(entry: JsonEntry) -> Seq<TickRow> {
    entry.ticks@.map_values(|t: JsonTick| tick_row(t.fields(), entry.contract@))
}

/// The rows of all entries, entry after entry.
pub open spec fn option_rows(entries: Seq<JsonEntry>) -> Seq<TickRow>
    decreases entries.len(),
{
    if entries.len() == 0 {
        Seq::empty()
    } else {
        option_rows(entries.drop_last()) + entry_rows(entries.last())
    }
}

/// The contract under which the quotes of the underlying stand: no
/// expiration, no strike, and the right `U`.
pub open spec fn underlying_contract() -> ContractView {
    ContractView { root: "STOCK"@, expiration: 0, strike: 0, right: "U"@ }
}

/// The rows of the underlying: one for each of its quotes.
pub open spec fn stock_rows(ticks: Seq<JsonStockTick>) -> Seq<TickRow> {
    ticks.map_values(|t: JsonStockTick| tick_row(t.fields(), underlying_contract()))
}

/// Whether no later quote has the time of day of quote `k`.
pub open spec fn is_last_at_its_time(ticks: Seq<JsonStockTick>, k: int) -> bool {
    forall|j: int| k < j < ticks.len() ==> (#[trigger] ticks[j]).0 != ticks[k].0
}

/// Whether `index` is the price index of `ticks`: it has a price at
/// exactly the times of day that occur among the quotes, and the price at
/// each is what `midpoint` answered for the bid and ask of the last quote
/// with that time.
pub open spec fn is_price_index<M: Fn(u32, u32) -> u32>(
    ticks: Seq<JsonStockTick>,
    midpoint: M,
    index: Map<u32, u32>,
) -> bool {
    &&& forall|ms: u32| #[trigger]
        index.contains_key(ms) <==> exists|k: int|
            0 <= k < ticks.len() && (#[trigger] ticks[k]).0 == ms
    &&& forall|k: int|
        0 <= k < ticks.len() && #[trigger] is_last_at_its_time(ticks, k) ==> index.contains_key(
            ticks[k].0,
        ) && midpoint.ensures((ticks[k].3, ticks[k].7), index[ticks[k].0])
}

/// One more entry adds its rows after those of the entries before it.
pub proof fn lemma_option_rows_step(entries: Seq<JsonEntry>, i: int)
    requires
        0 <= i < entries.len(),
    ensures
        option_rows(entries.take(i + 1)) == option_rows(entries.take(i)) + entry_rows(entries[i]),
{
    assert(entries.take(i + 1).drop_last() =~= entries.take(i));
}

/// The price index of the underlying: for each time of day among its
/// quotes, what `midpoint` answers for the bid and ask of the last quote
/// with that time. A later quote replaces an earlier one of the same time.
pub fn build_price_index<M: Fn(u32, u32) -> u32>(ticks: &Vec<JsonStockTick>, midpoint: &M) -> (index:
    HashMap<u32, u32>)
    requires
        forall|bid: u32, ask: u32| midpoint.requires((bid, ask)),
    ensures
        is_price_index(ticks@, *midpoint, index@),
{
    let mut index: HashMap<u32, u32> = HashMap::new();
    let mut i: usize = 0;
    while i < ticks.len()
        invariant
            i <= ticks.len(),
            forall|bid: u32, ask: u32| midpoint.requires((bid, ask)),
            is_price_index(ticks@.take(i as int), *midpoint, index@),
        decreases ticks.len() - i,
    {
        let ghost before = ticks@.take(i as int);
        let ghost after = ticks@.take(i + 1);
        let ghost old_index = index@;
        let tick = &ticks[i];
        let price: u32 = midpoint(tick.3, tick.7);
        index.insert(tick.0, price);
        proof {
            assert(after.len() == i + 1);
            assert forall|k: int| 0 <= k < i implies after[k] == before[k] by {}
            assert(after[i as int] == ticks@[i as int]);
            assert forall|ms: u32| #[trigger]
                index@.contains_key(ms) <==> exists|k: int|
                    0 <= k < after.len() && (#[trigger] after[k]).0 == ms by {
                if index@.contains_key(ms) {
                    if ms == tick.0 {
                        assert(after[i as int].0 == ms);
                    } else {
                        assert(old_index.contains_key(ms));
                        let k = choose|k: int| 0 <= k < before.len() && (#[trigger] before[k]).0 == ms;
                        assert(after[k].0 == ms);
                    }
                }
                if exists|k: int| 0 <= k < after.len() && (#[trigger] after[k]).0 == ms {
                    let k = choose|k: int| 0 <= k < after.len() && (#[trigger] after[k]).0 == ms;
                    if k < i {
                        assert(before[k].0 == ms);
                        assert(old_index.contains_key(ms));
                    }
                }
            }
            assert forall|k: int|
                0 <= k < after.len() && #[trigger] is_last_at_its_time(
                    after,
                    k,
                ) implies index@.contains_key(after[k].0) && midpoint.ensures(
                (after[k].3, after[k].7),
                index@[after[k].0],
            ) by {
                if k < i {
                    assert(after[i as int].0 != after[k].0);
                    assert forall|j: int| k < j < before.len() implies (#[trigger] before[j]).0
                        != before[k].0 by {
                        assert(after[j].0 != after[k].0);
                    }
                    assert(is_last_at_its_time(before, k));
                }
            }
        }
        i += 1;
    }
    assert(ticks@.take(ticks.len() as int) =~= ticks@);
    index
}

/// The contract under which the quotes of the underlying stand.
fn make_underlying_contract() -> (contract: JsonContract)
    ensures
        contract@ == underlying_contract(),
{
    JsonContract {
        root: "STOCK".to_owned(),
        expiration: 0,
        strike: 0,
        right: "U".to_owned(),
    }
}

/// The number of quotes in all entries, or the greatest number there is
/// where they are more.
fn count_option_ticks(entries: &Vec<JsonEntry>) -> (count: usize)
    ensures
        count == 0 <==> option_rows(entries@).len() == 0,
        count <= option_rows(entries@).len(),
{
    let mut count: usize = 0;
    let mut i: usize = 0;
    while i < entries.len()
        invariant
            i <= entries.len(),
            count == 0 <==> option_rows(entries@.take(i as int)).len() == 0,
            count <= option_rows(entries@.take(i as int)).len(),
        decreases entries.len() - i,
    {
        proof {
            lemma_option_rows_step(entries@, i as int);
        }
        count = count.saturating_add(entries[i].ticks.len());
        i += 1;
    }
    assert(entries@.take(entries.len() as int) =~= entries@);
    count
}

/// The tick batch and the price index of the two documents.
///
/// The batch holds the quotes of the options first, entry after entry and
/// each under its entry's contract, and then the quotes of the underlying,
/// under the contract that marks them. The price index is made from the
/// quotes of the underlying alone. Documents without any quote give a
/// batch without rows, under the full schema, and an empty index.
pub fn parse_combined_data<M: Fn(u32, u32) -> u32>(
    option_response: JsonResponse,
    stock_response: JsonStockResponse,
    midpoint: &M,
) -> (parsed: (Batch, HashMap<u32, u32>))
    requires
        forall|bid: u32, ask: u32| midpoint.requires((bid, ask)),
    ensures
        parsed.0@ == tick_batch(
            option_rows(option_response.response@) + stock_rows(stock_response.response@),
        ),
        parsed.0@.wf(),
        is_price_index(stock_response.response@, *midpoint, parsed.1@),
        option_rows(option_response.response@).len() + stock_response.response@.len() == 0
            ==> parsed.0@.row_count == 0 && parsed.0@.fields == tick_schema() && parsed.1@
            == Map::<u32, u32>::empty(),
{
    let entries = &option_response.response;
    let stock_ticks = &stock_response.response;
    let option_ticks = count_option_ticks(entries);
    let total_ticks = option_ticks.saturating_add(stock_ticks.len());
    if total_ticks == 0 {
        let index: HashMap<u32, u32> = HashMap::new();
        assert(option_rows(entries@) + stock_rows(stock_ticks@) =~= Seq::<TickRow>::empty());
        return (TickBatchBuilder::new(0).finish(), index);
    }
    let price_index = build_price_index(stock_ticks, midpoint);
    let mut builder = TickBatchBuilder::new(total_ticks);
    let mut i: usize = 0;
    while i < entries.len()
        invariant
            i <= entries.len(),
            builder.wf(),
            builder@ == option_rows(entries@.take(i as int)),
        decreases entries.len() - i,
    {
        let entry = &entries[i];
        let contract = &entry.contract;
        let mut j: usize = 0;
        while j < entry.ticks.len()
            invariant
                j <= entry.ticks.len(),
                i < entries.len(),
                entry == entries@[i as int],
                contract == entry.contract,
                builder.wf(),
                builder@ == option_rows(entries@.take(i as int)) + entry_rows(*entry).take(
                    j as int,
                ),
            decreases entry.ticks.len() - j,
        {
            builder.append_tick(&entry.ticks[j], contract);
            assert(entry_rows(*entry).take(j + 1) =~= entry_rows(*entry).take(j as int).push(
                tick_row(entry.ticks@[j as int].fields(), contract@),
            ));
            assert(builder@ =~= option_rows(entries@.take(i as int)) + entry_rows(*entry).take(
                j + 1,
            ));
            j += 1;
        }
        proof {
            assert(entry_rows(*entry).take(entry.ticks.len() as int) =~= entry_rows(*entry));
            lemma_option_rows_step(entries@, i as int);
        }
        i += 1;
    }
    assert(entries@.take(entries.len() as int) =~= entries@);
    let underlying = make_underlying_contract();
    let mut k: usize = 0;
    while k < stock_ticks.len()
        invariant
            k <= stock_ticks.len(),
            underlying@ == underlying_contract(),
            builder.wf(),
            builder@ == option_rows(entries@) + stock_rows(stock_ticks@).take(k as int),
        decreases stock_ticks.len() - k,
    {
        builder.append_tick(&stock_ticks[k], &underlying);
        assert(builder@ =~= option_rows(entries@) + stock_rows(stock_ticks@).take(k + 1));
        k += 1;
    }
    assert(stock_rows(stock_ticks@).take(stock_ticks.len() as int) =~= stock_rows(stock_ticks@));
    proof {
        if option_rows(entries@).len() + stock_ticks@.len() == 0 {
            assert(price_index@ =~= Map::<u32, u32>::empty());
        }
    }
    (builder.finish(), price_index)
}

} // verus!
