//! Decoded market-data documents, the schema of a tick row, and the
//! builder that gathers tick rows into a batch.

use crate::batch::{
    column_views, Batch, BatchView, Column, ColumnView, DataType, Field, FieldView, Schema,
};
use vstd::prelude::*;

verus! {

/// One quote of an option: time of day in milliseconds, bid size, bid
/// exchange, bid price, bid condition, ask size, ask exchange, ask price,
/// ask condition, and date as `YYYYMMDD`. The two prices are the bit
/// patterns of 32-bit IEEE-754 numbers.
pub struct JsonTick(
    pub u32,
    pub u32,
    pub u32,
    pub u32,
    pub u32,
    pub u32,
    pub u32,
    pub u32,
    pub u32,
    pub u32,
);

/// Which option a quote belongs to.
pub struct JsonContract {
    pub root: String,
    pub expiration: u32,
    pub strike: u32,
    pub right: String,
}

/// The quotes of one option.
pub struct JsonEntry {
    pub ticks: Vec<JsonTick>,
    pub contract: JsonContract,
}

/// One quote of the underlying, with the fields of a [`JsonTick`].
pub struct JsonStockTick(
    pub u32,
    pub u32,
    pub u32,
    pub u32,
    pub u32,
    pub u32,
    pub u32,
    pub u32,
    pub u32,
    pub u32,
);

/// The header of a document. Nothing in the pipeline reads it.
pub struct JsonHeader {
    pub latency_ms: u32,
    pub format: Vec<String>,
}

/// The document of the underlying.
pub struct JsonStockResponse {
    pub header: JsonHeader,
    pub response: Vec<JsonStockTick>,
}

/// The document of the options.
pub struct JsonResponse {
    pub header: JsonHeader,
    pub response: Vec<JsonEntry>,
}

/// The ten fields of a quote.
pub struct TickFields {
    pub ms_of_day: u32,
    pub bid_size: u32,
    pub bid_exchange: u32,
    pub bid_price: u32,
    pub bid_condition: u32,
    pub ask_size: u32,
    pub ask_exchange: u32,
    pub ask_price: u32,
    pub ask_condition: u32,
    pub date: u32,
}

/// What a [`JsonContract`] says, with its texts as sequences of
/// characters.
pub struct ContractView {
    pub root: Seq<char>,
    pub expiration: u32,
    pub strike: u32,
    pub right: Seq<char>,
}

impl View for JsonContract {
    type V = ContractView;

    open spec fn view(&self) -> ContractView {
        ContractView {
            root: self.root@,
            expiration: self.expiration,
            strike: self.strike,
            right: self.right@,
        }
    }
}

/// A value that has the ten fields of a quote.
pub trait TickData {
    /// The ten fields.
    spec fn fields(&self) -> TickFields;

    fn ms_of_day(&self) -> (v: u32)
        ensures
            v == self.fields().ms_of_day,
    ;

    fn bid_size(&self) -> (v: u32)
        ensures
            v == self.fields().bid_size,
    ;

    fn bid_exchange(&self) -> (v: u32)
        ensures
            v == self.fields().bid_exchange,
    ;

    fn bid_price(&self) -> (v: u32)
        ensures
            v == self.fields().bid_price,
    ;

    fn bid_condition(&self) -> (v: u32)
        ensures
            v == self.fields().bid_condition,
    ;

    fn ask_size(&self) -> (v: u32)
        ensures
            v == self.fields().ask_size,
    ;

    fn ask_exchange(&self) -> (v: u32)
        ensures
            v == self.fields().ask_exchange,
    ;

    fn ask_price(&self) -> (v: u32)
        ensures
            v == self.fields().ask_price,
    ;

    fn ask_condition(&self) -> (v: u32)
        ensures
            v == self.fields().ask_condition,
    ;

    fn date(&self) -> (v: u32)
        ensures
            v == self.fields().date,
    ;
}

impl TickData for JsonTick {
    open spec fn fields(&self) -> TickFields {
        TickFields {
            ms_of_day: self.0,
            bid_size: self.1,
            bid_exchange: self.2,
            bid_price: self.3,
            bid_condition: self.4,
            ask_size: self.5,
            ask_exchange: self.6,
            ask_price: self.7,
            ask_condition: self.8,
            date: self.9,
        }
    }

    fn ms_of_day(&self) -> (v: u32) {
        self.0
    }

    fn bid_size(&self) -> (v: u32) {
        self.1
    }

    fn bid_exchange(&self) -> (v: u32) {
        self.2
    }

    fn bid_price(&self) -> (v: u32) {
        self.3
    }

    fn bid_condition(&self) -> (v: u32) {
        self.4
    }

    fn ask_size(&self) -> (v: u32) {
        self.5
    }

    fn ask_exchange(&self) -> (v: u32) {
        self.6
    }

    fn ask_price(&self) -> (v: u32) {
        self.7
    }

    fn ask_condition(&self) -> (v: u32) {
        self.8
    }

    fn date(&self) -> (v: u32) {
        self.9
    }
}

impl TickData for JsonStockTick {
    open spec fn fields(&self) -> TickFields {
        TickFields {
            ms_of_day: self.0,
            bid_size: self.1,
            bid_exchange: self.2,
            bid_price: self.3,
            bid_condition: self.4,
            ask_size: self.5,
            ask_exchange: self.6,
            ask_price: self.7,
            ask_condition: self.8,
            date: self.9,
        }
    }

    fn ms_of_day(&self) -> (v: u32) {
        self.0
    }

    fn bid_size(&self) -> (v: u32) {
        self.1
    }

    fn bid_exchange(&self) -> (v: u32) {
        self.2
    }

    fn bid_price(&self) -> (v: u32) {
        self.3
    }

    fn bid_condition(&self) -> (v: u32) {
        self.4
    }

    fn ask_size(&self) -> (v: u32) {
        self.5
    }

    fn ask_exchange(&self) -> (v: u32) {
        self.6
    }

    fn ask_price(&self) -> (v: u32) {
        self.7
    }

    fn ask_condition(&self) -> (v: u32) {
        self.8
    }

    fn date(&self) -> (v: u32) {
        self.9
    }
}

/// One row of a tick batch: the ten fields of a quote, narrowed to the
/// widths of their columns, and the four fields of its contract.
pub struct TickRow {
    pub ms_of_day: u32,
    pub bid_size: u16,
    pub bid_exchange: u8,
    pub bid_price: u32,
    pub bid_condition: u8,
    pub ask_size: u16,
    pub ask_exchange: u8,
    pub ask_price: u32,
    pub ask_condition: u8,
    pub date: u32,
    pub root: Seq<char>,
    pub expiration: u32,
    pub strike: u32,
    pub right: Seq<char>,
}

/// The row that a quote and its contract make. Sizes keep their low 16
/// bits, exchange and condition codes their low 8 bits.
pub open spec fn tick_row(tick: TickFields, contract: ContractView) -> TickRow {
    TickRow {
        ms_of_day: tick.ms_of_day,
        bid_size: (tick.bid_size % 0x10000) as u16,
        bid_exchange: (tick.bid_exchange % 0x100) as u8,
        bid_price: tick.bid_price,
        bid_condition: (tick.bid_condition % 0x100) as u8,
        ask_size: (tick.ask_size % 0x10000) as u16,
        ask_exchange: (tick.ask_exchange % 0x100) as u8,
        ask_price: tick.ask_price,
        ask_condition: (tick.ask_condition % 0x100) as u8,
        date: tick.date,
        root: contract.root,
        expiration: contract.expiration,
        strike: contract.strike,
        right: contract.right,
    }
}

/// A field that cannot be null.
pub open spec fn required_field(name: Seq<char>, data_type: DataType) -> FieldView {
    FieldView { name, data_type, nullable: false }
}

/// The fourteen fields of a tick batch, in column order.
pub open spec fn tick_schema() -> Seq<FieldView> {
    seq![
        required_field("ms_of_day"@, DataType::UInt32),
        required_field("bid_size"@, DataType::UInt16),
        required_field("bid_exchange"@, DataType::UInt8),
        required_field("bid_price"@, DataType::Float32),
        required_field("bid_condition"@, DataType::UInt8),
        required_field("ask_size"@, DataType::UInt16),
        required_field("ask_exchange"@, DataType::UInt8),
        required_field("ask_price"@, DataType::Float32),
        required_field("ask_condition"@, DataType::UInt8),
        required_field("date"@, DataType::UInt32),
        required_field("root"@, DataType::Utf8),
        required_field("expiration"@, DataType::UInt32),
        required_field("strike"@, DataType::UInt32),
        required_field("right"@, DataType::Utf8),
    ]
}

/// The fourteen columns that hold `rows`.
pub open spec fn tick_columns(rows: Seq<TickRow>) -> Seq<ColumnView> {
    seq![
        ColumnView::UInt32(rows.map_values(|r: TickRow| r.ms_of_day)),
        ColumnView::UInt16(rows.map_values(|r: TickRow| r.bid_size)),
        ColumnView::UInt8(rows.map_values(|r: TickRow| r.bid_exchange)),
        ColumnView::Float32(rows.map_values(|r: TickRow| r.bid_price)),
        ColumnView::UInt8(rows.map_values(|r: TickRow| r.bid_condition)),
        ColumnView::UInt16(rows.map_values(|r: TickRow| r.ask_size)),
        ColumnView::UInt8(rows.map_values(|r: TickRow| r.ask_exchange)),
        ColumnView::Float32(rows.map_values(|r: TickRow| r.ask_price)),
        ColumnView::UInt8(rows.map_values(|r: TickRow| r.ask_condition)),
        ColumnView::UInt32(rows.map_values(|r: TickRow| r.date)),
        ColumnView::Utf8(rows.map_values(|r: TickRow| r.root)),
        ColumnView::UInt32(rows.map_values(|r: TickRow| r.expiration)),
        ColumnView::UInt32(rows.map_values(|r: TickRow| r.strike)),
        ColumnView::Utf8(rows.map_values(|r: TickRow| r.right)),
    ]
}

/// The tick batch that holds `rows`.
pub open spec fn tick_batch(rows: Seq<TickRow>) -> BatchView {
    BatchView { fields: tick_schema(), columns: tick_columns(rows), row_count: rows.len() }
}

/// A field that cannot be null.
fn field(name: &str, data_type: DataType) -> (f: Field)
    ensures
        f@ == required_field(name@, data_type),
{
    Field { name: name.to_owned(), data_type, nullable: false }
}

/// The schema of a tick batch: the ten fields of a quote, then the four of
/// its contract.
pub fn create_tick_schema() -> (schema: Schema)
    ensures
        schema@ == tick_schema(),
{
    let mut fields: Vec<Field> = Vec::with_capacity(14);
    fields.push(field("ms_of_day", DataType::UInt32));
    fields.push(field("bid_size", DataType::UInt16));
    fields.push(field("bid_exchange", DataType::UInt8));
    fields.push(field("bid_price", DataType::Float32));
    fields.push(field("bid_condition", DataType::UInt8));
    fields.push(field("ask_size", DataType::UInt16));
    fields.push(field("ask_exchange", DataType::UInt8));
    fields.push(field("ask_price", DataType::Float32));
    fields.push(field("ask_condition", DataType::UInt8));
    fields.push(field("date", DataType::UInt32));
    fields.push(field("root", DataType::Utf8));
    fields.push(field("expiration", DataType::UInt32));
    fields.push(field("strike", DataType::UInt32));
    fields.push(field("right", DataType::Utf8));
    let schema = Schema { fields };
    assert(schema@ =~= tick_schema());
    schema
}

/// Gathers tick rows, column by column, and makes a batch of them.
pub struct TickBatchBuilder {
    ms_of_day: Vec<u32>,
    bid_size: Vec<u16>,
    bid_exchange: Vec<u8>,
    bid_price: Vec<u32>,
    bid_condition: Vec<u8>,
    ask_size: Vec<u16>,
    ask_exchange: Vec<u8>,
    ask_price: Vec<u32>,
    ask_condition: Vec<u8>,
    date: Vec<u32>,
    root: Vec<String>,
    expiration: Vec<u32>,
    strike: Vec<u32>,
    right: Vec<String>,
}

impl View for TickBatchBuilder {
    type V = Seq<TickRow>;

    /// The rows appended so far, in the order in which they came.
    closed spec fn view(&self) -> Seq<TickRow> {
        Seq::new(
            self.ms_of_day@.len(),
            |i: int|
                TickRow {
                    ms_of_day: self.ms_of_day@[i],
                    bid_size: self.bid_size@[i],
                    bid_exchange: self.bid_exchange@[i],
                    bid_price: self.bid_price@[i],
                    bid_condition: self.bid_condition@[i],
                    ask_size: self.ask_size@[i],
                    ask_exchange: self.ask_exchange@[i],
                    ask_price: self.ask_price@[i],
                    ask_condition: self.ask_condition@[i],
                    date: self.date@[i],
                    root: self.root@[i]@,
                    expiration: self.expiration@[i],
                    strike: self.strike@[i],
                    right: self.right@[i]@,
                },
        )
    }
}

impl TickBatchBuilder {
    /// Every column holds one cell for each row.
    pub closed spec fn wf(&self) -> bool {
        let n = self.ms_of_day@.len();
        &&& self.bid_size@.len() == n
        &&& self.bid_exchange@.len() == n
        &&& self.bid_price@.len() == n
        &&& self.bid_condition@.len() == n
        &&& self.ask_size@.len() == n
        &&& self.ask_exchange@.len() == n
        &&& self.ask_price@.len() == n
        &&& self.ask_condition@.len() == n
        &&& self.date@.len() == n
        &&& self.root@.len() == n
        &&& self.expiration@.len() == n
        &&& self.strike@.len() == n
        &&& self.right@.len() == n
    }

    /// A builder without rows, with room for `capacity` of them where the
    /// memory can be had.
    pub fn new(capacity: usize) -> (builder: TickBatchBuilder)
        ensures
            builder.wf(),
            builder@ == Seq::<TickRow>::empty(),
    {
        let mut builder = TickBatchBuilder {
            ms_of_day: Vec::new(),
            bid_size: Vec::new(),
            bid_exchange: Vec::new(),
            bid_price: Vec::new(),
            bid_condition: Vec::new(),
            ask_size: Vec::new(),
            ask_exchange: Vec::new(),
            ask_price: Vec::new(),
            ask_condition: Vec::new(),
            date: Vec::new(),
            root: Vec::new(),
            expiration: Vec::new(),
            strike: Vec::new(),
            right: Vec::new(),
        };
        let _ = builder.ms_of_day.try_reserve(capacity);
        let _ = builder.bid_size.try_reserve(capacity);
        let _ = builder.bid_exchange.try_reserve(capacity);
        let _ = builder.bid_price.try_reserve(capacity);
        let _ = builder.bid_condition.try_reserve(capacity);
        let _ = builder.ask_size.try_reserve(capacity);
        let _ = builder.ask_exchange.try_reserve(capacity);
        let _ = builder.ask_price.try_reserve(capacity);
        let _ = builder.ask_condition.try_reserve(capacity);
        let _ = builder.date.try_reserve(capacity);
        let _ = builder.root.try_reserve(capacity);
        let _ = builder.expiration.try_reserve(capacity);
        let _ = builder.strike.try_reserve(capacity);
        let _ = builder.right.try_reserve(capacity);
        assert(builder@ =~= Seq::<TickRow>::empty());
        builder
    }

    /// The number of rows appended so far.
    pub fn len(&self) -> (n: usize)
        requires
            self.wf(),
        ensures
            n == self@.len(),
    {
        self.ms_of_day.len()
    }

    /// Appends the row that `tick` and `contract` make: all fourteen
    /// cells, after the rows that are there.
    pub fn append_tick<T: TickData>(&mut self, tick: &T, contract: &JsonContract)
        requires
            old(self).wf(),
        ensures
            final(self).wf(),
            final(self)@ == old(self)@.push(tick_row(tick.fields(), contract@)),
    {
        self.ms_of_day.push(tick.ms_of_day());
        self.bid_size.push((tick.bid_size() % 0x10000) as u16);
        self.bid_exchange.push((tick.bid_exchange() % 0x100) as u8);
        self.bid_price.push(tick.bid_price());
        self.bid_condition.push((tick.bid_condition() % 0x100) as u8);
        self.ask_size.push((tick.ask_size() % 0x10000) as u16);
        self.ask_exchange.push((tick.ask_exchange() % 0x100) as u8);
        self.ask_price.push(tick.ask_price());
        self.ask_condition.push((tick.ask_condition() % 0x100) as u8);
        self.date.push(tick.date());
        self.root.push(contract.root.clone());
        self.expiration.push(contract.expiration);
        self.strike.push(contract.strike);
        self.right.push(contract.right.clone());
        assert(self@ =~= old(self)@.push(tick_row(tick.fields(), contract@)));
    }

    /// The batch of the rows appended, under the tick schema.
    pub fn finish(self) -> (batch: Batch)
        requires
            self.wf(),
        ensures
            batch@ == tick_batch(self@),
            batch@.wf(),
    {
        let ghost rows = self@;
        let schema = create_tick_schema();
        let mut columns: Vec<Column> = Vec::with_capacity(14);
        columns.push(Column::UInt32(self.ms_of_day));
        columns.push(Column::UInt16(self.bid_size));
        columns.push(Column::UInt8(self.bid_exchange));
        columns.push(Column::Float32(self.bid_price));
        columns.push(Column::UInt8(self.bid_condition));
        columns.push(Column::UInt16(self.ask_size));
        columns.push(Column::UInt8(self.ask_exchange));
        columns.push(Column::Float32(self.ask_price));
        columns.push(Column::UInt8(self.ask_condition));
        columns.push(Column::UInt32(self.date));
        columns.push(Column::Utf8(self.root));
        columns.push(Column::UInt32(self.expiration));
        columns.push(Column::UInt32(self.strike));
        columns.push(Column::Utf8(self.right));
        proof {
            let views = column_views(columns@);
            let wanted = tick_columns(rows);
            assert(views.len() == 14);
            assert(views[0]->UInt32_0 =~= wanted[0]->UInt32_0);
            assert(views[1]->UInt16_0 =~= wanted[1]->UInt16_0);
            assert(views[2]->UInt8_0 =~= wanted[2]->UInt8_0);
            assert(views[3]->Float32_0 =~= wanted[3]->Float32_0);
            assert(views[4]->UInt8_0 =~= wanted[4]->UInt8_0);
            assert(views[5]->UInt16_0 =~= wanted[5]->UInt16_0);
            assert(views[6]->UInt8_0 =~= wanted[6]->UInt8_0);
            assert(views[7]->Float32_0 =~= wanted[7]->Float32_0);
            assert(views[8]->UInt8_0 =~= wanted[8]->UInt8_0);
            assert(views[9]->UInt32_0 =~= wanted[9]->UInt32_0);
            assert(views[10]->Utf8_0 =~= wanted[10]->Utf8_0);
            assert(views[11]->UInt32_0 =~= wanted[11]->UInt32_0);
            assert(views[12]->UInt32_0 =~= wanted[12]->UInt32_0);
            assert(views[13]->Utf8_0 =~= wanted[13]->Utf8_0);
            assert(views =~= wanted);
        }
        match Batch::try_new(schema, columns) {
            Ok(batch) => batch,
            Err(_) => {
                assert(false);
                Batch::new_empty(create_tick_schema())
            },
        }
    }
}

} // verus!
