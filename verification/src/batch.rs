//! Columnar batches: a schema and one typed column for each of its fields,
//! all of the same length.

use vstd::prelude::*;

verus! {

/// Element type of a column.
#[derive(Clone, Copy, Debug, PartialEq, Eq, Structural)]
pub enum DataType {
    UInt32,
    UInt16,
    UInt8,
    /// 32-bit IEEE-754 numbers, each held as its bit pattern.
    Float32,
    Utf8,
}

/// One field of a schema.
pub struct Field {
    pub name: String,
    pub data_type: DataType,
    pub nullable: bool,
}

/// What a [`Field`] says, with its name as a sequence of characters.
pub struct FieldView {
    pub name: Seq<char>,
    pub data_type: DataType,
    pub nullable: bool,
}

impl View for Field {
    type V = FieldView;

    open spec fn view(&self) -> FieldView {
        FieldView { name: self.name@, data_type: self.data_type, nullable: self.nullable }
    }
}

/// The fields of a batch, in column order.
pub struct Schema {
    pub fields: Vec<Field>,
}

impl View for Schema {
    type V = Seq<FieldView>;

    open spec fn view(&self) -> Seq<FieldView> {
        self.fields@.map_values(|f: Field| f@)
    }
}

/// The cells of one column.
pub enum Column {
    UInt32(Vec<u32>),
    UInt16(Vec<u16>),
    UInt8(Vec<u8>),
    /// Bit patterns of 32-bit IEEE-754 numbers.
    Float32(Vec<u32>),
    Utf8(Vec<String>),
}

/// The cells of one column as a sequence.
pub enum ColumnView {
    UInt32(Seq<u32>),
    UInt16(Seq<u16>),
    UInt8(Seq<u8>),
    Float32(Seq<u32>),
    Utf8(Seq<Seq<char>>),
}

/// The texts of a sequence of strings.
pub open spec fn text_view(cells: Seq<String>) -> Seq<Seq<char>> {
    cells.map_values(|s: String| s@)
}

impl View for Column {
    type V = ColumnView;

    open spec fn view(&self) -> ColumnView {
        match self {
            Column::UInt32(cells) => ColumnView::UInt32(cells@),
            Column::UInt16(cells) => ColumnView::UInt16(cells@),
            Column::UInt8(cells) => ColumnView::UInt8(cells@),
            Column::Float32(cells) => ColumnView::Float32(cells@),
            Column::Utf8(cells) => ColumnView::Utf8(text_view(cells@)),
        }
    }
}

/// The positions at which `mask` is true, in ascending order.
pub open spec fn kept_positions(mask: Seq<bool>) -> Seq<int>
    decreases mask.len(),
{
    if mask.len() == 0 {
        Seq::empty()
    } else {
        let earlier = kept_positions(mask.drop_last());
        if mask.last() {
            earlier.push(mask.len() - 1)
        } else {
            earlier
        }
    }
}

/// The cells at the given positions, in the order of the positions.
pub open spec fn gather<T>(cells: Seq<T>, positions: Seq<int>) -> Seq<T> {
    positions.map_values(|p: int| cells[p])
}

/// The cells at the positions where `mask` is true, in their old order.
pub open spec fn select<T>(cells: Seq<T>, mask: Seq<bool>) -> Seq<T> {
    gather(cells, kept_positions(mask))
}

/// Whether the positions lie among the first `rows` and each is greater
/// than the one before it.
pub open spec fn is_ascending(positions: Seq<int>, rows: nat) -> bool {
    &&& forall|j: int| 0 <= j < positions.len() ==> 0 <= #[trigger] positions[j] < rows
    &&& forall|j: int, k: int|
        0 <= j < k < positions.len() ==> #[trigger] positions[j] < #[trigger] positions[k]
}

impl ColumnView {
    pub open spec fn len(self) -> nat {
        match self {
            ColumnView::UInt32(cells) => cells.len(),
            ColumnView::UInt16(cells) => cells.len(),
            ColumnView::UInt8(cells) => cells.len(),
            ColumnView::Float32(cells) => cells.len(),
            ColumnView::Utf8(cells) => cells.len(),
        }
    }

    pub open spec fn data_type(self) -> DataType {
        match self {
            ColumnView::UInt32(_) => DataType::UInt32,
            ColumnView::UInt16(_) => DataType::UInt16,
            ColumnView::UInt8(_) => DataType::UInt8,
            ColumnView::Float32(_) => DataType::Float32,
            ColumnView::Utf8(_) => DataType::Utf8,
        }
    }

    /// The cells of the column at the given rows, in the order given.
    pub open spec fn gather(self, positions: Seq<int>) -> ColumnView {
        match self {
            ColumnView::UInt32(cells) => ColumnView::UInt32(gather(cells, positions)),
            ColumnView::UInt16(cells) => ColumnView::UInt16(gather(cells, positions)),
            ColumnView::UInt8(cells) => ColumnView::UInt8(gather(cells, positions)),
            ColumnView::Float32(cells) => ColumnView::Float32(gather(cells, positions)),
            ColumnView::Utf8(cells) => ColumnView::Utf8(gather(cells, positions)),
        }
    }

    /// The column reduced to the rows where `mask` is true.
    pub open spec fn select(self, mask: Seq<bool>) -> ColumnView {
        self.gather(kept_positions(mask))
    }
}

/// Every kept position lies inside the mask.
pub proof fn lemma_kept_positions_in_range(mask: Seq<bool>)
    ensures
        kept_positions(mask).len() <= mask.len(),
        forall|j: int|
            0 <= j < kept_positions(mask).len() ==> 0 <= #[trigger] kept_positions(mask)[j]
                < mask.len() && mask[kept_positions(mask)[j]],
    decreases mask.len(),
{
    if mask.len() > 0 {
        lemma_kept_positions_in_range(mask.drop_last());
    }
}

/// The kept positions ascend, and they are all the positions at which the
/// mask is true.
pub proof fn lemma_kept_positions_ascending(mask: Seq<bool>)
    ensures
        is_ascending(kept_positions(mask), mask.len()),
        forall|i: int|
            0 <= i < mask.len() && #[trigger] mask[i] ==> kept_positions(mask).contains(i),
    decreases mask.len(),
{
    if mask.len() > 0 {
        let earlier = kept_positions(mask.drop_last());
        lemma_kept_positions_ascending(mask.drop_last());
        lemma_kept_positions_in_range(mask.drop_last());
        assert forall|i: int| 0 <= i < mask.len() && #[trigger] mask[i] implies kept_positions(
            mask,
        ).contains(i) by {
            if i < mask.len() - 1 {
                assert(mask.drop_last()[i]);
                let j = choose|j: int| 0 <= j < earlier.len() && earlier[j] == i;
                assert(kept_positions(mask)[j] == i);
            } else {
                assert(kept_positions(mask)[earlier.len() as int] == i);
            }
        }
    }
}

/// Taking one more cell of the mask adds its position when it is true, and
/// nothing otherwise.
pub proof fn lemma_kept_positions_step(mask: Seq<bool>, i: int)
    requires
        0 <= i < mask.len(),
    ensures
        kept_positions(mask.take(i + 1)) == if mask[i] {
            kept_positions(mask.take(i)).push(i)
        } else {
            kept_positions(mask.take(i))
        },
{
    assert(mask.take(i + 1).drop_last() =~= mask.take(i));
}

impl Column {
    pub fn len(&self) -> (n: usize)
        ensures
            n == self@.len(),
    {
        match self {
            Column::UInt32(cells) => cells.len(),
            Column::UInt16(cells) => cells.len(),
            Column::UInt8(cells) => cells.len(),
            Column::Float32(cells) => cells.len(),
            Column::Utf8(cells) => cells.len(),
        }
    }

    pub fn data_type(&self) -> (t: DataType)
        ensures
            t == self@.data_type(),
    {
        match self {
            Column::UInt32(_) => DataType::UInt32,
            Column::UInt16(_) => DataType::UInt16,
            Column::UInt8(_) => DataType::UInt8,
            Column::Float32(_) => DataType::Float32,
            Column::Utf8(_) => DataType::Utf8,
        }
    }
}

/// The cells of `cells` at the positions where `mask` is true.
fn select_values<T: Copy>(cells: &Vec<T>, mask: &Vec<bool>) -> (out: Vec<T>)
    requires
        mask.len() == cells.len(),
    ensures
        out@ == select(cells@, mask@),
{
    let mut out: Vec<T> = Vec::new();
    let mut i: usize = 0;
    while i < mask.len()
        invariant
            i <= mask.len(),
            mask.len() == cells.len(),
            out@ == select(cells@, mask@.take(i as int)),
        decreases mask.len() - i,
    {
        proof {
            lemma_kept_positions_step(mask@, i as int);
            lemma_kept_positions_in_range(mask@.take(i as int));
        }
        if mask[i] {
            out.push(cells[i]);
            assert(out@ =~= select(cells@, mask@.take(i + 1)));
        }
        i += 1;
    }
    assert(mask@.take(mask.len() as int) =~= mask@);
    out
}

/// The texts of `cells` at the positions where `mask` is true.
fn select_text(cells: &Vec<String>, mask: &Vec<bool>) -> (out: Vec<String>)
    requires
        mask.len() == cells.len(),
    ensures
        text_view(out@) == select(text_view(cells@), mask@),
{
    let mut out: Vec<String> = Vec::new();
    let mut i: usize = 0;
    assert(text_view(out@) =~= select(text_view(cells@), mask@.take(0)));
    while i < mask.len()
        invariant
            i <= mask.len(),
            mask.len() == cells.len(),
            text_view(out@) == select(text_view(cells@), mask@.take(i as int)),
        decreases mask.len() - i,
    {
        proof {
            lemma_kept_positions_step(mask@, i as int);
            lemma_kept_positions_in_range(mask@.take(i as int));
        }
        if mask[i] {
            let ghost before = out@;
            let cell = cells[i].clone();
            out.push(cell);
            assert(text_view(out@) =~= text_view(before).push(cells@[i as int]@));
            assert(text_view(cells@)[i as int] == cells@[i as int]@);
            assert(text_view(out@) =~= select(text_view(cells@), mask@.take(i + 1)));
        }
        i += 1;
    }
    assert(mask@.take(mask.len() as int) =~= mask@);
    out
}

impl Column {
    /// The column reduced to the rows where `mask` is true.
    fn select(&self, mask: &Vec<bool>) -> (out: Column)
        requires
            mask.len() == self@.len(),
        ensures
            out@ == self@.select(mask@),
    {
        match self {
            Column::UInt32(cells) => Column::UInt32(select_values(cells, mask)),
            Column::UInt16(cells) => Column::UInt16(select_values(cells, mask)),
            Column::UInt8(cells) => Column::UInt8(select_values(cells, mask)),
            Column::Float32(cells) => Column::Float32(select_values(cells, mask)),
            Column::Utf8(cells) => Column::Utf8(select_text(cells, mask)),
        }
    }

    /// A column of the given type without cells.
    pub fn empty(data_type: DataType) -> (out: Column)
        ensures
            out@.data_type() == data_type,
            out@.len() == 0,
    {
        match data_type {
            DataType::UInt32 => Column::UInt32(Vec::new()),
            DataType::UInt16 => Column::UInt16(Vec::new()),
            DataType::UInt8 => Column::UInt8(Vec::new()),
            DataType::Float32 => Column::Float32(Vec::new()),
            DataType::Utf8 => Column::Utf8(Vec::new()),
        }
    }
}

/// What a [`Batch`] holds: its fields, its columns and its number of rows.
pub struct BatchView {
    pub fields: Seq<FieldView>,
    pub columns: Seq<ColumnView>,
    pub row_count: nat,
}

impl BatchView {
    /// Every field has its column, of the field's type and with one cell
    /// for each row.
    pub open spec fn wf(self) -> bool {
        &&& self.columns.len() == self.fields.len()
        &&& forall|c: int|
            0 <= c < self.columns.len() ==> (#[trigger] self.columns[c]).len() == self.row_count
                && self.columns[c].data_type() == self.fields[c].data_type
    }

    /// The given rows of the batch, in the order given and under the same
    /// fields.
    pub open spec fn gather(self, positions: Seq<int>) -> BatchView {
        BatchView {
            fields: self.fields,
            columns: self.columns.map_values(|c: ColumnView| c.gather(positions)),
            row_count: positions.len(),
        }
    }

    /// The batch reduced to the rows where `mask` is true, in their old
    /// order and under the same fields.
    pub open spec fn select(self, mask: Seq<bool>) -> BatchView {
        self.gather(kept_positions(mask))
    }

    /// Whether some field is called `name`.
    pub open spec fn has_field(self, name: Seq<char>) -> bool {
        exists|i: int| 0 <= i < self.fields.len() && (#[trigger] self.fields[i]).name == name
    }

    /// Whether field `i` is the first one called `name`.
    pub open spec fn is_first_named(self, name: Seq<char>, i: int) -> bool {
        &&& 0 <= i < self.fields.len()
        &&& self.fields[i].name == name
        &&& forall|j: int| 0 <= j < i ==> (#[trigger] self.fields[j]).name != name
    }

    /// The position of the first field called `name`, where there is one.
    pub open spec fn field_position(self, name: Seq<char>) -> int {
        choose|i: int| self.is_first_named(name, i)
    }

    /// The column of the first field called `name`.
    pub open spec fn named_column(self, name: Seq<char>) -> Option<ColumnView> {
        if self.has_field(name) {
            Some(self.columns[self.field_position(name)])
        } else {
            None
        }
    }
}

/// Where field `i` is called `name`, some field is the first of that name.
proof fn lemma_first_named_exists(batch: BatchView, name: Seq<char>, i: int)
    requires
        0 <= i < batch.fields.len(),
        batch.fields[i].name == name,
    ensures
        exists|k: int| batch.is_first_named(name, k),
    decreases i,
{
    if forall|j: int| 0 <= j < i ==> (#[trigger] batch.fields[j]).name != name {
        assert(batch.is_first_named(name, i));
    } else {
        let j = choose|j: int| 0 <= j < i && (#[trigger] batch.fields[j]).name == name;
        lemma_first_named_exists(batch, name, j);
    }
}

/// Where some field is called `name`, the position of the first such
/// field is that of a field called `name` with none of that name before
/// it.
pub proof fn lemma_field_position(batch: BatchView, name: Seq<char>)
    requires
        batch.has_field(name),
    ensures
        batch.is_first_named(name, batch.field_position(name)),
{
    let i = choose|i: int| 0 <= i < batch.fields.len() && (#[trigger] batch.fields[i]).name == name;
    lemma_first_named_exists(batch, name, i);
}

/// Two first fields of one name are the same field.
pub proof fn lemma_first_named_is_unique(batch: BatchView, name: Seq<char>, i: int)
    requires
        batch.is_first_named(name, i),
    ensures
        batch.has_field(name),
        batch.field_position(name) == i,
{
    let p = batch.field_position(name);
    assert(batch.is_first_named(name, p));
    if p < i {
        assert(batch.fields[p].name != name);
    }
    if i < p {
        assert(batch.fields[i].name != name);
    }
}

/// Why a batch could not be made.
#[derive(Clone, Copy, Debug, PartialEq, Eq, Structural)]
pub enum BatchError {
    /// There are not as many columns as fields.
    ColumnCountMismatch,
    /// There is no column to take the number of rows from.
    NoColumns,
    /// A column is longer or shorter than the first.
    LengthMismatch,
    /// A column does not hold what its field declares.
    TypeMismatch,
    /// A row mask does not have one cell for each row.
    MaskLengthMismatch,
}

/// The refusal that [`Batch::try_new`] answers with, if any.
pub open spec fn try_new_error(fields: Seq<FieldView>, columns: Seq<ColumnView>) -> Option<
    BatchError,
> {
    if columns.len() != fields.len() {
        Some(BatchError::ColumnCountMismatch)
    } else if columns.len() == 0 {
        Some(BatchError::NoColumns)
    } else if exists|c: int|
        0 <= c < columns.len() && (#[trigger] columns[c]).len() != columns[0].len() {
        Some(BatchError::LengthMismatch)
    } else if exists|c: int|
        0 <= c < columns.len() && (#[trigger] columns[c]).data_type() != fields[c].data_type {
        Some(BatchError::TypeMismatch)
    } else {
        None
    }
}

/// The views of a sequence of columns.
pub open spec fn column_views(columns: Seq<Column>) -> Seq<ColumnView> {
    columns.map_values(|c: Column| c@)
}

/// A schema with its columns. Every value is well formed: see
/// [`BatchView::wf`].
pub struct Batch {
    schema: Schema,
    columns: Vec<Column>,
    row_count: usize,
}

impl View for Batch {
    type V = BatchView;

    closed spec fn view(&self) -> BatchView {
        BatchView {
            fields: self.schema@,
            columns: column_views(self.columns@),
            row_count: self.row_count as nat,
        }
    }
}

impl Schema {
    /// A copy of the schema.
    pub fn duplicate(&self) -> (copy: Schema)
        ensures
            copy@ == self@,
    {
        let mut fields: Vec<Field> = Vec::new();
        let mut i: usize = 0;
        while i < self.fields.len()
            invariant
                i <= self.fields.len(),
                fields.len() == i,
                forall|j: int| 0 <= j < i ==> (#[trigger] fields[j])@ == self.fields[j]@,
            decreases self.fields.len() - i,
        {
            let field = &self.fields[i];
            fields.push(
                Field {
                    name: field.name.clone(),
                    data_type: field.data_type,
                    nullable: field.nullable,
                },
            );
            i += 1;
        }
        let copy = Schema { fields };
        assert(copy@ =~= self@);
        copy
    }

    /// The position of the first field called `name`.
    pub fn index_of(&self, name: &str) -> (position: Option<usize>)
        ensures
            match position {
                Some(i) => i < self@.len() && self@[i as int].name == name@ && forall|j: int|
                    0 <= j < i ==> (#[trigger] self@[j]).name != name@,
                None => forall|j: int| 0 <= j < self@.len() ==> (#[trigger] self@[j]).name != name@,
            },
    {
        let wanted: String = name.to_owned();
        let mut i: usize = 0;
        while i < self.fields.len()
            invariant
                i <= self.fields.len(),
                wanted@ == name@,
                forall|j: int| 0 <= j < i ==> (#[trigger] self@[j]).name != name@,
            decreases self.fields.len() - i,
        {
            if self.fields[i].name == wanted {
                return Some(i);
            }
            i += 1;
        }
        None
    }
}

impl Batch {
    /// The invariant of the type.
    #[verifier::type_invariant]
    pub open spec fn is_valid(&self) -> bool {
        self@.wf()
    }

    /// A batch of the given fields and columns, if they fit together.
    #[verifier::loop_isolation(false)]
    pub fn try_new(schema: Schema, columns: Vec<Column>) -> (made: Result<Batch, BatchError>)
        ensures
            match made {
                Ok(batch) => try_new_error(schema@, column_views(columns@)) is None && batch@ == (
                BatchView {
                    fields: schema@,
                    columns: column_views(columns@),
                    row_count: columns@[0]@.len(),
                }) && batch@.wf(),
                Err(e) => try_new_error(schema@, column_views(columns@)) == Some(e),
            },
    {
        let ghost views = column_views(columns@);
        if schema.fields.len() != columns.len() {
            return Err(BatchError::ColumnCountMismatch);
        }
        if columns.len() == 0 {
            return Err(BatchError::NoColumns);
        }
        let row_count: usize = columns[0].len();
        let mut c: usize = 0;
        while c < columns.len()
            invariant
                c <= columns.len(),
                views == column_views(columns@),
                row_count == views[0].len(),
                forall|k: int| 0 <= k < c ==> (#[trigger] views[k]).len() == row_count,
            decreases columns.len() - c,
        {
            if columns[c].len() != row_count {
                assert(views[c as int].len() != views[0].len());
                return Err(BatchError::LengthMismatch);
            }
            c += 1;
        }
        let mut c: usize = 0;
        while c < columns.len()
            invariant
                c <= columns.len(),
                columns.len() == schema.fields.len(),
                views == column_views(columns@),
                forall|k: int|
                    0 <= k < c ==> (#[trigger] views[k]).data_type() == schema@[k].data_type,
            decreases columns.len() - c,
        {
            if columns[c].data_type() != schema.fields[c].data_type {
                assert(views[c as int].data_type() != schema@[c as int].data_type);
                return Err(BatchError::TypeMismatch);
            }
            c += 1;
        }
        Ok(Batch { schema, columns, row_count })
    }

    /// A batch of the given fields without rows.
    pub fn new_empty(schema: Schema) -> (batch: Batch)
        ensures
            batch@.fields == schema@,
            batch@.row_count == 0,
            batch@.wf(),
    {
        let mut columns: Vec<Column> = Vec::new();
        let mut c: usize = 0;
        while c < schema.fields.len()
            invariant
                c <= schema.fields.len(),
                columns.len() == c,
                forall|k: int|
                    0 <= k < c ==> (#[trigger] column_views(columns@)[k]).len() == 0
                        && column_views(columns@)[k].data_type() == schema@[k].data_type,
            decreases schema.fields.len() - c,
        {
            let ghost before = column_views(columns@);
            let column = Column::empty(schema.fields[c].data_type);
            columns.push(column);
            assert(column_views(columns@) =~= before.push(column@));
            c += 1;
        }
        Batch { schema, columns, row_count: 0 }
    }

    pub fn schema(&self) -> (schema: &Schema)
        ensures
            schema@ == self@.fields,
    {
        &self.schema
    }

    pub fn num_rows(&self) -> (n: usize)
        ensures
            n == self@.row_count,
    {
        self.row_count
    }

    pub fn num_columns(&self) -> (n: usize)
        ensures
            n == self@.columns.len(),
            n == self@.fields.len(),
    {
        proof {
            use_type_invariant(self);
        }
        self.columns.len()
    }

    /// Column `c`.
    pub fn column(&self, c: usize) -> (column: &Column)
        requires
            c < self@.columns.len(),
        ensures
            column@ == self@.columns[c as int],
            column@.len() == self@.row_count,
            column@.data_type() == self@.fields[c as int].data_type,
    {
        proof {
            use_type_invariant(self);
            assert(self@.columns[c as int].len() == self@.row_count);
        }
        &self.columns[c]
    }

    /// The column of the first field called `name`.
    pub fn column_by_name(&self, name: &str) -> (column: Option<&Column>)
        ensures
            match column {
                Some(found) => self@.named_column(name@) == Some(found@) && found@.len()
                    == self@.row_count,
                None => self@.named_column(name@) is None,
            },
    {
        proof {
            use_type_invariant(self);
        }
        match self.schema.index_of(name) {
            Some(i) => {
                proof {
                    lemma_first_named_is_unique(self@, name@, i as int);
                }
                Some(&self.columns[i])
            },
            None => None,
        }
    }
}

/// The rows of `batch` where `mask` is true, in their old order.
pub fn filter_record_batch(batch: &Batch, mask: &Vec<bool>) -> (kept: Result<Batch, BatchError>)
    ensures
        match kept {
            Ok(out) => mask.len() == batch@.row_count && out@ == batch@.select(mask@)
                && out@.wf(),
            Err(e) => mask.len() != batch@.row_count && e == BatchError::MaskLengthMismatch,
        },
{
    proof {
        use_type_invariant(batch);
        lemma_kept_positions_in_range(mask@);
    }
    if mask.len() != batch.row_count {
        return Err(BatchError::MaskLengthMismatch);
    }
    let mut columns: Vec<Column> = Vec::new();
    let mut c: usize = 0;
    while c < batch.columns.len()
        invariant
            c <= batch.columns.len(),
            columns.len() == c,
            batch@.wf(),
            mask.len() == batch@.row_count,
            forall|k: int|
                0 <= k < c ==> (#[trigger] column_views(columns@)[k]) == batch@.columns[k].select(
                    mask@,
                ),
        decreases batch.columns.len() - c,
    {
        let ghost before = column_views(columns@);
        assert(batch@.columns[c as int].len() == batch@.row_count);
        let column = batch.columns[c].select(mask);
        columns.push(column);
        assert(column_views(columns@) =~= before.push(column@));
        c += 1;
    }
    let mut kept: usize = 0;
    let mut i: usize = 0;
    while i < mask.len()
        invariant
            i <= mask.len(),
            kept <= i,
            kept == kept_positions(mask@.take(i as int)).len(),
        decreases mask.len() - i,
    {
        proof {
            lemma_kept_positions_step(mask@, i as int);
        }
        if mask[i] {
            kept += 1;
        }
        i += 1;
    }
    assert(mask@.take(mask.len() as int) =~= mask@);
    let out = Batch { schema: batch.schema.duplicate(), columns, row_count: kept };
    assert(out@.columns =~= batch@.select(mask@).columns);
    Ok(out)
}

} // verus!
