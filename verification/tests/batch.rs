use fast_parser::batch::{
    filter_record_batch, Batch, BatchError, Column, DataType, Field, Schema,
};

fn field(name: &str, data_type: DataType) -> Field {
    Field { name: name.to_string(), data_type, nullable: false }
}

fn two_columns() -> Batch {
    let schema = Schema {
        fields: vec![field("n", DataType::UInt32), field("t", DataType::Utf8)],
    };
    let columns = vec![
        Column::UInt32(vec![10, 20, 30, 40]),
        Column::Utf8(vec!["a".to_string(), "b".to_string(), "c".to_string(), "d".to_string()]),
    ];
    Batch::try_new(schema, columns).ok().unwrap()
}

fn u32_cells(batch: &Batch, name: &str) -> Vec<u32> {
    match batch.column_by_name(name) {
        Some(Column::UInt32(cells)) => cells.clone(),
        _ => panic!("no such column"),
    }
}

fn text_cells(batch: &Batch, name: &str) -> Vec<String> {
    match batch.column_by_name(name) {
        Some(Column::Utf8(cells)) => cells.clone(),
        _ => panic!("no such column"),
    }
}

#[test]
fn a_batch_knows_its_shape() {
    let batch = two_columns();
    assert_eq!(batch.num_rows(), 4);
    assert_eq!(batch.num_columns(), 2);
    assert_eq!(batch.schema().fields.len(), 2);
    assert_eq!(batch.schema().index_of("t"), Some(1));
    assert_eq!(batch.schema().index_of("missing"), None);
    assert_eq!(batch.column(0).len(), 4);
    assert!(batch.column(1).data_type() == DataType::Utf8);
    assert!(batch.column_by_name("missing").is_none());
}

#[test]
fn the_first_of_two_fields_of_one_name_is_found() {
    let schema = Schema {
        fields: vec![field("n", DataType::UInt32), field("n", DataType::UInt32)],
    };
    let columns = vec![Column::UInt32(vec![1]), Column::UInt32(vec![2])];
    let batch = Batch::try_new(schema, columns).ok().unwrap();
    assert_eq!(batch.schema().index_of("n"), Some(0));
    assert_eq!(u32_cells(&batch, "n"), vec![1]);
}

#[test]
fn columns_must_be_as_many_as_fields() {
    let schema = Schema { fields: vec![field("n", DataType::UInt32)] };
    let made = Batch::try_new(schema, vec![]);
    assert_eq!(made.err(), Some(BatchError::ColumnCountMismatch));
}

#[test]
fn a_batch_needs_a_column() {
    let made = Batch::try_new(Schema { fields: vec![] }, vec![]);
    assert_eq!(made.err(), Some(BatchError::NoColumns));
}

#[test]
fn columns_must_have_one_length() {
    let schema = Schema {
        fields: vec![field("a", DataType::UInt32), field("b", DataType::UInt32)],
    };
    let columns = vec![Column::UInt32(vec![1, 2]), Column::UInt32(vec![1])];
    assert_eq!(Batch::try_new(schema, columns).err(), Some(BatchError::LengthMismatch));
}

#[test]
fn columns_must_hold_what_their_fields_declare() {
    let schema = Schema { fields: vec![field("a", DataType::UInt16)] };
    let columns = vec![Column::UInt32(vec![1, 2])];
    assert_eq!(Batch::try_new(schema, columns).err(), Some(BatchError::TypeMismatch));
    let schema = Schema { fields: vec![field("a", DataType::Float32)] };
    let columns = vec![Column::UInt32(vec![1, 2])];
    assert_eq!(Batch::try_new(schema, columns).err(), Some(BatchError::TypeMismatch));
}

#[test]
fn length_is_looked_at_before_type() {
    let schema = Schema {
        fields: vec![field("a", DataType::UInt16), field("b", DataType::UInt32)],
    };
    let columns = vec![Column::UInt32(vec![1, 2]), Column::UInt32(vec![1])];
    assert_eq!(Batch::try_new(schema, columns).err(), Some(BatchError::LengthMismatch));
}

#[test]
fn an_empty_batch_has_every_column() {
    let schema = Schema {
        fields: vec![
            field("a", DataType::UInt32),
            field("b", DataType::UInt16),
            field("c", DataType::UInt8),
            field("d", DataType::Float32),
            field("e", DataType::Utf8),
        ],
    };
    let batch = Batch::new_empty(schema);
    assert_eq!(batch.num_rows(), 0);
    assert_eq!(batch.num_columns(), 5);
    assert!(matches!(batch.column(0), Column::UInt32(cells) if cells.is_empty()));
    assert!(matches!(batch.column(1), Column::UInt16(cells) if cells.is_empty()));
    assert!(matches!(batch.column(2), Column::UInt8(cells) if cells.is_empty()));
    assert!(matches!(batch.column(3), Column::Float32(cells) if cells.is_empty()));
    assert!(matches!(batch.column(4), Column::Utf8(cells) if cells.is_empty()));
}

#[test]
fn an_empty_batch_may_have_no_fields() {
    let batch = Batch::new_empty(Schema { fields: vec![] });
    assert_eq!(batch.num_rows(), 0);
    assert_eq!(batch.num_columns(), 0);
}

#[test]
fn a_mask_keeps_its_rows_in_order() {
    let batch = two_columns();
    let kept = filter_record_batch(&batch, &vec![true, false, true, true]).ok().unwrap();
    assert_eq!(kept.num_rows(), 3);
    assert_eq!(kept.num_columns(), 2);
    assert_eq!(u32_cells(&kept, "n"), vec![10, 30, 40]);
    assert_eq!(text_cells(&kept, "t"), vec!["a", "c", "d"]);
    assert_eq!(kept.schema().index_of("t"), Some(1));
    assert_eq!(batch.num_rows(), 4);
}

#[test]
fn a_mask_may_keep_all_or_nothing() {
    let batch = two_columns();
    let all = filter_record_batch(&batch, &vec![true; 4]).ok().unwrap();
    assert_eq!(u32_cells(&all, "n"), vec![10, 20, 30, 40]);
    let none = filter_record_batch(&batch, &vec![false; 4]).ok().unwrap();
    assert_eq!(none.num_rows(), 0);
    assert_eq!(none.num_columns(), 2);
    assert!(text_cells(&none, "t").is_empty());
}

#[test]
fn a_mask_must_have_one_cell_for_each_row() {
    let batch = two_columns();
    let short = filter_record_batch(&batch, &vec![true, false]);
    assert_eq!(short.err(), Some(BatchError::MaskLengthMismatch));
    let long = filter_record_batch(&batch, &vec![true; 5]);
    assert_eq!(long.err(), Some(BatchError::MaskLengthMismatch));
}

#[test]
fn a_schema_is_copied_field_by_field() {
    let batch = two_columns();
    let copy = batch.schema().duplicate();
    assert_eq!(copy.fields.len(), 2);
    assert_eq!(copy.fields[0].name, "n");
    assert!(copy.fields[0].data_type == DataType::UInt32);
    assert!(!copy.fields[0].nullable);
    assert_eq!(copy.fields[1].name, "t");
    assert!(copy.fields[1].data_type == DataType::Utf8);
}

#[test]
fn a_column_without_cells_has_its_type() {
    assert!(Column::empty(DataType::UInt8).data_type() == DataType::UInt8);
    assert_eq!(Column::empty(DataType::Float32).len(), 0);
    assert_eq!(Column::UInt16(vec![7, 8, 9]).len(), 3);
}
