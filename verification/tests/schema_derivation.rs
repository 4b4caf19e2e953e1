use std::sync::Arc;

use iceberg::spec::{NestedField, PrimitiveType, Schema, Type};
use iceberg_compaction_core::context::DataFusionTaskContextBuilder;
use iceberg_compaction_core::metadata::EqualityDeleteMetadata;

#[test]
fn test_build_equality_delete_schema() {
    let schema = Schema::builder()
        .with_fields(vec![
            Arc::new(NestedField::new(
                1,
                "id",
                iceberg::spec::Type::Primitive(PrimitiveType::Int),
                true,
            )),
            Arc::new(NestedField::new(
                2,
                "name",
                iceberg::spec::Type::Primitive(PrimitiveType::String),
                true,
            )),
        ])
        .build()
        .unwrap();

    let mut highest_field_id = schema.highest_field_id();

    let builder = DataFusionTaskContextBuilder {
        schema: Arc::new(schema),
        data_files: vec![],
        position_delete_files: vec![],
        equality_delete_files: vec![],
    };

    let equality_ids = vec![1, 2];
    let equality_delete_schema = builder
        .build_equality_delete_schema(&equality_ids, &mut highest_field_id)
        .unwrap();

    assert_eq!(equality_delete_schema.as_struct().fields().len(), 3);
    assert_eq!(equality_delete_schema.as_struct().fields()[0].name, "id");
    assert_eq!(equality_delete_schema.as_struct().fields()[1].name, "name");
    assert_eq!(
        equality_delete_schema.as_struct().fields()[2].name,
        "sys_hidden_seq_num"
    );
    assert_eq!(highest_field_id, 3);
}

#[test]
fn test_equality_delete_join_names() {
    // schema
    let fields = vec![
        Arc::new(NestedField::new(
            1,
            "id",
            Type::Primitive(PrimitiveType::Int),
            true,
        )),
        Arc::new(NestedField::new(
            2,
            "name",
            Type::Primitive(PrimitiveType::String),
            true,
        )),
        Arc::new(NestedField::new(
            3,
            "sys_hidden_seq_num",
            Type::Primitive(PrimitiveType::Long),
            true,
        )),
        Arc::new(NestedField::new(
            4,
            "sys_hidden_file_path",
            Type::Primitive(PrimitiveType::String),
            true,
        )),
    ];
    let schema = Schema::builder().with_fields(fields).build().unwrap();

    let meta = EqualityDeleteMetadata {
        equality_delete_schema: schema,
        equality_delete_table_name: "test_table".to_string(),
        file_scan_tasks: vec![],
    };

    let join_names = meta.equality_delete_join_names();
    assert_eq!(join_names, vec!["id", "name"]);
}

#[test]
fn join_names_leave_out_all_three_hidden_names() {
    let names = [
        "sys_hidden_pos",
        "id",
        "sys_hidden_file_path",
        "name",
        "sys_hidden_seq_num",
    ];
    let fields: Vec<_> = names
        .iter()
        .enumerate()
        .map(|(i, name)| {
            Arc::new(NestedField::new(
                i as i32 + 1,
                *name,
                Type::Primitive(PrimitiveType::Long),
                true,
            ))
        })
        .collect();
    let schema = Schema::builder().with_fields(fields).build().unwrap();
    let meta = EqualityDeleteMetadata::new(schema, "t".to_owned());
    assert_eq!(meta.equality_delete_join_names(), vec!["id", "name"]);
}

#[test]
fn derived_schema_has_the_new_field_under_the_next_id() {
    let schema = Schema::builder()
        .with_fields(vec![
            Arc::new(NestedField::new(
                1,
                "id",
                Type::Primitive(PrimitiveType::Int),
                true,
            )),
            Arc::new(NestedField::new(
                2,
                "name",
                Type::Primitive(PrimitiveType::String),
                true,
            )),
        ])
        .build()
        .unwrap();
    let mut highest_field_id = schema.highest_field_id();
    assert_eq!(highest_field_id, 2);
    let builder = DataFusionTaskContextBuilder {
        schema: Arc::new(schema),
        data_files: vec![],
        position_delete_files: vec![],
        equality_delete_files: vec![],
    };
    let derived = builder
        .build_equality_delete_schema(&[1, 2], &mut highest_field_id)
        .unwrap();
    let fields = derived.as_struct().fields();
    let summary: Vec<(i32, &str)> = fields.iter().map(|f| (f.id, f.name.as_str())).collect();
    assert_eq!(
        summary,
        vec![(1, "id"), (2, "name"), (3, "sys_hidden_seq_num")]
    );
    assert_eq!(*fields[2].field_type, Type::Primitive(PrimitiveType::Long));
    assert!(fields[2].required);
    assert_eq!(highest_field_id, 3);
}
