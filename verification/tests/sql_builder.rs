use std::sync::Arc;

use iceberg::spec::{NestedField, PrimitiveType, Schema, Type};
use iceberg_compaction_core::metadata::EqualityDeleteMetadata;
use iceberg_compaction_core::names::{
    DATA_FILE_TABLE, POSITION_DELETE_TABLE, SYS_HIDDEN_FILE_PATH, SYS_HIDDEN_POS,
    SYS_HIDDEN_SEQ_NUM,
};
use iceberg_compaction_core::sql::SqlBuilder;

fn id_schema() -> Schema {
    Schema::builder()
        .with_fields(vec![Arc::new(NestedField::new(
            1,
            "id",
            Type::Primitive(PrimitiveType::Int),
            true,
        ))])
        .build()
        .unwrap()
}

/// Test building SQL with no delete files
#[test]
fn test_build_merge_on_read_sql_no_deletes() {
    let project_names = vec!["id".to_owned(), "name".to_owned()];
    let equality_join_names = Vec::new();

    let builder = SqlBuilder::new(
        &project_names,
        Some(POSITION_DELETE_TABLE.to_owned()),
        Some(DATA_FILE_TABLE.to_owned()),
        &equality_join_names,
        false,
    );
    assert_eq!(
        builder.build_merge_on_read_sql().unwrap(),
        format!(
            "SELECT {} FROM {}",
            project_names.join(","),
            DATA_FILE_TABLE
        )
    );
}

/// Test building SQL with position delete files
#[test]
fn test_build_merge_on_read_sql_with_position_deletes() {
    let project_names = vec!["id".to_owned(), "name".to_owned()];
    let equality_join_names = Vec::new();

    let builder = SqlBuilder::new(
        &project_names,
        Some(POSITION_DELETE_TABLE.to_owned()),
        Some(DATA_FILE_TABLE.to_owned()),
        &equality_join_names,
        true,
    );
    let sql = builder.build_merge_on_read_sql().unwrap();

    assert!(sql.contains(&format!(
        "LEFT ANTI JOIN {POSITION_DELETE_TABLE} ON {DATA_FILE_TABLE}",
    )));
    assert!(sql.contains(&format!(
        "{POSITION_DELETE_TABLE} ON {DATA_FILE_TABLE}.{SYS_HIDDEN_FILE_PATH} = {POSITION_DELETE_TABLE}.{SYS_HIDDEN_FILE_PATH} AND {DATA_FILE_TABLE}.{SYS_HIDDEN_POS} = {POSITION_DELETE_TABLE}.{SYS_HIDDEN_POS}",
    )));
}

/// Test building SQL with equality delete files
#[test]
fn test_build_merge_on_read_sql_with_equality_deletes() {
    let project_names = vec!["id".to_owned(), "name".to_owned()];
    let equality_delete_table_name = "test".to_owned();
    let equality_delete_metadatas = vec![EqualityDeleteMetadata::new(
        id_schema(),
        equality_delete_table_name.clone(),
    )];

    let builder = SqlBuilder::new(
        &project_names,
        Some(POSITION_DELETE_TABLE.to_owned()),
        Some(DATA_FILE_TABLE.to_owned()),
        &equality_delete_metadatas,
        false,
    );
    let sql = builder.build_merge_on_read_sql().unwrap();
    assert!(sql.contains(&format!(
        "LEFT ANTI JOIN {equality_delete_table_name} ON {DATA_FILE_TABLE}",
    )));
    assert!(sql.contains(&format!(
        "{equality_delete_table_name} ON {DATA_FILE_TABLE}.id = {equality_delete_table_name}.id",
    )));
}

/// Test building SQL with equality delete files AND sequence number comparison
#[test]
fn test_build_merge_on_read_sql_with_equality_deletes_and_seq_num() {
    let project_names = vec!["id".to_owned(), "name".to_owned()];

    let equality_delete_table_name = "test".to_owned();
    let equality_delete_metadatas = vec![EqualityDeleteMetadata::new(
        id_schema(),
        equality_delete_table_name.clone(),
    )];

    let builder = SqlBuilder::new(
        &project_names,
        Some(POSITION_DELETE_TABLE.to_owned()),
        Some(DATA_FILE_TABLE.to_owned()),
        &equality_delete_metadatas,
        false,
    );
    let sql = builder.build_merge_on_read_sql().unwrap();
    assert!(sql.contains(&format!(
        "{DATA_FILE_TABLE}.{SYS_HIDDEN_SEQ_NUM} < {equality_delete_table_name}.{SYS_HIDDEN_SEQ_NUM}",
    )));
}

/// Test building SQL with both position AND equality delete files
#[test]
fn test_build_merge_on_read_sql_with_both_deletes() {
    let project_names = vec!["id".to_owned(), "name".to_owned()];
    let equality_delete_table_name = "test".to_owned();
    let equality_delete_metadatas = vec![EqualityDeleteMetadata::new(
        id_schema(),
        equality_delete_table_name.clone(),
    )];

    let builder = SqlBuilder::new(
        &project_names,
        Some(POSITION_DELETE_TABLE.to_owned()),
        Some(DATA_FILE_TABLE.to_owned()),
        &equality_delete_metadatas,
        true,
    );
    let sql = builder.build_merge_on_read_sql().unwrap();
    assert!(sql.contains(&format!(
        "LEFT ANTI JOIN {POSITION_DELETE_TABLE} ON {DATA_FILE_TABLE}"
    )));
    assert!(sql.contains(&format!(
        "LEFT ANTI JOIN {equality_delete_table_name} ON {DATA_FILE_TABLE}",
    )));
    assert!(sql.contains(&format!(
        "{POSITION_DELETE_TABLE} ON {DATA_FILE_TABLE}.{SYS_HIDDEN_FILE_PATH} = {POSITION_DELETE_TABLE}.{SYS_HIDDEN_FILE_PATH} AND {DATA_FILE_TABLE}.{SYS_HIDDEN_POS} = {POSITION_DELETE_TABLE}.{SYS_HIDDEN_POS}",
    )));
    assert!(sql.contains(&format!(
        "{equality_delete_table_name} ON {DATA_FILE_TABLE}.id = {equality_delete_table_name}.id",
    )));
    assert!(sql.contains(&format!(
        "{DATA_FILE_TABLE}.{SYS_HIDDEN_SEQ_NUM} < {equality_delete_table_name}.{SYS_HIDDEN_SEQ_NUM}",
    )));
}

/// Test building SQL with multiple equality delete files
#[test]
fn test_build_merge_on_read_sql_with_multiple_equality_deletes_schema() {
    let project_names = vec!["id".to_owned(), "name".to_owned()];

    let equality_delete_table_name_1 = "test_1".to_owned();
    let equality_delete_table_name_2 = "test_2".to_owned();
    let equality_delete_metadatas = vec![
        EqualityDeleteMetadata::new(id_schema(), equality_delete_table_name_1.clone()),
        EqualityDeleteMetadata::new(id_schema(), equality_delete_table_name_2.clone()),
    ];

    let builder = SqlBuilder::new(
        &project_names,
        Some(POSITION_DELETE_TABLE.to_owned()),
        Some(DATA_FILE_TABLE.to_owned()),
        &equality_delete_metadatas,
        false,
    );
    let sql = builder.build_merge_on_read_sql().unwrap();

    assert!(sql.contains(
        &("LEFT ANTI JOIN ".to_owned()
            + &equality_delete_table_name_1
            + " ON "
            + DATA_FILE_TABLE)
    ));
    assert!(sql.contains(
        &("LEFT ANTI JOIN ".to_owned()
            + &equality_delete_table_name_2
            + " ON "
            + DATA_FILE_TABLE)
    ));
    assert!(sql.contains(
        &(equality_delete_table_name_1.clone()
            + " ON "
            + DATA_FILE_TABLE
            + ".id = "
            + &equality_delete_table_name_1
            + ".id")
    ));
    assert!(sql.contains(
        &(equality_delete_table_name_2.clone()
            + " ON "
            + DATA_FILE_TABLE
            + ".id = "
            + &equality_delete_table_name_2
            + ".id")
    ));

    // Check that the sequence number comparison is present for both equality delete tables
    assert!(sql.contains(
        &(DATA_FILE_TABLE.to_owned()
            + "."
            + SYS_HIDDEN_SEQ_NUM
            + " < "
            + &equality_delete_table_name_1
            + "."
            + SYS_HIDDEN_SEQ_NUM)
    ));
    assert!(sql.contains(
        &(DATA_FILE_TABLE.to_owned()
            + "."
            + SYS_HIDDEN_SEQ_NUM
            + " < "
            + &equality_delete_table_name_2
            + "."
            + SYS_HIDDEN_SEQ_NUM)
    ));
}
