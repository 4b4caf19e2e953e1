use std::sync::Arc;

use iceberg::spec::{NestedField, PartitionSpec, PrimitiveType, Schema, Transform, Type};
use iceberg_compaction_core::context::{DataFusionTaskContext, DataFusionTaskContextBuilder};
use iceberg_compaction_core::error::CompactionError;
use iceberg_compaction_core::metadata::{visible_field_names, EqualityDeleteMetadata};
use iceberg_compaction_core::partition::{choose_repartition, partition_columns, Repartition};
use iceberg_compaction_core::processor::{DatafusionProcessor, TableRegistration};
use iceberg_compaction_core::schema::{hidden_field, HiddenType};
use iceberg_compaction_core::task::FileScanTask;

fn table_schema() -> Schema {
    Schema::builder()
        .with_fields(vec![
            Arc::new(NestedField::new(
                1,
                "id",
                Type::Primitive(PrimitiveType::Int),
                true,
            )),
            Arc::new(NestedField::new(
                2,
                "name",
                Type::Primitive(PrimitiveType::String),
                false,
            )),
            Arc::new(NestedField::new(
                3,
                "day",
                Type::Primitive(PrimitiveType::Date),
                false,
            )),
        ])
        .build()
        .unwrap()
}

fn task(path: &str, equality_ids: Vec<i32>) -> FileScanTask {
    FileScanTask {
        data_file_path: path.to_owned(),
        start: 0,
        length: 128,
        record_count: None,
        sequence_number: 1,
        equality_ids,
    }
}

fn context(position_deletes: Vec<FileScanTask>, equality_deletes: Vec<FileScanTask>) -> DataFusionTaskContext {
    let builder: DataFusionTaskContextBuilder = DataFusionTaskContext::builder()
        .unwrap()
        .with_schema(Arc::new(table_schema()))
        .with_datafile(vec![task("data-1.parquet", vec![])])
        .with_position_delete_files(position_deletes)
        .with_equality_delete_files(equality_deletes);
    builder.build_merge_on_read().unwrap()
}

fn partitioned_by(columns: &[&str]) -> Arc<PartitionSpec> {
    let mut builder = PartitionSpec::builder(table_schema());
    for column in columns {
        builder = builder
            .add_partition_field(column, format!("{column}_part"), Transform::Identity)
            .unwrap();
    }
    Arc::new(builder.build().unwrap())
}

fn names(registrations: &[TableRegistration]) -> Vec<&str> {
    registrations.iter().map(|r| r.table_name.as_str()).collect()
}

#[test]
fn new_processor_holds_its_arguments() {
    let processor = DatafusionProcessor::new(
        context(vec![], vec![]),
        4,
        8,
        Arc::new(PartitionSpec::unpartition_spec()),
    );
    assert_eq!(processor.batch_parallelism, 4);
    assert_eq!(processor.target_partitions, 8);
    assert!(processor.partition_spec.is_unpartitioned());
    assert_eq!(
        processor.datafusion_task_ctx.exec_sql,
        "SELECT id,name,day FROM data_file_table"
    );
}

#[test]
fn registers_the_data_table_alone_without_deletes() {
    let mut processor = DatafusionProcessor::new(
        context(vec![], vec![]),
        4,
        8,
        Arc::new(PartitionSpec::unpartition_spec()),
    );
    let registrations = processor.register_tables().unwrap();
    assert_eq!(names(&registrations), vec!["data_file_table"]);
    assert_eq!(registrations[0].schema, table_schema());
    assert_eq!(
        registrations[0].file_scan_tasks,
        vec![task("data-1.parquet", vec![])]
    );
    assert!(!registrations[0].need_seq_num);
    assert!(!registrations[0].need_file_path_and_pos);
    assert_eq!(registrations[0].batch_parallelism, 4);
}

#[test]
fn registers_all_tables_in_order() {
    let mut processor = DatafusionProcessor::new(
        context(
            vec![task("pos-1.parquet", vec![])],
            vec![
                task("eq-a.parquet", vec![1]),
                task("eq-b.parquet", vec![1]),
                task("eq-c.parquet", vec![2]),
            ],
        ),
        2,
        8,
        Arc::new(PartitionSpec::unpartition_spec()),
    );
    let registrations = processor.register_tables().unwrap();
    assert_eq!(
        names(&registrations),
        vec![
            "data_file_table",
            "position_delete_table",
            "equality_delete_table_0",
            "equality_delete_table_1"
        ]
    );
    assert!(registrations[0].need_seq_num);
    assert!(registrations[0].need_file_path_and_pos);
    assert_eq!(registrations[0].schema.as_struct().fields().len(), 6);
    for registration in &registrations[1..] {
        assert!(!registration.need_seq_num);
        assert!(!registration.need_file_path_and_pos);
        assert_eq!(registration.batch_parallelism, 2);
    }
    assert_eq!(
        registrations[1].file_scan_tasks,
        vec![task("pos-1.parquet", vec![])]
    );
    assert_eq!(registrations[1].schema.as_struct().fields().len(), 2);
    assert_eq!(
        registrations[2].file_scan_tasks,
        vec![task("eq-a.parquet", vec![1]), task("eq-b.parquet", vec![1])]
    );
    assert_eq!(
        registrations[3].file_scan_tasks,
        vec![task("eq-c.parquet", vec![2])]
    );
    assert_eq!(
        registrations[3].schema.as_struct().fields()[0].name,
        "name"
    );

    let ctx = &processor.datafusion_task_ctx;
    assert!(ctx.data_file_schema.is_none());
    assert!(ctx.data_files.is_none());
    assert!(ctx.position_delete_schema.is_none());
    assert!(ctx.position_delete_files.is_none());
    assert!(ctx.equality_delete_metadatas.is_none());
    assert!(ctx.input_schema.is_some());
    assert_eq!(ctx.equality_delete_files.as_ref().unwrap().len(), 3);
}

#[test]
fn registering_twice_is_an_error() {
    let mut processor = DatafusionProcessor::new(
        context(vec![task("pos-1.parquet", vec![])], vec![]),
        2,
        8,
        Arc::new(PartitionSpec::unpartition_spec()),
    );
    assert!(processor.register_tables().is_ok());
    match processor.register_tables() {
        Err(CompactionError::Config(message)) => {
            assert_eq!(message, "tables were registered before")
        }
        _ => panic!("expected a configuration error"),
    }
    assert!(processor.datafusion_task_ctx.input_schema.is_some());
}

#[test]
fn data_and_delete_registrations() {
    let data = TableRegistration::data(table_schema(), vec![task("d", vec![])], "t", true, false, 3);
    assert_eq!(data.table_name, "t");
    assert!(data.need_seq_num);
    assert!(!data.need_file_path_and_pos);
    assert_eq!(data.batch_parallelism, 3);
    let delete = TableRegistration::delete(table_schema(), vec![task("e", vec![1])], "u", 5);
    assert_eq!(delete.table_name, "u");
    assert!(!delete.need_seq_num);
    assert!(!delete.need_file_path_and_pos);
    assert_eq!(delete.batch_parallelism, 5);
    assert_eq!(delete.file_scan_tasks, vec![task("e", vec![1])]);
}

#[test]
fn unpartitioned_destination_keeps_a_plan_with_the_target_count() {
    let mut processor = DatafusionProcessor::new(
        context(vec![], vec![]),
        4,
        8,
        Arc::new(PartitionSpec::unpartition_spec()),
    );
    let plan = processor.plan_output(8).unwrap();
    assert_eq!(plan.repartition, Repartition::Keep);
    assert_eq!(plan.schema, table_schema());
    assert!(processor.datafusion_task_ctx.input_schema.is_none());
}

#[test]
fn unpartitioned_destination_deals_other_plans_out_round_robin() {
    let mut processor = DatafusionProcessor::new(
        context(vec![], vec![]),
        4,
        8,
        Arc::new(PartitionSpec::unpartition_spec()),
    );
    let plan = processor.plan_output(3).unwrap();
    assert_eq!(plan.repartition, Repartition::RoundRobin(8));
}

#[test]
fn partitioned_destination_always_hashes_its_columns() {
    let mut processor = DatafusionProcessor::new(
        context(vec![task("pos-1.parquet", vec![])], vec![task("eq.parquet", vec![1])]),
        4,
        8,
        partitioned_by(&["day", "id"]),
    );
    let plan = processor.plan_output(8).unwrap();
    assert_eq!(
        plan.repartition,
        Repartition::Hash(vec!["day".to_owned(), "id".to_owned()], 8)
    );
    assert_eq!(plan.schema, table_schema());
}

#[test]
fn output_schema_is_handed_out_once() {
    let mut processor = DatafusionProcessor::new(
        context(vec![], vec![]),
        4,
        8,
        partitioned_by(&["id"]),
    );
    assert!(processor.plan_output(1).is_ok());
    match processor.plan_output(1) {
        Err(CompactionError::Config(message)) => {
            assert_eq!(message, "output schema was taken before")
        }
        _ => panic!("expected a configuration error"),
    }
}

#[test]
fn unknown_partition_source_is_a_configuration_error() {
    let narrow = Schema::builder()
        .with_fields(vec![Arc::new(NestedField::new(
            1,
            "id",
            Type::Primitive(PrimitiveType::Int),
            true,
        ))])
        .build()
        .unwrap();
    let ctx = DataFusionTaskContext::builder()
        .unwrap()
        .with_schema(Arc::new(narrow))
        .build_merge_on_read()
        .unwrap();
    let mut processor = DatafusionProcessor::new(ctx, 4, 8, partitioned_by(&["day"]));
    match processor.plan_output(8) {
        Err(CompactionError::Config(message)) => assert_eq!(message, "cannot find field"),
        _ => panic!("expected a configuration error"),
    }
}

#[test]
fn repartition_choices() {
    assert_eq!(choose_repartition(true, 8, 8, vec![]), Repartition::Keep);
    assert_eq!(
        choose_repartition(true, 8, 8, vec!["id".to_owned()]),
        Repartition::Keep
    );
    assert_eq!(
        choose_repartition(true, 1, 8, vec![]),
        Repartition::RoundRobin(8)
    );
    assert_eq!(
        choose_repartition(true, 9, 8, vec![]),
        Repartition::RoundRobin(8)
    );
    assert_eq!(
        choose_repartition(false, 8, 8, vec!["id".to_owned()]),
        Repartition::Hash(vec!["id".to_owned()], 8)
    );
    assert_eq!(
        choose_repartition(false, 2, 8, vec!["a".to_owned(), "b".to_owned()]),
        Repartition::Hash(vec!["a".to_owned(), "b".to_owned()], 8)
    );
}

#[test]
fn partition_columns_follow_the_ids() {
    assert_eq!(
        partition_columns(&table_schema(), &vec![3, 1, 3]).unwrap(),
        vec!["day", "id", "day"]
    );
    assert!(partition_columns(&table_schema(), &vec![]).unwrap().is_empty());
    assert!(matches!(
        partition_columns(&table_schema(), &vec![1, 4]),
        Err(CompactionError::Config(_))
    ));
}

#[test]
fn hidden_names_are_left_out_wherever_they_stand() {
    let fields = vec![
        hidden_field(10, "sys_hidden_pos", HiddenType::Long),
        hidden_field(1, "id", HiddenType::Long),
        hidden_field(11, "sys_hidden_seq_num", HiddenType::Long),
        hidden_field(2, "name", HiddenType::Text),
        hidden_field(12, "sys_hidden_file_path", HiddenType::Text),
    ];
    assert_eq!(visible_field_names(&fields), vec!["id", "name"]);
    assert!(visible_field_names(&Vec::new()).is_empty());
}

#[test]
fn metadata_collects_its_files() {
    let mut metadata = EqualityDeleteMetadata::new(table_schema(), "t".to_owned());
    assert!(metadata.file_scan_tasks.is_empty());
    assert_eq!(metadata.equality_delete_table_name, "t");
    metadata.add_file_scan_task(task("a", vec![1]));
    metadata.add_file_scan_task(task("b", vec![1]));
    assert_eq!(
        metadata.file_scan_tasks,
        vec![task("a", vec![1]), task("b", vec![1])]
    );
    assert_eq!(
        metadata.equality_delete_join_names(),
        vec!["id", "name", "day"]
    );
}

#[test]
fn void_partition_fields_count_as_unpartitioned() {
    let spec = PartitionSpec::builder(table_schema())
        .add_partition_field("day", "day_void", Transform::Void)
        .unwrap()
        .build()
        .unwrap();
    let mut processor =
        DatafusionProcessor::new(context(vec![], vec![]), 4, 8, Arc::new(spec));
    assert_eq!(
        processor.plan_output(2).unwrap().repartition,
        Repartition::RoundRobin(8)
    );
}
