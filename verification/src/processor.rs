//! The decisions of the compaction processor: which tables to register
//! and how to repartition the output.

use std::sync::Arc;
use vstd::prelude::*;

use crate::context::{metadata_matches, DataFusionTaskContext, DataFusionTaskContextBuilder};
use crate::fields::hidden_data_fields;
use crate::error::CompactionError;
use crate::metadata::EqualityDeleteMetadata;
use crate::names::{lemma_table_names_differ, DATA_FILE_TABLE, POSITION_DELETE_TABLE};
use crate::partition::{
    choose_repartition, column_names, is_unpartitioned, partition_columns,
    partition_is_unpartitioned, partition_source_ids, repartition_choice, source_ids, Repartition,
};
use crate::schema::{resolvable, schema_fields, schema_highest_field_id};
use crate::task::FileScanTask;
use iceberg::spec::{PartitionSpec, Schema};

verus! {

/// One table to register with the query engine.
#[derive(Debug)]
pub struct TableRegistration {
    /// The name under which the table is registered.
    pub table_name: String,
    /// The schema of the table.
    pub schema: Schema,
    /// The files that the table scans.
    pub file_scan_tasks: Vec<FileScanTask>,
    /// Whether the scan adds the hidden sequence number to each row.
    pub need_seq_num: bool,
    /// Whether the scan adds the hidden file path and position to each row.
    pub need_file_path_and_pos: bool,
    /// How many files may be scanned at once.
    pub batch_parallelism: usize,
}

impl TableRegistration {
    /// Whether this registers `schema` and `file_scan_tasks` under `table_name`
    /// with these flags.
    pub open spec fn is(
        self,
        table_name: Seq<char>,
        schema: Schema,
        file_scan_tasks: Vec<FileScanTask>,
        need_seq_num: bool,
        need_file_path_and_pos: bool,
        batch_parallelism: usize,
    ) -> bool {
        &&& self.table_name@ == table_name
        &&& self.schema == schema
        &&& self.file_scan_tasks == file_scan_tasks
        &&& self.need_seq_num == need_seq_num
        &&& self.need_file_path_and_pos == need_file_path_and_pos
        &&& self.batch_parallelism == batch_parallelism
    }

    /// The registration of a data table, whose scan may add hidden columns.
    pub fn data(
        schema: Schema,
        file_scan_tasks: Vec<FileScanTask>,
        table_name: &str,
        need_seq_num: bool,
        need_file_path_and_pos: bool,
        batch_parallelism: usize,
    ) -> (registration: Self)
        ensures
            registration.is(
                table_name@,
                schema,
                file_scan_tasks,
                need_seq_num,
                need_file_path_and_pos,
                batch_parallelism,
            ),
    {
        TableRegistration {
            table_name: String::from_str(table_name),
            schema,
            file_scan_tasks,
            need_seq_num,
            need_file_path_and_pos,
            batch_parallelism,
        }
    }

    /// The registration of a delete table, whose scan never adds hidden columns.
    pub fn delete(
        schema: Schema,
        file_scan_tasks: Vec<FileScanTask>,
        table_name: &str,
        batch_parallelism: usize,
    ) -> (registration: Self)
        ensures
            registration.is(table_name@, schema, file_scan_tasks, false, false, batch_parallelism),
    {
        Self::data(schema, file_scan_tasks, table_name, false, false, batch_parallelism)
    }
}

/// The registrations of equality-delete groups, one for one.
pub open spec fn group_registrations_match(
    registrations: Seq<TableRegistration>,
    metadatas: Seq<EqualityDeleteMetadata>,
    batch_parallelism: usize,
) -> bool {
    &&& registrations.len() == metadatas.len()
    &&& forall|k: int|
        0 <= k < metadatas.len() ==> (#[trigger] registrations[k]).is(
            metadatas[k].equality_delete_table_name@,
            metadatas[k].equality_delete_schema,
            metadatas[k].file_scan_tasks,
            false,
            false,
            batch_parallelism,
        )
}

/// The number of registrations ahead of those of the equality-delete
/// groups: the data-file table and, if the context holds its schema, the
/// position-delete table.
pub open spec fn leading_registrations(context: DataFusionTaskContext) -> int {
    if context.position_delete_schema is Some {
        2
    } else {
        1
    }
}

/// The equality-delete groups that a context holds.
pub open spec fn held_groups(context: DataFusionTaskContext) -> Seq<EqualityDeleteMetadata> {
    match context.equality_delete_metadatas {
        Some(metadatas) => metadatas@,
        None => Seq::empty(),
    }
}

/// Whether `registrations` are the tables of `context`, in order: the
/// data-file table with the context's schema, files and flags; then the
/// position-delete table if the context holds its schema; then one table
/// per equality-delete group.
pub open spec fn planned_registrations(
    context: DataFusionTaskContext,
    registrations: Seq<TableRegistration>,
    batch_parallelism: usize,
) -> bool {
    let lead = leading_registrations(context);
    &&& registrations.len() == lead + held_groups(context).len()
    &&& registrations[0].is(
        DATA_FILE_TABLE@,
        context.data_file_schema->0,
        context.data_files->0,
        context.equality_delete_files is Some && context.equality_delete_files->0@.len() > 0,
        context.position_delete_files is Some && context.position_delete_files->0@.len() > 0,
        batch_parallelism,
    )
    &&& context.position_delete_schema is Some ==> registrations[1].is(
        POSITION_DELETE_TABLE@,
        context.position_delete_schema->0,
        context.position_delete_files->0,
        false,
        false,
        batch_parallelism,
    )
    &&& group_registrations_match(
        registrations.skip(lead),
        held_groups(context),
        batch_parallelism,
    )
}

/// The tables of a planned context are registered under names that all
/// differ, so that the catalog never sees a name twice.
pub proof fn lemma_registration_names_differ(
    context: DataFusionTaskContext,
    builder: DataFusionTaskContextBuilder,
    registrations: Seq<TableRegistration>,
    batch_parallelism: usize,
    a: int,
    b: int,
)
    requires
        context.matches_plan(builder),
        planned_registrations(context, registrations, batch_parallelism),
        0 <= a < b < registrations.len(),
    ensures
        registrations[a].table_name@ != registrations[b].table_name@,
{
    let lead = leading_registrations(context);
    let groups = held_groups(context);
    let later = registrations.skip(lead);
    assert(registrations[b] == later[b - lead] || b < lead);
    if b >= lead {
        let j = b - lead;
        assert(later[j].table_name@ == groups[j].equality_delete_table_name@);
        assert(metadata_matches(groups[j], builder.table_schema(), builder.groups()[j], j));
        if a >= lead {
            let i = a - lead;
            assert(registrations[a] == later[i]);
            assert(later[i].table_name@ == groups[i].equality_delete_table_name@);
            assert(metadata_matches(groups[i], builder.table_schema(), builder.groups()[i], i));
            lemma_table_names_differ(i as nat, j as nat);
        } else {
            lemma_table_names_differ(j as nat, j as nat);
        }
    } else {
        lemma_table_names_differ(0, 0);
    }
}

/// The data-file table of a planned context is scanned with exactly the
/// hidden columns that its schema has behind the table's own fields: the
/// sequence number where there are equality deletes, the file path and the
/// position where there are position deletes, and none without deletes.
pub proof fn lemma_data_table_registration(
    context: DataFusionTaskContext,
    builder: DataFusionTaskContextBuilder,
    registrations: Seq<TableRegistration>,
    batch_parallelism: usize,
)
    requires
        context.matches_plan(builder),
        planned_registrations(context, registrations, batch_parallelism),
    ensures
        registrations[0].table_name@ == DATA_FILE_TABLE@,
        registrations[0].need_seq_num == (builder.equality_delete_files@.len() > 0),
        registrations[0].need_file_path_and_pos == (builder.position_delete_files@.len() > 0),
        schema_fields(registrations[0].schema) == schema_fields(builder.table_schema())
            + hidden_data_fields(
            schema_highest_field_id(builder.table_schema()),
            registrations[0].need_seq_num,
            registrations[0].need_file_path_and_pos,
        ),
{
}

/// The repartitioning of the output and the schema of its rows.
#[derive(Debug)]
pub struct OutputPlan {
    /// How the plan's output is spread over partitions.
    pub repartition: Repartition,
    /// The schema of the output: the table's schema, without hidden columns.
    pub schema: Schema,
}

/// The planning state of one compaction.
#[derive(Debug)]
pub struct DatafusionProcessor {
    /// The task context, whose parts are handed out once.
    pub datafusion_task_ctx: DataFusionTaskContext,
    /// How many files may be scanned at once per table.
    pub batch_parallelism: usize,
    /// The number of output partitions asked for.
    pub target_partitions: usize,
    /// The partition spec of the destination table.
    pub partition_spec: Arc<PartitionSpec>,
}

impl DatafusionProcessor {
    /// Makes a processor that holds exactly these values.
    pub fn new(
        datafusion_task_ctx: DataFusionTaskContext,
        batch_parallelism: usize,
        target_partitions: usize,
        partition_spec: Arc<PartitionSpec>,
    ) -> (processor: Self)
        ensures
            processor.datafusion_task_ctx == datafusion_task_ctx,
            processor.batch_parallelism == batch_parallelism,
            processor.target_partitions == target_partitions,
            processor.partition_spec == partition_spec,
    {
        DatafusionProcessor {
            datafusion_task_ctx,
            batch_parallelism,
            target_partitions,
            partition_spec,
        }
    }

    /// The partition spec of the destination table.
    pub open spec fn destination(&self) -> PartitionSpec {
        *self.partition_spec
    }

    /// Whether the tables of the task context can still be handed out: the
    /// data-file schema and the data files are there, and the
    /// position-delete files are there if their schema is.
    pub open spec fn can_register(&self) -> bool {
        &&& self.datafusion_task_ctx.data_file_schema is Some
        &&& self.datafusion_task_ctx.data_files is Some
        &&& self.datafusion_task_ctx.position_delete_schema is Some
            ==> self.datafusion_task_ctx.position_delete_files is Some
    }

    /// Hands out the tables to register, in order: the data-file table,
    /// then the position-delete table if the context holds its schema, then
    /// one table per equality-delete group. What is handed out leaves the
    /// context.
    ///
    /// Fails, and leaves the context as it is, if the tables were handed
    /// out before.
    pub fn register_tables(&mut self) -> (result: Result<Vec<TableRegistration>, CompactionError>)
        ensures
            final(self).batch_parallelism == old(self).batch_parallelism,
            final(self).target_partitions == old(self).target_partitions,
            final(self).partition_spec == old(self).partition_spec,
            final(self).datafusion_task_ctx.input_schema == old(
                self,
            ).datafusion_task_ctx.input_schema,
            final(self).datafusion_task_ctx.equality_delete_files == old(
                self,
            ).datafusion_task_ctx.equality_delete_files,
            final(self).datafusion_task_ctx.exec_sql == old(self).datafusion_task_ctx.exec_sql,
            match result {
                Ok(registrations) => {
                    let before = old(self).datafusion_task_ctx;
                    let after = final(self).datafusion_task_ctx;
                    &&& old(self).can_register()
                    &&& after.data_file_schema is None
                    &&& after.data_files is None
                    &&& after.position_delete_schema is None
                    &&& after.position_delete_files == if before.position_delete_schema is Some {
                        None
                    } else {
                        before.position_delete_files
                    }
                    &&& after.equality_delete_metadatas is None
                    &&& planned_registrations(
                        before,
                        registrations@,
                        old(self).batch_parallelism,
                    )
                },
                Err(e) => {
                    &&& !old(self).can_register()
                    &&& e.is_config("tables were registered before"@)
                    &&& final(self).datafusion_task_ctx == old(self).datafusion_task_ctx
                },
            },
    {
        if self.datafusion_task_ctx.data_file_schema.is_none()
            || self.datafusion_task_ctx.data_files.is_none() || (
        self.datafusion_task_ctx.position_delete_schema.is_some()
            && self.datafusion_task_ctx.position_delete_files.is_none()) {
            return Err(CompactionError::config("tables were registered before"));
        }
        let need_seq_num = self.datafusion_task_ctx.need_seq_num();
        let need_file_path_and_pos = self.datafusion_task_ctx.need_file_path_and_pos();
        let mut registrations: Vec<TableRegistration> = Vec::new();
        let data_file_schema = self.datafusion_task_ctx.data_file_schema.take().unwrap();
        let data_files = self.datafusion_task_ctx.data_files.take().unwrap();
        registrations.push(
            TableRegistration::data(
                data_file_schema,
                data_files,
                DATA_FILE_TABLE,
                need_seq_num,
                need_file_path_and_pos,
                self.batch_parallelism,
            ),
        );
        match self.datafusion_task_ctx.position_delete_schema.take() {
            Some(position_delete_schema) => {
                let position_delete_files =
                    self.datafusion_task_ctx.position_delete_files.take().unwrap();
                registrations.push(
                    TableRegistration::delete(
                        position_delete_schema,
                        position_delete_files,
                        POSITION_DELETE_TABLE,
                        self.batch_parallelism,
                    ),
                );
            },
            None => {},
        }
        let ghost lead = leading_registrations(old(self).datafusion_task_ctx);
        let ghost head = registrations@;
        match self.datafusion_task_ctx.equality_delete_metadatas.take() {
            Some(metadatas) => {
                let ghost groups = metadatas@;
                let mut metadatas = metadatas;
                let ghost mut done: int = 0;
                while metadatas.len() > 0
                    invariant
                        0 <= done,
                        1 <= lead <= 2,
                        head.len() == lead,
                        registrations@.len() == lead + done,
                        registrations@.take(lead) == head,
                        done + metadatas.len() == groups.len(),
                        metadatas@ == groups.skip(done),
                        group_registrations_match(
                            registrations@.skip(lead),
                            groups.take(done),
                            self.batch_parallelism,
                        ),
                    decreases metadatas.len(),
                {
                    let ghost before = registrations@;
                    let metadata = metadatas.remove(0);
                    proof {
                        assert(metadata == groups[done]);
                    }
                    registrations.push(
                        TableRegistration::delete(
                            metadata.equality_delete_schema,
                            metadata.file_scan_tasks,
                            metadata.equality_delete_table_name.as_str(),
                            self.batch_parallelism,
                        ),
                    );
                    proof {
                        assert(registrations@.take(lead) =~= before.take(lead));
                        assert(registrations@.skip(lead) =~= before.skip(lead).push(
                            registrations@.last(),
                        ));
                        assert(groups.take(done + 1) =~= groups.take(done).push(
                            groups[done],
                        ));
                        assert(metadatas@ =~= groups.skip(done + 1));
                    }
                    proof {
                        done = done + 1;
                    }
                }
                proof {
                    assert(groups.take(done) =~= groups);
                    assert(registrations@[0] == head[0]);
                    if lead == 2 {
                        assert(registrations@[1] == head[1]);
                    }
                }
            },
            None => {
                proof {
                    assert(registrations@.skip(lead) =~= Seq::<TableRegistration>::empty());
                }
            },
        }
        Ok(registrations)
    }

    /// Whether the output schema is still there and, for a partitioned
    /// destination, holds a field for every partition source id.
    pub open spec fn can_plan_output(&self) -> bool {
        &&& self.datafusion_task_ctx.input_schema is Some
        &&& !partition_is_unpartitioned(self.destination()) ==> resolvable(
            self.datafusion_task_ctx.input_schema->0,
            partition_source_ids(self.destination()),
        )
    }

    /// Decides how the output of a plan with `plan_partitions` output
    /// partitions is repartitioned, and hands out the schema of the output.
    ///
    /// For an unpartitioned destination the plan is dealt out round robin
    /// over the target number of partitions unless it has that number
    /// already. For a partitioned destination rows are always spread by
    /// the hash of the columns that the partition fields are computed from.
    ///
    /// Fails with a configuration error if the output schema was handed
    /// out before, or if a partition source id names no field of it.
    pub fn plan_output(
        &mut self,
        plan_partitions: usize,
    ) -> (result: Result<OutputPlan, CompactionError>)
        ensures
            final(self).batch_parallelism == old(self).batch_parallelism,
            final(self).target_partitions == old(self).target_partitions,
            final(self).partition_spec == old(self).partition_spec,
            final(self).datafusion_task_ctx.data_file_schema == old(
                self,
            ).datafusion_task_ctx.data_file_schema,
            final(self).datafusion_task_ctx.data_files == old(self).datafusion_task_ctx.data_files,
            final(self).datafusion_task_ctx.position_delete_files == old(
                self,
            ).datafusion_task_ctx.position_delete_files,
            final(self).datafusion_task_ctx.equality_delete_files == old(
                self,
            ).datafusion_task_ctx.equality_delete_files,
            final(self).datafusion_task_ctx.position_delete_schema == old(
                self,
            ).datafusion_task_ctx.position_delete_schema,
            final(self).datafusion_task_ctx.equality_delete_metadatas == old(
                self,
            ).datafusion_task_ctx.equality_delete_metadatas,
            final(self).datafusion_task_ctx.exec_sql == old(self).datafusion_task_ctx.exec_sql,
            final(self).datafusion_task_ctx.input_schema is None,
            match result {
                Ok(plan) => {
                    let schema = old(self).datafusion_task_ctx.input_schema->0;
                    &&& old(self).can_plan_output()
                    &&& plan.schema == schema
                    &&& plan.repartition@ == repartition_choice(
                        partition_is_unpartitioned(old(self).destination()),
                        plan_partitions,
                        old(self).target_partitions,
                        column_names(schema, partition_source_ids(old(self).destination())),
                    )
                },
                Err(e) => {
                    &&& !old(self).can_plan_output()
                    &&& if old(self).datafusion_task_ctx.input_schema is None {
                        e.is_config("output schema was taken before"@)
                    } else {
                        e.is_config("cannot find field"@)
                    }
                },
            },
    {
        let schema = match self.datafusion_task_ctx.input_schema.take() {
            Some(schema) => schema,
            None => {
                return Err(CompactionError::config("output schema was taken before"));
            },
        };
        let unpartitioned = is_unpartitioned(&self.partition_spec);
        let key_columns = if unpartitioned {
            Vec::new()
        } else {
            let ids = source_ids(&self.partition_spec);
            match partition_columns(&schema, &ids) {
                Ok(names) => names,
                Err(e) => {
                    return Err(e);
                },
            }
        };
        let repartition = choose_repartition(
            unpartitioned,
            plan_partitions,
            self.target_partitions,
            key_columns,
        );
        Ok(OutputPlan { repartition, schema })
    }
}

} // verus!
