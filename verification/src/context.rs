//! The task context of one compaction and its builder.

use std::sync::Arc;
use vstd::prelude::*;

use crate::error::CompactionError;
use crate::grouping::{equality_groups, group_equality_delete_files, group_views};
use crate::fields::{
    equality_delete_field_list, equality_delete_fields, hidden_data_field_list,
    hidden_data_fields, position_delete_field_list, position_delete_fields,
};
use crate::metadata::{field_names, visible_names, EqualityDeleteMetadata};
use crate::names::{
    equality_delete_table_name, DATA_FILE_TABLE, EQUALITY_DELETE_TABLE, POSITION_DELETE_TABLE,
    SYS_HIDDEN_FILE_PATH, SYS_HIDDEN_POS, SYS_HIDDEN_SEQ_NUM,
};
use crate::schema::{
    field_by_id, field_views, hidden_field_view, highest_field_id, resolvable, resolved_fields,
    schema_accepts, schema_accepts_more, schema_fields, schema_from_fields,
    schema_highest_field_id, schema_index, schema_with_more_fields, top_level_fields, Field,
    FieldView, HiddenType,
};
use crate::sql::{
    equality_delete_clause, equality_delete_clauses, merge_on_read_sql, metadata_targets,
    position_delete_clause, position_delete_part, select_clause, JoinTarget, SqlBuilder,
};
use crate::task::{task_views, FileScanTask, FileScanTaskView};
use crate::text::{decimal_text, string_views};
use iceberg::spec::Schema;

verus! {

/// The fields of the schema of a group: the fields that the equality ids of
/// its first task name in `schema`, then the hidden sequence number under
/// the id that follows the highest id of `schema`.
pub open spec fn group_fields(schema: Schema, group: Seq<FileScanTaskView>) -> Seq<FieldView> {
    equality_delete_fields(
        schema,
        group[0].equality_ids,
        schema_highest_field_id(schema) + 1,
    )
}

/// Whether the schema of a group can be built.
pub open spec fn group_builds(schema: Schema, group: Seq<FileScanTaskView>) -> bool {
    resolvable(schema, group[0].equality_ids) && schema_accepts(group_fields(schema, group))
}

/// Whether the schemas of the first `count` groups can be built.
pub open spec fn groups_build(
    schema: Schema,
    groups: Seq<Seq<FileScanTaskView>>,
    count: int,
) -> bool {
    forall|j: int| 0 <= j < count ==> group_builds(schema, #[trigger] groups[j])
}

/// Whether `metadata` is what is planned for the group with this index.
pub open spec fn metadata_matches(
    metadata: EqualityDeleteMetadata,
    schema: Schema,
    group: Seq<FileScanTaskView>,
    index: int,
) -> bool {
    &&& metadata.equality_delete_table_name@ == equality_delete_table_name(index as nat)
    &&& schema_fields(metadata.equality_delete_schema) == group_fields(schema, group)
    &&& task_views(metadata.file_scan_tasks@) == group
}

/// Whether `metadatas` are what is planned for `groups`, one for one.
pub open spec fn metadatas_match(
    metadatas: Seq<EqualityDeleteMetadata>,
    schema: Schema,
    groups: Seq<Seq<FileScanTaskView>>,
) -> bool {
    &&& metadatas.len() == groups.len()
    &&& forall|j: int|
        0 <= j < groups.len() ==> metadata_matches(#[trigger] metadatas[j], schema, groups[j], j)
}

/// The equality-delete tables as the query names them: for each group its
/// table name and the names of its schema's fields, hidden columns left out.
pub open spec fn planned_targets(
    schema: Schema,
    groups: Seq<Seq<FileScanTaskView>>,
) -> Seq<JoinTarget> {
    Seq::new(
        groups.len(),
        |j: int|
            JoinTarget {
                table_name: equality_delete_table_name(j as nat),
                columns: visible_names(field_names(group_fields(schema, groups[j]))),
            },
    )
}

/// The query that is planned for a table with this schema.
pub open spec fn planned_sql(
    schema: Schema,
    need_file_path_and_pos: bool,
    groups: Seq<Seq<FileScanTaskView>>,
) -> Seq<char> {
    merge_on_read_sql(
        field_names(schema_fields(schema)),
        DATA_FILE_TABLE@,
        if need_file_path_and_pos {
            Some(POSITION_DELETE_TABLE@)
        } else {
            None
        },
        planned_targets(schema, groups),
    )
}

/// Builder of a [`DataFusionTaskContext`].
#[derive(Debug)]
pub struct DataFusionTaskContextBuilder {
    /// The schema of the table.
    pub schema: Arc<Schema>,
    /// The data files to compact.
    pub data_files: Vec<FileScanTask>,
    /// The position-delete files that apply to them.
    pub position_delete_files: Vec<FileScanTask>,
    /// The equality-delete files that apply to them.
    pub equality_delete_files: Vec<FileScanTask>,
}

impl DataFusionTaskContextBuilder {
    /// The schema of the table.
    pub open spec fn table_schema(&self) -> Schema {
        *self.schema
    }

    /// Sets the schema of the table.
    pub fn with_schema(self, schema: Arc<Schema>) -> (builder: Self)
        ensures
            builder.schema == schema,
            builder.data_files == self.data_files,
            builder.position_delete_files == self.position_delete_files,
            builder.equality_delete_files == self.equality_delete_files,
    {
        DataFusionTaskContextBuilder {
            schema,
            data_files: self.data_files,
            position_delete_files: self.position_delete_files,
            equality_delete_files: self.equality_delete_files,
        }
    }

    /// Sets the data files.
    pub fn with_datafile(self, data_files: Vec<FileScanTask>) -> (builder: Self)
        ensures
            builder.schema == self.schema,
            builder.data_files == data_files,
            builder.position_delete_files == self.position_delete_files,
            builder.equality_delete_files == self.equality_delete_files,
    {
        DataFusionTaskContextBuilder {
            schema: self.schema,
            data_files,
            position_delete_files: self.position_delete_files,
            equality_delete_files: self.equality_delete_files,
        }
    }

    /// Sets the position-delete files.
    pub fn with_position_delete_files(
        self,
        position_delete_files: Vec<FileScanTask>,
    ) -> (builder: Self)
        ensures
            builder.schema == self.schema,
            builder.data_files == self.data_files,
            builder.position_delete_files == position_delete_files,
            builder.equality_delete_files == self.equality_delete_files,
    {
        DataFusionTaskContextBuilder {
            schema: self.schema,
            data_files: self.data_files,
            position_delete_files,
            equality_delete_files: self.equality_delete_files,
        }
    }

    /// Sets the equality-delete files.
    pub fn with_equality_delete_files(
        self,
        equality_delete_files: Vec<FileScanTask>,
    ) -> (builder: Self)
        ensures
            builder.schema == self.schema,
            builder.data_files == self.data_files,
            builder.position_delete_files == self.position_delete_files,
            builder.equality_delete_files == equality_delete_files,
    {
        DataFusionTaskContextBuilder {
            schema: self.schema,
            data_files: self.data_files,
            position_delete_files: self.position_delete_files,
            equality_delete_files,
        }
    }

    /// Builds the schema of the position-delete table.
    ///
    /// Fails only if the schema library rejects the two fields.
    pub fn build_position_schema() -> (result: Result<Schema, CompactionError>)
        ensures
            match result {
                Ok(schema) => schema_accepts(position_delete_fields()) && schema_fields(schema)
                    == position_delete_fields(),
                Err(e) => !schema_accepts(position_delete_fields()) && e is Iceberg,
            },
    {
        match schema_from_fields(position_delete_field_list()) {
            Ok(schema) => Ok(schema),
            Err(e) => Err(CompactionError::Iceberg(e)),
        }
    }

    /// Builds the schema of one equality-delete table: the fields that
    /// `equality_ids` name in the table's schema, then the hidden sequence
    /// number under the id that follows `highest_field_id`.
    ///
    /// Fails, leaving the counter as it was, if the table's schema holds no
    /// field for one of the ids; fails, with the counter advanced, if the
    /// schema library rejects the fields.
    pub fn build_equality_delete_schema(
        &self,
        equality_ids: &[i32],
        highest_field_id: &mut i32,
    ) -> (result: Result<Schema, CompactionError>)
        requires
            *old(highest_field_id) < i32::MAX,
        ensures
            match result {
                Ok(schema) => {
                    &&& resolvable(self.table_schema(), equality_ids@)
                    &&& schema_accepts(
                        equality_delete_fields(
                            self.table_schema(),
                            equality_ids@,
                            *old(highest_field_id) + 1,
                        ),
                    )
                    &&& schema_fields(schema) == equality_delete_fields(
                        self.table_schema(),
                        equality_ids@,
                        *old(highest_field_id) + 1,
                    )
                    &&& *final(highest_field_id) == *old(highest_field_id) + 1
                },
                Err(e) => if resolvable(self.table_schema(), equality_ids@) {
                    &&& !schema_accepts(
                        equality_delete_fields(
                            self.table_schema(),
                            equality_ids@,
                            *old(highest_field_id) + 1,
                        ),
                    )
                    &&& e is Iceberg
                    &&& *final(highest_field_id) == *old(highest_field_id) + 1
                } else {
                    &&& e.is_config("equality_ids not found"@)
                    &&& *final(highest_field_id) == *old(highest_field_id)
                },
            },
    {
        let ghost wanted = resolved_fields(self.table_schema(), equality_ids@);
        let mut fields: Vec<Field> = Vec::new();
        let mut i: usize = 0;
        while i < equality_ids.len()
            invariant
                i <= equality_ids.len(),
                wanted == resolved_fields(self.table_schema(), equality_ids@),
                resolvable(self.table_schema(), equality_ids@.take(i as int)),
                field_views(fields@) == wanted.take(i as int),
                *highest_field_id == *old(highest_field_id),
            decreases equality_ids.len() - i,
        {
            match field_by_id(&self.schema, equality_ids[i]) {
                Some(field) => {
                    let ghost before = fields@;
                    fields.push(field);
                    proof {
                        assert(field_views(fields@) =~= field_views(before).push(
                            wanted[i as int],
                        ));
                        assert(wanted.take(i + 1) =~= wanted.take(i as int).push(
                            wanted[i as int],
                        ));
                        assert forall|k: int| 0 <= k < i + 1 implies schema_index(
                            self.table_schema(),
                        ).contains_key(#[trigger] equality_ids@.take(i + 1)[k] as int) by {
                            if k < i {
                                assert(equality_ids@.take(i as int)[k] == equality_ids@[k]);
                            }
                        }
                    }
                },
                None => {
                    proof {
                        assert(!schema_index(self.table_schema()).contains_key(
                            equality_ids@[i as int] as int,
                        ));
                    }
                    return Err(CompactionError::config("equality_ids not found"));
                },
            }
            i += 1;
        }
        proof {
            assert(equality_ids@.take(equality_ids.len() as int) =~= equality_ids@);
            assert(wanted.take(equality_ids.len() as int) =~= wanted);
        }
        *highest_field_id += 1;
        match schema_from_fields(equality_delete_field_list(fields, *highest_field_id)) {
            Ok(schema) => Ok(schema),
            Err(e) => Err(CompactionError::Iceberg(e)),
        }
    }
}

/// The names of the top-level fields of a schema, in order.
pub fn project_names(schema: &Schema) -> (names: Vec<String>)
    ensures
        string_views(names@) == field_names(schema_fields(*schema)),
{
    let fields = top_level_fields(schema);
    let ghost all = field_names(schema_fields(*schema));
    let mut names: Vec<String> = Vec::new();
    let mut i: usize = 0;
    while i < fields.len()
        invariant
            i <= fields.len(),
            all == field_names(schema_fields(*schema)),
            all.len() == fields.len(),
            forall|k: int| 0 <= k < fields.len() ==> all[k] == (#[trigger] fields[k]).name@,
            string_views(names@) == all.take(i as int),
        decreases fields.len() - i,
    {
        let ghost before = names@;
        names.push(fields[i].name.clone());
        proof {
            assert(string_views(names@) =~= string_views(before).push(all[i as int]));
            assert(all.take(i + 1) =~= all.take(i as int).push(all[i as int]));
        }
        i += 1;
    }
    proof {
        assert(all.take(fields.len() as int) =~= all);
    }
    names
}

/// The task context of one compaction: the schemas, the files and the query.
///
/// Each optional part is handed out once; `None` stands for a part that is
/// not needed or that was handed out already.
#[derive(Debug)]
pub struct DataFusionTaskContext {
    /// The table's schema followed by the hidden columns that are needed.
    pub data_file_schema: Option<Schema>,
    /// The table's schema: the shape of the output.
    pub input_schema: Option<Schema>,
    /// The data files.
    pub data_files: Option<Vec<FileScanTask>>,
    /// The position-delete files.
    pub position_delete_files: Option<Vec<FileScanTask>>,
    /// The equality-delete files.
    pub equality_delete_files: Option<Vec<FileScanTask>>,
    /// The schema of the position-delete table, if there are position deletes.
    pub position_delete_schema: Option<Schema>,
    /// The equality-delete groups, if there are equality deletes.
    pub equality_delete_metadatas: Option<Vec<EqualityDeleteMetadata>>,
    /// The merge-on-read query.
    pub exec_sql: String,
}

impl DataFusionTaskContext {
    /// Whether this context is what is planned from `builder`.
    pub open spec fn matches_plan(self, builder: DataFusionTaskContextBuilder) -> bool {
        let schema = builder.table_schema();
        let groups = equality_groups(task_views(builder.equality_delete_files@));
        let need_file_path_and_pos = builder.position_delete_files@.len() > 0;
        let need_seq_num = builder.equality_delete_files@.len() > 0;
        &&& self.data_file_schema is Some
        &&& schema_fields(self.data_file_schema->0) == schema_fields(schema) + hidden_data_fields(
            schema_highest_field_id(schema),
            need_seq_num,
            need_file_path_and_pos,
        )
        &&& self.input_schema == Some(schema)
        &&& self.data_files == Some(builder.data_files)
        &&& self.position_delete_files == Some(builder.position_delete_files)
        &&& self.equality_delete_files == Some(builder.equality_delete_files)
        &&& self.position_delete_schema is Some <==> need_file_path_and_pos
        &&& need_file_path_and_pos ==> schema_fields(self.position_delete_schema->0)
            == position_delete_fields()
        &&& self.equality_delete_metadatas is Some <==> need_seq_num
        &&& need_seq_num ==> metadatas_match(self.equality_delete_metadatas->0@, schema, groups)
        &&& self.exec_sql@ == planned_sql(schema, need_file_path_and_pos, groups)
    }

    /// Makes a builder with an empty schema and no files.
    pub fn builder() -> (result: Result<DataFusionTaskContextBuilder, CompactionError>)
        ensures
            result is Ok,
            schema_fields(result->Ok_0.table_schema()) == Seq::<FieldView>::empty(),
            result->Ok_0.data_files@.len() == 0,
            result->Ok_0.position_delete_files@.len() == 0,
            result->Ok_0.equality_delete_files@.len() == 0,
    {
        let fields: Vec<Field> = Vec::new();
        proof {
            assert(field_views(fields@) =~= Seq::<FieldView>::empty());
        }
        match schema_from_fields(fields) {
            Ok(schema) => Ok(
                DataFusionTaskContextBuilder {
                    schema: Arc::new(schema),
                    data_files: Vec::new(),
                    position_delete_files: Vec::new(),
                    equality_delete_files: Vec::new(),
                },
            ),
            Err(e) => Err(CompactionError::Iceberg(e)),
        }
    }

    /// Whether position-delete files are held, so that rows need their file
    /// path and position.
    pub fn need_file_path_and_pos(&self) -> (need: bool)
        ensures
            need == (self.position_delete_files is Some && self.position_delete_files->0@.len()
                > 0),
    {
        match &self.position_delete_files {
            Some(files) => files.len() > 0,
            None => false,
        }
    }

    /// Whether equality-delete files are held, so that rows need their
    /// sequence number.
    pub fn need_seq_num(&self) -> (need: bool)
        ensures
            need == (self.equality_delete_files is Some && self.equality_delete_files->0@.len()
                > 0),
    {
        match &self.equality_delete_files {
            Some(files) => files.len() > 0,
            None => false,
        }
    }
}

impl DataFusionTaskContextBuilder {
    /// The equality-delete groups of this builder's files.
    pub open spec fn groups(&self) -> Seq<Seq<FileScanTaskView>> {
        equality_groups(task_views(self.equality_delete_files@))
    }

    /// Whether the ids of the hidden fields fit in a field id: one above the
    /// schema's highest id where there are equality deletes, three above it
    /// where there are position deletes.
    pub open spec fn ids_fit(&self) -> bool {
        &&& self.equality_delete_files@.len() > 0 ==> schema_highest_field_id(self.table_schema())
            + 1 <= i32::MAX
        &&& self.position_delete_files@.len() > 0 ==> schema_highest_field_id(self.table_schema())
            + 3 <= i32::MAX
    }

    /// Whether every schema of the plan can be built.
    pub open spec fn plan_builds(&self) -> bool {
        &&& schema_accepts(position_delete_fields())
        &&& groups_build(self.table_schema(), self.groups(), self.groups().len() as int)
        &&& schema_accepts_more(
            self.table_schema(),
            hidden_data_fields(
                schema_highest_field_id(self.table_schema()),
                self.equality_delete_files@.len() > 0,
                self.position_delete_files@.len() > 0,
            ),
        )
    }

    /// Whether `error` is what the first group whose schema cannot be built
    /// gives: a configuration error if one of its equality ids names no
    /// field, else the schema library's error.
    pub open spec fn is_group_error(&self, error: CompactionError) -> bool {
        exists|j: int|
            {
                &&& 0 <= j < self.groups().len()
                &&& groups_build(self.table_schema(), self.groups(), j)
                &&& !group_builds(self.table_schema(), #[trigger] self.groups()[j])
                &&& if resolvable(self.table_schema(), self.groups()[j][0].equality_ids) {
                    error is Iceberg
                } else {
                    error.is_config("equality_ids not found"@)
                }
            }
    }

    /// Tells whether the ids of the hidden fields fit in a field id.
    pub fn check_ids_fit(&self) -> (fit: bool)
        ensures
            fit == self.ids_fit(),
    {
        let highest = highest_field_id(&self.schema);
        (self.equality_delete_files.len() == 0 || highest < i32::MAX) && (
        self.position_delete_files.len() == 0 || highest < i32::MAX - 2)
    }

    /// Builds the schema of the data-file table: the table's own fields,
    /// then the hidden sequence number if `need_seq_num`, then the hidden
    /// file path and position if `need_file_path_and_pos`. The hidden ids
    /// follow the highest id of the table's schema.
    ///
    /// Fails only if the schema library rejects the schema.
    pub fn build_data_file_schema(
        &self,
        need_seq_num: bool,
        need_file_path_and_pos: bool,
    ) -> (result: Result<Schema, CompactionError>)
        requires
            need_seq_num ==> schema_highest_field_id(self.table_schema()) + 1 <= i32::MAX,
            need_file_path_and_pos ==> schema_highest_field_id(self.table_schema()) + 3
                <= i32::MAX,
        ensures
            match result {
                Ok(schema) => {
                    &&& schema_accepts_more(
                        self.table_schema(),
                        hidden_data_fields(
                            schema_highest_field_id(self.table_schema()),
                            need_seq_num,
                            need_file_path_and_pos,
                        ),
                    )
                    &&& schema_fields(schema) == schema_fields(self.table_schema())
                        + hidden_data_fields(
                        schema_highest_field_id(self.table_schema()),
                        need_seq_num,
                        need_file_path_and_pos,
                    )
                },
                Err(e) => {
                    &&& !schema_accepts_more(
                        self.table_schema(),
                        hidden_data_fields(
                            schema_highest_field_id(self.table_schema()),
                            need_seq_num,
                            need_file_path_and_pos,
                        ),
                    )
                    &&& e is Iceberg
                },
            },
    {
        let highest = highest_field_id(&self.schema);
        let fields = hidden_data_field_list(highest, need_seq_num, need_file_path_and_pos);
        match schema_with_more_fields(&self.schema, fields) {
            Ok(schema) => Ok(schema),
            Err(e) => Err(CompactionError::Iceberg(e)),
        }
    }

    /// Groups the equality-delete files and builds, for each group in
    /// order, its schema and its table name `equality_delete_table_<index>`.
    ///
    /// Fails at the first group whose schema cannot be built.
    pub fn build_equality_delete_metadatas(
        &self,
    ) -> (result: Result<Vec<EqualityDeleteMetadata>, CompactionError>)
        requires
            self.equality_delete_files@.len() > 0 ==> schema_highest_field_id(self.table_schema())
                + 1 <= i32::MAX,
        ensures
            match result {
                Ok(metadatas) => {
                    &&& groups_build(
                        self.table_schema(),
                        self.groups(),
                        self.groups().len() as int,
                    )
                    &&& metadatas_match(metadatas@, self.table_schema(), self.groups())
                },
                Err(e) => self.is_group_error(e),
            },
    {
        let groups = group_equality_delete_files(&self.equality_delete_files);
        let highest = highest_field_id(&self.schema);
        let ghost planned = self.groups();
        proof {
            assert(planned.len() == groups.len());
            if self.equality_delete_files@.len() == 0 {
                assert(task_views(self.equality_delete_files@).len() == 0);
            }
        }
        let mut metadatas: Vec<EqualityDeleteMetadata> = Vec::new();
        let mut j: usize = 0;
        while j < groups.len()
            invariant
                j <= groups.len(),
                planned == self.groups(),
                planned == group_views(groups@),
                planned.len() == groups.len(),
                forall|k: int| 0 <= k < groups.len() ==> (#[trigger] groups[k]).len() > 0,
                highest == schema_highest_field_id(self.table_schema()),
                groups.len() > 0 ==> highest < i32::MAX,
                groups_build(self.table_schema(), planned, j as int),
                metadatas.len() == j,
                forall|k: int|
                    0 <= k < j ==> metadata_matches(
                        #[trigger] metadatas[k],
                        self.table_schema(),
                        planned[k],
                        k,
                    ),
            decreases groups.len() - j,
        {
            let group = &groups[j];
            proof {
                assert(planned[j as int] == task_views(group@));
                assert(planned[j as int][0] == group@[0]@);
            }
            let mut counter = highest;
            let schema = match self.build_equality_delete_schema(
                group[0].equality_ids.as_slice(),
                &mut counter,
            ) {
                Ok(schema) => schema,
                Err(e) => {
                    proof {
                        assert(!group_builds(self.table_schema(), self.groups()[j as int]));
                    }
                    return Err(e);
                },
            };
            let mut name = String::from_str(EQUALITY_DELETE_TABLE);
            name.append("_");
            name.append(decimal_text(j).as_str());
            let mut metadata = EqualityDeleteMetadata::new(schema, name);
            let mut k: usize = 0;
            while k < group.len()
                invariant
                    k <= group.len(),
                    metadata.equality_delete_table_name@ == equality_delete_table_name(j as nat),
                    schema_fields(metadata.equality_delete_schema) == group_fields(
                        self.table_schema(),
                        planned[j as int],
                    ),
                    task_views(metadata.file_scan_tasks@) == task_views(group@).take(k as int),
                decreases group.len() - k,
            {
                let ghost before = metadata.file_scan_tasks@;
                metadata.add_file_scan_task(group[k].clone());
                proof {
                    assert(task_views(metadata.file_scan_tasks@) =~= task_views(before).push(
                        group@[k as int]@,
                    ));
                    assert(task_views(group@).take(k + 1) =~= task_views(group@).take(
                        k as int,
                    ).push(group@[k as int]@));
                }
                k += 1;
            }
            proof {
                assert(task_views(group@).take(group.len() as int) =~= task_views(group@));
            }
            metadatas.push(metadata);
            j += 1;
        }
        Ok(metadatas)
    }
}

/// The tables that the query names are those of the planned groups.
pub proof fn lemma_metadata_targets(
    metadatas: Seq<EqualityDeleteMetadata>,
    schema: Schema,
    groups: Seq<Seq<FileScanTaskView>>,
)
    requires
        metadatas_match(metadatas, schema, groups),
    ensures
        metadata_targets(metadatas) == planned_targets(schema, groups),
{
    assert forall|j: int| 0 <= j < groups.len() implies metadata_targets(metadatas)[j]
        == planned_targets(schema, groups)[j] by {
        assert(metadata_matches(metadatas[j], schema, groups[j], j));
    }
    assert(metadata_targets(metadatas) =~= planned_targets(schema, groups));
}

impl DataFusionTaskContextBuilder {
    /// Whether `error` is what the first schema of the plan that cannot be
    /// built gives: the position-delete schema first, then the groups in
    /// order, then the data-file schema.
    pub open spec fn is_plan_error(&self, error: CompactionError) -> bool {
        if !schema_accepts(position_delete_fields()) {
            error is Iceberg
        } else if !groups_build(self.table_schema(), self.groups(), self.groups().len() as int) {
            self.is_group_error(error)
        } else {
            error is Iceberg
        }
    }

    /// Plans the compaction: derives the schema of the data-file table, of
    /// the position-delete table and of each equality-delete group, and
    /// writes the merge-on-read query.
    ///
    /// Fails with the schema library's error if a schema is rejected, and
    /// with a configuration error if an equality id names no field of the
    /// table's schema.
    pub fn build_merge_on_read(self) -> (result: Result<DataFusionTaskContext, CompactionError>)
        requires
            self.ids_fit(),
        ensures
            match result {
                Ok(context) => self.plan_builds() && context.matches_plan(self),
                Err(e) => !self.plan_builds() && self.is_plan_error(e),
            },
    {
        let position_delete_schema = match Self::build_position_schema() {
            Ok(schema) => schema,
            Err(e) => {
                return Err(e);
            },
        };
        let equality_delete_metadatas = match self.build_equality_delete_metadatas() {
            Ok(metadatas) => metadatas,
            Err(e) => {
                return Err(e);
            },
        };
        let need_file_path_and_pos = self.position_delete_files.len() > 0;
        let need_seq_num = equality_delete_metadatas.len() > 0;
        proof {
            crate::grouping::lemma_equality_groups(task_views(self.equality_delete_files@));
            lemma_metadata_targets(
                equality_delete_metadatas@,
                self.table_schema(),
                self.groups(),
            );
        }
        let names = project_names(&self.schema);
        let data_file_schema = match self.build_data_file_schema(
            need_seq_num,
            need_file_path_and_pos,
        ) {
            Ok(schema) => schema,
            Err(e) => {
                return Err(e);
            },
        };
        let table_schema: &Schema = &self.schema;
        let input_schema = table_schema.clone();
        let sql_builder = SqlBuilder::new(
            &names,
            Some(String::from_str(POSITION_DELETE_TABLE)),
            Some(String::from_str(DATA_FILE_TABLE)),
            &equality_delete_metadatas,
            need_file_path_and_pos,
        );
        let exec_sql = match sql_builder.build_merge_on_read_sql() {
            Ok(sql) => sql,
            Err(e) => {
                return Err(e);
            },
        };
        Ok(
            DataFusionTaskContext {
                data_file_schema: Some(data_file_schema),
                input_schema: Some(input_schema),
                data_files: Some(self.data_files),
                position_delete_files: Some(self.position_delete_files),
                equality_delete_files: Some(self.equality_delete_files),
                position_delete_schema: if need_file_path_and_pos {
                    Some(position_delete_schema)
                } else {
                    None
                },
                equality_delete_metadatas: if need_seq_num {
                    Some(equality_delete_metadatas)
                } else {
                    None
                },
                exec_sql,
            },
        )
    }

    /// Plans the compaction where the ids of the hidden fields fit in a
    /// field id, and returns `None` where they do not.
    pub fn checked_build_merge_on_read(
        self,
    ) -> (result: Option<Result<DataFusionTaskContext, CompactionError>>)
        ensures
            result is Some <==> self.ids_fit(),
            result matches Some(Ok(context)) ==> self.plan_builds() && context.matches_plan(self),
            result matches Some(Err(e)) ==> !self.plan_builds() && self.is_plan_error(e),
    {
        if self.check_ids_fit() {
            Some(self.build_merge_on_read())
        } else {
            None
        }
    }
}

/// The columns on which a group is matched are the names of its key
/// fields that are no hidden column names: the hidden sequence number of
/// its schema is never among them.
pub proof fn lemma_group_columns(schema: Schema, group: Seq<FileScanTaskView>)
    ensures
        visible_names(field_names(group_fields(schema, group))) == visible_names(
            field_names(resolved_fields(schema, group[0].equality_ids)),
        ),
{
    let keys = resolved_fields(schema, group[0].equality_ids);
    assert(field_names(group_fields(schema, group)) =~= field_names(keys).push(
        SYS_HIDDEN_SEQ_NUM@,
    ));
    crate::metadata::lemma_visible_names_push(field_names(keys), SYS_HIDDEN_SEQ_NUM@);
}

/// A plan without delete files selects the table's columns from the
/// data-file table and joins nothing; the data-file schema has exactly the
/// table's fields, and no delete table is planned.
pub proof fn lemma_plan_without_deletes(
    context: DataFusionTaskContext,
    builder: DataFusionTaskContextBuilder,
)
    requires
        context.matches_plan(builder),
        builder.position_delete_files@.len() == 0,
        builder.equality_delete_files@.len() == 0,
    ensures
        context.exec_sql@ == select_clause(
            field_names(schema_fields(builder.table_schema())),
            DATA_FILE_TABLE@,
        ),
        schema_fields(context.data_file_schema->0) == schema_fields(builder.table_schema()),
        context.position_delete_schema is None,
        context.equality_delete_metadatas is None,
{
    let schema = builder.table_schema();
    assert(task_views(builder.equality_delete_files@).len() == 0);
    assert(builder.groups() =~= Seq::<Seq<FileScanTaskView>>::empty());
    assert(planned_targets(schema, builder.groups()) =~= Seq::<JoinTarget>::empty());
    crate::sql::lemma_sql_without_deletes(field_names(schema_fields(schema)), DATA_FILE_TABLE@);
    assert(schema_fields(schema) + hidden_data_fields(
        schema_highest_field_id(schema),
        false,
        false,
    ) =~= schema_fields(schema));
}

/// A plan with position deletes and without equality deletes selects the
/// table's columns and anti-joins the position-delete table once, on file
/// path and position; it compares no sequence numbers, and the data-file
/// schema gets the hidden file path and position but no sequence number.
pub proof fn lemma_plan_with_position_deletes_only(
    context: DataFusionTaskContext,
    builder: DataFusionTaskContextBuilder,
)
    requires
        context.matches_plan(builder),
        builder.position_delete_files@.len() > 0,
        builder.equality_delete_files@.len() == 0,
    ensures
        context.exec_sql@ == select_clause(
            field_names(schema_fields(builder.table_schema())),
            DATA_FILE_TABLE@,
        ) + position_delete_clause(DATA_FILE_TABLE@, POSITION_DELETE_TABLE@),
        schema_fields(context.data_file_schema->0) == schema_fields(builder.table_schema())
            + seq![
            hidden_field_view(
                schema_highest_field_id(builder.table_schema()) + 2,
                SYS_HIDDEN_FILE_PATH@,
                HiddenType::Text,
            ),
            hidden_field_view(
                schema_highest_field_id(builder.table_schema()) + 3,
                SYS_HIDDEN_POS@,
                HiddenType::Long,
            ),
        ],
        context.equality_delete_metadatas is None,
{
    let schema = builder.table_schema();
    assert(task_views(builder.equality_delete_files@).len() == 0);
    assert(builder.groups() =~= Seq::<Seq<FileScanTaskView>>::empty());
    assert(planned_targets(schema, builder.groups()) =~= Seq::<JoinTarget>::empty());
    crate::sql::lemma_sql_with_position_deletes_only(
        field_names(schema_fields(schema)),
        DATA_FILE_TABLE@,
        POSITION_DELETE_TABLE@,
    );
    assert(hidden_data_fields(schema_highest_field_id(schema), false, true) =~= seq![
        hidden_field_view(
            schema_highest_field_id(schema) + 2,
            SYS_HIDDEN_FILE_PATH@,
            HiddenType::Text,
        ),
        hidden_field_view(schema_highest_field_id(schema) + 3, SYS_HIDDEN_POS@, HiddenType::Long),
    ]);
}

/// The table and the columns of the anti-join of the group at `j`: the
/// table `equality_delete_table_<j>` and the names of the group's key
/// fields that are no hidden column names.
pub open spec fn group_target(builder: DataFusionTaskContextBuilder, j: int) -> JoinTarget {
    JoinTarget {
        table_name: equality_delete_table_name(j as nat),
        columns: visible_names(
            field_names(
                resolved_fields(builder.table_schema(), builder.groups()[j][0].equality_ids),
            ),
        ),
    }
}

/// In a plan with equality deletes the query holds, for every group, one
/// anti-join of the group's table that equates every key column of the
/// group and asks the data row's sequence number to be strictly less than
/// the delete's. The clauses stand in the order of the groups, behind the
/// projection and the anti-join of the position deletes, where there is one.
pub proof fn lemma_plan_with_equality_deletes(
    context: DataFusionTaskContext,
    builder: DataFusionTaskContextBuilder,
    j: int,
)
    requires
        context.matches_plan(builder),
        0 <= j < builder.groups().len(),
    ensures
        ({
            let targets = planned_targets(builder.table_schema(), builder.groups());
            &&& targets[j] == group_target(builder, j)
            &&& context.exec_sql@ == select_clause(
                field_names(schema_fields(builder.table_schema())),
                DATA_FILE_TABLE@,
            ) + position_delete_part(
                DATA_FILE_TABLE@,
                if builder.position_delete_files@.len() > 0 {
                    Some(POSITION_DELETE_TABLE@)
                } else {
                    None
                },
            ) + equality_delete_clauses(DATA_FILE_TABLE@, targets.take(j))
                + equality_delete_clause(DATA_FILE_TABLE@, group_target(builder, j))
                + equality_delete_clauses(DATA_FILE_TABLE@, targets.skip(j + 1))
        }),
{
    let schema = builder.table_schema();
    let targets = planned_targets(schema, builder.groups());
    lemma_group_columns(schema, builder.groups()[j]);
    crate::sql::lemma_sql_clause_order(
        field_names(schema_fields(schema)),
        DATA_FILE_TABLE@,
        if builder.position_delete_files@.len() > 0 {
            Some(POSITION_DELETE_TABLE@)
        } else {
            None
        },
        targets,
        j,
    );
}

/// In a plan with position deletes and equality deletes the query holds
/// the clauses of both: the anti-join of the position deletes first, then
/// the anti-joins of the groups in the order in which the groups were found.
pub proof fn lemma_plan_with_both_deletes(
    context: DataFusionTaskContext,
    builder: DataFusionTaskContextBuilder,
    j: int,
)
    requires
        context.matches_plan(builder),
        builder.position_delete_files@.len() > 0,
        0 <= j < builder.groups().len(),
    ensures
        ({
            let targets = planned_targets(builder.table_schema(), builder.groups());
            context.exec_sql@ == select_clause(
                field_names(schema_fields(builder.table_schema())),
                DATA_FILE_TABLE@,
            ) + position_delete_clause(DATA_FILE_TABLE@, POSITION_DELETE_TABLE@)
                + equality_delete_clauses(DATA_FILE_TABLE@, targets.take(j))
                + equality_delete_clause(DATA_FILE_TABLE@, group_target(builder, j))
                + equality_delete_clauses(DATA_FILE_TABLE@, targets.skip(j + 1))
        }),
{
    lemma_plan_with_equality_deletes(context, builder, j);
}

} // verus!
