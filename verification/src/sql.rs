//! The merge-on-read query: data rows that no delete file removes.

use vstd::prelude::*;

use crate::error::CompactionError;
use crate::metadata::EqualityDeleteMetadata;
use crate::names::{SYS_HIDDEN_FILE_PATH, SYS_HIDDEN_POS, SYS_HIDDEN_SEQ_NUM};
use crate::text::{join, joined, string_views};

verus! {

/// One table of equality deletes and the columns its rows are matched on.
#[derive(Debug)]
pub struct JoinGroup {
    /// Name of the table.
    pub table_name: String,
    /// Names of the key columns, in order.
    pub columns: Vec<String>,
}

/// Mathematical value of a [`JoinGroup`].
pub ghost struct JoinTarget {
    pub table_name: Seq<char>,
    pub columns: Seq<Seq<char>>,
}

impl View for JoinGroup {
    type V = JoinTarget;

    open spec fn view(&self) -> JoinTarget {
        JoinTarget { table_name: self.table_name@, columns: string_views(self.columns@) }
    }
}

/// The views of a list of groups, in order.
pub open spec fn join_targets(groups: Seq<JoinGroup>) -> Seq<JoinTarget> {
    groups.map_values(|g: JoinGroup| g@)
}

/// `SELECT c1,c2,.. FROM data`.
pub open spec fn select_clause(projection: Seq<Seq<char>>, data: Seq<char>) -> Seq<char> {
    "SELECT "@ + joined(projection, ","@) + " FROM "@ + data
}

/// ` LEFT ANTI JOIN deletes ON data.path = deletes.path AND data.pos = deletes.pos`,
/// over the two hidden columns: a data row is dropped when a delete names
/// its file and its position.
pub open spec fn position_delete_clause(data: Seq<char>, deletes: Seq<char>) -> Seq<char> {
    " LEFT ANTI JOIN "@ + deletes + " ON "@ + data + "."@ + SYS_HIDDEN_FILE_PATH@ + " = "@
        + deletes + "."@ + SYS_HIDDEN_FILE_PATH@ + " AND "@ + data + "."@ + SYS_HIDDEN_POS@
        + " = "@ + deletes + "."@ + SYS_HIDDEN_POS@
}

/// `data.column = deletes.column`.
pub open spec fn column_equality(
    data: Seq<char>,
    deletes: Seq<char>,
    column: Seq<char>,
) -> Seq<char> {
    data + "."@ + column + " = "@ + deletes + "."@ + column
}

/// The equalities of all key columns, in order.
pub open spec fn column_equalities(
    data: Seq<char>,
    deletes: Seq<char>,
    columns: Seq<Seq<char>>,
) -> Seq<Seq<char>> {
    columns.map_values(|column: Seq<char>| column_equality(data, deletes, column))
}

/// `data.seq < deletes.seq` over the hidden sequence-number column: a delete
/// applies only to rows written strictly before it.
pub open spec fn sequence_guard(data: Seq<char>, deletes: Seq<char>) -> Seq<char> {
    data + "."@ + SYS_HIDDEN_SEQ_NUM@ + " < "@ + deletes + "."@ + SYS_HIDDEN_SEQ_NUM@
}

/// ` LEFT ANTI JOIN deletes ON data.k1 = deletes.k1 AND .. AND data.seq < deletes.seq`.
pub open spec fn equality_delete_clause(data: Seq<char>, group: JoinTarget) -> Seq<char> {
    " LEFT ANTI JOIN "@ + group.table_name + " ON "@ + joined(
        column_equalities(data, group.table_name, group.columns),
        " AND "@,
    ) + " AND "@ + sequence_guard(data, group.table_name)
}

/// The clauses of all groups, in order.
pub open spec fn equality_delete_clauses(data: Seq<char>, groups: Seq<JoinTarget>) -> Seq<char>
    decreases groups.len(),
{
    if groups.len() == 0 {
        Seq::empty()
    } else {
        equality_delete_clauses(data, groups.drop_last()) + equality_delete_clause(
            data,
            groups.last(),
        )
    }
}

/// The clause of the position deletes, where there are any.
pub open spec fn position_delete_part(
    data: Seq<char>,
    position_deletes: Option<Seq<char>>,
) -> Seq<char> {
    match position_deletes {
        Some(deletes) => position_delete_clause(data, deletes),
        None => Seq::empty(),
    }
}

/// The whole query: the projection, then the anti-join on the position
/// deletes if there are any, then one anti-join per equality-delete group.
pub open spec fn merge_on_read_sql(
    projection: Seq<Seq<char>>,
    data: Seq<char>,
    position_deletes: Option<Seq<char>>,
    groups: Seq<JoinTarget>,
) -> Seq<char> {
    select_clause(projection, data) + position_delete_part(data, position_deletes)
        + equality_delete_clauses(data, groups)
}

/// The clauses of two lists of groups, one list behind the other, are the
/// clauses of the first list followed by those of the second.
pub proof fn lemma_clauses_concat(data: Seq<char>, first: Seq<JoinTarget>, second: Seq<JoinTarget>)
    ensures
        equality_delete_clauses(data, first + second) == equality_delete_clauses(data, first)
            + equality_delete_clauses(data, second),
    decreases second.len(),
{
    if second.len() == 0 {
        assert(first + second =~= first);
        assert(equality_delete_clauses(data, first) + Seq::<char>::empty()
            =~= equality_delete_clauses(data, first));
    } else {
        let all = first + second;
        assert(all.drop_last() =~= first + second.drop_last());
        assert(all.last() == second.last());
        lemma_clauses_concat(data, first, second.drop_last());
        assert(equality_delete_clauses(data, all) =~= equality_delete_clauses(data, first)
            + equality_delete_clauses(data, second));
    }
}

/// Every group has its clause in the query, behind the clauses of the
/// groups before it and ahead of the clauses of the groups after it.
pub proof fn lemma_clause_of_group(data: Seq<char>, groups: Seq<JoinTarget>, j: int)
    requires
        0 <= j < groups.len(),
    ensures
        equality_delete_clauses(data, groups) == equality_delete_clauses(data, groups.take(j))
            + equality_delete_clause(data, groups[j]) + equality_delete_clauses(
            data,
            groups.skip(j + 1),
        ),
{
    let upto = groups.take(j + 1);
    assert(upto.drop_last() =~= groups.take(j));
    assert(upto.last() == groups[j]);
    assert(groups =~= upto + groups.skip(j + 1));
    lemma_clauses_concat(data, upto, groups.skip(j + 1));
}

/// Without position deletes and without equality-delete groups the query
/// is the projection alone: it holds no join.
pub proof fn lemma_sql_without_deletes(projection: Seq<Seq<char>>, data: Seq<char>)
    ensures
        merge_on_read_sql(projection, data, None, Seq::empty()) == select_clause(projection, data),
{
    assert(merge_on_read_sql(projection, data, None, Seq::empty()) =~= select_clause(
        projection,
        data,
    ));
}

/// With position deletes and without equality-delete groups the query is
/// the projection followed by the one anti-join on file path and
/// position: it compares no sequence numbers.
pub proof fn lemma_sql_with_position_deletes_only(
    projection: Seq<Seq<char>>,
    data: Seq<char>,
    deletes: Seq<char>,
)
    ensures
        merge_on_read_sql(projection, data, Some(deletes), Seq::empty()) == select_clause(
            projection,
            data,
        ) + position_delete_clause(data, deletes),
{
    assert(merge_on_read_sql(projection, data, Some(deletes), Seq::empty()) =~= select_clause(
        projection,
        data,
    ) + position_delete_clause(data, deletes));
}

/// The query in full: the projection, then the anti-join on the position
/// deletes where there are any, then for the group at `j` its anti-join on
/// all of its columns and on the sequence numbers, between the clauses of
/// the groups before it and of those after it.
pub proof fn lemma_sql_clause_order(
    projection: Seq<Seq<char>>,
    data: Seq<char>,
    position_deletes: Option<Seq<char>>,
    groups: Seq<JoinTarget>,
    j: int,
)
    requires
        0 <= j < groups.len(),
    ensures
        merge_on_read_sql(projection, data, position_deletes, groups) == select_clause(
            projection,
            data,
        ) + position_delete_part(data, position_deletes) + equality_delete_clauses(
            data,
            groups.take(j),
        ) + equality_delete_clause(data, groups[j]) + equality_delete_clauses(
            data,
            groups.skip(j + 1),
        ),
        equality_delete_clause(data, groups[j]) == " LEFT ANTI JOIN "@ + groups[j].table_name
            + " ON "@ + joined(
            column_equalities(data, groups[j].table_name, groups[j].columns),
            " AND "@,
        ) + " AND "@ + (data + "."@ + SYS_HIDDEN_SEQ_NUM@ + " < "@ + groups[j].table_name + "."@
            + SYS_HIDDEN_SEQ_NUM@),
{
    lemma_clause_of_group(data, groups, j);
    assert(merge_on_read_sql(projection, data, position_deletes, groups) =~= select_clause(
        projection,
        data,
    ) + position_delete_part(data, position_deletes) + equality_delete_clauses(
        data,
        groups.take(j),
    ) + equality_delete_clause(data, groups[j]) + equality_delete_clauses(
        data,
        groups.skip(j + 1),
    ));
}

/// The view of an optional name.
pub open spec fn name_view(name: Option<&str>) -> Option<Seq<char>> {
    match name {
        Some(n) => Some(n@),
        None => None,
    }
}

fn write_select_clause(projection: &Vec<String>, data: &str) -> (text: String)
    ensures
        text@ == select_clause(string_views(projection@), data@),
{
    let columns = join(projection, ",");
    let mut text = String::from_str("SELECT ");
    text.append(columns.as_str());
    text.append(" FROM ");
    text.append(data);
    text
}

fn write_position_delete_clause(data: &str, deletes: &str) -> (text: String)
    ensures
        text@ == position_delete_clause(data@, deletes@),
{
    let mut text = String::from_str(" LEFT ANTI JOIN ");
    text.append(deletes);
    text.append(" ON ");
    text.append(data);
    text.append(".");
    text.append(SYS_HIDDEN_FILE_PATH);
    text.append(" = ");
    text.append(deletes);
    text.append(".");
    text.append(SYS_HIDDEN_FILE_PATH);
    text.append(" AND ");
    text.append(data);
    text.append(".");
    text.append(SYS_HIDDEN_POS);
    text.append(" = ");
    text.append(deletes);
    text.append(".");
    text.append(SYS_HIDDEN_POS);
    text
}

fn write_column_equality(data: &str, deletes: &str, column: &str) -> (text: String)
    ensures
        text@ == column_equality(data@, deletes@, column@),
{
    let mut text = String::from_str(data);
    text.append(".");
    text.append(column);
    text.append(" = ");
    text.append(deletes);
    text.append(".");
    text.append(column);
    text
}

fn write_sequence_guard(data: &str, deletes: &str) -> (text: String)
    ensures
        text@ == sequence_guard(data@, deletes@),
{
    let mut text = String::from_str(data);
    text.append(".");
    text.append(SYS_HIDDEN_SEQ_NUM);
    text.append(" < ");
    text.append(deletes);
    text.append(".");
    text.append(SYS_HIDDEN_SEQ_NUM);
    text
}

fn write_equality_delete_clause(data: &str, group: &JoinGroup) -> (text: String)
    ensures
        text@ == equality_delete_clause(data@, group@),
{
    let deletes = group.table_name.as_str();
    let ghost wanted = column_equalities(data@, deletes@, string_views(group.columns@));
    let mut equalities: Vec<String> = Vec::new();
    let mut i: usize = 0;
    while i < group.columns.len()
        invariant
            i <= group.columns.len(),
            deletes@ == group.table_name@,
            wanted == column_equalities(data@, deletes@, string_views(group.columns@)),
            string_views(equalities@) == wanted.take(i as int),
        decreases group.columns.len() - i,
    {
        let ghost before = equalities@;
        equalities.push(write_column_equality(data, deletes, group.columns[i].as_str()));
        proof {
            assert(string_views(equalities@) =~= string_views(before).push(wanted[i as int]));
            assert(wanted.take(i + 1) =~= wanted.take(i as int).push(wanted[i as int]));
        }
        i += 1;
    }
    proof {
        assert(wanted.take(group.columns.len() as int) =~= wanted);
    }
    let condition = join(&equalities, " AND ");
    let guard = write_sequence_guard(data, deletes);
    let mut text = String::from_str(" LEFT ANTI JOIN ");
    text.append(deletes);
    text.append(" ON ");
    text.append(condition.as_str());
    text.append(" AND ");
    text.append(guard.as_str());
    text
}

/// Writes the merge-on-read query over plain names.
///
/// `position_deletes` is the table of position deletes, if rows are to be
/// matched against one; `groups` are the equality-delete tables, in the
/// order in which their clauses are written.
pub fn write_merge_on_read_sql(
    projection: &Vec<String>,
    data: &str,
    position_deletes: Option<&str>,
    groups: &Vec<JoinGroup>,
) -> (sql: String)
    ensures
        sql@ == merge_on_read_sql(
            string_views(projection@),
            data@,
            name_view(position_deletes),
            join_targets(groups@),
        ),
{
    let mut sql = write_select_clause(projection, data);
    match position_deletes {
        Some(deletes) => {
            let clause = write_position_delete_clause(data, deletes);
            sql.append(clause.as_str());
        },
        None => {
            proof {
                assert(sql@ + Seq::<char>::empty() =~= sql@);
            }
        },
    }
    let ghost targets = join_targets(groups@);
    let mut joins = String::new();
    let mut i: usize = 0;
    while i < groups.len()
        invariant
            i <= groups.len(),
            targets == join_targets(groups@),
            joins@ == equality_delete_clauses(data@, targets.take(i as int)),
        decreases groups.len() - i,
    {
        let clause = write_equality_delete_clause(data, &groups[i]);
        proof {
            let next = targets.take(i + 1);
            assert(next.drop_last() =~= targets.take(i as int));
            assert(next.last() == groups@[i as int]@);
        }
        joins.append(clause.as_str());
        i += 1;
    }
    proof {
        assert(targets.take(groups.len() as int) =~= targets);
    }
    sql.append(joins.as_str());
    sql
}

/// The equality-delete groups as the query sees them: each with its table
/// name and the columns its rows are matched on.
pub open spec fn metadata_targets(metadatas: Seq<EqualityDeleteMetadata>) -> Seq<JoinTarget> {
    metadatas.map_values(
        |m: EqualityDeleteMetadata|
            JoinTarget { table_name: m.equality_delete_table_name@, columns: m.join_names() },
    )
}

/// Builder of the merge-on-read query.
pub struct SqlBuilder<'a> {
    /// Names of the columns to select.
    pub project_names: &'a Vec<String>,
    /// Name of the position-delete table.
    pub position_delete_table_name: Option<String>,
    /// Name of the data-file table.
    pub data_file_table_name: Option<String>,
    /// The equality-delete groups, in the order of their clauses.
    pub equality_delete_metadatas: &'a Vec<EqualityDeleteMetadata>,
    /// Whether rows are matched against position deletes.
    pub need_file_path_and_pos: bool,
}

impl<'a> SqlBuilder<'a> {
    /// Makes a builder that holds exactly these values.
    pub fn new(
        project_names: &'a Vec<String>,
        position_delete_table_name: Option<String>,
        data_file_table_name: Option<String>,
        equality_delete_metadatas: &'a Vec<EqualityDeleteMetadata>,
        need_file_path_and_pos: bool,
    ) -> (builder: Self)
        ensures
            builder.project_names == project_names,
            builder.position_delete_table_name == position_delete_table_name,
            builder.data_file_table_name == data_file_table_name,
            builder.equality_delete_metadatas == equality_delete_metadatas,
            builder.need_file_path_and_pos == need_file_path_and_pos,
    {
        SqlBuilder {
            project_names,
            position_delete_table_name,
            data_file_table_name,
            equality_delete_metadatas,
            need_file_path_and_pos,
        }
    }

    /// Whether the data-file table has no name.
    pub open spec fn lacks_data_table(self) -> bool {
        self.data_file_table_name is None
    }

    /// Whether position deletes are asked for and their table has no name.
    pub open spec fn lacks_position_table(self) -> bool {
        self.need_file_path_and_pos && self.position_delete_table_name is None
    }

    /// The query that this builder describes, where no name is missing.
    pub open spec fn query(self) -> Seq<char> {
        merge_on_read_sql(
            string_views(self.project_names@),
            self.data_file_table_name->0@,
            if self.need_file_path_and_pos {
                Some(self.position_delete_table_name->0@)
            } else {
                None
            },
            metadata_targets(self.equality_delete_metadatas@),
        )
    }

    /// Writes the merge-on-read query: the selected columns of the data-file
    /// table, without the rows that a position delete names and without the
    /// rows for which a group holds a delete with the same key and a greater
    /// sequence number.
    ///
    /// Fails when the data-file table has no name, or when position deletes
    /// are asked for and their table has no name.
    pub fn build_merge_on_read_sql(self) -> (result: Result<String, CompactionError>)
        ensures
            match result {
                Ok(sql) => !self.lacks_data_table() && !self.lacks_position_table() && sql@
                    == self.query(),
                Err(e) => if self.lacks_data_table() {
                    e.is_config("Data file table name is not provided"@)
                } else {
                    self.lacks_position_table() && e.is_config(
                        "Position delete table name is not provided"@,
                    )
                },
            },
    {
        let data = match &self.data_file_table_name {
            Some(name) => name.as_str(),
            None => {
                return Err(CompactionError::config("Data file table name is not provided"));
            },
        };
        let position_deletes = if self.need_file_path_and_pos {
            match &self.position_delete_table_name {
                Some(name) => Some(name.as_str()),
                None => {
                    return Err(
                        CompactionError::config("Position delete table name is not provided"),
                    );
                },
            }
        } else {
            None
        };
        let ghost wanted = metadata_targets(self.equality_delete_metadatas@);
        let mut groups: Vec<JoinGroup> = Vec::new();
        let mut i: usize = 0;
        while i < self.equality_delete_metadatas.len()
            invariant
                i <= self.equality_delete_metadatas.len(),
                wanted == metadata_targets(self.equality_delete_metadatas@),
                join_targets(groups@) == wanted.take(i as int),
            decreases self.equality_delete_metadatas.len() - i,
        {
            let metadata = &self.equality_delete_metadatas[i];
            let ghost before = groups@;
            groups.push(
                JoinGroup {
                    table_name: metadata.equality_delete_table_name.clone(),
                    columns: metadata.equality_delete_join_names(),
                },
            );
            proof {
                assert(join_targets(groups@) =~= join_targets(before).push(wanted[i as int]));
                assert(wanted.take(i + 1) =~= wanted.take(i as int).push(wanted[i as int]));
            }
            i += 1;
        }
        proof {
            assert(wanted.take(self.equality_delete_metadatas.len() as int) =~= wanted);
        }
        Ok(write_merge_on_read_sql(self.project_names, data, position_deletes, &groups))
    }
}

} // verus!
