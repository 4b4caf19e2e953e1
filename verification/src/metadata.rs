//! One group of equality-delete files that share their key columns.

use vstd::prelude::*;

use crate::names::{is_hidden, is_hidden_column};
use crate::schema::{field_views, schema_fields, top_level_fields, Field, FieldView};
use crate::task::FileScanTask;
use crate::text::string_views;
use iceberg::spec::Schema;

verus! {

/// The names of the fields, in order.
pub open spec fn field_names(fields: Seq<FieldView>) -> Seq<Seq<char>> {
    fields.map_values(|f: FieldView| f.name)
}

/// The names among `names` that are no hidden column names, in order.
pub open spec fn visible_names(names: Seq<Seq<char>>) -> Seq<Seq<char>> {
    names.filter(|name: Seq<char>| !is_hidden_column(name))
}

/// Filtering one more name keeps it exactly when it is no hidden column name.
pub proof fn lemma_visible_names_push(names: Seq<Seq<char>>, name: Seq<char>)
    ensures
        visible_names(names.push(name)) == if is_hidden_column(name) {
            visible_names(names)
        } else {
            visible_names(names).push(name)
        },
{
    reveal(Seq::filter);
    assert(names.push(name).drop_last() =~= names);
}

/// The names of the fields that are no hidden columns, in the order of the
/// fields, wherever the hidden columns stand among them.
pub fn visible_field_names(fields: &Vec<Field>) -> (names: Vec<String>)
    ensures
        string_views(names@) == visible_names(field_names(field_views(fields@))),
{
    let ghost all = field_names(field_views(fields@));
    let mut names: Vec<String> = Vec::new();
    let mut i: usize = 0;
    while i < fields.len()
        invariant
            i <= fields.len(),
            all == field_names(field_views(fields@)),
            string_views(names@) == visible_names(all.take(i as int)),
        decreases fields.len() - i,
    {
        proof {
            lemma_visible_names_push(all.take(i as int), all[i as int]);
            assert(all.take(i + 1) =~= all.take(i as int).push(all[i as int]));
        }
        if !is_hidden(fields[i].name.as_str()) {
            let ghost before = names@;
            names.push(fields[i].name.clone());
            proof {
                assert(string_views(names@) =~= string_views(before).push(all[i as int]));
            }
        }
        i += 1;
    }
    proof {
        assert(all.take(fields.len() as int) =~= all);
    }
    names
}

/// The schema, table name and files of one equality-delete group.
#[derive(Debug, Clone)]
pub struct EqualityDeleteMetadata {
    /// The key columns of the group followed by the hidden sequence-number column.
    pub equality_delete_schema: Schema,
    /// The name under which the group's table is registered.
    pub equality_delete_table_name: String,
    /// The equality-delete files of the group, in input order.
    pub file_scan_tasks: Vec<FileScanTask>,
}

impl EqualityDeleteMetadata {
    /// The columns on which data rows are matched against this group's
    /// deletes: the names of the schema's fields, hidden columns left out.
    pub open spec fn join_names(self) -> Seq<Seq<char>> {
        visible_names(field_names(schema_fields(self.equality_delete_schema)))
    }

    /// Makes a group without files.
    pub fn new(
        equality_delete_schema: Schema,
        equality_delete_table_name: String,
    ) -> (metadata: Self)
        ensures
            metadata.equality_delete_schema == equality_delete_schema,
            metadata.equality_delete_table_name == equality_delete_table_name,
            metadata.file_scan_tasks@ == Seq::<FileScanTask>::empty(),
    {
        EqualityDeleteMetadata {
            equality_delete_schema,
            equality_delete_table_name,
            file_scan_tasks: Vec::new(),
        }
    }

    /// The columns on which data rows are matched against this group's deletes.
    pub fn equality_delete_join_names(&self) -> (names: Vec<String>)
        ensures
            string_views(names@) == self.join_names(),
    {
        let fields = top_level_fields(&self.equality_delete_schema);
        visible_field_names(&fields)
    }

    /// Adds a file to the group.
    pub fn add_file_scan_task(&mut self, file_scan_task: FileScanTask)
        ensures
            final(self).file_scan_tasks@ == old(self).file_scan_tasks@.push(file_scan_task),
            final(self).equality_delete_schema == old(self).equality_delete_schema,
            final(self).equality_delete_table_name == old(self).equality_delete_table_name,
    {
        self.file_scan_tasks.push(file_scan_task);
    }
}

} // verus!
