//! The fields of the derived schemas: hidden columns and where they go.

use vstd::prelude::*;

use crate::names::{SYS_HIDDEN_FILE_PATH, SYS_HIDDEN_POS, SYS_HIDDEN_SEQ_NUM};
use crate::schema::{
    field_views, hidden_field, hidden_field_view, resolved_fields, Field, FieldView, HiddenType,
};
use iceberg::spec::Schema;

verus! {

/// The fields of the position-delete schema: the file path with id 1 and
/// the position with id 2.
pub open spec fn position_delete_fields() -> Seq<FieldView> {
    seq![
        hidden_field_view(1, SYS_HIDDEN_FILE_PATH@, HiddenType::Text),
        hidden_field_view(2, SYS_HIDDEN_POS@, HiddenType::Long),
    ]
}

/// The fields of an equality-delete schema: the key fields, then the
/// hidden sequence number under the id `seq_num_id`.
pub open spec fn equality_delete_fields(
    schema: Schema,
    ids: Seq<i32>,
    seq_num_id: int,
) -> Seq<FieldView> {
    resolved_fields(schema, ids).push(
        hidden_field_view(seq_num_id, SYS_HIDDEN_SEQ_NUM@, HiddenType::Long),
    )
}

/// The hidden fields that the data-file schema gets behind the table's own
/// fields: the sequence number under `highest + 1` if equality deletes are
/// read, the file path under `highest + 2` and the position under
/// `highest + 3` if position deletes are read.
pub open spec fn hidden_data_fields(
    highest: int,
    need_seq_num: bool,
    need_file_path_and_pos: bool,
) -> Seq<FieldView> {
    (if need_seq_num {
        seq![hidden_field_view(highest + 1, SYS_HIDDEN_SEQ_NUM@, HiddenType::Long)]
    } else {
        Seq::empty()
    }) + (if need_file_path_and_pos {
        seq![
            hidden_field_view(highest + 2, SYS_HIDDEN_FILE_PATH@, HiddenType::Text),
            hidden_field_view(highest + 3, SYS_HIDDEN_POS@, HiddenType::Long),
        ]
    } else {
        Seq::empty()
    })
}

/// The two fields of the position-delete schema.
pub fn position_delete_field_list() -> (fields: Vec<Field>)
    ensures
        field_views(fields@) == position_delete_fields(),
{
    let mut fields: Vec<Field> = Vec::new();
    fields.push(hidden_field(1, SYS_HIDDEN_FILE_PATH, HiddenType::Text));
    fields.push(hidden_field(2, SYS_HIDDEN_POS, HiddenType::Long));
    proof {
        assert(field_views(fields@) =~= position_delete_fields());
    }
    fields
}

/// The fields of an equality-delete schema: `key_fields`, then the hidden
/// sequence number under the id `seq_num_id`.
pub fn equality_delete_field_list(key_fields: Vec<Field>, seq_num_id: i32) -> (fields: Vec<Field>)
    ensures
        field_views(fields@) == field_views(key_fields@).push(
            hidden_field_view(seq_num_id as int, SYS_HIDDEN_SEQ_NUM@, HiddenType::Long),
        ),
{
    let mut fields = key_fields;
    fields.push(hidden_field(seq_num_id, SYS_HIDDEN_SEQ_NUM, HiddenType::Long));
    proof {
        assert(field_views(fields@) =~= field_views(key_fields@).push(
            hidden_field_view(seq_num_id as int, SYS_HIDDEN_SEQ_NUM@, HiddenType::Long),
        ));
    }
    fields
}

/// The hidden fields that a data-file schema gets where `highest` is the
/// highest field id of the table's schema.
pub fn hidden_data_field_list(
    highest: i32,
    need_seq_num: bool,
    need_file_path_and_pos: bool,
) -> (fields: Vec<Field>)
    requires
        need_seq_num ==> highest + 1 <= i32::MAX,
        need_file_path_and_pos ==> highest + 3 <= i32::MAX,
    ensures
        field_views(fields@) == hidden_data_fields(
            highest as int,
            need_seq_num,
            need_file_path_and_pos,
        ),
{
    let mut fields: Vec<Field> = Vec::new();
    if need_seq_num {
        fields.push(hidden_field(highest + 1, SYS_HIDDEN_SEQ_NUM, HiddenType::Long));
    }
    if need_file_path_and_pos {
        fields.push(hidden_field(highest + 2, SYS_HIDDEN_FILE_PATH, HiddenType::Text));
        fields.push(hidden_field(highest + 3, SYS_HIDDEN_POS, HiddenType::Long));
    }
    proof {
        assert(field_views(fields@) =~= hidden_data_fields(
            highest as int,
            need_seq_num,
            need_file_path_and_pos,
        ));
    }
    fields
}

} // verus!
