//! Reserved column and table names.

use vstd::prelude::*;

use crate::text::{decimal, lemma_decimal_injective};

verus! {

/// Hidden column that carries the sequence number of the file a row was read from.
pub const SYS_HIDDEN_SEQ_NUM: &'static str = "sys_hidden_seq_num";

/// Hidden column that carries the path of the file a row was read from.
pub const SYS_HIDDEN_FILE_PATH: &'static str = "sys_hidden_file_path";

/// Hidden column that carries the position of a row inside its file.
pub const SYS_HIDDEN_POS: &'static str = "sys_hidden_pos";

/// Table that holds the rows of the data files.
pub const DATA_FILE_TABLE: &'static str = "data_file_table";

/// Table that holds the rows of the position-delete files.
pub const POSITION_DELETE_TABLE: &'static str = "position_delete_table";

/// Prefix of the tables that hold the rows of one equality-delete group each.
pub const EQUALITY_DELETE_TABLE: &'static str = "equality_delete_table";

/// The name of the table of the equality-delete group with this index.
pub open spec fn equality_delete_table_name(index: nat) -> Seq<char> {
    EQUALITY_DELETE_TABLE@ + "_"@ + decimal(index)
}

/// No two tables of a plan share a name: the data-file table, the
/// position-delete table and the tables of the equality-delete groups are
/// all named differently, so that none takes another's place in a catalog.
pub proof fn lemma_table_names_differ(i: nat, j: nat)
    ensures
        DATA_FILE_TABLE@ != POSITION_DELETE_TABLE@,
        equality_delete_table_name(i) != DATA_FILE_TABLE@,
        equality_delete_table_name(i) != POSITION_DELETE_TABLE@,
        equality_delete_table_name(i) == equality_delete_table_name(j) ==> i == j,
{
    reveal_strlit("data_file_table");
    reveal_strlit("position_delete_table");
    reveal_strlit("equality_delete_table");
    let prefix = EQUALITY_DELETE_TABLE@ + "_"@;
    assert(DATA_FILE_TABLE@[0] != POSITION_DELETE_TABLE@[0]);
    assert(equality_delete_table_name(i)[0] == EQUALITY_DELETE_TABLE@[0]);
    if equality_delete_table_name(i) == equality_delete_table_name(j) {
        assert(decimal(i) =~= equality_delete_table_name(i).skip(prefix.len() as int));
        assert(decimal(j) =~= equality_delete_table_name(j).skip(prefix.len() as int));
        lemma_decimal_injective(i, j);
    }
}

/// Whether `name` is one of the three hidden column names.
pub open spec fn is_hidden_column(name: Seq<char>) -> bool {
    name == SYS_HIDDEN_SEQ_NUM@ || name == SYS_HIDDEN_FILE_PATH@ || name == SYS_HIDDEN_POS@
}

/// Tells whether `name` is one of the three hidden column names.
pub fn is_hidden(name: &str) -> (hidden: bool)
    ensures
        hidden == is_hidden_column(name@),
{
    let name = String::from_str(name);
    name == String::from_str(SYS_HIDDEN_SEQ_NUM) || name == String::from_str(SYS_HIDDEN_FILE_PATH)
        || name == String::from_str(SYS_HIDDEN_POS)
}

} // verus!
