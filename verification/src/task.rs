//! File-scan tasks.

use vstd::prelude::*;

verus! {

/// One file to be scanned.
#[derive(Debug, PartialEq, Eq)]
pub struct FileScanTask {
    /// Where the file is.
    pub data_file_path: String,
    /// Offset of the first byte to scan.
    pub start: u64,
    /// Number of bytes to scan.
    pub length: u64,
    /// Number of records in the file, where the whole file is scanned.
    pub record_count: Option<u64>,
    /// Sequence number of the file.
    pub sequence_number: i64,
    /// For an equality-delete file, the ids of the fields that make its key, in order.
    pub equality_ids: Vec<i32>,
}

/// Mathematical value of a [`FileScanTask`].
pub ghost struct FileScanTaskView {
    pub data_file_path: Seq<char>,
    pub start: u64,
    pub length: u64,
    pub record_count: Option<u64>,
    pub sequence_number: i64,
    pub equality_ids: Seq<i32>,
}

impl View for FileScanTask {
    type V = FileScanTaskView;

    open spec fn view(&self) -> FileScanTaskView {
        FileScanTaskView {
            data_file_path: self.data_file_path@,
            start: self.start,
            length: self.length,
            record_count: self.record_count,
            sequence_number: self.sequence_number,
            equality_ids: self.equality_ids@,
        }
    }
}

impl Clone for FileScanTask {
    fn clone(&self) -> (copy: Self)
        ensures
            copy@ == self@,
    {
        FileScanTask {
            data_file_path: self.data_file_path.clone(),
            start: self.start,
            length: self.length,
            record_count: self.record_count,
            sequence_number: self.sequence_number,
            equality_ids: copy_ids(&self.equality_ids),
        }
    }
}

/// The views of a list of tasks, in order.
pub open spec fn task_views(tasks: Seq<FileScanTask>) -> Seq<FileScanTaskView> {
    tasks.map_values(|t: FileScanTask| t@)
}

/// Copies a list of field ids.
pub fn copy_ids(ids: &Vec<i32>) -> (copy: Vec<i32>)
    ensures
        copy@ == ids@,
{
    let mut copy: Vec<i32> = Vec::new();
    let mut i: usize = 0;
    while i < ids.len()
        invariant
            i <= ids.len(),
            copy@ == ids@.take(i as int),
        decreases ids.len() - i,
    {
        copy.push(ids[i]);
        proof {
            assert(ids@.take(i + 1) =~= ids@.take(i as int).push(ids@[i as int]));
        }
        i += 1;
    }
    proof {
        assert(ids@.take(ids.len() as int) =~= ids@);
    }
    copy
}

/// Tells whether two lists of field ids are the same.
pub fn same_ids(a: &Vec<i32>, b: &Vec<i32>) -> (same: bool)
    ensures
        same == (a@ == b@),
{
    if a.len() != b.len() {
        return false;
    }
    let mut i: usize = 0;
    while i < a.len()
        invariant
            i <= a.len(),
            a.len() == b.len(),
            a@.take(i as int) == b@.take(i as int),
        decreases a.len() - i,
    {
        if a[i] != b[i] {
            return false;
        }
        proof {
            assert(a@.take(i + 1) =~= a@.take(i as int).push(a@[i as int]));
            assert(b@.take(i + 1) =~= b@.take(i as int).push(b@[i as int]));
        }
        i += 1;
    }
    proof {
        assert(a@.take(a.len() as int) =~= a@);
        assert(b@.take(b.len() as int) =~= b@);
    }
    true
}

} // verus!
