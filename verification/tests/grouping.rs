use iceberg_compaction_core::grouping::group_equality_delete_files;
use iceberg_compaction_core::task::{copy_ids, same_ids, FileScanTask};

fn task(path: &str, equality_ids: Vec<i32>) -> FileScanTask {
    FileScanTask {
        data_file_path: path.to_owned(),
        start: 16,
        length: 64,
        record_count: None,
        sequence_number: 3,
        equality_ids,
    }
}

#[test]
fn neighbours_with_the_same_ids_share_a_group() {
    let tasks = vec![
        task("A", vec![1]),
        task("B", vec![1]),
        task("C", vec![1, 2]),
        task("D", vec![1]),
    ];
    let groups = group_equality_delete_files(&tasks);
    assert_eq!(groups.len(), 3);
    assert_eq!(groups[0], vec![task("A", vec![1]), task("B", vec![1])]);
    assert_eq!(groups[1], vec![task("C", vec![1, 2])]);
    assert_eq!(groups[2], vec![task("D", vec![1])]);
    assert_eq!(groups[0][0].equality_ids, vec![1]);
    assert_eq!(groups[1][0].equality_ids, vec![1, 2]);
    assert_eq!(groups[2][0].equality_ids, vec![1]);
}

#[test]
fn no_tasks_give_no_groups() {
    assert!(group_equality_delete_files(&Vec::new()).is_empty());
}

#[test]
fn one_task_gives_one_group() {
    let groups = group_equality_delete_files(&vec![task("A", vec![])]);
    assert_eq!(groups, vec![vec![task("A", vec![])]]);
}

#[test]
fn order_of_ids_matters_for_grouping() {
    let tasks = vec![task("A", vec![1, 2]), task("B", vec![2, 1])];
    let groups = group_equality_delete_files(&tasks);
    assert_eq!(groups.len(), 2);
}

#[test]
fn groups_put_together_give_the_tasks_back() {
    let tasks = vec![
        task("A", vec![2]),
        task("B", vec![2]),
        task("C", vec![2]),
        task("D", vec![3]),
        task("E", vec![2]),
        task("F", vec![2]),
    ];
    let groups = group_equality_delete_files(&tasks);
    let sizes: Vec<usize> = groups.iter().map(|g| g.len()).collect();
    assert_eq!(sizes, vec![3, 1, 2]);
    let flat: Vec<FileScanTask> = groups.into_iter().flatten().collect();
    assert_eq!(flat, tasks);
}

#[test]
fn copies_and_comparisons_of_ids() {
    assert_eq!(copy_ids(&vec![3, 1, 2]), vec![3, 1, 2]);
    assert!(copy_ids(&vec![]).is_empty());
    assert!(same_ids(&vec![1, 2], &vec![1, 2]));
    assert!(!same_ids(&vec![1, 2], &vec![1, 3]));
    assert!(!same_ids(&vec![1, 2], &vec![1]));
    assert!(same_ids(&vec![], &vec![]));
}

#[test]
fn a_cloned_task_equals_the_task() {
    let first = FileScanTask {
        data_file_path: "s3://bucket/eq.parquet".to_owned(),
        start: 4,
        length: 1000,
        record_count: Some(12),
        sequence_number: 42,
        equality_ids: vec![5, 6],
    };
    let copy = first.clone();
    assert_eq!(copy, first);
    assert_eq!(copy.data_file_path, "s3://bucket/eq.parquet");
    assert_eq!(copy.sequence_number, 42);
}
