//! Grouping of equality-delete files by their key columns.

use vstd::prelude::*;

use crate::task::{same_ids, task_views, FileScanTask, FileScanTaskView};

verus! {

/// The runs of neighbouring tasks with the same equality ids, in order.
///
/// A task whose ids differ from those of the task just before it starts a
/// new group, even if the same ids occurred further back.
pub open spec fn equality_groups(tasks: Seq<FileScanTaskView>) -> Seq<Seq<FileScanTaskView>>
    decreases tasks.len(),
{
    if tasks.len() == 0 {
        Seq::empty()
    } else {
        let before = equality_groups(tasks.drop_last());
        let task = tasks.last();
        if tasks.len() >= 2 && tasks[tasks.len() - 2].equality_ids == task.equality_ids {
            before.update(before.len() - 1, before.last().push(task))
        } else {
            before.push(seq![task])
        }
    }
}

/// The views of a list of groups, in order.
pub open spec fn group_views(groups: Seq<Vec<FileScanTask>>) -> Seq<Seq<FileScanTaskView>> {
    groups.map_values(|g: Vec<FileScanTask>| task_views(g@))
}

/// The tasks of all groups, one group after another.
pub open spec fn concatenated(groups: Seq<Seq<FileScanTaskView>>) -> Seq<FileScanTaskView>
    decreases groups.len(),
{
    if groups.len() == 0 {
        Seq::empty()
    } else {
        concatenated(groups.drop_last()) + groups.last()
    }
}

/// Grouping loses nothing and reorders nothing, no group is empty, all
/// tasks of a group have the same equality ids, and neighbouring groups
/// differ in them.
pub proof fn lemma_equality_groups(tasks: Seq<FileScanTaskView>)
    ensures
        concatenated(equality_groups(tasks)) == tasks,
        tasks.len() > 0 ==> equality_groups(tasks).len() > 0 && equality_groups(
            tasks,
        ).last().last() == tasks.last(),
        forall|j: int|
            0 <= j < equality_groups(tasks).len() ==> (#[trigger] equality_groups(tasks)[j]).len()
                > 0,
        forall|j: int, k: int|
            0 <= j < equality_groups(tasks).len() && 0 <= k < equality_groups(tasks)[j].len()
                ==> (#[trigger] equality_groups(tasks)[j][k]).equality_ids == equality_groups(
                tasks,
            )[j][0].equality_ids,
        forall|j: int|
            0 < j < equality_groups(tasks).len() ==> (#[trigger] equality_groups(
                tasks,
            )[j])[0].equality_ids != equality_groups(tasks)[j - 1][0].equality_ids,
    decreases tasks.len(),
{
    if tasks.len() > 0 {
        let shorter = tasks.drop_last();
        let before = equality_groups(shorter);
        let task = tasks.last();
        let groups = equality_groups(tasks);
        lemma_equality_groups(shorter);
        if tasks.len() >= 2 && tasks[tasks.len() - 2].equality_ids == task.equality_ids {
            assert(shorter.last() == tasks[tasks.len() - 2]);
            let last = before.len() - 1;
            assert(groups == before.update(last, before[last].push(task)));
            assert(groups.drop_last() =~= before.drop_last());
            assert(concatenated(before) == concatenated(before.drop_last()) + before[last]);
            assert(concatenated(groups) =~= concatenated(before) + seq![task]);
            assert(tasks =~= shorter + seq![task]);
            assert forall|j: int, k: int|
                0 <= j < groups.len() && 0 <= k < groups[j].len() implies (
                #[trigger] groups[j][k]).equality_ids == groups[j][0].equality_ids by {
                if j == last {
                    assert(before[last].last().equality_ids == before[last][0].equality_ids);
                    if k < before[last].len() {
                        assert(groups[j][k] == before[last][k]);
                    }
                } else {
                    assert(groups[j] == before[j]);
                }
            }
            assert forall|j: int| 0 < j < groups.len() implies (
            #[trigger] groups[j])[0].equality_ids != groups[j - 1][0].equality_ids by {
                assert(groups[j][0] == before[j][0]);
                assert(groups[j - 1] == before[j - 1]);
            }
        } else {
            assert(groups == before.push(seq![task]));
            assert(groups.drop_last() =~= before);
            assert(concatenated(groups) =~= concatenated(before) + seq![task]);
            assert(tasks =~= shorter + seq![task]);
            assert forall|j: int, k: int|
                0 <= j < groups.len() && 0 <= k < groups[j].len() implies (
                #[trigger] groups[j][k]).equality_ids == groups[j][0].equality_ids by {
                if j < before.len() {
                    assert(groups[j] == before[j]);
                }
            }
            assert forall|j: int| 0 < j < groups.len() implies (
            #[trigger] groups[j])[0].equality_ids != groups[j - 1][0].equality_ids by {
                if j < before.len() {
                    assert(groups[j] == before[j]);
                    assert(groups[j - 1] == before[j - 1]);
                } else {
                    assert(groups[j - 1] == before.last());
                    assert(before.last().last() == shorter.last());
                    assert(before.last().last().equality_ids == before.last()[0].equality_ids);
                }
            }
        }
    }
}

/// Groups equality-delete files into runs of neighbours with the same
/// equality ids, keeping their order.
pub fn group_equality_delete_files(tasks: &Vec<FileScanTask>) -> (groups: Vec<Vec<FileScanTask>>)
    ensures
        group_views(groups@) == equality_groups(task_views(tasks@)),
        forall|j: int| 0 <= j < groups.len() ==> (#[trigger] groups[j]).len() > 0,
{
    let ghost all = task_views(tasks@);
    let mut groups: Vec<Vec<FileScanTask>> = Vec::new();
    let mut current: Vec<FileScanTask> = Vec::new();
    let mut i: usize = 0;
    while i < tasks.len()
        invariant
            i <= tasks.len(),
            all == task_views(tasks@),
            i == 0 ==> groups.len() == 0 && current.len() == 0,
            i > 0 ==> current.len() > 0 && group_views(groups@).push(task_views(current@))
                == equality_groups(all.take(i as int)),
            forall|j: int| 0 <= j < groups.len() ==> (#[trigger] groups[j]).len() > 0,
        decreases tasks.len() - i,
    {
        let ghost longer = all.take(i + 1);
        proof {
            assert(longer.drop_last() =~= all.take(i as int));
            assert(longer.last() == tasks@[i as int]@);
            if i > 0 {
                assert(longer[longer.len() - 2] == tasks@[i - 1]@);
            }
        }
        if i > 0 && !same_ids(&tasks[i - 1].equality_ids, &tasks[i].equality_ids) {
            let ghost closed = groups@;
            groups.push(current);
            current = Vec::new();
            proof {
                assert(group_views(groups@) =~= group_views(closed).push(
                    task_views(groups@.last()@),
                ));
            }
        }
        let ghost open = current@;
        current.push(tasks[i].clone());
        proof {
            assert(task_views(current@) =~= task_views(open).push(tasks@[i as int]@));
            if i == 0 {
                assert(task_views(current@) =~= seq![tasks@[i as int]@]);
                assert(group_views(groups@) =~= Seq::<Seq<FileScanTaskView>>::empty());
                assert(equality_groups(all.take(0)) =~= Seq::<Seq<FileScanTaskView>>::empty());
            } else if task_views(open).len() == 0 {
                assert(task_views(current@) =~= seq![tasks@[i as int]@]);
            } else {
                let before = equality_groups(all.take(i as int));
                assert(before.update(before.len() - 1, before.last().push(tasks@[i as int]@))
                    =~= group_views(groups@).push(task_views(current@)));
            }
        }
        i += 1;
    }
    proof {
        assert(all.take(tasks.len() as int) =~= all);
    }
    if tasks.len() > 0 {
        let ghost closed = groups@;
        groups.push(current);
        proof {
            assert(group_views(groups@) =~= group_views(closed).push(task_views(groups@.last()@)));
        }
    } else {
        proof {
            assert(group_views(groups@) =~= Seq::<Seq<FileScanTaskView>>::empty());
        }
    }
    groups
}

} // verus!
