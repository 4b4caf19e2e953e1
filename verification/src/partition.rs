//! The destination's partition spec and the repartitioning it asks for.

use vstd::prelude::*;

use crate::error::CompactionError;
use crate::schema::{field_by_id, resolvable, schema_index};
use crate::text::string_views;
use iceberg::spec::{PartitionSpec, Schema};

verus! {

/// Trusted declaration of `iceberg::spec::PartitionSpec`. Its values are opaque here.
#[verifier::external_type_specification]
#[verifier::external_body]
pub struct ExPartitionSpec(PartitionSpec);

/// The source field ids of the fields of a partition spec, in order.
pub uninterp spec fn partition_source_ids(spec: PartitionSpec) -> Seq<i32>;

/// Whether a partition spec partitions nothing.
pub uninterp spec fn partition_is_unpartitioned(spec: PartitionSpec) -> bool;

/// Reads the source field ids of a partition spec.
///
/// Trusted: `PartitionSpec::fields` returns the spec's fields in order;
/// the `source_id` of each is picked.
#[verifier::external_body]
pub(crate) fn source_ids(spec: &PartitionSpec) -> (ids: Vec<i32>)
    ensures
        ids@ == partition_source_ids(*spec),
{
    spec.fields().iter().map(|f| f.source_id).collect()
}

/// Tells whether a partition spec partitions nothing.
///
/// Trusted: `PartitionSpec::is_unpartitioned`, whose answer depends on the
/// spec alone.
#[verifier::external_body]
pub(crate) fn is_unpartitioned(spec: &PartitionSpec) -> (unpartitioned: bool)
    ensures
        unpartitioned == partition_is_unpartitioned(*spec),
{
    spec.is_unpartitioned()
}

/// How the output of the query is spread over partitions.
#[derive(Debug, PartialEq, Eq)]
pub enum Repartition {
    /// The plan's partitions are kept as they are.
    Keep,
    /// Batches are dealt out in turn over this many partitions.
    RoundRobin(usize),
    /// Rows are spread by the hash of these columns over this many partitions.
    Hash(Vec<String>, usize),
}

/// Mathematical value of a [`Repartition`].
pub ghost enum RepartitionView {
    Keep,
    RoundRobin(usize),
    Hash(Seq<Seq<char>>, usize),
}

impl View for Repartition {
    type V = RepartitionView;

    open spec fn view(&self) -> RepartitionView {
        match self {
            Repartition::Keep => RepartitionView::Keep,
            Repartition::RoundRobin(count) => RepartitionView::RoundRobin(*count),
            Repartition::Hash(columns, count) => RepartitionView::Hash(
                string_views(columns@),
                *count,
            ),
        }
    }
}

/// The repartitioning that a destination asks for.
///
/// An unpartitioned destination keeps a plan that already has the target
/// number of partitions and deals any other plan out round robin. A
/// partitioned destination always spreads rows by the hash of its key
/// columns, whatever the plan's partitions are.
pub open spec fn repartition_choice(
    unpartitioned: bool,
    plan_partitions: usize,
    target_partitions: usize,
    key_columns: Seq<Seq<char>>,
) -> RepartitionView {
    if !unpartitioned {
        RepartitionView::Hash(key_columns, target_partitions)
    } else if plan_partitions != target_partitions {
        RepartitionView::RoundRobin(target_partitions)
    } else {
        RepartitionView::Keep
    }
}

/// Chooses the repartitioning for a plan with `plan_partitions` output
/// partitions. `key_columns` are the destination's partition columns; they
/// are read only where the destination is partitioned.
pub fn choose_repartition(
    unpartitioned: bool,
    plan_partitions: usize,
    target_partitions: usize,
    key_columns: Vec<String>,
) -> (choice: Repartition)
    ensures
        choice@ == repartition_choice(
            unpartitioned,
            plan_partitions,
            target_partitions,
            string_views(key_columns@),
        ),
{
    if unpartitioned && plan_partitions != target_partitions {
        Repartition::RoundRobin(target_partitions)
    } else if !unpartitioned {
        Repartition::Hash(key_columns, target_partitions)
    } else {
        Repartition::Keep
    }
}

/// The names of the fields of `schema` that `ids` name, in the order of `ids`.
pub open spec fn column_names(schema: Schema, ids: Seq<i32>) -> Seq<Seq<char>> {
    Seq::new(ids.len(), |k: int| schema_index(schema)[ids[k] as int].name)
}

/// Resolves source field ids to the names of their columns.
///
/// Fails if `schema` holds no field for one of the ids.
pub fn partition_columns(
    schema: &Schema,
    ids: &Vec<i32>,
) -> (result: Result<Vec<String>, CompactionError>)
    ensures
        match result {
            Ok(names) => resolvable(*schema, ids@) && string_views(names@) == column_names(
                *schema,
                ids@,
            ),
            Err(e) => !resolvable(*schema, ids@) && e.is_config("cannot find field"@),
        },
{
    let ghost wanted = column_names(*schema, ids@);
    let mut names: Vec<String> = Vec::new();
    let mut i: usize = 0;
    while i < ids.len()
        invariant
            i <= ids.len(),
            wanted == column_names(*schema, ids@),
            resolvable(*schema, ids@.take(i as int)),
            string_views(names@) == wanted.take(i as int),
        decreases ids.len() - i,
    {
        match field_by_id(schema, ids[i]) {
            Some(field) => {
                let ghost before = names@;
                names.push(field.name);
                proof {
                    assert(string_views(names@) =~= string_views(before).push(wanted[i as int]));
                    assert(wanted.take(i + 1) =~= wanted.take(i as int).push(wanted[i as int]));
                    assert forall|k: int| 0 <= k < i + 1 implies schema_index(
                        *schema,
                    ).contains_key(#[trigger] ids@.take(i + 1)[k] as int) by {
                        if k < i {
                            assert(ids@.take(i as int)[k] == ids@[k]);
                        }
                    }
                }
            },
            None => {
                proof {
                    assert(!schema_index(*schema).contains_key(ids@[i as int] as int));
                }
                return Err(CompactionError::config("cannot find field"));
            },
        }
        i += 1;
    }
    proof {
        assert(ids@.take(ids.len() as int) =~= ids@);
        assert(wanted.take(ids.len() as int) =~= wanted);
    }
    Ok(names)
}

} // verus!
