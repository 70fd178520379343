//! The decoder of the engine's flat result buffer, and its inverse.

use vstd::prelude::*;
use vstd::seq_lib::lemma_flatten_concat;
use crate::error::ContractViolation;
use crate::feature::Output;
use crate::landmark::Landmark;
use crate::layout::{
    declared_records, decoded, decoded_output, flattened, instance_counts, kinds_of,
    lemma_decoded_shaped, lemma_flattened_decoded, lemma_records_before_monotonic, records_before, shaped, violation,
};

verus! {

/// The nested result of one frame: per declared output, in declared order,
/// the instances detected, each one the landmarks of its feature. An output
/// with nothing detected has an empty list, never a missing entry.
pub type DetectionResult = Vec<Vec<Vec<Landmark>>>;

/// What the engine returned for one frame.
#[derive(Debug, Clone, PartialEq, Eq)]
pub enum RawResult {
    /// The engine returned no buffer: nothing was detected on any output.
    Null,
    /// One run of records, and the number of instances of each output.
    Flat { records: Vec<Landmark>, counts: Vec<usize> },
}

/// Copies `size` records that start at `start` into a list of their own.
fn copy_instance(records: &[Landmark], start: usize, size: usize) -> (instance: Vec<Landmark>)
    requires
        start + size <= records@.len(),
    ensures
        instance@ == records@.subrange(start as int, start + size),
        instance.deep_view() == records@.subrange(start as int, start + size),
{
    let len = records.len();
    let mut instance: Vec<Landmark> = Vec::new();
    let mut k: usize = 0;
    while k < size
        invariant
            k <= size,
            start + size <= len == records@.len(),
            instance@ == records@.subrange(start as int, start + k),
        decreases size - k,
    {
        instance.push(records[start + k]);
        k += 1;
    }
    assert(instance.deep_view() =~= instance@);
    instance
}

/// Cuts `count` instances of `size` records each out of the buffer, from
/// `start` on.
fn cut_instances(records: &[Landmark], start: usize, count: usize, size: usize) -> (instances:
    Vec<Vec<Landmark>>)
    requires
        start + count * size <= records@.len(),
    ensures
        instances.deep_view() == Seq::new(
            count as nat,
            |j: int| records@.subrange(start + j * size, start + j * size + size),
        ),
{
    let len = records.len();
    let mut instances: Vec<Vec<Landmark>> = Vec::new();
    let mut at: usize = start;
    let mut j: usize = 0;
    while j < count
        invariant
            j <= count,
            at == start + j * size,
            start + count * size <= len == records@.len(),
            instances@.len() == j,
            forall|t: int|
                0 <= t < j ==> (#[trigger] instances@[t]).deep_view() == records@.subrange(
                    start + t * size,
                    start + t * size + size,
                ),
        decreases count - j,
    {
        assert(start + j * size + size <= start + count * size) by (nonlinear_arith)
            requires
                j < count,
        ;
        let instance = copy_instance(records, at, size);
        instances.push(instance);
        at = at + size;
        assert(at == start + (j + 1) * size) by (nonlinear_arith)
            requires
                at == start + j * size + size,
        ;
        j += 1;
    }
    assert(instances.deep_view() =~= Seq::new(
        count as nat,
        |j: int| records@.subrange(start + j * size, start + j * size + size),
    ));
    instances
}

/// Decodes a flat buffer and its counts into the nested result.
///
/// The outputs are walked in declared order. Output `i` takes its count
/// times its feature's landmark count of records, cut into instances; an
/// output with count zero gets an empty list and takes nothing. When all
/// outputs are done the buffer must be used up exactly: a buffer that is too
/// short or too long is an error, and so is a list of counts that does not
/// have one entry per output. Every record of the buffer is then in the
/// result once, in the buffer's order.
pub fn decode(outputs: &Vec<Output>, records: &[Landmark], counts: &[usize]) -> (r: Result<
    DetectionResult,
    ContractViolation,
>)
    ensures
        match r {
            Ok(result) => {
                &&& violation(kinds_of(outputs@), counts@, records@.len()) is None
                &&& result.deep_view() == decoded(kinds_of(outputs@), counts@, records@)
                &&& shaped(kinds_of(outputs@), result.deep_view())
                &&& flattened(result.deep_view()) == records@
                &&& instance_counts(result.deep_view()) == counts@
            },
            Err(e) => violation(kinds_of(outputs@), counts@, records@.len()) == Some(e),
        },
{
    let ghost kinds = kinds_of(outputs@);
    if counts.len() != outputs.len() {
        return Err(ContractViolation::OutputCount);
    }
    let mut result: Vec<Vec<Vec<Landmark>>> = Vec::new();
    let mut cursor: usize = 0;
    let mut i: usize = 0;
    while i < outputs.len()
        invariant
            i <= outputs@.len(),
            counts@.len() == outputs@.len(),
            kinds == kinds_of(outputs@),
            cursor == records_before(kinds, counts@, i as int),
            cursor <= records@.len(),
            result@.len() == i,
            forall|t: int|
                0 <= t < i ==> (#[trigger] result@[t]).deep_view() == decoded_output(
                    kinds,
                    counts@,
                    records@,
                    t,
                ),
        decreases outputs@.len() - i,
    {
        let size = outputs[i].type_.num_landmarks();
        let count = counts[i];
        let remaining = records.len() - cursor;
        if count > remaining / size {
            proof {
                assert(count * size > remaining) by (nonlinear_arith)
                    requires
                        count > remaining / size,
                        size > 0,
                ;
                lemma_records_before_monotonic(kinds, counts@, i + 1, kinds.len() as int);
            }
            return Err(ContractViolation::Truncated);
        }
        assert(count * size <= remaining) by (nonlinear_arith)
            requires
                count <= remaining / size,
                size > 0,
        ;
        let instances = cut_instances(records, cursor, count, size);
        assert(instances.deep_view() =~= decoded_output(kinds, counts@, records@, i as int));
        result.push(instances);
        cursor = cursor + count * size;
        i += 1;
    }
    if cursor != records.len() {
        return Err(ContractViolation::Trailing);
    }
    proof {
        assert(result.deep_view() =~= decoded(kinds, counts@, records@));
        lemma_decoded_shaped(kinds, counts@, records@);
        lemma_flattened_decoded(kinds, counts@, records@);
    }
    Ok(result)
}

/// The number of records that the engine's buffer must hold for the given
/// counts: for each output its count times its feature's landmark count.
///
/// `None` when there is not one count per output, or when the number is more
/// than an index can hold, so that no buffer can be that long.
pub fn expected_records(outputs: &Vec<Output>, counts: &[usize]) -> (n: Option<usize>)
    ensures
        n is Some <==> counts@.len() == outputs@.len() && declared_records(
            kinds_of(outputs@),
            counts@,
        ) <= usize::MAX,
        n matches Some(total) ==> total == declared_records(kinds_of(outputs@), counts@),
{
    let ghost kinds = kinds_of(outputs@);
    if counts.len() != outputs.len() {
        return None;
    }
    let mut total: usize = 0;
    let mut i: usize = 0;
    while i < outputs.len()
        invariant
            i <= outputs@.len(),
            counts@.len() == outputs@.len(),
            kinds == kinds_of(outputs@),
            total == records_before(kinds, counts@, i as int),
        decreases outputs@.len() - i,
    {
        let size = outputs[i].type_.num_landmarks();
        let count = counts[i];
        let room = usize::MAX - total;
        if count > room / size {
            proof {
                assert(count * size > room) by (nonlinear_arith)
                    requires
                        count > room / size,
                        size > 0,
                ;
                lemma_records_before_monotonic(kinds, counts@, i + 1, kinds.len() as int);
            }
            return None;
        }
        assert(count * size <= room) by (nonlinear_arith)
            requires
                count <= room / size,
                size > 0,
        ;
        total = total + count * size;
        i += 1;
    }
    Some(total)
}

/// Lays a nested result out as the engine would: all landmarks in one run,
/// and beside it the number of instances of each output.
pub fn encode(result: &DetectionResult) -> (raw: RawResult)
    ensures
        raw matches RawResult::Flat { records, counts } && records@ == flattened(
            result.deep_view(),
        ) && counts@ == instance_counts(result.deep_view()),
{
    let ghost nested = result.deep_view();
    let mut records: Vec<Landmark> = Vec::new();
    let mut counts: Vec<usize> = Vec::new();
    let mut i: usize = 0;
    proof {
        assert(nested.take(0) =~= Seq::<Seq<Seq<Landmark>>>::empty());
        assert(nested.take(0).flatten() =~= Seq::<Seq<Landmark>>::empty());
    }
    while i < result.len()
        invariant
            i <= result@.len(),
            nested == result.deep_view(),
            records@ == flattened(nested.take(i as int)),
            counts@ == instance_counts(nested).take(i as int),
        decreases result@.len() - i,
    {
        let instances = &result[i];
        assert(instances.deep_view() == nested[i as int]);
        let ghost before = records@;
        let mut j: usize = 0;
        proof {
            assert(nested[i as int].take(0) =~= Seq::<Seq<Landmark>>::empty());
        }
        while j < instances.len()
            invariant
                j <= instances@.len(),
                i < result@.len(),
                nested == result.deep_view(),
                instances.deep_view() == nested[i as int],
                records@ == before + nested[i as int].take(j as int).flatten(),
            decreases instances@.len() - j,
        {
            let instance = &instances[j];
            assert(instance.deep_view() == nested[i as int][j as int]);
            assert(instance.deep_view() =~= instance@);
            let ghost start = records@;
            let mut k: usize = 0;
            while k < instance.len()
                invariant
                    k <= instance@.len(),
                    records@ == start + instance@.take(k as int),
                decreases instance@.len() - k,
            {
                records.push(instance[k]);
                assert(instance@.take(k + 1) =~= instance@.take(k as int).push(
                    instance@[k as int],
                ));
                k += 1;
            }
            proof {
                assert(instance@.take(k as int) =~= instance@);
                let run = nested[i as int];
                assert(run.take(j as int).push(run[j as int]) =~= run.take(j + 1));
                run.take(j as int).lemma_flatten_push(run[j as int]);
            }
            j += 1;
        }
        proof {
            let run = nested[i as int];
            assert(run.take(j as int) =~= run);
            assert(nested.take(i as int).push(run) =~= nested.take(i + 1));
            nested.take(i as int).lemma_flatten_push(run);
            lemma_flatten_concat(nested.take(i as int).flatten(), run);
            assert(instance_counts(nested).take(i as int).push(instances.len())
                =~= instance_counts(nested).take(i + 1));
        }
        counts.push(instances.len());
        i += 1;
    }
    proof {
        assert(nested.take(i as int) =~= nested);
        assert(instance_counts(nested).take(i as int) =~= instance_counts(nested));
    }
    RawResult::Flat { records, counts }
}

} // verus!
