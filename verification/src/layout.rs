//! The layout of the engine's flat result buffer, as mathematics.
//!
//! For a frame the engine returns one run of landmark records and, beside it,
//! one instance count per declared output. The records of the outputs follow
//! each other in declared order; within an output its instances follow each
//! other, each one as many records long as its feature has landmarks.

use vstd::prelude::*;
use vstd::seq_lib::lemma_flatten_concat;
use crate::error::ContractViolation;
use crate::feature::{FeatureType, Output};
use crate::landmark::Landmark;

verus! {

/// A decoded result as mathematics: per output, per instance, the landmarks.
pub type Detections = Seq<Seq<Seq<Landmark>>>;

/// The features of a list of outputs, in declared order. The layout of a
/// result depends on the outputs through these alone.
pub open spec fn kinds_of(outputs: Seq<Output>) -> Seq<FeatureType> {
    Seq::new(outputs.len(), |i: int| outputs[i].type_)
}

/// The number of records that the outputs before the `n`-th take, where
/// `kinds` are the features of the outputs in declared order.
pub open spec fn records_before(kinds: Seq<FeatureType>, counts: Seq<usize>, n: int) -> int
    decreases n,
{
    if n <= 0 {
        0
    } else {
        records_before(kinds, counts, n - 1) + counts[n - 1] * kinds[n - 1].landmark_count()
    }
}

/// The number of records that the counts announce for all outputs together.
pub open spec fn declared_records(kinds: Seq<FeatureType>, counts: Seq<usize>) -> int {
    records_before(kinds, counts, kinds.len() as int)
}

/// Where instance `j` of output `i` starts in the buffer.
pub open spec fn instance_start(kinds: Seq<FeatureType>, counts: Seq<usize>, i: int, j: int) -> int {
    records_before(kinds, counts, i) + j * kinds[i].landmark_count()
}

/// Instance `j` of output `i`: the run of records at its place.
pub open spec fn decoded_instance(
    kinds: Seq<FeatureType>,
    counts: Seq<usize>,
    records: Seq<Landmark>,
    i: int,
    j: int,
) -> Seq<Landmark> {
    records.subrange(
        instance_start(kinds, counts, i, j),
        instance_start(kinds, counts, i, j) + kinds[i].landmark_count(),
    )
}

/// The instances of output `i`, as many as its count says.
pub open spec fn decoded_output(
    kinds: Seq<FeatureType>,
    counts: Seq<usize>,
    records: Seq<Landmark>,
    i: int,
) -> Seq<Seq<Landmark>> {
    Seq::new(counts[i] as nat, |j: int| decoded_instance(kinds, counts, records, i, j))
}

/// The nested result that a buffer and its counts stand for: one entry per
/// declared output, in declared order.
pub open spec fn decoded(kinds: Seq<FeatureType>, counts: Seq<usize>, records: Seq<Landmark>)
    -> Detections {
    Seq::new(kinds.len(), |i: int| decoded_output(kinds, counts, records, i))
}

/// The result that says "nothing detected" for each of `n` outputs.
pub open spec fn no_detections(n: nat) -> Detections {
    Seq::new(n, |i: int| Seq::<Seq<Landmark>>::empty())
}

/// What is wrong with a buffer of `len` records and its counts, if anything.
pub open spec fn violation(kinds: Seq<FeatureType>, counts: Seq<usize>, len: nat) -> Option<
    ContractViolation,
> {
    if counts.len() != kinds.len() {
        Some(ContractViolation::OutputCount)
    } else if declared_records(kinds, counts) > len {
        Some(ContractViolation::Truncated)
    } else if declared_records(kinds, counts) < len {
        Some(ContractViolation::Trailing)
    } else {
        None
    }
}

/// A nested result has the shape that the outputs declare: one entry per
/// output, and in it every instance as long as the output's feature says.
pub open spec fn shaped(kinds: Seq<FeatureType>, result: Detections) -> bool {
    &&& result.len() == kinds.len()
    &&& forall|i: int, j: int|
        0 <= i < result.len() && 0 <= j < result[i].len() ==> #[trigger] result[i][j].len()
            == kinds[i].landmark_count()
}

/// The records before an output never outnumber those before a later one.
pub proof fn lemma_records_before_monotonic(
    kinds: Seq<FeatureType>,
    counts: Seq<usize>,
    n: int,
    m: int,
)
    requires
        n <= m,
    ensures
        0 <= records_before(kinds, counts, n) <= records_before(kinds, counts, m),
    decreases m - n,
{
    if n < m {
        lemma_records_before_monotonic(kinds, counts, n, m - 1);
        assert(0 <= counts[m - 1] * kinds[m - 1].landmark_count()) by (nonlinear_arith);
    } else {
        lemma_records_before_nonnegative(kinds, counts, n);
    }
}

/// A run of outputs never takes a negative number of records.
pub proof fn lemma_records_before_nonnegative(kinds: Seq<FeatureType>, counts: Seq<usize>, n: int)
    ensures
        0 <= records_before(kinds, counts, n),
    decreases n,
{
    if n > 0 {
        lemma_records_before_nonnegative(kinds, counts, n - 1);
        assert(0 <= counts[n - 1] * kinds[n - 1].landmark_count()) by (nonlinear_arith);
    }
}

/// Instance `j` of output `i` ends where the next instance, or the next
/// output, starts.
pub proof fn lemma_instance_within(kinds: Seq<FeatureType>, counts: Seq<usize>, i: int, j: int)
    requires
        0 <= i < kinds.len(),
        0 <= j < counts[i],
    ensures
        0 <= instance_start(kinds, counts, i, j),
        instance_start(kinds, counts, i, j) + kinds[i].landmark_count() <= records_before(
            kinds,
            counts,
            i + 1,
        ) <= declared_records(kinds, counts),
{
    let size = kinds[i].landmark_count();
    lemma_records_before_nonnegative(kinds, counts, i);
    lemma_records_before_monotonic(kinds, counts, i + 1, kinds.len() as int);
    assert(0 <= j * size && j * size + size <= counts[i] * size) by (nonlinear_arith)
        requires
            0 <= j < counts[i],
            0 <= size,
    ;
}

/// What a buffer decodes to has the declared shape, provided that the buffer
/// is as long as its counts announce: one entry per output, as many
/// instances in it as its count says, and each instance as long as its
/// feature has landmarks.
pub proof fn lemma_decoded_shaped(kinds: Seq<FeatureType>, counts: Seq<usize>, records: Seq<Landmark>)
    requires
        violation(kinds, counts, records.len()) is None,
    ensures
        shaped(kinds, decoded(kinds, counts, records)),
        forall|i: int|
            0 <= i < kinds.len() ==> (#[trigger] decoded(kinds, counts, records)[i]).len()
                == counts[i],
{
    let result = decoded(kinds, counts, records);
    assert forall|i: int, j: int| 0 <= i < result.len() && 0 <= j < result[i].len() implies (
    #[trigger] result[i][j]).len() == kinds[i].landmark_count() by {
        lemma_instance_within(kinds, counts, i, j);
    }
}

/// The flat buffer of a nested result: the landmarks of all instances of all
/// outputs, one after the other.
pub open spec fn flattened(result: Detections) -> Seq<Landmark> {
    result.flatten().flatten()
}

/// The instance counts that go with the flat buffer of a nested result.
pub open spec fn instance_counts(result: Detections) -> Seq<usize> {
    Seq::new(result.len(), |i: int| result[i].len() as usize)
}

/// Every output of a nested result has a number of instances that a count can
/// hold.
pub open spec fn countable(result: Detections) -> bool {
    forall|i: int| 0 <= i < result.len() ==> (#[trigger] result[i]).len() <= usize::MAX
}

/// Instances of one size, laid end to end, are found again by cutting the run
/// at multiples of that size.
pub proof fn lemma_flatten_uniform(instances: Seq<Seq<Landmark>>, size: nat)
    requires
        forall|j: int| 0 <= j < instances.len() ==> (#[trigger] instances[j]).len() == size,
    ensures
        instances.flatten().len() == instances.len() * size,
        forall|j: int|
            0 <= j < instances.len() ==> instances.flatten().subrange(j * size, j * size + size)
                == #[trigger] instances[j],
    decreases instances.len(),
{
    if instances.len() > 0 {
        let init = instances.drop_last();
        let last = instances.last();
        lemma_flatten_uniform(init, size);
        init.lemma_flatten_push(last);
        assert(init.push(last) =~= instances);
        assert(init.len() * size + size == instances.len() * size) by (nonlinear_arith)
            requires
                init.len() + 1 == instances.len(),
        ;
        assert forall|j: int| 0 <= j < instances.len() implies instances.flatten().subrange(
            j * size,
            j * size + size,
        ) == #[trigger] instances[j] by {
            if j < init.len() {
                assert(j * size + size <= init.len() * size && 0 <= j * size)
                    by (nonlinear_arith)
                    requires
                        0 <= j < init.len(),
                ;
                assert(instances.flatten().subrange(j * size, j * size + size)
                    =~= init.flatten().subrange(j * size, j * size + size));
                assert(init[j] == instances[j]);
            } else {
                assert(j * size == init.len() * size) by (nonlinear_arith)
                    requires
                        j == init.len(),
                ;
                assert(instances.flatten().subrange(j * size, j * size + size) =~= last);
            }
        }
    } else {
        assert(instances.len() * size == 0) by (nonlinear_arith)
            requires
                instances.len() == 0,
        ;
    }
}

/// In the flat buffer of the first `n` outputs of a shaped result, every
/// instance lies where the layout says.
pub proof fn lemma_flattened_prefix(kinds: Seq<FeatureType>, result: Detections, n: int)
    requires
        shaped(kinds, result),
        countable(result),
        0 <= n <= result.len(),
    ensures
        flattened(result.take(n)).len() == records_before(kinds, instance_counts(result), n),
        forall|i: int, j: int|
            0 <= i < n && 0 <= j < result[i].len() ==> flattened(result.take(n)).subrange(
                instance_start(kinds, instance_counts(result), i, j),
                instance_start(kinds, instance_counts(result), i, j) + kinds[i].landmark_count(),
            ) == #[trigger] result[i][j],
    decreases n,
{
    let counts = instance_counts(result);
    if n == 0 {
        assert(result.take(0) =~= Seq::<Seq<Seq<Landmark>>>::empty());
        assert(result.take(0).flatten() =~= Seq::<Seq<Landmark>>::empty());
    } else {
        let m = n - 1;
        let size = kinds[m].landmark_count();
        let before = flattened(result.take(m));
        let run = result[m].flatten();
        lemma_flattened_prefix(kinds, result, m);
        assert(result.take(m).push(result[m]) =~= result.take(n));
        result.take(m).lemma_flatten_push(result[m]);
        lemma_flatten_concat(result.take(m).flatten(), result[m]);
        assert(flattened(result.take(n)) =~= before + run);
        assert forall|j: int| 0 <= j < result[m].len() implies (#[trigger] result[m][j]).len()
            == size by {}
        lemma_flatten_uniform(result[m], size);
        assert(counts[m] == result[m].len());
        assert forall|i: int, j: int| 0 <= i < n && 0 <= j < result[i].len() implies flattened(
            result.take(n),
        ).subrange(
            instance_start(kinds, counts, i, j),
            instance_start(kinds, counts, i, j) + kinds[i].landmark_count(),
        ) == #[trigger] result[i][j] by {
            let start = instance_start(kinds, counts, i, j);
            let width = kinds[i].landmark_count();
            lemma_records_before_nonnegative(kinds, counts, i);
            assert(counts[i] == result[i].len());
            assert(0 <= j * width && j * width + width <= counts[i] * width)
                by (nonlinear_arith)
                requires
                    0 <= j < counts[i],
            ;
            if i < m {
                lemma_records_before_monotonic(kinds, counts, i + 1, m);
                assert(flattened(result.take(n)).subrange(start, start + width)
                    =~= before.subrange(start, start + width));
            } else {
                assert(flattened(result.take(n)).subrange(start, start + width) =~= run.subrange(
                    j * size,
                    j * size + size,
                ));
            }
        }
    }
}

/// Round trip: the flat buffer of a shaped result, with the counts that go
/// with it, violates nothing and decodes to that same result, landmark for
/// landmark and in the same nested order.
pub proof fn lemma_decode_flattened(kinds: Seq<FeatureType>, result: Detections)
    requires
        shaped(kinds, result),
        countable(result),
    ensures
        violation(kinds, instance_counts(result), flattened(result).len()) is None,
        decoded(kinds, instance_counts(result), flattened(result)) == result,
{
    let counts = instance_counts(result);
    lemma_flattened_prefix(kinds, result, result.len() as int);
    assert(result.take(result.len() as int) =~= result);
    assert(decoded(kinds, counts, flattened(result)) =~~= result);
}

/// A run of records cut into pieces of one size, the pieces laid end to end
/// again, is the run.
pub proof fn lemma_flatten_pieces(records: Seq<Landmark>, start: int, count: nat, size: nat)
    requires
        0 <= start,
        start + count * size <= records.len(),
    ensures
        Seq::new(count, |j: int| records.subrange(start + j * size, start + j * size + size))
            .flatten() == records.subrange(start, start + count * size),
    decreases count,
{
    let pieces = Seq::new(
        count,
        |j: int| records.subrange(start + j * size, start + j * size + size),
    );
    if count == 0 {
        assert(count * size == 0) by (nonlinear_arith)
            requires
                count == 0,
        ;
        assert(pieces.flatten() =~= records.subrange(start, start + count * size));
    } else {
        let fewer = (count - 1) as nat;
        let init = Seq::new(
            fewer,
            |j: int| records.subrange(start + j * size, start + j * size + size),
        );
        assert(fewer * size + size == count * size && 0 <= fewer * size) by (nonlinear_arith)
            requires
                fewer + 1 == count,
        ;
        lemma_flatten_pieces(records, start, fewer, size);
        let last = records.subrange(start + fewer * size, start + fewer * size + size);
        assert(init.push(last) =~= pieces);
        init.lemma_flatten_push(last);
        assert(pieces.flatten() =~= records.subrange(start, start + count * size));
    }
}

/// What the first `n` outputs decode to, flattened, is the part of the
/// buffer that they take.
pub proof fn lemma_flattened_decoded_prefix(
    kinds: Seq<FeatureType>,
    counts: Seq<usize>,
    records: Seq<Landmark>,
    n: int,
)
    requires
        violation(kinds, counts, records.len()) is None,
        0 <= n <= kinds.len(),
    ensures
        flattened(decoded(kinds, counts, records).take(n)) == records.subrange(
            0,
            records_before(kinds, counts, n),
        ),
    decreases n,
{
    let result = decoded(kinds, counts, records);
    lemma_records_before_monotonic(kinds, counts, n, kinds.len() as int);
    if n == 0 {
        assert(result.take(0) =~= Seq::<Seq<Seq<Landmark>>>::empty());
        assert(result.take(0).flatten() =~= Seq::<Seq<Landmark>>::empty());
        assert(flattened(result.take(0)) =~= records.subrange(0, 0));
    } else {
        let m = n - 1;
        let size = kinds[m].landmark_count();
        let start = records_before(kinds, counts, m);
        lemma_flattened_decoded_prefix(kinds, counts, records, m);
        lemma_records_before_nonnegative(kinds, counts, m);
        assert(result.take(m).push(result[m]) =~= result.take(n));
        result.take(m).lemma_flatten_push(result[m]);
        lemma_flatten_concat(result.take(m).flatten(), result[m]);
        lemma_flatten_pieces(records, start, counts[m] as nat, size);
        assert(result[m] =~= Seq::new(
            counts[m] as nat,
            |j: int| records.subrange(start + j * size, start + j * size + size),
        ));
        assert(flattened(result.take(n)) =~= records.subrange(
            0,
            records_before(kinds, counts, n),
        ));
    }
}

/// Nothing is lost and nothing is read twice: a buffer that is as long as
/// its counts announce is, record for record, the flat buffer of what it
/// decodes to, and its counts are the instance counts of that result.
pub proof fn lemma_flattened_decoded(
    kinds: Seq<FeatureType>,
    counts: Seq<usize>,
    records: Seq<Landmark>,
)
    requires
        violation(kinds, counts, records.len()) is None,
    ensures
        flattened(decoded(kinds, counts, records)) == records,
        instance_counts(decoded(kinds, counts, records)) == counts,
{
    let result = decoded(kinds, counts, records);
    lemma_flattened_decoded_prefix(kinds, counts, records, kinds.len() as int);
    assert(result.take(kinds.len() as int) =~= result);
    assert(records.subrange(0, records.len() as int) =~= records);
    assert(instance_counts(result) =~= counts);
}

} // verus!
