use mediapipe::decode::{decode, encode, expected_records};
use mediapipe::{ContractViolation, FeatureType, Landmark, Output, RawResult};

fn mark(seed: u32) -> Landmark {
    Landmark::from_bits(seed, seed + 1, seed + 2, seed + 3, seed + 4)
}

fn run(from: u32, len: usize) -> Vec<Landmark> {
    (0..len as u32).map(|k| mark(from + 10 * k)).collect()
}

fn out(kind: FeatureType, name: &str) -> Output {
    Output::new(kind, name.to_string())
}

#[test]
fn zero_count_gives_one_empty_list() {
    let outputs = vec![out(FeatureType::Pose, "pose_landmarks")];
    let result = decode(&outputs, &[], &[0]).unwrap();
    assert_eq!(result.len(), 1);
    assert!(result[0].is_empty());
    let expected: Vec<Vec<Vec<Landmark>>> = vec![vec![]];
    assert_eq!(result, expected);
}

#[test]
fn counts_two_zero_one_are_sliced_in_declared_order() {
    let outputs = vec![
        out(FeatureType::Hand, "a"),
        out(FeatureType::Face, "b"),
        out(FeatureType::Pose, "c"),
    ];
    let records = run(0, 2 * 21 + 33);
    let result = decode(&outputs, &records, &[2, 0, 1]).unwrap();
    assert_eq!(result.len(), 3);
    assert_eq!(result[0].len(), 2);
    assert_eq!(result[0][0], records[0..21].to_vec());
    assert_eq!(result[0][1], records[21..42].to_vec());
    assert!(result[1].is_empty());
    assert_eq!(result[2].len(), 1);
    assert_eq!(result[2][0], records[42..75].to_vec());
    let consumed: usize = result.iter().flatten().map(|instance| instance.len()).sum();
    assert_eq!(consumed, records.len());
}

#[test]
fn short_buffer_is_a_violation() {
    let outputs = vec![
        out(FeatureType::Hand, "a"),
        out(FeatureType::Face, "b"),
        out(FeatureType::Pose, "c"),
    ];
    let records = run(0, 2 * 21 + 33 - 1);
    assert_eq!(decode(&outputs, &records, &[2, 0, 1]), Err(ContractViolation::Truncated));
    assert_eq!(decode(&outputs, &[], &[2, 0, 1]), Err(ContractViolation::Truncated));
}

#[test]
fn short_buffer_is_seen_at_the_first_output() {
    let outputs = vec![out(FeatureType::Hand, "a"), out(FeatureType::Pose, "c")];
    let records = run(0, 20);
    assert_eq!(decode(&outputs, &records, &[1, 0]), Err(ContractViolation::Truncated));
}

#[test]
fn long_buffer_is_a_violation() {
    let outputs = vec![out(FeatureType::Hand, "a")];
    let records = run(0, 22);
    assert_eq!(decode(&outputs, &records, &[1]), Err(ContractViolation::Trailing));
    assert_eq!(decode(&outputs, &records[..1], &[0]), Err(ContractViolation::Trailing));
}

#[test]
fn wrong_number_of_counts_is_a_violation() {
    let outputs = vec![out(FeatureType::Hand, "a"), out(FeatureType::Pose, "c")];
    assert_eq!(decode(&outputs, &[], &[0]), Err(ContractViolation::OutputCount));
    assert_eq!(decode(&outputs, &[], &[0, 0, 0]), Err(ContractViolation::OutputCount));
    assert_eq!(decode(&outputs, &[], &[]), Err(ContractViolation::OutputCount));
}

#[test]
fn count_that_overflows_is_truncated() {
    let outputs = vec![out(FeatureType::Faces, "a")];
    let records = run(0, 478);
    assert_eq!(decode(&outputs, &records, &[usize::MAX]), Err(ContractViolation::Truncated));
    assert_eq!(
        decode(&outputs, &records, &[usize::MAX / 478 + 1]),
        Err(ContractViolation::Truncated)
    );
}

#[test]
fn no_outputs_and_no_records_decode_to_nothing() {
    let outputs: Vec<Output> = vec![];
    let result = decode(&outputs, &[], &[]).unwrap();
    assert!(result.is_empty());
}

#[test]
fn round_trip_keeps_every_value_and_the_order() {
    let outputs = vec![out(FeatureType::Hands, "hands"), out(FeatureType::Pose, "pose")];
    let floats = [0.0f32, -0.0, 1.5, -2.25, f32::MIN_POSITIVE, f32::MAX, f32::INFINITY, 0.1];
    let mut nested: Vec<Vec<Vec<Landmark>>> = vec![vec![], vec![]];
    let mut n = 0usize;
    for _ in 0..3 {
        let mut instance = vec![];
        for _ in 0..42 {
            let f = |k: usize| floats[(n + k) % floats.len()].to_bits();
            instance.push(Landmark::from_bits(f(0), f(1), f(2), f(3), f(4)));
            n += 1;
        }
        nested[0].push(instance);
    }
    nested[1].push(run(7, 33));
    let raw = encode(&nested);
    let (records, counts) = match &raw {
        RawResult::Flat { records, counts } => (records.clone(), counts.clone()),
        RawResult::Null => panic!("a flat result was expected"),
    };
    assert_eq!(counts, vec![3, 1]);
    assert_eq!(records.len(), 3 * 42 + 33);
    assert_eq!(records[0], nested[0][0][0]);
    assert_eq!(records[42], nested[0][1][0]);
    assert_eq!(records[3 * 42 + 32], nested[1][0][32]);
    let decoded = decode(&outputs, &records, &counts).unwrap();
    assert_eq!(decoded, nested);
    assert_eq!(f32::from_bits(decoded[0][0][2].x), 1.5);
    assert_eq!(f32::from_bits(decoded[0][0][2].y), -2.25);
    assert_eq!(decoded[0][0][1].x, (-0.0f32).to_bits());
    assert_ne!(decoded[0][0][1].x, 0.0f32.to_bits());
}

#[test]
fn round_trip_of_a_nan_keeps_its_bits() {
    let outputs = vec![out(FeatureType::Hand, "hand")];
    let nan = 0x7fc0_1234u32;
    let instance: Vec<Landmark> = (0..21).map(|_| Landmark::from_bits(nan, 0, 0, 0, nan)).collect();
    let nested = vec![vec![instance]];
    match encode(&nested) {
        RawResult::Flat { records, counts } => {
            let decoded = decode(&outputs, &records, &counts).unwrap();
            assert_eq!(decoded, nested);
            assert_eq!(decoded[0][0][20].presence, nan);
        },
        RawResult::Null => panic!("a flat result was expected"),
    }
}

#[test]
fn encode_of_nothing_is_all_zero_counts() {
    let nested: Vec<Vec<Vec<Landmark>>> = vec![vec![], vec![], vec![]];
    assert_eq!(encode(&nested), RawResult::Flat { records: vec![], counts: vec![0, 0, 0] });
}

#[test]
fn decode_then_encode_gives_the_buffer_back() {
    let outputs = vec![out(FeatureType::Pose, "pose"), out(FeatureType::Hand, "hand")];
    let records = run(100, 33 + 2 * 21);
    let counts = vec![1usize, 2];
    let decoded = decode(&outputs, &records, &counts).unwrap();
    assert_eq!(encode(&decoded), RawResult::Flat { records, counts });
}

#[test]
fn expected_records_is_the_sum_of_count_times_size() {
    let outputs = vec![
        out(FeatureType::Hand, "a"),
        out(FeatureType::Face, "b"),
        out(FeatureType::Pose, "c"),
        out(FeatureType::Hands, "d"),
    ];
    assert_eq!(expected_records(&outputs, &[2, 0, 1, 0]), Some(75));
    assert_eq!(expected_records(&outputs, &[0, 0, 0, 0]), Some(0));
    assert_eq!(expected_records(&outputs, &[1, 1, 1, 1]), Some(21 + 478 + 33 + 42));
    assert_eq!(expected_records(&outputs, &[0, 3, 0, 2]), Some(3 * 478 + 84));
}

#[test]
fn expected_records_needs_one_count_per_output() {
    let outputs = vec![out(FeatureType::Hand, "a"), out(FeatureType::Face, "b")];
    assert_eq!(expected_records(&outputs, &[1]), None);
    assert_eq!(expected_records(&outputs, &[1, 1, 1]), None);
}

#[test]
fn expected_records_that_cannot_be_held_is_none() {
    let outputs = vec![out(FeatureType::Hand, "a"), out(FeatureType::Hand, "b")];
    assert_eq!(expected_records(&outputs, &[usize::MAX, 0]), None);
    let half = usize::MAX / 21;
    assert_eq!(expected_records(&outputs, &[half, 0]), Some(half * 21));
    assert_eq!(expected_records(&outputs, &[half, 1]), None);
}
