use mediapipe::decode::encode;
use mediapipe::{
    ConfigurationError, ContractViolation, Detector, FeatureType, Landmark, Output, RawResult,
};

fn out(kind: FeatureType, name: &str) -> Output {
    Output::new(kind, name.to_string())
}

fn run(from: u32, len: usize) -> Vec<Landmark> {
    (0..len as u32).map(|k| Landmark::from_bits(from + k, 1, 2, 3, 4)).collect()
}

fn three() -> Vec<Output> {
    vec![
        out(FeatureType::Hand, "left"),
        out(FeatureType::Face, "face"),
        out(FeatureType::Pose, "pose"),
    ]
}

#[test]
fn create_records_the_outputs_in_declared_order() {
    let outputs = three();
    let detector = Detector::new("node { }", outputs.clone(), 0x1000).unwrap();
    assert_eq!(detector.outputs(), &outputs);
    assert_eq!(detector.outputs()[0].name(), "left");
    assert_eq!(detector.outputs()[2].feature_type(), FeatureType::Pose);
    assert_eq!(detector.handle(), 0x1000);
}

#[test]
fn create_with_one_output_succeeds() {
    let outputs = vec![out(FeatureType::Poses, "multi_pose_landmarks")];
    let detector = Detector::new("", outputs.clone(), 1).unwrap();
    assert_eq!(detector.outputs(), &outputs);
}

#[test]
fn create_without_outputs_fails() {
    assert_eq!(Detector::new("node { }", vec![], 0x1000), Err(ConfigurationError::NoOutputs));
    assert_eq!(Detector::validate("node { }", &vec![]), Err(ConfigurationError::NoOutputs));
}

#[test]
fn create_with_too_many_outputs_fails() {
    let outputs: Vec<Output> = (0..256).map(|_| out(FeatureType::Hand, "h")).collect();
    assert_eq!(
        Detector::new("node { }", outputs.clone(), 0x1000),
        Err(ConfigurationError::TooManyOutputs)
    );
    let outputs: Vec<Output> = outputs.into_iter().take(255).collect();
    assert!(Detector::new("node { }", outputs, 0x1000).is_ok());
}

#[test]
fn create_with_a_zero_byte_fails() {
    assert_eq!(
        Detector::new("node\0{ }", three(), 0x1000),
        Err(ConfigurationError::InteriorNul)
    );
    let outputs = vec![out(FeatureType::Hand, "left"), out(FeatureType::Hand, "ri\0ght")];
    assert_eq!(Detector::new("node { }", outputs.clone(), 0x1000), Err(ConfigurationError::InteriorNul));
    assert_eq!(Detector::validate("node { }", &outputs), Err(ConfigurationError::InteriorNul));
}

#[test]
fn create_takes_text_that_is_not_ascii() {
    let outputs = vec![out(FeatureType::Hand, "señal")];
    assert!(Detector::new("# größe\nnode { }", outputs, 0x1000).is_ok());
}

#[test]
fn create_that_the_engine_rejected_fails() {
    assert_eq!(Detector::new("node { }", three(), 0), Err(ConfigurationError::EngineRejected));
    assert_eq!(Detector::validate("node { }", &three()), Ok(()));
}

#[test]
fn no_outputs_is_reported_before_the_engine() {
    assert_eq!(Detector::new("\0", vec![], 0), Err(ConfigurationError::NoOutputs));
    assert_eq!(Detector::new("\0", three(), 0), Err(ConfigurationError::InteriorNul));
}

#[test]
fn null_result_is_all_empty() {
    let mut detector = Detector::new("node { }", three(), 0x1000).unwrap();
    let result = detector.process(&RawResult::Null).unwrap();
    let expected: Vec<Vec<Vec<Landmark>>> = vec![vec![], vec![], vec![]];
    assert_eq!(result, expected);
}

#[test]
fn stub_with_counts_zero_gives_one_empty_list() {
    let mut detector =
        Detector::new("node { }", vec![out(FeatureType::Hands, "hand_landmarks")], 7).unwrap();
    let raw = RawResult::Flat { records: vec![], counts: vec![0] };
    let result = detector.process(&raw).unwrap();
    let expected: Vec<Vec<Vec<Landmark>>> = vec![vec![]];
    assert_eq!(result, expected);
}

#[test]
fn process_slices_per_output() {
    let mut detector = Detector::new("node { }", three(), 0x1000).unwrap();
    let records = run(0, 2 * 21 + 33);
    let raw = RawResult::Flat { records: records.clone(), counts: vec![2, 0, 1] };
    let result = detector.process(&raw).unwrap();
    assert_eq!(result[0], vec![records[0..21].to_vec(), records[21..42].to_vec()]);
    assert!(result[1].is_empty());
    assert_eq!(result[2], vec![records[42..].to_vec()]);
}

#[test]
fn process_reports_a_short_buffer() {
    let mut detector = Detector::new("node { }", three(), 0x1000).unwrap();
    let raw = RawResult::Flat { records: run(0, 74), counts: vec![2, 0, 1] };
    assert_eq!(detector.process(&raw), Err(ContractViolation::Truncated));
    let raw = RawResult::Flat { records: run(0, 76), counts: vec![2, 0, 1] };
    assert_eq!(detector.process(&raw), Err(ContractViolation::Trailing));
    let raw = RawResult::Flat { records: run(0, 75), counts: vec![2, 1] };
    assert_eq!(detector.process(&raw), Err(ContractViolation::OutputCount));
}

#[test]
fn two_frames_on_one_handle_then_one_destroy() {
    let outputs = three();
    let mut detector = Detector::new("node { }", outputs.clone(), 0xbeef).unwrap();
    let first = RawResult::Flat { records: run(0, 33), counts: vec![0, 0, 1] };
    let second = RawResult::Flat { records: run(50, 21), counts: vec![1, 0, 0] };
    let a = detector.process(&first).unwrap();
    assert_eq!(detector.handle(), 0xbeef);
    assert_eq!(detector.outputs(), &outputs);
    let b = detector.process(&second).unwrap();
    assert_eq!(detector.handle(), 0xbeef);
    assert_eq!(detector.outputs(), &outputs);
    assert_eq!(a[2][0], run(0, 33));
    assert_eq!(b[0][0], run(50, 21));
    assert_eq!(detector.destroy(), 0xbeef);
}

#[test]
fn a_violation_leaves_the_handle_usable() {
    let mut detector = Detector::new("node { }", three(), 3).unwrap();
    let bad = RawResult::Flat { records: vec![], counts: vec![1, 0, 0] };
    assert_eq!(detector.process(&bad), Err(ContractViolation::Truncated));
    assert!(detector.process(&RawResult::Null).is_ok());
    assert_eq!(detector.destroy(), 3);
}

#[test]
fn expected_records_follows_the_declaration() {
    let detector = Detector::new("node { }", three(), 0x1000).unwrap();
    assert_eq!(detector.expected_records(&[2, 0, 1]), Some(75));
    assert_eq!(detector.expected_records(&[0, 1, 0]), Some(478));
    assert_eq!(detector.expected_records(&[0, 1]), None);
    assert_eq!(detector.expected_records(&[0, usize::MAX, 0]), None);
}

#[test]
fn process_undoes_encode() {
    let mut detector = Detector::new("node { }", three(), 0x1000).unwrap();
    let nested = vec![vec![run(1, 21)], vec![run(2, 478), run(3, 478)], vec![]];
    let raw = encode(&nested);
    assert_eq!(detector.process(&raw).unwrap(), nested);
}
