use mediapipe::{FeatureType, Landmark, Output};

const ALL: [FeatureType; 6] = [
    FeatureType::Face,
    FeatureType::Faces,
    FeatureType::Hand,
    FeatureType::Hands,
    FeatureType::Pose,
    FeatureType::Poses,
];

#[test]
fn landmark_counts_are_the_table() {
    assert_eq!(FeatureType::Face.num_landmarks(), 478);
    assert_eq!(FeatureType::Faces.num_landmarks(), 478);
    assert_eq!(FeatureType::Hand.num_landmarks(), 21);
    assert_eq!(FeatureType::Hands.num_landmarks(), 42);
    assert_eq!(FeatureType::Pose.num_landmarks(), 33);
    assert_eq!(FeatureType::Poses.num_landmarks(), 33);
}

#[test]
fn every_feature_comes_back_from_its_native_code() {
    for kind in ALL {
        assert_eq!(FeatureType::from_native(kind.to_native()), Some(kind));
    }
}

#[test]
fn native_codes_are_distinct_and_dense() {
    let codes: Vec<u32> = ALL.iter().map(|kind| kind.to_native()).collect();
    assert_eq!(codes, vec![0, 1, 2, 3, 4, 5]);
}

#[test]
fn unknown_native_code_is_no_feature() {
    assert_eq!(FeatureType::from_native(6), None);
    assert_eq!(FeatureType::from_native(u32::MAX), None);
}

#[test]
fn output_keeps_kind_and_name() {
    let output = Output::new(FeatureType::Hands, "hand_landmarks".to_string());
    assert_eq!(output.feature_type(), FeatureType::Hands);
    assert_eq!(output.name(), "hand_landmarks");
    assert_eq!(output.type_, FeatureType::Hands);
    assert_eq!(output.name, "hand_landmarks");
}

#[test]
fn default_landmark_is_all_zero() {
    let l = Landmark::default();
    assert_eq!(l, Landmark::from_bits(0, 0, 0, 0, 0));
    assert_eq!(f32::from_bits(l.x), 0.0);
    assert_eq!(f32::from_bits(l.presence), 0.0);
}

#[test]
fn landmark_keeps_its_bits() {
    let l = Landmark::from_bits(1.0f32.to_bits(), 2.0f32.to_bits(), 3.0f32.to_bits(), 4, 5);
    assert_eq!(f32::from_bits(l.x), 1.0);
    assert_eq!(f32::from_bits(l.y), 2.0);
    assert_eq!(f32::from_bits(l.z), 3.0);
    assert_eq!(l.visibility, 4);
    assert_eq!(l.presence, 5);
}
