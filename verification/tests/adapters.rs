use mediapipe::decode::encode;
use mediapipe::face_mesh::FaceMeshDetector;
use mediapipe::hands::{HandDetector, HandLandmark, HandVisualizer, NUM_HAND_LANDMARKS};
use mediapipe::holistic::{HolisticDetector, MultiPersonHolisticDetector};
use mediapipe::pose::{PoseDetector, PoseLandmark};
use mediapipe::segmentation::Segmentor;
use mediapipe::{
    ConfigurationError, ContractViolation, Detector, FaceMesh, FeatureType, Frame, Hand, Landmark,
    Pose, RawResult,
};

fn run(from: u32, len: usize) -> Vec<Landmark> {
    (0..len as u32).map(|k| Landmark::from_bits(from + k, 1, 2, 3, 4)).collect()
}

fn names(outputs: &[mediapipe::Output]) -> Vec<&str> {
    outputs.iter().map(|o| o.name()).collect()
}

fn kinds(outputs: &[mediapipe::Output]) -> Vec<FeatureType> {
    outputs.iter().map(|o| o.feature_type()).collect()
}

#[test]
fn pose_landmark_indices() {
    assert_eq!(PoseLandmark::NOSE.index(), 0);
    assert_eq!(PoseLandmark::LEFT_EYE_INNER.index(), 1);
    assert_eq!(PoseLandmark::MOUTH_RIGHT.index(), 10);
    assert_eq!(PoseLandmark::LEFT_SHOULDER.index(), 11);
    assert_eq!(PoseLandmark::RIGHT_WRIST.index(), 16);
    assert_eq!(PoseLandmark::LEFT_HIP.index(), 23);
    assert_eq!(PoseLandmark::RIGHT_HEEL.index(), 30);
    assert_eq!(PoseLandmark::RIGHT_FOOT_INDEX.index(), 32);
    assert_eq!(PoseLandmark::NOSE as usize, 0);
    assert_eq!(PoseLandmark::RIGHT_FOOT_INDEX as usize, 32);
    for i in 0..33 {
        let landmark = PoseLandmark::from_index(i).unwrap();
        assert_eq!(landmark.index(), i);
        assert_eq!(landmark as usize, i);
    }
    assert_eq!(PoseLandmark::from_index(33), None);
}

#[test]
fn hand_landmark_indices() {
    assert_eq!(NUM_HAND_LANDMARKS, 21);
    assert_eq!(HandLandmark::WRIST.index(), 0);
    assert_eq!(HandLandmark::THUMB_TIP.index(), 4);
    assert_eq!(HandLandmark::INDEX_FINGER_TIP.index(), 8);
    assert_eq!(HandLandmark::MIDDLE_FINGER_MCP.index(), 9);
    assert_eq!(HandLandmark::RING_FINGER_TIP.index(), 16);
    assert_eq!(HandLandmark::PINKY_TIP.index(), 20);
    assert_eq!(HandLandmark::PINKY_TIP as usize, 20);
    for i in 0..21 {
        let landmark = HandLandmark::from_index(i).unwrap();
        assert_eq!(landmark.index(), i);
        assert_eq!(landmark as usize, i);
    }
    assert_eq!(HandLandmark::from_index(21), None);
}

#[test]
fn containers_take_runs_of_their_own_length_only() {
    let pose = Pose::from_landmarks(&run(5, 33)).unwrap();
    assert_eq!(pose.data.to_vec(), run(5, 33));
    assert_eq!(pose.data[PoseLandmark::LEFT_KNEE.index()], run(5, 33)[25]);
    assert!(Pose::from_landmarks(&run(5, 32)).is_none());
    assert!(Pose::from_landmarks(&run(5, 34)).is_none());
    let hand = Hand::from_landmarks(&run(9, 21)).unwrap();
    assert_eq!(hand.data.to_vec(), run(9, 21));
    assert!(Hand::from_landmarks(&run(9, 42)).is_none());
    assert!(Hand::from_landmarks(&[]).is_none());
    let face = FaceMesh::from_landmarks(&run(1, 478)).unwrap();
    assert_eq!(face.data.to_vec(), run(1, 478));
    assert!(FaceMesh::from_landmarks(&run(1, 477)).is_none());
}

#[test]
fn default_containers_are_all_zero() {
    assert_eq!(Pose::default().data.to_vec(), vec![Landmark::default(); 33]);
    assert_eq!(Hand::default().data.to_vec(), vec![Landmark::default(); 21]);
    assert_eq!(FaceMesh::default().data.to_vec(), vec![Landmark::default(); 478]);
}

#[test]
fn declared_outputs_of_the_detectors() {
    assert_eq!(names(&PoseDetector::outputs()), vec!["pose_landmarks"]);
    assert_eq!(kinds(&PoseDetector::outputs()), vec![FeatureType::Pose]);
    assert_eq!(names(&HandDetector::outputs()), vec!["hand_landmarks"]);
    assert_eq!(kinds(&HandDetector::outputs()), vec![FeatureType::Hands]);
    assert_eq!(names(&FaceMeshDetector::outputs()), vec!["multi_face_landmarks"]);
    assert_eq!(kinds(&FaceMeshDetector::outputs()), vec![FeatureType::Faces]);
    assert_eq!(
        names(&HolisticDetector::outputs()),
        vec!["pose_landmarks", "face_landmarks", "left_hand_landmarks", "right_hand_landmarks"]
    );
    assert_eq!(
        kinds(&HolisticDetector::outputs()),
        vec![FeatureType::Pose, FeatureType::Face, FeatureType::Hand, FeatureType::Hand]
    );
    assert_eq!(
        names(&MultiPersonHolisticDetector::outputs()),
        vec![
            "multi_pose_landmarks",
            "multi_face_landmarks",
            "multi_left_hand_landmarks",
            "multi_right_hand_landmarks"
        ]
    );
    assert_eq!(
        kinds(&MultiPersonHolisticDetector::outputs()),
        vec![FeatureType::Poses, FeatureType::Faces, FeatureType::Hands, FeatureType::Hands]
    );
    assert_eq!(Detector::validate("graph", &HolisticDetector::outputs()), Ok(()));
}

#[test]
fn detectors_are_made_of_a_graph_or_not_at_all() {
    assert_eq!(PoseDetector::new("graph", 5).unwrap().destroy(), 5);
    assert_eq!(HandDetector::new("graph", 6).unwrap().destroy(), 6);
    assert_eq!(FaceMeshDetector::new("graph", 7).unwrap().destroy(), 7);
    assert_eq!(HolisticDetector::new("graph", 8).unwrap().destroy(), 8);
    assert_eq!(MultiPersonHolisticDetector::new("graph", 9).unwrap().destroy(), 9);
    assert_eq!(HandVisualizer::new("graph", 10).unwrap().destroy(), 10);
    assert_eq!(Segmentor::new("graph", 11).unwrap().destroy(), 11);
    assert_eq!(PoseDetector::new("graph", 0), Err(ConfigurationError::EngineRejected));
    assert_eq!(HandDetector::new("gr\0aph", 6), Err(ConfigurationError::InteriorNul));
    assert_eq!(FaceMeshDetector::new("gr\0aph", 0), Err(ConfigurationError::InteriorNul));
    assert_eq!(HolisticDetector::new("graph", 0), Err(ConfigurationError::EngineRejected));
    assert_eq!(
        MultiPersonHolisticDetector::new("\0", 9),
        Err(ConfigurationError::InteriorNul)
    );
    assert_eq!(HandVisualizer::new("graph", 0), Err(ConfigurationError::EngineRejected));
    assert_eq!(Segmentor::new("graph\0", 11), Err(ConfigurationError::InteriorNul));
}

#[test]
fn pose_detector_gives_the_first_pose() {
    let mut detector = PoseDetector::new("graph", 5).unwrap();
    assert_eq!(detector.process(&RawResult::Null), Ok(None));
    let raw = RawResult::Flat { records: vec![], counts: vec![0] };
    assert_eq!(detector.process(&raw), Ok(None));
    let raw = RawResult::Flat { records: run(3, 33), counts: vec![1] };
    let pose = detector.process(&raw).unwrap().unwrap();
    assert_eq!(pose.data.to_vec(), run(3, 33));
    let raw = RawResult::Flat { records: run(3, 66), counts: vec![2] };
    let pose = detector.process(&raw).unwrap().unwrap();
    assert_eq!(pose.data.to_vec(), run(3, 33));
    assert_eq!(detector.handle(), 5);
}

#[test]
fn pose_detector_reports_violations() {
    let mut detector = PoseDetector::new("graph", 5).unwrap();
    let raw = RawResult::Flat { records: run(3, 32), counts: vec![1] };
    assert_eq!(detector.process(&raw), Err(ContractViolation::Truncated));
    let raw = RawResult::Flat { records: run(3, 34), counts: vec![1] };
    assert_eq!(detector.process(&raw), Err(ContractViolation::Trailing));
    let raw = RawResult::Flat { records: run(3, 33), counts: vec![1, 0] };
    assert_eq!(detector.process(&raw), Err(ContractViolation::OutputCount));
}

#[test]
fn hand_detector_without_hands_gives_an_empty_list() {
    let mut detector = HandDetector::new("graph", 6).unwrap();
    assert_eq!(detector.process(&RawResult::Null), Ok(vec![]));
    let raw = RawResult::Flat { records: vec![], counts: vec![0] };
    assert_eq!(detector.process(&raw), Ok(vec![]));
}

#[test]
fn hand_detector_reports_instances_that_do_not_fit_a_hand() {
    let mut detector = HandDetector::new("graph", 6).unwrap();
    let raw = RawResult::Flat { records: run(0, 42), counts: vec![1] };
    assert_eq!(detector.process(&raw), Err(ContractViolation::InstanceSize));
    let raw = RawResult::Flat { records: run(0, 84), counts: vec![2] };
    assert_eq!(detector.process(&raw), Err(ContractViolation::InstanceSize));
    let raw = RawResult::Flat { records: run(0, 21), counts: vec![1] };
    assert_eq!(detector.process(&raw), Err(ContractViolation::Truncated));
    assert_eq!(detector.process(&RawResult::Null), Ok(vec![]));
}

#[test]
fn face_mesh_detector_gives_every_face() {
    let mut detector = FaceMeshDetector::new("graph", 7).unwrap();
    assert_eq!(detector.process(&RawResult::Null), Ok(vec![]));
    let nested = vec![vec![run(0, 478), run(1000, 478), run(5, 478)]];
    let faces = detector.process(&encode(&nested)).unwrap();
    assert_eq!(faces.len(), 3);
    assert_eq!(faces[0].data.to_vec(), run(0, 478));
    assert_eq!(faces[1].data.to_vec(), run(1000, 478));
    assert_eq!(faces[2].data.to_vec(), run(5, 478));
    let raw = RawResult::Flat { records: run(0, 478), counts: vec![2] };
    assert_eq!(detector.process(&raw), Err(ContractViolation::Truncated));
}

#[test]
fn holistic_detector_gives_what_was_detected() {
    let mut detector = HolisticDetector::new("graph", 8).unwrap();
    let nothing = detector.process(&RawResult::Null).unwrap();
    assert!(nothing.pose.is_none());
    assert!(nothing.face.is_none());
    assert!(nothing.left_hand.is_none());
    assert!(nothing.right_hand.is_none());
    let nested = vec![vec![run(1, 33)], vec![], vec![], vec![run(7, 21)]];
    let some = detector.process(&encode(&nested)).unwrap();
    assert_eq!(some.pose.unwrap().data.to_vec(), run(1, 33));
    assert!(some.face.is_none());
    assert!(some.left_hand.is_none());
    assert_eq!(some.right_hand.unwrap().data.to_vec(), run(7, 21));
    let nested = vec![vec![run(1, 33)], vec![run(2, 478)], vec![run(3, 21)], vec![run(4, 21)]];
    let all = detector.process(&encode(&nested)).unwrap();
    assert_eq!(all.pose.unwrap().data.to_vec(), run(1, 33));
    assert_eq!(all.face.unwrap().data.to_vec(), run(2, 478));
    assert_eq!(all.left_hand.unwrap().data.to_vec(), run(3, 21));
    assert_eq!(all.right_hand.unwrap().data.to_vec(), run(4, 21));
}

#[test]
fn holistic_detector_reports_violations() {
    let mut detector = HolisticDetector::new("graph", 8).unwrap();
    let raw = RawResult::Flat { records: run(0, 33), counts: vec![1, 0, 0] };
    assert_eq!(detector.process(&raw), Err(ContractViolation::OutputCount));
    let raw = RawResult::Flat { records: run(0, 33), counts: vec![1, 0, 0, 1] };
    assert_eq!(detector.process(&raw), Err(ContractViolation::Truncated));
}

#[test]
fn multi_person_detector_gives_one_detection_per_person() {
    let mut detector = MultiPersonHolisticDetector::new("graph", 9).unwrap();
    assert_eq!(detector.process(&RawResult::Null), Ok(vec![]));
    let nested =
        vec![vec![run(1, 33), run(2, 33), run(3, 33)], vec![run(4, 478)], vec![], vec![]];
    let persons = detector.process(&encode(&nested)).unwrap();
    assert_eq!(persons.len(), 3);
    assert_eq!(persons[0].pose.unwrap().data.to_vec(), run(1, 33));
    assert_eq!(persons[0].face.unwrap().data.to_vec(), run(4, 478));
    assert_eq!(persons[1].pose.unwrap().data.to_vec(), run(2, 33));
    assert!(persons[1].face.is_none());
    assert_eq!(persons[2].pose.unwrap().data.to_vec(), run(3, 33));
    assert!(persons[2].face.is_none());
    for person in &persons {
        assert!(person.left_hand.is_none());
        assert!(person.right_hand.is_none());
    }
    let nested = vec![vec![], vec![run(4, 478), run(5, 478)], vec![], vec![]];
    let persons = detector.process(&encode(&nested)).unwrap();
    assert_eq!(persons.len(), 2);
    assert!(persons[0].pose.is_none());
    assert_eq!(persons[1].face.unwrap().data.to_vec(), run(5, 478));
}

#[test]
fn multi_person_detector_reports_hands_that_do_not_fit() {
    let mut detector = MultiPersonHolisticDetector::new("graph", 9).unwrap();
    let nested = vec![vec![run(1, 33)], vec![], vec![run(2, 42)], vec![]];
    assert_eq!(detector.process(&encode(&nested)), Err(ContractViolation::InstanceSize));
    let nested = vec![vec![], vec![], vec![], vec![run(2, 42)]];
    assert_eq!(detector.process(&encode(&nested)), Err(ContractViolation::InstanceSize));
    let raw = RawResult::Flat { records: run(0, 21), counts: vec![0, 0, 1, 0] };
    assert_eq!(detector.process(&raw), Err(ContractViolation::Truncated));
}

#[test]
fn segmentor_and_visualizer_keep_the_dimensions() {
    let input = Frame::new(vec![0; 8 * 6 * 3], 8, 6, 3).unwrap();
    let mut segmentor = Segmentor::new("graph", 11).unwrap();
    let frame = segmentor.process(&input, 0x500).unwrap();
    assert_eq!((frame.width(), frame.height(), frame.channels()), (8, 6, 3));
    assert_eq!(frame.release(), 0x500);
    assert_eq!(segmentor.process(&input, 0), Err(ContractViolation::NullBuffer));
    let mut visualizer = HandVisualizer::new("graph", 10).unwrap();
    let frame = visualizer.process(&input, 0x600).unwrap();
    assert_eq!((frame.width(), frame.height(), frame.channels()), (8, 6, 3));
    assert_eq!(frame.byte_len(), 144);
    assert_eq!(frame.release(), 0x600);
}
