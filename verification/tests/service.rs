use face_recognition::state::CanisterState;
use face_recognition::validate_model_bytes;
use face_recognition::{CanisterStats, ModelStatus};

fn default_state() -> CanisterState {
    CanisterState::default()
}

#[test]
fn detect_without_model_is_empty() {
    let mut state = default_state();
    let r = state.detect_face(&[1, 2, 3, 4]);
    assert!(!r.face_detected);
    assert_eq!(r.face_count, 0);
    assert!(r.bounding_boxes.is_empty());
    assert_eq!(state.get_stats().total_detections, 1);
}

#[test]
fn recognize_without_model_is_empty() {
    let mut state = default_state();
    let r = state.recognize_face(&[9, 9, 9]);
    assert!(!r.face_detected);
    assert_eq!(r.face_count, 0);
    assert!(r.bounding_boxes.is_empty());
    assert!(r.face_embeddings.is_empty());
    assert_eq!(state.get_stats().total_recognitions, 1);
}

#[test]
fn detection_result_fields_agree() {
    let mut state = default_state();
    state.append_face_detection_model_bytes(&[7u8; 128]);
    state.setup_models();
    let r = state.detect_face(&[0u8; 16]);
    assert_eq!(r.face_count as usize, r.bounding_boxes.len());
    assert_eq!(r.face_detected, r.face_count > 0);
    let q = state.recognize_face(&[0u8; 16]);
    assert_eq!(q.face_count as usize, q.bounding_boxes.len());
    assert_eq!(q.face_detected, q.face_count > 0);
}

#[test]
fn recognize_with_detector_only_has_no_embedding() {
    let mut state = default_state();
    state.append_face_detection_model_bytes(&[1u8; 200]);
    state.setup_models();
    let r = state.recognize_face(&[0u8; 8]);
    assert!(r.face_detected);
    assert_eq!(r.bounding_boxes.len(), 1);
    assert!(r.face_embeddings.is_empty());
}

#[test]
fn recognize_with_both_models_attaches_embedding() {
    let mut state = default_state();
    state.append_face_detection_model_bytes(&[1u8; 200]);
    state.append_face_recognition_model_bytes(&[2u8; 200]);
    state.setup_models();
    let r = state.recognize_face(&[0u8; 8]);
    assert!(r.face_detected);
    let expected: Vec<u32> = vec![0.1f32, 0.2, 0.3, 0.4, 0.5].into_iter().map(f32::to_bits).collect();
    assert_eq!(r.face_embeddings, expected);
    let b = &r.bounding_boxes[0];
    assert_eq!(b.x, 100.0f32.to_bits());
    assert_eq!(b.y, 100.0f32.to_bits());
    assert_eq!(b.width, 200.0f32.to_bits());
    assert_eq!(b.height, 200.0f32.to_bits());
}

#[test]
fn appending_chunks_equals_appending_concatenation() {
    let a: Vec<u8> = (0u8..60).collect();
    let b: Vec<u8> = (60u8..130).collect();
    let mut split = default_state();
    split.append_face_detection_model_bytes(&a);
    split.append_face_detection_model_bytes(&b);
    let mut whole = default_state();
    let mut ab = a.clone();
    ab.extend_from_slice(&b);
    whole.append_face_detection_model_bytes(&ab);
    assert_eq!(split.face_detection_model_bytes, whole.face_detection_model_bytes);
    assert_eq!(split.get_stats(), whole.get_stats());
    let report_split = split.setup_models();
    let report_whole = whole.setup_models();
    assert_eq!(report_split, report_whole);
    assert_eq!(split.face_detection_model_loaded, whole.face_detection_model_loaded);
    assert_eq!(split.get_stats(), whole.get_stats());
}

#[test]
fn reset_stats_zeroes_only_counters() {
    let mut state = default_state();
    state.append_face_detection_model_bytes(&[5u8; 150]);
    state.append_face_recognition_model_bytes(&[5u8; 30]);
    state.setup_models();
    state.detect_face(&[1]);
    state.recognize_face(&[1]);
    let before = state.get_stats();
    state.reset_stats();
    let after = state.get_stats();
    assert_eq!(after.total_detections, 0);
    assert_eq!(after.total_recognitions, 0);
    assert_eq!(after.face_detection_model_status, before.face_detection_model_status);
    assert_eq!(after.face_recognition_model_status, before.face_recognition_model_status);
    assert_eq!(after.model_detection_size, before.model_detection_size);
    assert_eq!(after.model_recognition_size, before.model_recognition_size);
}

#[test]
fn stats_snapshot_roundtrips_exactly() {
    let mut state = default_state();
    state.stats = CanisterStats {
        face_detection_model_status: ModelStatus::Error("größe zu klein — ユニコード ✓".to_string()),
        face_recognition_model_status: ModelStatus::Ready,
        total_detections: u64::MAX,
        total_recognitions: 12345678901234567,
        model_detection_size: 0,
        model_recognition_size: 42,
    };
    let bytes = state.snapshot_stats();
    let mut fresh = default_state();
    fresh.restore_stats(&bytes);
    assert_eq!(fresh.get_stats(), state.get_stats());
}

#[test]
fn restore_ignores_undecodable_bytes() {
    let mut state = default_state();
    state.detect_face(&[1]);
    let before = state.get_stats();
    state.restore_stats(&vec![9, 9, 9, 9]);
    assert_eq!(state.get_stats(), before);
    state.restore_stats(&Vec::new());
    assert_eq!(state.get_stats(), before);
}

#[test]
fn undersized_upload_reports_error_and_keeps_size() {
    let mut state = default_state();
    state.append_face_detection_model_bytes(&[0u8; 50]);
    let report = state.setup_models();
    assert!(report.contains("❌"));
    match &state.face_detection_model_status {
        ModelStatus::Error(msg) => {
            assert_eq!(
                msg,
                "Failed to load face detection model: Model bytes too small, likely not a valid model"
            );
        }
        other => panic!("expected an error status, got {:?}", other),
    }
    assert_eq!(state.get_stats().model_detection_size, 50);
}

#[test]
fn setup_report_lines_are_exact() {
    let mut state = default_state();
    let report = state.setup_models();
    assert_eq!(
        report,
        "⚠️ No face detection model bytes available\n⚠️ No face recognition model bytes available"
    );
    state.append_face_detection_model_bytes(&[1u8; 100]);
    state.append_face_recognition_model_bytes(&[1u8; 100]);
    let report = state.setup_models();
    assert_eq!(
        report,
        "✅ Face detection model loaded successfully\n✅ Face recognition model loaded successfully"
    );
}

#[test]
fn health_check_requires_both_models() {
    let mut state = default_state();
    assert!(!state.health_check());
    state.append_face_detection_model_bytes(&[1u8; 100]);
    state.setup_models();
    assert!(!state.health_check());
    state.append_face_recognition_model_bytes(&[1u8; 100]);
    state.setup_models();
    assert!(state.health_check());
}

#[test]
fn clear_resets_buffer_status_and_size() {
    let mut state = default_state();
    state.append_face_detection_model_bytes(&[1u8; 100]);
    state.setup_models();
    assert!(state.face_detection_model_loaded);
    state.clear_face_detection_model_bytes();
    assert!(state.face_detection_model_bytes.is_empty());
    assert!(!state.face_detection_model_loaded);
    assert!(matches!(state.face_detection_model_status, ModelStatus::NotLoaded));
    assert_eq!(state.get_stats().model_detection_size, 0);
    state.append_face_recognition_model_bytes(&[1u8; 100]);
    state.setup_models();
    state.clear_face_recognition_model_bytes();
    assert!(state.face_recognition_model_bytes.is_empty());
    assert!(!state.face_recognition_model_loaded);
    assert!(matches!(state.face_recognition_model_status, ModelStatus::NotLoaded));
    assert_eq!(state.get_stats().model_recognition_size, 0);
}

#[test]
fn validate_model_bytes_messages() {
    assert_eq!(validate_model_bytes(&[]), Err("Model bytes are empty".to_string()));
    assert_eq!(
        validate_model_bytes(&[1u8; 99]),
        Err("Model bytes too small, likely not a valid model".to_string())
    );
    assert_eq!(validate_model_bytes(&[1u8; 100]), Ok(()));
    assert_eq!(validate_model_bytes(&[1u8; 5000]), Ok(()));
}

#[test]
fn counters_track_each_call() {
    let mut state = default_state();
    state.detect_face(&[1]);
    state.detect_face(&[2]);
    state.recognize_face(&[3]);
    let stats = state.get_stats();
    assert_eq!(stats.total_detections, 2);
    assert_eq!(stats.total_recognitions, 1);
}

#[test]
fn recognition_side_failure_is_reported_too() {
    let mut state = default_state();
    state.append_face_detection_model_bytes(&[1u8; 100]);
    state.append_face_recognition_model_bytes(&[1u8; 10]);
    let report = state.setup_models();
    assert_eq!(
        report,
        "✅ Face detection model loaded successfully\n❌ Failed to load face recognition model: Model bytes too small, likely not a valid model"
    );
    match &state.face_recognition_model_status {
        ModelStatus::Error(msg) => assert_eq!(
            msg,
            "Failed to load face recognition model: Model bytes too small, likely not a valid model"
        ),
        other => panic!("expected an error status, got {:?}", other),
    }
    assert!(!state.face_recognition_model_loaded);
}

#[test]
fn snapshot_bytes_follow_the_documented_format() {
    let mut state = default_state();
    state.stats = CanisterStats {
        face_detection_model_status: ModelStatus::Error("ab".to_string()),
        face_recognition_model_status: ModelStatus::Loading,
        total_detections: 258,
        total_recognitions: 1,
        model_detection_size: 2,
        model_recognition_size: 0,
    };
    let bytes = state.snapshot_stats();
    let mut expected: Vec<u8> = Vec::new();
    expected.push(3); // Error tag
    expected.extend_from_slice(&2u64.to_le_bytes()); // message length
    expected.extend_from_slice(b"ab");
    expected.push(1); // Loading tag
    expected.extend_from_slice(&258u64.to_le_bytes());
    expected.extend_from_slice(&1u64.to_le_bytes());
    expected.extend_from_slice(&2u64.to_le_bytes());
    expected.extend_from_slice(&0u64.to_le_bytes());
    assert_eq!(bytes, expected);
}
