use face_recognition::decoder::{
    decode_detections, detection_outputs_well_shaped, embedding_from_outputs, Tensor,
};
use face_recognition::entropy::fill_from_seed;
use face_recognition::float_bits::{f32_gt, F32_HALF_BITS};
use face_recognition::pixels::{clamp_rect, crop_image, planar_layout, RawImage};

fn bits(values: &[f32]) -> Vec<u32> {
    values.iter().map(|v| v.to_bits()).collect()
}

fn detector_outputs(box_rows: &[[f32; 4]], score_rows: &[[f32; 2]]) -> Vec<Tensor> {
    let n = box_rows.len();
    assert_eq!(n, score_rows.len());
    let boxes = Tensor {
        dims: vec![1, n, 4],
        data: box_rows.iter().flatten().map(|v| v.to_bits()).collect(),
    };
    let scores = Tensor {
        dims: vec![1, n, 2],
        data: score_rows.iter().flatten().map(|v| v.to_bits()).collect(),
    };
    vec![boxes, scores]
}

#[test]
fn decode_selects_only_the_passing_row() {
    let outputs = detector_outputs(
        &[
            [10.0, 20.0, 30.0, 40.0],
            [50.0, 60.0, 70.0, 80.0],
            [90.0, 100.0, 110.0, 120.0],
        ],
        &[[0.9, 0.1], [0.2, 0.8], [0.7, 0.3]],
    );
    assert!(detection_outputs_well_shaped(&outputs));
    let selected = decode_detections(&outputs, F32_HALF_BITS);
    assert_eq!(selected.len(), 1);
    assert_eq!(selected[0].x1, 50.0f32.to_bits());
    assert_eq!(selected[0].y1, 60.0f32.to_bits());
    assert_eq!(selected[0].x2, 70.0f32.to_bits());
    assert_eq!(selected[0].y2, 80.0f32.to_bits());
}

#[test]
fn decode_keeps_output_order_of_overlapping_candidates() {
    let outputs = detector_outputs(
        &[[1.0, 1.0, 2.0, 2.0], [1.5, 1.5, 2.5, 2.5]],
        &[[0.1, 0.9], [0.2, 0.6]],
    );
    let selected = decode_detections(&outputs, F32_HALF_BITS);
    assert_eq!(selected.len(), 2);
    assert_eq!(selected[0].x1, 1.0f32.to_bits());
    assert_eq!(selected[1].x1, 1.5f32.to_bits());
}

#[test]
fn decode_with_fewer_than_two_outputs_is_empty() {
    let one = vec![Tensor { dims: vec![1, 1, 4], data: bits(&[1.0, 2.0, 3.0, 4.0]) }];
    assert!(!detection_outputs_well_shaped(&one));
    assert!(decode_detections(&one, F32_HALF_BITS).is_empty());
    let none: Vec<Tensor> = Vec::new();
    assert!(decode_detections(&none, F32_HALF_BITS).is_empty());
}

#[test]
fn decode_threshold_is_strict() {
    let outputs = detector_outputs(&[[1.0, 2.0, 3.0, 4.0]], &[[0.5, 0.5]]);
    assert!(decode_detections(&outputs, F32_HALF_BITS).is_empty());
}

#[test]
fn decode_ignores_nan_scores() {
    let outputs = detector_outputs(&[[1.0, 2.0, 3.0, 4.0]], &[[0.0, f32::NAN]]);
    assert!(decode_detections(&outputs, F32_HALF_BITS).is_empty());
}

#[test]
fn bit_level_ordering_matches_float_ordering() {
    let pairs = [
        (0.75f32, 0.5f32),
        (0.5, 0.75),
        (-1.0, 1.0),
        (1.0, -1.0),
        (-0.0, 0.0),
        (0.0, -0.0),
        (-2.0, -3.0),
        (f32::INFINITY, 1.0e38),
        (f32::NEG_INFINITY, -1.0e38),
        (1.0e-45, 0.0),
        (0.5, 0.5),
    ];
    for (a, b) in pairs {
        assert_eq!(f32_gt(a.to_bits(), b.to_bits()), a > b, "{} > {}", a, b);
    }
    assert!(!f32_gt(f32::NAN.to_bits(), 0.5f32.to_bits()));
    assert!(!f32_gt(0.5f32.to_bits(), f32::NAN.to_bits()));
}

#[test]
fn clamp_rect_caps_origin_and_extent() {
    assert_eq!(clamp_rect(500, 10, 1000, 50, 320, 240), (319, 10, 1, 50));
    assert_eq!(clamp_rect(0, 0, 320, 240, 320, 240), (0, 0, 320, 240));
    assert_eq!(clamp_rect(10, 230, 50, 50, 320, 240), (10, 230, 50, 10));
    assert_eq!(clamp_rect(3, 4, 5, 6, 0, 0), (0, 0, 0, 0));
}

#[test]
fn crop_takes_the_requested_pixels() {
    // A 4x3 image whose pixel at (x, y) holds samples (v, v + 1, v + 2)
    // with v = 10 * (y * 4 + x).
    let mut pixels = Vec::new();
    for p in 0..12u8 {
        pixels.extend_from_slice(&[10 * p, 10 * p + 1, 10 * p + 2]);
    }
    let img = RawImage { width: 4, height: 3, pixels };
    let crop = crop_image(&img, 1, 1, 2, 2);
    assert_eq!(crop.width, 2);
    assert_eq!(crop.height, 2);
    let expected: Vec<u8> = [5u8, 6, 9, 10]
        .iter()
        .flat_map(|p| vec![10 * p, 10 * p + 1, 10 * p + 2])
        .collect();
    assert_eq!(crop.pixels, expected);
}

#[test]
fn planar_layout_groups_channels() {
    let interleaved = vec![1u8, 2, 3, 4, 5, 6, 7, 8, 9];
    let planar = planar_layout(&interleaved);
    assert_eq!(planar, vec![1, 4, 7, 2, 5, 8, 3, 6, 9]);
}

#[test]
fn planar_layout_of_empty_is_empty() {
    let planar = planar_layout(&Vec::new());
    assert!(planar.is_empty());
}

#[test]
fn embedding_flattens_first_output() {
    let outputs = vec![
        Tensor { dims: vec![1, 3], data: bits(&[0.25, -0.5, 3.0]) },
        Tensor { dims: vec![1, 1], data: bits(&[9.0]) },
    ];
    assert_eq!(embedding_from_outputs(&outputs), bits(&[0.25, -0.5, 3.0]));
    assert!(embedding_from_outputs(&Vec::new()).is_empty());
}

#[test]
fn fill_from_seed_wraps_like_byte_addition() {
    let out = fill_from_seed(250, 10);
    let expected: Vec<u8> = (0..10u8).map(|i| 250u8.wrapping_add(i)).collect();
    assert_eq!(out, expected);
    assert!(fill_from_seed(7, 0).is_empty());
}

#[test]
fn decode_reads_face_score_with_wider_class_axis() {
    // Three classes per candidate: the face score is index 1, so only
    // the second candidate passes even though other class scores are
    // high.
    let boxes = Tensor {
        dims: vec![1, 2, 4],
        data: bits(&[1.0, 2.0, 3.0, 4.0, 5.0, 6.0, 7.0, 8.0]),
    };
    let scores = Tensor {
        dims: vec![1, 2, 3],
        data: bits(&[0.9, 0.2, 0.9, 0.1, 0.7, 0.1]),
    };
    let outputs = vec![boxes, scores];
    assert!(detection_outputs_well_shaped(&outputs));
    let selected = decode_detections(&outputs, F32_HALF_BITS);
    assert_eq!(selected.len(), 1);
    assert_eq!(selected[0].x1, 5.0f32.to_bits());
}

#[test]
fn decode_honours_a_different_threshold() {
    let outputs = detector_outputs(&[[1.0, 2.0, 3.0, 4.0]], &[[0.4, 0.6]]);
    assert_eq!(decode_detections(&outputs, 0.7f32.to_bits()).len(), 0);
    assert_eq!(decode_detections(&outputs, 0.5f32.to_bits()).len(), 1);
}

#[test]
fn malformed_shapes_are_rejected() {
    // Data shorter than the dimensions claim.
    let boxes = Tensor { dims: vec![1, 2, 4], data: bits(&[1.0, 2.0, 3.0, 4.0]) };
    let scores = Tensor { dims: vec![1, 2, 2], data: bits(&[0.1, 0.9, 0.1, 0.9]) };
    assert!(!detection_outputs_well_shaped(&vec![boxes, scores]));
}
