//! The result shapes of the two inference operations. Coordinates and
//! embedding values are single-precision bit patterns (see
//! [`crate::float_bits`]); the hosting adapter converts them to floats
//! at its boundary.

use vstd::prelude::*;

verus! {

/// One detected face: position and extent as fractions of the
/// detector's input resolution, each a single-precision bit pattern.
/// The decoder does not clamp these to `[0, 1]`; consumers clamp
/// against real image bounds themselves.
#[derive(Clone, Copy, PartialEq, Eq, Structural, Debug)]
pub struct BoundingBox {
    pub x: u32,
    pub y: u32,
    pub width: u32,
    pub height: u32,
}

/// What a detection call reports: whether any face was found, how
/// many, and their boxes in output order.
pub struct FaceDetectionResult {
    pub face_detected: bool,
    pub face_count: u32,
    pub bounding_boxes: Vec<BoundingBox>,
}

/// What a recognition call reports: the detection fields, plus the
/// embedding of the first detected face — empty when no face was found
/// or the recognizer is unavailable.
pub struct FaceRecognitionResult {
    pub face_detected: bool,
    pub face_count: u32,
    pub face_embeddings: Vec<u32>,
    pub bounding_boxes: Vec<BoundingBox>,
}

/// The three detection fields agree: a face is detected exactly when
/// the box list is non-empty, and the count is its length.
pub open spec fn detection_result_wf(r: FaceDetectionResult) -> bool {
    &&& r.face_detected == (r.bounding_boxes@.len() > 0)
    &&& r.face_count == r.bounding_boxes@.len()
}

/// The recognition fields agree as in [`detection_result_wf`], and no
/// embedding is reported without a box.
pub open spec fn recognition_result_wf(r: FaceRecognitionResult) -> bool {
    &&& r.face_detected == (r.bounding_boxes@.len() > 0)
    &&& r.face_count == r.bounding_boxes@.len()
    &&& r.bounding_boxes@.len() == 0 ==> r.face_embeddings@.len() == 0
}

/// The all-false, empty detection result: what a failed or unavailable
/// detection reports.
pub fn empty_detection_result() -> (r: FaceDetectionResult)
    ensures
        detection_result_wf(r),
        !r.face_detected,
        r.face_count == 0,
        r.bounding_boxes@.len() == 0,
{
    FaceDetectionResult { face_detected: false, face_count: 0, bounding_boxes: Vec::new() }
}

/// The all-false, empty recognition result.
pub fn empty_recognition_result() -> (r: FaceRecognitionResult)
    ensures
        recognition_result_wf(r),
        !r.face_detected,
        r.face_count == 0,
        r.bounding_boxes@.len() == 0,
        r.face_embeddings@.len() == 0,
{
    FaceRecognitionResult {
        face_detected: false,
        face_count: 0,
        face_embeddings: Vec::new(),
        bounding_boxes: Vec::new(),
    }
}

} // verus!
