//! The service context: the model store (raw byte buffers and load
//! flags), the per-model lifecycle statuses, the running statistics,
//! and the operations the host dispatches against it. One instance is
//! owned and mutated exclusively by the call being served.

use vstd::prelude::*;
use vstd::string::StringExecFns;
use crate::codec::{decode_stats, encode_stats, spec_decode_stats, spec_encode_stats};
use crate::results::{
    detection_result_wf, empty_detection_result, empty_recognition_result, recognition_result_wf,
    BoundingBox, FaceDetectionResult, FaceRecognitionResult,
};
use crate::stats::{CanisterStats, StatsView};
use crate::status::{ModelStatus, StatusView};

verus! {

/// The smallest byte count a plausible model file can have; anything
/// shorter is rejected at load time as clearly truncated.
pub const MODEL_MIN_BYTES: usize = 100;

/// Message of the validation error for an empty buffer.
pub open spec fn empty_model_message() -> Seq<char> {
    "Model bytes are empty"@
}

/// Message of the validation error for a truncated buffer.
pub open spec fn too_small_message() -> Seq<char> {
    "Model bytes too small, likely not a valid model"@
}

/// Check that a buffer of model bytes is plausibly a whole model file:
/// it is rejected exactly when it holds fewer than
/// [`MODEL_MIN_BYTES`] bytes, with a message naming the cause.
pub fn validate_model_bytes(bytes: &[u8]) -> (r: Result<(), String>)
    ensures
        r is Ok <==> bytes@.len() >= MODEL_MIN_BYTES,
        bytes@.len() == 0 ==> (r matches Err(m) && m@ == empty_model_message()),
        0 < bytes@.len() < MODEL_MIN_BYTES ==> (r matches Err(m) && m@ == too_small_message()),
{
    if bytes.len() == 0 {
        return Err("Model bytes are empty".to_owned());
    }
    if bytes.len() < MODEL_MIN_BYTES {
        return Err("Model bytes too small, likely not a valid model".to_owned());
    }
    Ok(())
}

/// Mathematical value of the whole service context.
#[verifier::ext_equal]
pub struct StateView {
    pub det_bytes: Seq<u8>,
    pub rec_bytes: Seq<u8>,
    pub det_loaded: bool,
    pub rec_loaded: bool,
    pub det_status: StatusView,
    pub rec_status: StatusView,
    pub stats: StatsView,
}

/// The service context. The byte buffers and load flags live only
/// within one running instance; `stats` is the one field whose value
/// crosses a restart, through [`CanisterState::snapshot_stats`] and
/// [`CanisterState::restore_stats`].
pub struct CanisterState {
    pub face_detection_model_bytes: Vec<u8>,
    pub face_recognition_model_bytes: Vec<u8>,
    pub face_detection_model_loaded: bool,
    pub face_recognition_model_loaded: bool,
    pub face_detection_model_status: ModelStatus,
    pub face_recognition_model_status: ModelStatus,
    pub stats: CanisterStats,
}

impl View for CanisterState {
    type V = StateView;

    open spec fn view(&self) -> StateView {
        StateView {
            det_bytes: self.face_detection_model_bytes@,
            rec_bytes: self.face_recognition_model_bytes@,
            det_loaded: self.face_detection_model_loaded,
            rec_loaded: self.face_recognition_model_loaded,
            det_status: self.face_detection_model_status@,
            rec_status: self.face_recognition_model_status@,
            stats: self.stats@,
        }
    }
}

/// The context of a freshly started instance: empty buffers, nothing
/// loaded, fresh statistics.
pub open spec fn fresh_state_view() -> StateView {
    StateView {
        det_bytes: Seq::<u8>::empty(),
        rec_bytes: Seq::<u8>::empty(),
        det_loaded: false,
        rec_loaded: false,
        det_status: StatusView::NotLoaded,
        rec_status: StatusView::NotLoaded,
        stats: crate::stats::fresh_stats_view(),
    }
}

/// Appending a chunk to the detector buffer: the bytes concatenate,
/// the status turns `Loading`, and the recorded size follows the
/// buffer; nothing else moves.
pub open spec fn spec_append_detection(s: StateView, chunk: Seq<u8>) -> StateView {
    StateView {
        det_bytes: s.det_bytes + chunk,
        rec_bytes: s.rec_bytes,
        det_loaded: s.det_loaded,
        rec_loaded: s.rec_loaded,
        det_status: StatusView::Loading,
        rec_status: s.rec_status,
        stats: StatsView {
            face_detection_model_status: StatusView::Loading,
            face_recognition_model_status: s.stats.face_recognition_model_status,
            total_detections: s.stats.total_detections,
            total_recognitions: s.stats.total_recognitions,
            model_detection_size: (s.det_bytes + chunk).len() as u64,
            model_recognition_size: s.stats.model_recognition_size,
        },
    }
}

/// Appending a chunk to the recognizer buffer, as
/// [`spec_append_detection`] but on the recognition side.
pub open spec fn spec_append_recognition(s: StateView, chunk: Seq<u8>) -> StateView {
    StateView {
        det_bytes: s.det_bytes,
        rec_bytes: s.rec_bytes + chunk,
        det_loaded: s.det_loaded,
        rec_loaded: s.rec_loaded,
        det_status: s.det_status,
        rec_status: StatusView::Loading,
        stats: StatsView {
            face_detection_model_status: s.stats.face_detection_model_status,
            face_recognition_model_status: StatusView::Loading,
            total_detections: s.stats.total_detections,
            total_recognitions: s.stats.total_recognitions,
            model_detection_size: s.stats.model_detection_size,
            model_recognition_size: (s.rec_bytes + chunk).len() as u64,
        },
    }
}

/// Clearing the detector side: buffer emptied, load flag dropped,
/// status back to `NotLoaded`, recorded size zero.
pub open spec fn spec_clear_detection(s: StateView) -> StateView {
    StateView {
        det_bytes: Seq::<u8>::empty(),
        rec_bytes: s.rec_bytes,
        det_loaded: false,
        rec_loaded: s.rec_loaded,
        det_status: StatusView::NotLoaded,
        rec_status: s.rec_status,
        stats: StatsView {
            face_detection_model_status: StatusView::NotLoaded,
            face_recognition_model_status: s.stats.face_recognition_model_status,
            total_detections: s.stats.total_detections,
            total_recognitions: s.stats.total_recognitions,
            model_detection_size: 0,
            model_recognition_size: s.stats.model_recognition_size,
        },
    }
}

/// Clearing the recognizer side.
pub open spec fn spec_clear_recognition(s: StateView) -> StateView {
    StateView {
        det_bytes: s.det_bytes,
        rec_bytes: Seq::<u8>::empty(),
        det_loaded: s.det_loaded,
        rec_loaded: false,
        det_status: s.det_status,
        rec_status: StatusView::NotLoaded,
        stats: StatsView {
            face_detection_model_status: s.stats.face_detection_model_status,
            face_recognition_model_status: StatusView::NotLoaded,
            total_detections: s.stats.total_detections,
            total_recognitions: s.stats.total_recognitions,
            model_detection_size: s.stats.model_detection_size,
            model_recognition_size: 0,
        },
    }
}

/// What a failed detector load reports as its status message.
pub open spec fn detection_failure_message() -> Seq<char> {
    "Failed to load face detection model: "@ + too_small_message()
}

/// What a failed recognizer load reports as its status message.
pub open spec fn recognition_failure_message() -> Seq<char> {
    "Failed to load face recognition model: "@ + too_small_message()
}

/// The detector half of a load attempt: an empty buffer is left
/// untouched, a plausible one turns the model `Ready`, a truncated one
/// records the validation failure as an `Error` status. A failed
/// attempt never leaves a stale `Ready` status.
pub open spec fn spec_setup_detection(s: StateView) -> StateView {
    if s.det_bytes.len() == 0 {
        s
    } else if s.det_bytes.len() >= MODEL_MIN_BYTES {
        StateView {
            det_bytes: s.det_bytes,
            rec_bytes: s.rec_bytes,
            det_loaded: true,
            rec_loaded: s.rec_loaded,
            det_status: StatusView::Ready,
            rec_status: s.rec_status,
            stats: StatsView {
                face_detection_model_status: StatusView::Ready,
                face_recognition_model_status: s.stats.face_recognition_model_status,
                total_detections: s.stats.total_detections,
                total_recognitions: s.stats.total_recognitions,
                model_detection_size: s.stats.model_detection_size,
                model_recognition_size: s.stats.model_recognition_size,
            },
        }
    } else {
        StateView {
            det_bytes: s.det_bytes,
            rec_bytes: s.rec_bytes,
            det_loaded: s.det_loaded,
            rec_loaded: s.rec_loaded,
            det_status: StatusView::Error(detection_failure_message()),
            rec_status: s.rec_status,
            stats: StatsView {
                face_detection_model_status: StatusView::Error(detection_failure_message()),
                face_recognition_model_status: s.stats.face_recognition_model_status,
                total_detections: s.stats.total_detections,
                total_recognitions: s.stats.total_recognitions,
                model_detection_size: s.stats.model_detection_size,
                model_recognition_size: s.stats.model_recognition_size,
            },
        }
    }
}

/// The recognizer half of a load attempt.
pub open spec fn spec_setup_recognition(s: StateView) -> StateView {
    if s.rec_bytes.len() == 0 {
        s
    } else if s.rec_bytes.len() >= MODEL_MIN_BYTES {
        StateView {
            det_bytes: s.det_bytes,
            rec_bytes: s.rec_bytes,
            det_loaded: s.det_loaded,
            rec_loaded: true,
            det_status: s.det_status,
            rec_status: StatusView::Ready,
            stats: StatsView {
                face_detection_model_status: s.stats.face_detection_model_status,
                face_recognition_model_status: StatusView::Ready,
                total_detections: s.stats.total_detections,
                total_recognitions: s.stats.total_recognitions,
                model_detection_size: s.stats.model_detection_size,
                model_recognition_size: s.stats.model_recognition_size,
            },
        }
    } else {
        StateView {
            det_bytes: s.det_bytes,
            rec_bytes: s.rec_bytes,
            det_loaded: s.det_loaded,
            rec_loaded: s.rec_loaded,
            det_status: s.det_status,
            rec_status: StatusView::Error(recognition_failure_message()),
            stats: StatsView {
                face_detection_model_status: s.stats.face_detection_model_status,
                face_recognition_model_status: StatusView::Error(recognition_failure_message()),
                total_detections: s.stats.total_detections,
                total_recognitions: s.stats.total_recognitions,
                model_detection_size: s.stats.model_detection_size,
                model_recognition_size: s.stats.model_recognition_size,
            },
        }
    }
}

/// A whole load attempt: the detector half, then the recognizer half.
pub open spec fn spec_setup(s: StateView) -> StateView {
    spec_setup_recognition(spec_setup_detection(s))
}

/// The report line of the detector half of a load attempt.
pub open spec fn detection_report_line(n: nat) -> Seq<char> {
    if n == 0 {
        "⚠️ No face detection model bytes available"@
    } else if n >= MODEL_MIN_BYTES {
        "✅ Face detection model loaded successfully"@
    } else {
        "❌ "@ + detection_failure_message()
    }
}

/// The report line of the recognizer half of a load attempt.
pub open spec fn recognition_report_line(n: nat) -> Seq<char> {
    if n == 0 {
        "⚠️ No face recognition model bytes available"@
    } else if n >= MODEL_MIN_BYTES {
        "✅ Face recognition model loaded successfully"@
    } else {
        "❌ "@ + recognition_failure_message()
    }
}

/// The whole report of a load attempt: one line per model.
pub open spec fn spec_setup_report(s: StateView) -> Seq<char> {
    detection_report_line(s.det_bytes.len()) + "\n"@ + recognition_report_line(s.rec_bytes.len())
}

/// Serving a detection bumps the detection counter and moves nothing
/// else.
pub open spec fn spec_count_detection(s: StateView) -> StateView {
    StateView {
        det_bytes: s.det_bytes,
        rec_bytes: s.rec_bytes,
        det_loaded: s.det_loaded,
        rec_loaded: s.rec_loaded,
        det_status: s.det_status,
        rec_status: s.rec_status,
        stats: StatsView {
            face_detection_model_status: s.stats.face_detection_model_status,
            face_recognition_model_status: s.stats.face_recognition_model_status,
            total_detections: (s.stats.total_detections + 1) as u64,
            total_recognitions: s.stats.total_recognitions,
            model_detection_size: s.stats.model_detection_size,
            model_recognition_size: s.stats.model_recognition_size,
        },
    }
}

/// Serving a recognition bumps the recognition counter and moves
/// nothing else.
pub open spec fn spec_count_recognition(s: StateView) -> StateView {
    StateView {
        det_bytes: s.det_bytes,
        rec_bytes: s.rec_bytes,
        det_loaded: s.det_loaded,
        rec_loaded: s.rec_loaded,
        det_status: s.det_status,
        rec_status: s.rec_status,
        stats: StatsView {
            face_detection_model_status: s.stats.face_detection_model_status,
            face_recognition_model_status: s.stats.face_recognition_model_status,
            total_detections: s.stats.total_detections,
            total_recognitions: (s.stats.total_recognitions + 1) as u64,
            model_detection_size: s.stats.model_detection_size,
            model_recognition_size: s.stats.model_recognition_size,
        },
    }
}

/// Resetting statistics zeroes the two counters only: statuses and
/// model sizes stay exactly as they were.
pub open spec fn spec_reset_stats(s: StateView) -> StateView {
    StateView {
        det_bytes: s.det_bytes,
        rec_bytes: s.rec_bytes,
        det_loaded: s.det_loaded,
        rec_loaded: s.rec_loaded,
        det_status: s.det_status,
        rec_status: s.rec_status,
        stats: StatsView {
            face_detection_model_status: s.stats.face_detection_model_status,
            face_recognition_model_status: s.stats.face_recognition_model_status,
            total_detections: 0,
            total_recognitions: 0,
            model_detection_size: s.stats.model_detection_size,
            model_recognition_size: s.stats.model_recognition_size,
        },
    }
}

/// The one fixed box the hosted detection backend answers with.
pub open spec fn stub_detection_box() -> BoundingBox {
    BoundingBox { x: 0x42C8_0000, y: 0x42C8_0000, width: 0x4348_0000, height: 0x4348_0000 }
}

/// The one fixed embedding the hosted recognition backend answers
/// with: five single-precision values.
pub open spec fn stub_embedding() -> Seq<u32> {
    seq![0x3DCC_CCCDu32, 0x3E4C_CCCDu32, 0x3E99_999Au32, 0x3ECC_CCCDu32, 0x3F00_0000u32]
}

/// The detection backend. The inference engine itself is not linked
/// into this crate, so the hosted build answers every decodable image
/// with one fixed box; [`crate::pixels`] and [`crate::decoder`] hold
/// the verified pieces an engine-backed backend composes.
pub fn process_face_detection(image_bytes: &[u8]) -> (r: FaceDetectionResult)
    ensures
        detection_result_wf(r),
        r.face_detected,
        r.face_count == 1,
        r.bounding_boxes@ == seq![stub_detection_box()],
{
    let mut boxes: Vec<BoundingBox> = Vec::new();
    boxes.push(
        BoundingBox { x: 0x42C8_0000, y: 0x42C8_0000, width: 0x4348_0000, height: 0x4348_0000 },
    );
    proof {
        assert(boxes@ =~= seq![stub_detection_box()]);
    }
    FaceDetectionResult { face_detected: true, face_count: 1, bounding_boxes: boxes }
}

/// The recognition backend: nothing without a detected box, and the
/// fixed embedding of the hosted build otherwise.
pub fn process_face_recognition(image_bytes: &[u8], bounding_boxes: &Vec<BoundingBox>) -> (r: Vec<
    u32,
>)
    ensures
        bounding_boxes@.len() == 0 ==> r@.len() == 0,
        bounding_boxes@.len() > 0 ==> r@ == stub_embedding(),
{
    let mut out: Vec<u32> = Vec::new();
    if bounding_boxes.len() == 0 {
        return out;
    }
    out.push(0x3DCC_CCCD);
    out.push(0x3E4C_CCCD);
    out.push(0x3E99_999A);
    out.push(0x3ECC_CCCD);
    out.push(0x3F00_0000);
    proof {
        assert(out@ =~= stub_embedding());
    }
    out
}

impl Default for CanisterState {
    fn default() -> (r: Self)
        ensures
            r@ == fresh_state_view(),
    {
        let r = CanisterState {
            face_detection_model_bytes: Vec::new(),
            face_recognition_model_bytes: Vec::new(),
            face_detection_model_loaded: false,
            face_recognition_model_loaded: false,
            face_detection_model_status: ModelStatus::NotLoaded,
            face_recognition_model_status: ModelStatus::NotLoaded,
            stats: CanisterStats {
                face_detection_model_status: ModelStatus::NotLoaded,
                face_recognition_model_status: ModelStatus::NotLoaded,
                total_detections: 0,
                total_recognitions: 0,
                model_detection_size: 0,
                model_recognition_size: 0,
            },
        };
        proof {
            assert(r@ =~= fresh_state_view());
        }
        r
    }
}

impl CanisterState {
    /// Concatenate a chunk onto the detector buffer; see
    /// [`spec_append_detection`]. Appending nothing still marks the
    /// model `Loading`.
    pub fn append_face_detection_model_bytes(&mut self, bytes: &[u8])
        ensures
            final(self)@ == spec_append_detection(old(self)@, bytes@),
    {
        self.face_detection_model_bytes.extend_from_slice(bytes);
        self.face_detection_model_status = ModelStatus::Loading;
        self.stats.face_detection_model_status = ModelStatus::Loading;
        self.stats.model_detection_size = self.face_detection_model_bytes.len() as u64;
        proof {
            assert(self@ =~= spec_append_detection(old(self)@, bytes@));
        }
    }

    /// Concatenate a chunk onto the recognizer buffer; see
    /// [`spec_append_recognition`].
    pub fn append_face_recognition_model_bytes(&mut self, bytes: &[u8])
        ensures
            final(self)@ == spec_append_recognition(old(self)@, bytes@),
    {
        self.face_recognition_model_bytes.extend_from_slice(bytes);
        self.face_recognition_model_status = ModelStatus::Loading;
        self.stats.face_recognition_model_status = ModelStatus::Loading;
        self.stats.model_recognition_size = self.face_recognition_model_bytes.len() as u64;
        proof {
            assert(self@ =~= spec_append_recognition(old(self)@, bytes@));
        }
    }

    /// Drop the detector buffer and everything built from it; see
    /// [`spec_clear_detection`].
    pub fn clear_face_detection_model_bytes(&mut self)
        ensures
            final(self)@ == spec_clear_detection(old(self)@),
    {
        self.face_detection_model_bytes.clear();
        self.face_detection_model_loaded = false;
        self.face_detection_model_status = ModelStatus::NotLoaded;
        self.stats.face_detection_model_status = ModelStatus::NotLoaded;
        self.stats.model_detection_size = 0;
        proof {
            assert(self@ =~= spec_clear_detection(old(self)@));
        }
    }

    /// Drop the recognizer buffer and everything built from it; see
    /// [`spec_clear_recognition`].
    pub fn clear_face_recognition_model_bytes(&mut self)
        ensures
            final(self)@ == spec_clear_recognition(old(self)@),
    {
        self.face_recognition_model_bytes.clear();
        self.face_recognition_model_loaded = false;
        self.face_recognition_model_status = ModelStatus::NotLoaded;
        self.stats.face_recognition_model_status = ModelStatus::NotLoaded;
        self.stats.model_recognition_size = 0;
        proof {
            assert(self@ =~= spec_clear_recognition(old(self)@));
        }
    }

    /// Attempt to load both models from their buffers and report one
    /// line per model; see [`spec_setup`] and [`spec_setup_report`].
    pub fn setup_models(&mut self) -> (r: String)
        ensures
            final(self)@ == spec_setup(old(self)@),
            r@ == spec_setup_report(old(self)@),
    {
        let line1: String = if self.face_detection_model_bytes.len() == 0 {
            "⚠️ No face detection model bytes available".to_owned()
        } else {
            match validate_model_bytes(self.face_detection_model_bytes.as_slice()) {
                Ok(_) => {
                    self.face_detection_model_loaded = true;
                    self.face_detection_model_status = ModelStatus::Ready;
                    self.stats.face_detection_model_status = ModelStatus::Ready;
                    "✅ Face detection model loaded successfully".to_owned()
                },
                Err(e) => {
                    let mut msg = "Failed to load face detection model: ".to_owned();
                    msg.append(e.as_str());
                    self.face_detection_model_status = ModelStatus::Error(msg.clone());
                    self.stats.face_detection_model_status = ModelStatus::Error(msg.clone());
                    let mut line = "❌ ".to_owned();
                    line.append(msg.as_str());
                    line
                },
            }
        };
        proof {
            assert(self@ =~= spec_setup_detection(old(self)@));
        }
        let line2: String = if self.face_recognition_model_bytes.len() == 0 {
            "⚠️ No face recognition model bytes available".to_owned()
        } else {
            match validate_model_bytes(self.face_recognition_model_bytes.as_slice()) {
                Ok(_) => {
                    self.face_recognition_model_loaded = true;
                    self.face_recognition_model_status = ModelStatus::Ready;
                    self.stats.face_recognition_model_status = ModelStatus::Ready;
                    "✅ Face recognition model loaded successfully".to_owned()
                },
                Err(e) => {
                    let mut msg = "Failed to load face recognition model: ".to_owned();
                    msg.append(e.as_str());
                    self.face_recognition_model_status = ModelStatus::Error(msg.clone());
                    self.stats.face_recognition_model_status = ModelStatus::Error(msg.clone());
                    let mut line = "❌ ".to_owned();
                    line.append(msg.as_str());
                    line
                },
            }
        };
        proof {
            assert(self@ =~= spec_setup(old(self)@));
        }
        let mut report = line1;
        report.append("\n");
        report.append(line2.as_str());
        report
    }

    /// Serve a detection request: the counter moves first, and with no
    /// detector loaded the result is the all-false, empty one; with a
    /// detector loaded it is what the detection backend answers.
    pub fn detect_face(&mut self, image_bytes: &[u8]) -> (r: FaceDetectionResult)
        requires
            old(self).stats.total_detections < u64::MAX,
        ensures
            final(self)@ == spec_count_detection(old(self)@),
            detection_result_wf(r),
            !old(self).face_detection_model_loaded ==> !r.face_detected && r.face_count == 0
                && r.bounding_boxes@.len() == 0,
            old(self).face_detection_model_loaded ==> r.face_detected && r.face_count == 1
                && r.bounding_boxes@ == seq![stub_detection_box()],
    {
        self.stats.total_detections = self.stats.total_detections + 1;
        proof {
            assert(self@ =~= spec_count_detection(old(self)@));
        }
        if !self.face_detection_model_loaded {
            return empty_detection_result();
        }
        process_face_detection(image_bytes)
    }

    /// Serve a recognition request: the counter moves first; detection
    /// runs as in [`CanisterState::detect_face`]; the embedding is
    /// attached only when a face was found and the recognizer is
    /// loaded, and the boxes found are carried through either way.
    pub fn recognize_face(&mut self, image_bytes: &[u8]) -> (r: FaceRecognitionResult)
        requires
            old(self).stats.total_recognitions < u64::MAX,
        ensures
            final(self)@ == spec_count_recognition(old(self)@),
            recognition_result_wf(r),
            !old(self).face_detection_model_loaded ==> !r.face_detected && r.face_count == 0
                && r.bounding_boxes@.len() == 0 && r.face_embeddings@.len() == 0,
            old(self).face_detection_model_loaded ==> r.face_detected && r.face_count == 1
                && r.bounding_boxes@ == seq![stub_detection_box()],
            old(self).face_detection_model_loaded && old(self).face_recognition_model_loaded
                ==> r.face_embeddings@ == stub_embedding(),
            old(self).face_detection_model_loaded && !old(self).face_recognition_model_loaded
                ==> r.face_embeddings@.len() == 0,
    {
        self.stats.total_recognitions = self.stats.total_recognitions + 1;
        proof {
            assert(self@ =~= spec_count_recognition(old(self)@));
        }
        if !self.face_detection_model_loaded {
            return empty_recognition_result();
        }
        let detection = process_face_detection(image_bytes);
        if !detection.face_detected || !self.face_recognition_model_loaded {
            return FaceRecognitionResult {
                face_detected: detection.face_detected,
                face_count: detection.face_count,
                face_embeddings: Vec::new(),
                bounding_boxes: detection.bounding_boxes,
            };
        }
        let embeddings = process_face_recognition(image_bytes, &detection.bounding_boxes);
        FaceRecognitionResult {
            face_detected: detection.face_detected,
            face_count: detection.face_count,
            face_embeddings: embeddings,
            bounding_boxes: detection.bounding_boxes,
        }
    }

    /// A snapshot copy of the running statistics.
    pub fn get_stats(&self) -> (r: CanisterStats)
        ensures
            r@ == self.stats@,
    {
        self.stats.clone()
    }

    /// True exactly when both models are `Ready`.
    pub fn health_check(&self) -> (r: bool)
        ensures
            r == (self.face_detection_model_status@ is Ready
                && self.face_recognition_model_status@ is Ready),
    {
        self.face_detection_model_status.is_ready() && self.face_recognition_model_status.is_ready()
    }

    /// Zero the two counters and touch nothing else; see
    /// [`spec_reset_stats`].
    pub fn reset_stats(&mut self)
        ensures
            final(self)@ == spec_reset_stats(old(self)@),
    {
        self.stats.total_detections = 0;
        self.stats.total_recognitions = 0;
        proof {
            assert(self@ =~= spec_reset_stats(old(self)@));
        }
    }

    /// The bytes the host persists before suspending: the encoded
    /// statistics record, and only that.
    pub fn snapshot_stats(&self) -> (r: Vec<u8>)
        ensures
            r@ == spec_encode_stats(self.stats@),
    {
        encode_stats(&self.stats)
    }

    /// Adopt the statistics a prior instance persisted, if the bytes
    /// decode; anything else leaves the fresh defaults in place. Model
    /// buffers and load state never cross a restart.
    pub fn restore_stats(&mut self, bytes: &Vec<u8>)
        ensures
            match spec_decode_stats(bytes@) {
                Some(v) => final(self)@ == StateView {
                    det_bytes: old(self)@.det_bytes,
                    rec_bytes: old(self)@.rec_bytes,
                    det_loaded: old(self)@.det_loaded,
                    rec_loaded: old(self)@.rec_loaded,
                    det_status: old(self)@.det_status,
                    rec_status: old(self)@.rec_status,
                    stats: v,
                },
                None => final(self)@ == old(self)@,
            },
    {
        match decode_stats(bytes) {
            Some(restored) => {
                self.stats = restored;
                proof {
                    assert(self@ =~= StateView {
                        det_bytes: old(self)@.det_bytes,
                        rec_bytes: old(self)@.rec_bytes,
                        det_loaded: old(self)@.det_loaded,
                        rec_loaded: old(self)@.rec_loaded,
                        det_status: old(self)@.det_status,
                        rec_status: old(self)@.rec_status,
                        stats: spec_decode_stats(bytes@).unwrap(),
                    });
                }
            },
            None => {},
        }
    }
}

/// Uploading one concatenated chunk is the same as uploading its two
/// halves in order, on either buffer — and a load attempt after the
/// one is a load attempt after the other, since the states are equal.
pub proof fn lemma_append_chunks_associative(s: StateView, a: Seq<u8>, b: Seq<u8>)
    ensures
        spec_append_detection(spec_append_detection(s, a), b) == spec_append_detection(s, a + b),
        spec_append_recognition(spec_append_recognition(s, a), b) == spec_append_recognition(
            s,
            a + b,
        ),
        spec_setup(spec_append_detection(spec_append_detection(s, a), b)) == spec_setup(
            spec_append_detection(s, a + b),
        ),
{
    assert(s.det_bytes + a + b =~= s.det_bytes + (a + b));
    assert(s.rec_bytes + a + b =~= s.rec_bytes + (a + b));
    assert(spec_append_detection(spec_append_detection(s, a), b) =~= spec_append_detection(
        s,
        a + b,
    ));
    assert(spec_append_recognition(spec_append_recognition(s, a), b) =~= spec_append_recognition(
        s,
        a + b,
    ));
}

} // verus!
