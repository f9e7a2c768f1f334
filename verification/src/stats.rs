//! Service statistics: per-model status, request counters, and the
//! recorded size of each uploaded model. This is the only value that
//! survives a host-induced restart.

use vstd::prelude::*;
use crate::status::{ModelStatus, StatusView};

verus! {

/// Mathematical value of a [`CanisterStats`].
pub struct StatsView {
    pub face_detection_model_status: StatusView,
    pub face_recognition_model_status: StatusView,
    pub total_detections: u64,
    pub total_recognitions: u64,
    pub model_detection_size: u64,
    pub model_recognition_size: u64,
}

/// Running statistics of the service. The two counters are monotonically
/// non-decreasing except on an explicit reset; the model sizes mirror the
/// byte buffers of the store.
#[derive(Debug)]
pub struct CanisterStats {
    pub face_detection_model_status: ModelStatus,
    pub face_recognition_model_status: ModelStatus,
    pub total_detections: u64,
    pub total_recognitions: u64,
    pub model_detection_size: u64,
    pub model_recognition_size: u64,
}

impl View for CanisterStats {
    type V = StatsView;

    open spec fn view(&self) -> StatsView {
        StatsView {
            face_detection_model_status: self.face_detection_model_status@,
            face_recognition_model_status: self.face_recognition_model_status@,
            total_detections: self.total_detections,
            total_recognitions: self.total_recognitions,
            model_detection_size: self.model_detection_size,
            model_recognition_size: self.model_recognition_size,
        }
    }
}

/// The statistics of a freshly started instance: nothing loaded, every
/// counter and size zero.
pub open spec fn fresh_stats_view() -> StatsView {
    StatsView {
        face_detection_model_status: StatusView::NotLoaded,
        face_recognition_model_status: StatusView::NotLoaded,
        total_detections: 0,
        total_recognitions: 0,
        model_detection_size: 0,
        model_recognition_size: 0,
    }
}

impl Clone for CanisterStats {
    fn clone(&self) -> (r: Self)
        ensures
            r@ == self@,
    {
        CanisterStats {
            face_detection_model_status: self.face_detection_model_status.clone(),
            face_recognition_model_status: self.face_recognition_model_status.clone(),
            total_detections: self.total_detections,
            total_recognitions: self.total_recognitions,
            model_detection_size: self.model_detection_size,
            model_recognition_size: self.model_recognition_size,
        }
    }
}

impl Default for CanisterStats {
    fn default() -> (r: Self)
        ensures
            r@ == fresh_stats_view(),
    {
        CanisterStats {
            face_detection_model_status: ModelStatus::NotLoaded,
            face_recognition_model_status: ModelStatus::NotLoaded,
            total_detections: 0,
            total_recognitions: 0,
            model_detection_size: 0,
            model_recognition_size: 0,
        }
    }
}

impl PartialEq for CanisterStats {
    fn eq(&self, other: &Self) -> (r: bool) {
        self.face_detection_model_status == other.face_detection_model_status
            && self.face_recognition_model_status == other.face_recognition_model_status
            && self.total_detections == other.total_detections
            && self.total_recognitions == other.total_recognitions
            && self.model_detection_size == other.model_detection_size
            && self.model_recognition_size == other.model_recognition_size
    }
}

impl vstd::std_specs::cmp::PartialEqSpecImpl for CanisterStats {
    open spec fn obeys_eq_spec() -> bool {
        true
    }

    open spec fn eq_spec(&self, other: &Self) -> bool {
        self@ == other@
    }
}

} // verus!
