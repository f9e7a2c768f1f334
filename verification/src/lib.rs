//! A verified core for a face-inference service: incremental model
//! provisioning, decoding of detector output into candidate boxes,
//! the pixel geometry of cropping and planar tensor layout, and the
//! statistics lifecycle that survives a host restart. Floating-point
//! values travel through the library as IEEE-754 bit patterns; the
//! hosting adapter alone does float arithmetic.

pub mod codec;
pub mod decoder;
pub mod entropy;
pub mod float_bits;
pub mod pixels;
pub mod results;
pub mod state;
pub mod stats;
pub mod status;

pub use results::{BoundingBox, FaceDetectionResult, FaceRecognitionResult};
pub use state::{validate_model_bytes, CanisterState};
pub use stats::CanisterStats;
pub use status::ModelStatus;
