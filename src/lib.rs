//! Verified core of an image-classification service: turning image bytes
//! into the model's planar input tensor, choosing the top class from the
//! model's scores, the model host's load/access policy, and the mapping of
//! pipeline failures to response codes.
pub mod decode;
pub mod error;
pub mod host;
pub mod postprocess;
pub mod preprocess;

pub use decode::{decode_image, PixelGrid};
pub use error::{method_status, response_status, status_for_error, PipelineError};
pub use host::{Admission, HostPhase, HostPolicy, ModelHost};
pub use postprocess::{postprocess, score_rank, Prediction, SIGN_BIT};
pub use preprocess::{
    channel_denominator, check_input_shape, mean_of_channel, normalize_planar, normalize_sample,
    prepare_input, preprocess, InputTensor, CHANNELS, MEAN_B_MILLI, MEAN_G_MILLI,
    MEAN_R_MILLI, PLANE_LEN, SAMPLE_MAX, STD_B_MILLI, STD_G_MILLI, STD_R_MILLI,
    TARGET_HEIGHT, TARGET_WIDTH, TENSOR_LEN,
};

