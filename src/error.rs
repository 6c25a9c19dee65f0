use vstd::prelude::*;

verus! {

/// Every way a request can fail inside the pipeline.
#[derive(Debug, Clone, Copy, PartialEq, Eq, Structural)]
pub enum PipelineError {
    /// The bytes are not an image in a known container format, or the
    /// image inside is malformed.
    Decode,
    /// A tensor handed to the model does not have the declared input shape.
    ShapeMismatch,
    /// The inference engine failed during the forward pass.
    Inference,
    /// The model produced no scores.
    EmptyOutput,
    /// The model could not be loaded; the service does not serve without it.
    Load,
}

/// Status code of the response to a failed request: the client's fault
/// for undecodable bytes, the server's for everything else.
pub open spec fn error_status(e: PipelineError) -> u16 {
    match e {
        PipelineError::Decode => 400,
        PipelineError::Load => 503,
        _ => 500,
    }
}

pub fn status_for_error(e: PipelineError) -> (r: u16)
    ensures
        r == error_status(e),
{
    match e {
        PipelineError::Decode => 400,
        PipelineError::Load => 503,
        _ => 500,
    }
}

/// Status code chosen by the request's method before any other work:
/// `None` lets a POST through, anything else is refused with 405.
pub fn method_status(is_post: bool) -> (r: Option<u16>)
    ensures
        is_post ==> r is None,
        !is_post ==> r == Some(405u16),
{
    if is_post {
        None
    } else {
        Some(405)
    }
}

/// Status code of the response to a finished request: 200 with the
/// prediction, or the failure's own code.
pub open spec fn outcome_status(outcome: Result<crate::postprocess::Prediction, PipelineError>) -> u16 {
    match outcome {
        Ok(_) => 200,
        Err(e) => error_status(e),
    }
}

pub fn response_status(outcome: &Result<crate::postprocess::Prediction, PipelineError>) -> (r: u16)
    ensures
        r == outcome_status(*outcome),
{
    match outcome {
        Ok(_) => 200,
        Err(e) => status_for_error(*e),
    }
}

} // verus!
