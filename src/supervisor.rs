//! The pipeline supervisor's verdict once the first of its tasks has ended.

use vstd::prelude::*;
use crate::errors::AudioPipelineError;

verus! {

/// How the first task to end did so: its own result, or the runtime's
/// report that it ended abnormally.
pub type TaskExit = Result<Result<(), AudioPipelineError>, tokio::task::JoinError>;

/// The pipeline's single outcome: success only where the first task to end
/// succeeded; otherwise that task's failure, or an abort where it ended
/// abnormally.
pub fn pipeline_outcome(completed: TaskExit) -> (r: Result<(), AudioPipelineError>)
    ensures
        match completed {
            Ok(Ok(())) => r is Ok,
            Ok(Err(e)) => r == Err::<(), AudioPipelineError>(e),
            Err(j) => r == Err::<(), AudioPipelineError>(
                AudioPipelineError::AudioPipelineTaskJoinError(j),
            ),
        },
{
    match completed {
        Ok(Ok(())) => Ok(()),
        Ok(Err(e)) => Err(e),
        Err(j) => Err(AudioPipelineError::AudioPipelineTaskJoinError(j)),
    }
}

} // verus!
