//! The recognition session: at most one recognition runs at a time, and a
//! running one can be cancelled from outside.

use crate::services::image::{
    prepared, process_image_for_api, processed_model, ProcessedImage, ProcessedModel,
};
use crate::services::llm::{RecognitionOptions, RecognitionResult, ResultModel};
use crate::text::concat;
use vstd::prelude::*;
use vstd::string::*;

verus! {

/// `tokio::task::AbortHandle`, the permission to cancel a spawned task.
#[verifier::external_type_specification]
#[verifier::external_body]
pub struct ExAbortHandle(tokio::task::AbortHandle);

/// `AbortHandle::abort` asks the runtime to cancel the task and returns at
/// once; it gives nothing back.
pub assume_specification[ tokio::task::AbortHandle::abort ](handle: &tokio::task::AbortHandle);

/// What the caller asks of a recognition.
pub struct RecognitionRequest {
    pub config_id: i64,
    pub image_data: String,
    pub image_mime_type: String,
    pub prompt: String,
    pub options: Option<RecognitionOptions>,
}

/// The session slot: the handle of the recognition that runs, if one does.
pub struct RecognitionState {
    pub abort_handle: Option<tokio::task::AbortHandle>,
}

/// How the task of a recognition ended.
pub enum TaskOutcome {
    /// The task ran to its end and gave a result.
    Completed(RecognitionResult),
    /// The task was cancelled.
    Cancelled,
    /// The task itself failed; the text says how.
    Failed(String),
}

/// The message of a cancel request that finds nothing running.
pub open spec fn no_active_recognition() -> Seq<char> {
    "No active recognition to cancel"@
}

/// The error of a recognition that was cancelled.
pub open spec fn cancelled_message() -> Seq<char> {
    "识别已取消"@
}

/// The result of a recognition that was cancelled: a failure with the
/// fixed message, and no content, token count or duration.
pub open spec fn cancelled_result() -> ResultModel {
    ResultModel::failed(cancelled_message(), None)
}

/// `result` with the payload of the image that was sent, where preparing
/// the image changed it.
pub open spec fn annotated(result: ResultModel, was_compressed: bool, payload: Seq<char>) -> ResultModel {
    if was_compressed {
        ResultModel {
            success: result.success,
            content: result.content,
            error: result.error,
            tokens_used: result.tokens_used,
            duration_ms: result.duration_ms,
            processed_image: Some(payload),
        }
    } else {
        result
    }
}

/// What the caller gets for the end of a task: the result of a task that
/// ran to its end, annotated with the image that was sent; the cancelled
/// result for a task that was cancelled; and an error for a task that
/// failed.
pub open spec fn settled(outcome: TaskOutcome, was_compressed: bool, payload: Seq<char>) -> Result<
    ResultModel,
    Seq<char>,
> {
    match outcome {
        TaskOutcome::Completed(result) => Ok(annotated(result@, was_compressed, payload)),
        TaskOutcome::Cancelled => Ok(cancelled_result()),
        TaskOutcome::Failed(e) => Err("识别任务失败: "@ + e@),
    }
}

/// The value of what the caller gets.
pub open spec fn settled_model(r: Result<RecognitionResult, String>) -> Result<
    ResultModel,
    Seq<char>,
> {
    match r {
        Ok(result) => Ok(result@),
        Err(e) => Err(e@),
    }
}

impl RecognitionState {
    /// Whether a recognition runs.
    pub open spec fn running(self) -> bool {
        self.abort_handle is Some
    }

    /// The session with nothing running.
    pub fn new() -> (state: RecognitionState)
        ensures
            !state.running(),
    {
        RecognitionState { abort_handle: None }
    }

    /// Whether a recognition runs.
    pub fn is_running(&self) -> (running: bool)
        ensures
            running == self.running(),
    {
        self.abort_handle.is_some()
    }

    /// Records the handle of the recognition that has begun.
    pub fn start(&mut self, handle: tokio::task::AbortHandle)
        ensures
            final(self).running(),
            final(self).abort_handle == Some(handle),
    {
        self.abort_handle = Some(handle);
    }

    /// Ends the recognition that ran, whatever its outcome: the slot is
    /// cleared, and the outcome becomes what the caller gets.
    pub fn finish(&mut self, outcome: TaskOutcome, processed: &ProcessedImage) -> (end: Result<
        RecognitionResult,
        String,
    >)
        ensures
            !final(self).running(),
            settled_model(end) == settled(
                outcome,
                processed.was_compressed,
                processed.base64@,
            ),
    {
        self.abort_handle = None;
        match outcome {
            TaskOutcome::Completed(result) => {
                let mut result = result;
                if processed.was_compressed {
                    result.processed_image = Some(processed.base64.clone());
                }
                Ok(result)
            },
            TaskOutcome::Cancelled => Ok(
                RecognitionResult::failed(String::from_str("识别已取消"), None),
            ),
            TaskOutcome::Failed(e) => Err(concat("识别任务失败: ", e.as_str())),
        }
    }
}

/// Asks the recognition that runs to stop, and returns at once. Fails
/// where none runs. The slot stays as it is: the end of the task clears
/// it.
pub fn cancel_recognition(state: &RecognitionState) -> (asked: Result<(), String>)
    ensures
        asked is Ok <==> state.running(),
        asked matches Err(message) ==> message@ == no_active_recognition(),
{
    match &state.abort_handle {
        Some(handle) => {
            handle.abort();
            Ok(())
        },
        None => Err(String::from_str("No active recognition to cancel")),
    }
}

/// Whether a threshold of so many kibibytes can be counted in bytes.
pub open spec fn threshold_fits(compress_threshold: i32) -> bool {
    0 <= compress_threshold && compress_threshold * 1024 <= usize::MAX
}

/// The byte budget that a threshold in kibibytes stands for.
pub fn threshold_bytes(compress_threshold: i32) -> (bytes: usize)
    requires
        threshold_fits(compress_threshold),
    ensures
        bytes == compress_threshold * 1024,
{
    (compress_threshold as usize) * 1024
}

/// Whether a threshold in kibibytes can be counted in bytes.
pub fn threshold_is_valid(compress_threshold: i32) -> (valid: bool)
    ensures
        valid == threshold_fits(compress_threshold),
{
    compress_threshold >= 0 && (compress_threshold as u64) * 1024 <= usize::MAX as u64
}

/// The image of a request made ready for the provider, with the
/// compression that the settings ask for: a threshold in kibibytes, and
/// whether to compress at all. A failure says that the image could not be
/// made ready, and why.
pub open spec fn request_image(
    request: RecognitionRequest,
    auto_compress: bool,
    compress_threshold: i32,
) -> Result<ProcessedModel, Seq<char>> {
    match prepared(request.image_data@, auto_compress, (compress_threshold * 1024) as usize) {
        Ok(image) => Ok(image),
        Err(e) => Err("图片处理失败: "@ + e),
    }
}

/// Makes the image of a request ready before the recognition is started.
pub fn prepare_image(request: &RecognitionRequest, auto_compress: bool, compress_threshold: i32) -> (made:
    Result<ProcessedImage, String>)
    requires
        threshold_fits(compress_threshold),
    ensures
        processed_model(made) == request_image(*request, auto_compress, compress_threshold),
{
    let budget = threshold_bytes(compress_threshold);
    match process_image_for_api(request.image_data.as_str(), auto_compress, budget) {
        Ok(image) => Ok(image),
        Err(e) => Err(concat("图片处理失败: ", e.as_str())),
    }
}

} // verus!
