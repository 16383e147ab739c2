use image_recognition::commands::recognition::{
    cancel_recognition, prepare_image, threshold_bytes, threshold_is_valid, RecognitionRequest,
    RecognitionState, TaskOutcome,
};
use image_recognition::services::image::ProcessedImage;
use image_recognition::services::llm::RecognitionResult;

fn processed(was_compressed: bool) -> ProcessedImage {
    ProcessedImage {
        base64: "UEFZ".to_string(),
        mime_type: "image/png".to_string(),
        original_size: 3,
        compressed_size: if was_compressed { Some(3) } else { None },
        was_compressed,
    }
}

#[test]
fn cancel_with_nothing_running_fails() {
    let state = RecognitionState::new();
    assert!(!state.is_running());
    assert_eq!(cancel_recognition(&state), Err("No active recognition to cancel".to_string()));
}

#[test]
fn cancel_reaches_the_running_recognition() {
    let runtime = tokio::runtime::Builder::new_current_thread().build().unwrap();
    let task = runtime.spawn(std::future::pending::<RecognitionResult>());
    let mut state = RecognitionState::new();
    state.start(task.abort_handle());
    assert!(state.is_running());
    assert_eq!(cancel_recognition(&state), Ok(()));
    assert!(state.is_running());
    let outcome = match runtime.block_on(task) {
        Ok(result) => TaskOutcome::Completed(result),
        Err(e) if e.is_cancelled() => TaskOutcome::Cancelled,
        Err(e) => TaskOutcome::Failed(e.to_string()),
    };
    let result = state.finish(outcome, &processed(true)).unwrap();
    assert!(!state.is_running());
    assert!(!result.success);
    assert_eq!(result.error.as_deref(), Some("识别已取消"));
    assert_eq!(result.content, None);
    assert_eq!(result.tokens_used, None);
    assert_eq!(result.duration_ms, None);
    assert_eq!(result.processed_image, None);
    assert_eq!(cancel_recognition(&state), Err("No active recognition to cancel".to_string()));
}

#[test]
fn finished_recognition_carries_the_image_that_was_sent() {
    let runtime = tokio::runtime::Builder::new_current_thread().build().unwrap();
    let task = runtime.spawn(std::future::ready(()));
    let mut state = RecognitionState::new();
    state.start(task.abort_handle());
    let done = RecognitionResult::succeeded("text".to_string(), Some(5), 17);
    let result = state.finish(TaskOutcome::Completed(done.clone()), &processed(true)).unwrap();
    assert!(!state.is_running());
    assert_eq!(result.processed_image.as_deref(), Some("UEFZ"));
    assert_eq!(result.content.as_deref(), Some("text"));
    assert_eq!(result.tokens_used, Some(5));
    assert_eq!(result.duration_ms, Some(17));
    let mut state = RecognitionState::new();
    let result = state.finish(TaskOutcome::Completed(done.clone()), &processed(false)).unwrap();
    assert_eq!(result, done);
}

#[test]
fn failed_task_is_an_error_and_clears_the_slot() {
    let runtime = tokio::runtime::Builder::new_current_thread().build().unwrap();
    let task = runtime.spawn(std::future::ready(()));
    let mut state = RecognitionState::new();
    state.start(task.abort_handle());
    let end = state.finish(TaskOutcome::Failed("panicked".to_string()), &processed(true));
    assert_eq!(end, Err("识别任务失败: panicked".to_string()));
    assert!(!state.is_running());
}

#[test]
fn threshold_is_counted_in_kibibytes() {
    assert!(threshold_is_valid(2048));
    assert_eq!(threshold_bytes(2048), 2_097_152);
    assert_eq!(threshold_bytes(0), 0);
    assert!(!threshold_is_valid(-1));
}

fn request(image_data: &str) -> RecognitionRequest {
    RecognitionRequest {
        config_id: 1,
        image_data: image_data.to_string(),
        image_mime_type: "image/png".to_string(),
        prompt: "say".to_string(),
        options: None,
    }
}

#[test]
fn image_of_a_request_is_made_ready_with_the_settings() {
    let made = prepare_image(&request("iVBORw0KGgo="), false, 2048).unwrap();
    assert_eq!(made.base64, "iVBORw0KGgo=");
    assert_eq!(made.mime_type, "image/png");
    assert_eq!(made.original_size, 8);
    assert_eq!(made.compressed_size, None);
    assert!(!made.was_compressed);
}

#[test]
fn image_that_cannot_be_made_ready_is_reported() {
    let refused = prepare_image(&request("***"), true, 2048).unwrap_err();
    assert!(refused.starts_with("图片处理失败: Invalid base64: "));
    let no_picture = prepare_image(&request("QUJD"), true, 2048).unwrap_err();
    assert!(no_picture.starts_with("图片处理失败: Failed to decode image: "));
}
