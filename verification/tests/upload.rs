use chat_relay::caption::{
    caption_job, process_image, process_image_with, CaptionAction, CaptionError, CaptionEvent,
    CaptionState,
};
use chat_relay::dto::{ImageItem, ImgData};
use chat_relay::stream::{StreamError, StreamInput};
use chat_relay::token::FreshTokens;
use chat_relay::poll::{
    judge_poll, read_poll, PollVerdict, INDEX_ERROR, INDEX_READY, POLL_ATTEMPTS,
    POLL_SPACING_MILLIS,
};
use chat_relay::upload::{
    file_extension, poll_endpoint, presign_endpoint, register_endpoint, upload_image,
    upload_image_with, PresignRequest, RegisterRequest, UploadAction, UploadError, UploadEvent,
    UploadJob, UploadState,
};

const PENDING: &str = r#"{"data":{"items":[{"index_state":1}]}}"#;
const FAILED: &str = r#"{"data":{"items":[{"index_state":2,"error_message":"boom"}]}}"#;
const READY: &str =
    r#"{"data":{"items":[{"index_state":3,"file_tokens":258,"file_chunks":4}]}}"#;

fn job() -> UploadJob {
    UploadJob {
        filename: "cat.final.png".to_string(),
        file_size: 2048,
        url: "https://img.invalid/cat".to_string(),
    }
}

fn polling() -> UploadState {
    UploadState::Polling { object_url: "obj".to_string(), file_uid: "uid".to_string(), asked: 1 }
}

fn tokens() -> FreshTokens {
    FreshTokens {
        conversation: "C".to_string(),
        parent: "P".to_string(),
        item: "I".to_string(),
        reply: "R".to_string(),
        task: "T".to_string(),
    }
}

/// Feeds the answers to an upload that is asking about the index, waits
/// where it is told to, and counts the questions asked.
fn poll_through(answers: &[&str]) -> (UploadAction, u64) {
    let mut state = polling();
    let mut asked = 1;
    let mut next = 0;
    loop {
        let (after, action) =
            upload_image_with(&job(), state, UploadEvent::Body(answers[next].to_string()), String::new());
        next += 1;
        match action {
            UploadAction::Wait { millis } => {
                assert_eq!(millis, 1000);
                let (after, action) =
                    upload_image_with(&job(), after, UploadEvent::Waited, String::new());
                match action {
                    UploadAction::Poll { file_uid } => {
                        assert_eq!(file_uid, "uid");
                        asked += 1;
                        state = after;
                    }
                    other => return (other, asked),
                }
            }
            other => return (other, asked),
        }
    }
}

#[test]
fn extension_follows_the_last_dot() {
    assert_eq!(file_extension("a.b.png"), "png");
    assert_eq!(file_extension("noext"), "noext");
    assert_eq!(file_extension("x."), "");
    assert_eq!(file_extension(".hidden"), "hidden");
    assert_eq!(file_extension(""), "");
    assert_eq!(file_extension("图.片"), "片");
    for name in ["a.b.png", "noext", "x.", ".hidden", "", "a..b"] {
        assert_eq!(file_extension(name), name.split('.').last().unwrap());
    }
}

#[test]
fn poll_constants_are_five_attempts_a_second_apart() {
    assert_eq!(POLL_ATTEMPTS, 5);
    assert_eq!(POLL_SPACING_MILLIS, 1000);
    assert_eq!(INDEX_READY, 3);
    assert_eq!(INDEX_ERROR, 2);
}

#[test]
fn judge_poll_tells_ready_error_and_pending_apart() {
    assert_eq!(
        judge_poll(1, Some(3), Some(10), Some(2), None),
        PollVerdict::Ready { file_tokens: 10, file_chunks: 2 }
    );
    assert_eq!(
        judge_poll(1, Some(2), None, None, Some("bad file".to_string())),
        PollVerdict::Failed(UploadError::Remote("Upload processing error:\nbad file".to_string()))
    );
    assert_eq!(
        judge_poll(5, Some(2), None, None, None),
        PollVerdict::Failed(UploadError::Remote("Upload processing error:\n".to_string()))
    );
    for state in [0u64, 1, 4, 99] {
        for attempt in 1..5u64 {
            assert_eq!(judge_poll(attempt, Some(state), None, None, None), PollVerdict::Retry);
        }
        assert_eq!(
            judge_poll(5, Some(state), None, None, None),
            PollVerdict::Failed(UploadError::Timeout)
        );
        assert_eq!(
            judge_poll(6, Some(state), Some(1), Some(1), None),
            PollVerdict::Failed(UploadError::Timeout)
        );
    }
}

#[test]
fn judge_poll_reports_a_malformed_answer() {
    let malformed = PollVerdict::Failed(UploadError::Remote("malformed response".to_string()));
    assert_eq!(judge_poll(1, None, Some(1), Some(1), None), malformed);
    assert_eq!(judge_poll(1, Some(3), None, Some(1), None), malformed);
    assert_eq!(judge_poll(1, Some(3), Some(1), None, None), malformed);
}

#[test]
fn read_poll_reads_the_first_item() {
    assert_eq!(read_poll(1, PENDING), PollVerdict::Retry);
    assert_eq!(read_poll(1, READY), PollVerdict::Ready { file_tokens: 258, file_chunks: 4 });
    assert_eq!(
        read_poll(1, FAILED),
        PollVerdict::Failed(UploadError::Remote("Upload processing error:\nboom".to_string()))
    );
    assert_eq!(
        read_poll(1, r#"{"data":{"items":[]}}"#),
        PollVerdict::Failed(UploadError::Remote("malformed response".to_string()))
    );
    assert_eq!(
        read_poll(1, r#"{"data":{"items":[{"index_state":-3}]}}"#),
        PollVerdict::Failed(UploadError::Remote("malformed response".to_string()))
    );
    match read_poll(1, "<html>") {
        PollVerdict::Failed(UploadError::Remote(cause)) => {
            assert_ne!(cause, "<html>");
            assert_ne!(cause, "malformed response");
            assert!(!cause.is_empty());
        }
        other => panic!("{:?}", other),
    }
}

#[test]
fn an_error_on_the_third_poll_fails_at_once() {
    let (action, asked) = poll_through(&[PENDING, PENDING, FAILED, PENDING, PENDING, PENDING]);
    assert_eq!(
        action,
        UploadAction::Fail(UploadError::Remote("Upload processing error:\nboom".to_string()))
    );
    assert_eq!(asked, 3);
}

#[test]
fn six_pending_answers_time_out_after_five_polls() {
    let (action, asked) = poll_through(&[PENDING; 6]);
    assert_eq!(action, UploadAction::Fail(UploadError::Timeout));
    assert_eq!(asked, 5);
}

#[test]
fn a_ready_answer_on_the_fifth_poll_still_counts() {
    let (action, asked) = poll_through(&[PENDING, PENDING, PENDING, PENDING, READY]);
    assert_eq!(asked, 5);
    assert!(matches!(action, UploadAction::Done(_)));
}

#[test]
fn an_upload_runs_from_the_download_to_the_file() {
    let job = job();
    let (state, action) =
        upload_image_with(&job, UploadState::Idle, UploadEvent::Start, String::new());
    assert_eq!(action, UploadAction::Download { url: "https://img.invalid/cat".to_string() });
    let (state, action) = upload_image_with(&job, state, UploadEvent::Fetched, "obj22".to_string());
    assert_eq!(
        action,
        UploadAction::Presign(PresignRequest {
            filename_list: vec!["cat.final.png".to_string()],
            location: "files".to_string(),
            module: "chat_bot".to_string(),
            obj_id: "obj22".to_string(),
        })
    );
    let body = r#"{"data":{"pre_sign_url_list":["https://put.invalid/1","x"],
        "object_url_list":["https://obj.invalid/1"]}}"#;
    let (state, action) =
        upload_image_with(&job, state, UploadEvent::Body(body.to_string()), String::new());
    assert_eq!(action, UploadAction::Store { upload_url: "https://put.invalid/1".to_string() });
    let (state, action) = upload_image_with(&job, state, UploadEvent::Stored, String::new());
    assert_eq!(
        action,
        UploadAction::Register(RegisterRequest {
            url: String::new(),
            parse: true,
            file_name: "cat.final.png".to_string(),
            file_size: 2048,
            file_type: "png".to_string(),
            object_url: "https://obj.invalid/1".to_string(),
            embedding: false,
        })
    );
    let body = r#"{"data":{"items":[{"file_uid":"file-7"}]}}"#;
    let (state, action) =
        upload_image_with(&job, state, UploadEvent::Body(body.to_string()), String::new());
    assert_eq!(action, UploadAction::Poll { file_uid: "file-7".to_string() });
    let (state, action) =
        upload_image_with(&job, state, UploadEvent::Body(PENDING.to_string()), String::new());
    assert_eq!(action, UploadAction::Wait { millis: 1000 });
    let (state, action) = upload_image_with(&job, state, UploadEvent::Waited, String::new());
    assert_eq!(action, UploadAction::Poll { file_uid: "file-7".to_string() });
    let (state, action) =
        upload_image_with(&job, state, UploadEvent::Body(READY.to_string()), String::new());
    assert_eq!(state, UploadState::Finished);
    assert_eq!(
        action,
        UploadAction::Done(ImageItem {
            use_full_text: true,
            file_name: "cat.final.png".to_string(),
            file_type: "png".to_string(),
            file_ext: "png".to_string(),
            file_size: 2048,
            file_url: "https://obj.invalid/1".to_string(),
            file_uid: "file-7".to_string(),
            file_chunks: 4,
            file_tokens: 258,
        })
    );
}

#[test]
fn an_upload_fails_on_a_failed_transfer_and_on_a_malformed_answer() {
    let (state, action) = upload_image_with(
        &job(),
        UploadState::Downloading,
        UploadEvent::Failed("no route".to_string()),
        String::new(),
    );
    assert_eq!(state, UploadState::Finished);
    assert_eq!(action, UploadAction::Fail(UploadError::Remote("no route".to_string())));
    let (_, action) = upload_image_with(
        &job(),
        UploadState::Presigning,
        UploadEvent::Body(r#"{"data":{"pre_sign_url_list":[]}}"#.to_string()),
        String::new(),
    );
    assert_eq!(action, UploadAction::Fail(UploadError::Remote("malformed response".to_string())));
    let (_, action) = upload_image_with(
        &job(),
        UploadState::Registering { object_url: "o".to_string() },
        UploadEvent::Body(r#"{"data":{}}"#.to_string()),
        String::new(),
    );
    assert_eq!(action, UploadAction::Fail(UploadError::Remote("malformed response".to_string())));
    let (_, action) =
        upload_image_with(&job(), UploadState::Idle, UploadEvent::Waited, String::new());
    assert_eq!(action, UploadAction::Fail(UploadError::Remote("unexpected event".to_string())));
    let (_, action) =
        upload_image_with(&job(), UploadState::Finished, UploadEvent::Start, String::new());
    assert_eq!(action, UploadAction::Fail(UploadError::Remote("unexpected event".to_string())));
}

#[test]
fn upload_image_draws_the_name_of_the_object() {
    let (_, action) = upload_image(&job(), UploadState::Downloading, UploadEvent::Fetched);
    match action {
        UploadAction::Presign(request) => {
            assert_eq!(request.obj_id.chars().count(), 22);
            assert!(request.obj_id.chars().all(|c| c.is_ascii_alphanumeric()));
        }
        other => panic!("{:?}", other),
    }
    let (state, action) = upload_image(&job(), UploadState::Idle, UploadEvent::Start);
    assert_eq!(state, UploadState::Downloading);
    assert_eq!(action, UploadAction::Download { url: "https://img.invalid/cat".to_string() });
}

#[test]
fn the_endpoints_are_those_of_the_backend() {
    assert_eq!(presign_endpoint(), "https://api.monica.im/api/file_object/pre_sign_list_by_module");
    assert_eq!(register_endpoint(), "https://api.monica.im/api/files/batch_create_llm_file");
    assert_eq!(poll_endpoint(), "https://api.monica.im/api/files/batch_get_file");
}

#[test]
fn caption_job_needs_a_size_that_is_a_number() {
    let data = ImgData {
        summary: "[photo]".to_string(),
        file: "cat.png".to_string(),
        url: "https://img.invalid/cat".to_string(),
        file_size: "2048".to_string(),
    };
    assert_eq!(
        caption_job(&data),
        Some(UploadJob {
            filename: "cat.png".to_string(),
            file_size: 2048,
            url: "https://img.invalid/cat".to_string(),
        })
    );
    let sticker = ImgData { file_size: String::new(), ..data };
    assert_eq!(caption_job(&sticker), None);
}

#[test]
fn a_description_asks_once_the_file_is_indexed() {
    let (state, action) = process_image_with(
        &job(),
        CaptionState::Uploading(polling()),
        CaptionEvent::Upload(UploadEvent::Body(READY.to_string())),
        String::new(),
        tokens(),
    );
    assert_eq!(state, CaptionState::Listening(String::new()));
    let request = match action {
        CaptionAction::Ask(request) => request,
        other => panic!("{:?}", other),
    };
    assert_eq!(request.task_uid, "task:T");
    assert_eq!(request.bot_uid, "gemini_2_0");
    assert_eq!(request.data.conversation_id, "C");
    assert_eq!(request.data.pre_generated_reply_id, "msg:R");
    assert_eq!(request.data.pre_parent_item_id, "msg:I");
    assert_eq!(request.data.use_model, "gemini-2.0");
    assert!(request.data.is_incognito);
    assert_eq!(request.data.items.len(), 2);
    assert_eq!(request.data.items[0].item_id, "msg:P");
    assert_eq!(request.data.items[0].item_type, "reply");
    assert_eq!(request.data.items[1].item_id, "msg:I");
    assert_eq!(request.data.items[1].conversation_id, "conv:C");
    assert_eq!(request.data.items[1].parent_item_id, Some("msg:P".to_string()));
    assert_eq!(request.data.items[1].data.data_type, "file_with_text");
    assert_eq!(request.data.items[1].data.content, "解释这张图片 ");
    assert_eq!(request.data.items[1].data.is_incognito, Some(true));
    let files = request.data.items[1].data.file_infos.clone().unwrap();
    assert_eq!(files.len(), 1);
    assert_eq!(files[0].file_uid, "uid");
    assert_eq!(files[0].file_ext, "png");

    let (state, action) = process_image_with(
        &job(),
        state,
        CaptionEvent::Stream(StreamInput::Message(r#"{"text":"A cat."}"#.to_string())),
        String::new(),
        FreshTokens::blank(),
    );
    assert_eq!(action, CaptionAction::Listen { idle_seconds: 30 });
    let (state, action) = process_image_with(
        &job(),
        state,
        CaptionEvent::Stream(StreamInput::Message(r#"{"finished":true}"#.to_string())),
        String::new(),
        FreshTokens::blank(),
    );
    assert_eq!(state, CaptionState::Finished);
    assert_eq!(action, CaptionAction::Reply("A cat.".to_string()));
}

#[test]
fn a_description_fails_with_the_upload_or_the_stream() {
    let (state, action) = process_image(
        &job(),
        CaptionState::Uploading(polling()),
        CaptionEvent::Upload(UploadEvent::Body(FAILED.to_string())),
    );
    assert_eq!(state, CaptionState::Finished);
    assert_eq!(
        action,
        CaptionAction::Fail(CaptionError::Upload(UploadError::Remote(
            "Upload processing error:\nboom".to_string()
        )))
    );
    let (_, action) = process_image(
        &job(),
        CaptionState::Listening("x".to_string()),
        CaptionEvent::Stream(StreamInput::Idle),
    );
    assert_eq!(action, CaptionAction::Fail(CaptionError::Stream(StreamError::Timeout)));
    let (_, action) = process_image(
        &job(),
        CaptionState::Listening("x".to_string()),
        CaptionEvent::Upload(UploadEvent::Waited),
    );
    assert_eq!(
        action,
        CaptionAction::Fail(CaptionError::Upload(UploadError::Remote(
            "unexpected event".to_string()
        )))
    );
    let (state, action) =
        process_image(&job(), CaptionState::Uploading(UploadState::Idle), CaptionEvent::Upload(UploadEvent::Start));
    assert_eq!(state, CaptionState::Uploading(UploadState::Downloading));
    assert!(matches!(action, CaptionAction::Upload(UploadAction::Download { .. })));
}
