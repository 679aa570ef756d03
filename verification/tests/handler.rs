use chat_relay::caption::CaptionError;
use chat_relay::dto::ImgData;
use chat_relay::handler::group::{
    default_handler, handle as handle_group, keep_engaged, mentioned, message_images,
    resp as resp_group, with_quote, GroupPlan, IMAGE_MIN_SIZE,
};
use chat_relay::session::StoreCommand;
use chat_relay::handler::private::{handle as handle_private, message_text, resp as resp_private};
use chat_relay::handler::{recv, Receipt};
use chat_relay::message::{Data, RetMessage, Segment};
use chat_relay::report::error_reply;
use chat_relay::round::ConverseError;
use chat_relay::session::StoreError;
use chat_relay::stream::StreamError;
use chat_relay::upload::UploadError;

fn text(t: &str) -> Segment {
    Segment::Text { text: t.to_string() }
}

fn at(qq: &str) -> Segment {
    Segment::At { qq: qq.to_string() }
}

fn image(size: &str) -> ImgData {
    ImgData {
        summary: "[photo]".to_string(),
        file: "f.png".to_string(),
        url: "https://img.invalid/f".to_string(),
        file_size: size.to_string(),
    }
}

#[test]
fn events_are_sorted() {
    assert_eq!(recv(Some("ok"), "", ""), Receipt::Confirmed);
    assert_eq!(recv(Some("failed"), "message", "group"), Receipt::Refused);
    assert_eq!(recv(None, "message", "group"), Receipt::Group);
    assert_eq!(recv(None, "message", "private"), Receipt::Private);
    assert_eq!(recv(None, "message", "channel"), Receipt::Ignored);
    assert_eq!(recv(None, "notice", "group"), Receipt::Ignored);
    assert_eq!(recv(None, "meta_event", ""), Receipt::Ignored);
}

#[test]
fn the_text_of_a_message_is_what_its_text_parts_say() {
    let segments = vec![at("1"), text(" ~ai"), Segment::Other, text(" hi"), text("")];
    assert_eq!(message_text(&segments), " ~ai hi");
    assert_eq!(message_text(&Vec::new()), "");
}

#[test]
fn a_private_message_is_answered_only_as_a_command() {
    assert_eq!(handle_private(&vec![text("~ping")]), Some("~ping".to_string()));
    assert_eq!(handle_private(&vec![text("~"), text("ai hi")]), Some("~ai hi".to_string()));
    assert_eq!(handle_private(&vec![text(" ~ping")]), None);
    assert_eq!(handle_private(&vec![text("hello")]), None);
    assert_eq!(handle_private(&vec![]), None);
}

#[test]
fn a_mention_is_of_the_bots_own_number() {
    assert!(mentioned(&vec![text("x"), at("42")], 42));
    assert!(!mentioned(&vec![text("x"), at("43")], 42));
    assert!(!mentioned(&vec![text("42")], 42));
    assert!(!mentioned(&vec![at("042")], 42));
    assert!(!mentioned(&vec![at("all")], 42));
    assert!(!mentioned(&vec![], 0));
}

#[test]
fn a_message_in_a_room_is_planned() {
    let addressed = vec![at("42"), text(" hello")];
    let command = vec![at("42"), text(" ~ping")];
    let chatter = vec![text("hello")];
    for auto_join in [true, false] {
        assert_eq!(handle_group(&addressed, 42, auto_join), GroupPlan::Engage);
        assert_eq!(handle_group(&command, 42, auto_join), GroupPlan::Command);
    }
    assert_eq!(handle_group(&chatter, 42, true), GroupPlan::AnswerIfEngaged);
    assert_eq!(handle_group(&chatter, 42, false), GroupPlan::Ignore);
    assert_eq!(handle_group(&vec![at("42"), text("~ping")], 42, false), GroupPlan::Engage);
    assert_eq!(handle_group(&vec![text(" ~ping")], 42, false), GroupPlan::Ignore);
}

#[test]
fn images_are_taken_when_large_and_stickers_by_their_summary() {
    assert_eq!(IMAGE_MIN_SIZE, 1024);
    let segments = vec![
        Segment::Image { data: Some(image("2048")), summary: Some("[photo]".to_string()) },
        Segment::Image { data: Some(image("1024")), summary: None },
        Segment::Image { data: Some(image("1025")), summary: None },
        Segment::Image { data: Some(image("big")), summary: None },
        text("x"),
        Segment::Image { data: None, summary: Some("[sticker]".to_string()) },
        Segment::Image { data: None, summary: None },
    ];
    assert_eq!(
        message_images(&segments),
        vec![
            image("2048"),
            image("1025"),
            ImgData {
                summary: "[sticker]".to_string(),
                file: String::new(),
                url: String::new(),
                file_size: String::new(),
            },
        ]
    );
}

#[test]
fn the_question_names_the_sender_the_text_and_the_images() {
    assert_eq!(default_handler("Ann", "hi", &Vec::new()), "Ann发送了以下内容：\n文字：hi\n");
    assert_eq!(default_handler("Ann", "", &Vec::new()), "Ann发送了以下内容：\n");
    let images = vec![
        ("[photo]".to_string(), "A cat.".to_string()),
        ("[sticker]".to_string(), "A dog.".to_string()),
    ];
    assert_eq!(
        default_handler("Ann", "look", &images),
        "Ann发送了以下内容：\n文字：look\n图片：[photo] A cat.\n图片：[sticker] A dog.\n"
    );
    assert_eq!(
        default_handler("", "", &images[..1].to_vec()),
        "发送了以下内容：\n图片：[photo] A cat.\n"
    );
}

#[test]
fn a_quoted_answer_begins_with_the_mention_and_the_quotation() {
    let answer = vec![Data::Text("hi".to_string())];
    assert_eq!(
        with_quote(answer.clone(), Some((900, 7))),
        vec![Data::At(7), Data::Reply(900), Data::Text("hi".to_string())]
    );
    assert_eq!(with_quote(answer.clone(), None), answer);
}

#[test]
fn answers_are_wrapped_for_the_transport() {
    let answer = vec![Data::Text("hi".to_string())];
    assert_eq!(
        resp_group(answer.clone(), 123456789),
        RetMessage {
            action: "send_group_msg".to_string(),
            target: "123456789".to_string(),
            message: answer.clone(),
        }
    );
    assert_eq!(
        resp_private(answer.clone(), 5),
        RetMessage {
            action: "send_private_msg".to_string(),
            target: "5".to_string(),
            message: answer,
        }
    );
}

#[test]
fn failures_are_told_in_words() {
    assert_eq!(ConverseError::LockTimeout.message(), "Timeout waiting for conversation lock");
    assert_eq!(ConverseError::Store(StoreError::Missing).message(), "Session missing");
    assert_eq!(
        ConverseError::Store(StoreError::Connectivity("refused".to_string())).message(),
        "refused"
    );
    assert_eq!(
        ConverseError::Stream(StreamError::Timeout).message(),
        "Timeout during event streaming"
    );
    assert_eq!(StreamError::Transport("reset".to_string()).message(), "reset");
    assert_eq!(StreamError::Parse("bad".to_string()).message(), "bad");
    assert_eq!(UploadError::Timeout.message(), "Upload failed");
    assert_eq!(UploadError::Remote("boom".to_string()).message(), "boom");
    assert_eq!(CaptionError::Upload(UploadError::Timeout).message(), "Upload failed");
    assert_eq!(
        CaptionError::Stream(StreamError::Timeout).message(),
        "Timeout during event streaming"
    );
    assert_eq!(error_reply("Upload failed"), vec![Data::Text("Error: Upload failed".to_string())]);
}

#[test]
fn an_engaged_room_is_kept_engaged() {
    assert_eq!(
        keep_engaged(8, true, 60),
        Some(vec![StoreCommand::Expire { key: "ai:8:JOIN".to_string(), seconds: 60 }])
    );
    assert_eq!(keep_engaged(8, false, 60), None);
}
