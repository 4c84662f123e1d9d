use tgbotapi::json::{to_json_bytes, JsonValue};
use tgbotapi::requests::{
    AnswerCallbackQuery, ChatAction, ChatID, DeleteMessage, EditMessageText, ForceReply,
    GetChatMember, GetUpdates, InlineQueryResult, ParseMode, ReplyMarkup, SendChatAction,
    SendMessage, SetMyDefaultAdministratorRights,
};
use tgbotapi::types::{InlineKeyboardButton, InlineKeyboardMarkup, MessageEntity, MessageEntityType};
use tgbotapi::{encode_request, Payload, TelegramRequest};

fn json_body<T: TelegramRequest>(request: &T) -> Vec<u8> {
    match encode_request(request) {
        Payload::Json(body) => body,
        _ => panic!("request without files must use the JSON encoding"),
    }
}

#[test]
fn test_force_reply_markup() {
    let send_message = SendMessage {
        chat_id: ChatID::Identifier(1),
        text: "hi".into(),
        reply_markup: Some(ReplyMarkup::ForceReply(ForceReply::default())),
        ..Default::default()
    };
    assert_eq!(
        json_body(&send_message),
        br#"{"chat_id":1,"text":"hi","reply_markup":{"force_reply":true,"selective":false}}"#
    );
}

#[test]
fn test_inline_keyboard_markup() {
    let markup = InlineKeyboardMarkup {
        inline_keyboard: vec![vec![InlineKeyboardButton {
            text: "Go".into(),
            callback_data: Some("go".into()),
            ..Default::default()
        }]],
    };
    let send_message = SendMessage {
        chat_id: ChatID::Username("@chan".into()),
        text: "hi".into(),
        reply_markup: Some(ReplyMarkup::InlineKeyboardMarkup(markup)),
        ..Default::default()
    };
    assert_eq!(
        json_body(&send_message),
        br#"{"chat_id":"@chan","text":"hi","reply_markup":{"inline_keyboard":[[{"text":"Go","callback_data":"go"}]]}}"#.to_vec()
    );
}

#[test]
fn test_parse_mode_names() {
    let send_message = SendMessage {
        chat_id: ChatID::Identifier(1),
        text: "hi".into(),
        parse_mode: Some(ParseMode::MarkdownV2),
        ..Default::default()
    };
    assert_eq!(
        json_body(&send_message),
        br#"{"chat_id":1,"text":"hi","parse_mode":"MarkdownV2"}"#
    );
}

#[test]
fn test_chat_action_names() {
    let action = SendChatAction {
        chat_id: ChatID::Identifier(9),
        action: ChatAction::UploadVideoNote,
    };
    assert_eq!(
        json_body(&action),
        br#"{"chat_id":9,"action":"upload_video_note"}"#
    );
}

#[test]
fn test_inline_query_result_constructors() {
    let article = InlineQueryResult::article("1".into(), "Title".into(), "Body".into());
    assert_eq!(article.result_type, "article");
    assert_eq!(
        to_json_bytes(&article.to_json()),
        br#"{"type":"article","id":"1","title":"Title","message_text":"Body"}"#
    );

    let photo = InlineQueryResult::photo(
        "2".into(),
        "https://example.com/p.jpg".into(),
        "https://example.com/t.jpg".into(),
    );
    assert_eq!(photo.result_type, "photo");
    assert_eq!(
        to_json_bytes(&photo.to_json()),
        br#"{"type":"photo","id":"2","photo_url":"https://example.com/p.jpg","thumb_url":"https://example.com/t.jpg"}"#.to_vec()
    );

    let gif = InlineQueryResult::gif(
        "3".into(),
        "https://example.com/g.gif".into(),
        "https://example.com/t.gif".into(),
    );
    assert_eq!(gif.result_type, "gif");

    let video = InlineQueryResult::video(
        "4".into(),
        "https://example.com/v.mp4".into(),
        "video/mp4".into(),
        "https://example.com/t.jpg".into(),
        "A video".into(),
    );
    assert_eq!(video.result_type, "video");
    assert_eq!(
        to_json_bytes(&video.to_json()),
        br#"{"type":"video","id":"4","video_url":"https://example.com/v.mp4","mime_type":"video/mp4","thumb_url":"https://example.com/t.jpg","title":"A video"}"#.to_vec()
    );
}

#[test]
fn test_get_updates_body() {
    let empty = GetUpdates::default();
    assert_eq!(json_body(&empty), b"{}");
    let filled = GetUpdates {
        offset: Some(10),
        limit: None,
        timeout: Some(30),
        allowed_updates: Some(vec!["message".to_string(), "poll".to_string()]),
    };
    assert_eq!(
        json_body(&filled),
        br#"{"offset":10,"timeout":30,"allowed_updates":["message","poll"]}"#
    );
}

#[test]
fn test_edit_and_delete_bodies() {
    let edit = EditMessageText {
        chat_id: ChatID::Identifier(4),
        message_id: Some(2),
        text: "new".into(),
        entities: Some(vec![MessageEntity {
            entity_type: MessageEntityType::Bold,
            offset: 0,
            length: 3,
            url: None,
            user: None,
        }]),
        ..Default::default()
    };
    assert_eq!(
        json_body(&edit),
        br#"{"chat_id":4,"message_id":2,"text":"new","entities":[{"type":"bold","offset":0,"length":3,"url":null,"user":null}]}"#.to_vec()
    );

    let delete = DeleteMessage {
        chat_id: ChatID::Identifier(4),
        message_id: -3,
    };
    assert_eq!(json_body(&delete), br#"{"chat_id":4,"message_id":-3}"#);
}

#[test]
fn test_admin_and_member_bodies() {
    let member = GetChatMember {
        chat_id: ChatID::Username("@chan".into()),
        user_id: 88,
    };
    assert_eq!(json_body(&member), br#"{"chat_id":"@chan","user_id":88}"#);

    let rights = SetMyDefaultAdministratorRights::default();
    assert_eq!(json_body(&rights), br#"{"is_anonymous":false}"#);

    let answer = AnswerCallbackQuery {
        callback_query_id: "q1".into(),
        show_alert: Some(true),
        ..Default::default()
    };
    assert_eq!(
        json_body(&answer),
        br#"{"callback_query_id":"q1","show_alert":true}"#
    );
}

#[test]
fn test_endpoints() {
    let send_message = SendMessage::default();
    assert_eq!(send_message.endpoint(), "sendMessage");
    let action = SendChatAction {
        chat_id: ChatID::Identifier(1),
        action: ChatAction::Typing,
    };
    assert_eq!(action.endpoint(), "sendChatAction");
}
