use tgbotapi::error::Error;
use tgbotapi::files::FileType;
use tgbotapi::json::JsonValue;
use tgbotapi::requests::{
    ChatID, DeleteWebhook, GetMe, InputMedia, InputMediaPhoto, SendMediaGroup, SendMessage,
    SendPhoto, SetWebhook,
};
use tgbotapi::types::{decode_response, File, User};
use tgbotapi::{download_url, encode_request, request_url, Payload, API_ENDPOINT};

fn obj(pairs: Vec<(&str, JsonValue)>) -> JsonValue {
    let mut entries = Vec::new();
    for (key, value) in pairs {
        entries.push((key.to_string(), value));
    }
    JsonValue::Object(entries)
}

fn text(s: &str) -> JsonValue {
    JsonValue::Text(s.to_string())
}

#[test]
fn test_request_urls() {
    let url = request_url(API_ENDPOINT, "abc123", "getMe");
    assert_eq!(url, "https://api.telegram.org/botabc123/getMe");
    let url = request_url("https://example.com/", "abc123", "setWebhook");
    assert_eq!(url, "https://example.com/botabc123/setWebhook");
}

#[test]
fn test_download_url_has_no_envelope_path() {
    // Downloading goes through the file-path URL; the body that comes
    // back is raw bytes and never passes the envelope decoder.
    let url = download_url("https://example.com/", "abc123", "123");
    assert_eq!(url, "https://example.com/file/botabc123/123");
}

#[test]
fn test_get_me_envelope() {
    let envelope = obj(vec![
        ("ok", JsonValue::Bool(true)),
        (
            "result",
            obj(vec![
                ("id", JsonValue::Int(123)),
                ("first_name", text("Test")),
                ("username", text("test_bot")),
                ("is_bot", JsonValue::Bool(true)),
            ]),
        ),
    ]);
    let resp: Result<User, Error> = decode_response(&envelope);
    let user = resp.expect("envelope decodes to a user");
    let expected = User {
        id: 123,
        is_bot: true,
        first_name: "Test".into(),
        last_name: None,
        username: Some("test_bot".into()),
        language_code: None,
    };
    assert_eq!(user, expected, "user information must be the same");

    let request = GetMe;
    match encode_request(&request) {
        Payload::Json(body) => assert_eq!(body, b"null"),
        _ => panic!("request without files must use the JSON encoding"),
    }
}

#[test]
fn test_webhook_bodies() {
    let set_webhook = SetWebhook {
        url: "http://example.com".into(),
        allowed_updates: None,
        secret_token: None,
    };
    match encode_request(&set_webhook) {
        Payload::Json(body) => assert_eq!(body, br#"{"url":"http://example.com"}"#),
        _ => panic!("request without files must use the JSON encoding"),
    }

    let delete_webhook = DeleteWebhook;
    match encode_request(&delete_webhook) {
        Payload::Json(body) => assert_eq!(body, b"null"),
        _ => panic!("request without files must use the JSON encoding"),
    }

    let envelope = obj(vec![
        ("ok", JsonValue::Bool(true)),
        ("result", JsonValue::Bool(true)),
    ]);
    let resp: Result<bool, Error> = decode_response(&envelope);
    assert_eq!(resp.unwrap(), true);
}

#[test]
fn test_send_message_body() {
    let send_message = SendMessage {
        chat_id: ChatID::Identifier(12345),
        text: "Hello, world!".into(),
        ..Default::default()
    };
    match encode_request(&send_message) {
        Payload::Json(body) => {
            assert_eq!(body, br#"{"chat_id":12345,"text":"Hello, world!"}"#)
        }
        _ => panic!("request without files must use the JSON encoding"),
    }
}

#[test]
fn test_remote_failure_envelope() {
    let envelope = obj(vec![
        ("ok", JsonValue::Bool(false)),
        ("error_code", JsonValue::Int(400)),
        ("description", text("Bad Request")),
    ]);
    let resp: Result<bool, Error> = decode_response(&envelope);
    match resp {
        Err(Error::Telegram(e)) => {
            assert_eq!(e.error_code, Some(400));
            assert_eq!(e.description.as_deref(), Some("Bad Request"));
            assert_eq!(e.parameters, None);
        }
        other => panic!("expected a remote failure, got {:?}", other),
    }
}

#[test]
fn test_success_without_result_is_failure() {
    // An envelope that claims success but carries no result collapses to
    // a failure with the (empty) error metadata it supplied.
    let envelope = obj(vec![("ok", JsonValue::Bool(true))]);
    let resp: Result<bool, Error> = decode_response(&envelope);
    match resp {
        Err(Error::Telegram(e)) => {
            assert_eq!(e.error_code, None);
            assert_eq!(e.description, None);
        }
        other => panic!("expected a failure, got {:?}", other),
    }
}

#[test]
fn test_malformed_envelope_is_decode_error() {
    let no_flag = obj(vec![("result", JsonValue::Bool(true))]);
    let resp: Result<bool, Error> = decode_response(&no_flag);
    assert!(matches!(resp, Err(Error::Decoding(_))));

    let not_an_object = JsonValue::Int(3);
    let resp: Result<bool, Error> = decode_response(&not_an_object);
    assert!(matches!(resp, Err(Error::Decoding(_))));

    let wrong_result_shape = obj(vec![
        ("ok", JsonValue::Bool(true)),
        ("result", JsonValue::Int(3)),
    ]);
    let resp: Result<bool, Error> = decode_response(&wrong_result_shape);
    assert!(matches!(resp, Err(Error::Decoding(_))));
}

#[test]
fn test_retry_hint_is_carried() {
    let envelope = obj(vec![
        ("ok", JsonValue::Bool(false)),
        ("error_code", JsonValue::Int(429)),
        ("description", text("Too Many Requests: retry after 14")),
        ("parameters", obj(vec![("retry_after", JsonValue::Int(14))])),
    ]);
    let resp: Result<bool, Error> = decode_response(&envelope);
    match resp {
        Err(Error::Telegram(e)) => {
            assert_eq!(e.error_code, Some(429));
            let params = e.parameters.expect("retry hint present");
            assert_eq!(params.retry_after, Some(14));
            assert_eq!(params.migrate_to_chat_id, None);
        }
        other => panic!("expected a remote failure, got {:?}", other),
    }
}

#[test]
fn test_get_file_decode() {
    let envelope = obj(vec![
        ("ok", JsonValue::Bool(true)),
        ("result", obj(vec![("file_id", text("abc")), ("file_path", text("123"))])),
    ]);
    let resp: Result<File, Error> = decode_response(&envelope);
    let file = resp.expect("envelope decodes to a file");
    assert_eq!(file.file_id, "abc");
    assert_eq!(file.file_path.as_deref(), Some("123"));
    assert_eq!(file.file_size, None);
}

#[test]
fn test_photo_multipart_encoding() {
    let send_photo = SendPhoto {
        chat_id: ChatID::Identifier(77),
        photo: FileType::Bytes("pic.jpg".into(), vec![9, 8, 7]),
        caption: Some("hello".into()),
        ..Default::default()
    };
    match encode_request(&send_photo) {
        Payload::Multipart { fields, parts } => {
            // The by-bytes photo is omitted from the body; the caption is
            // passed through as its own characters, not quoted.
            assert_eq!(fields.len(), 2);
            assert_eq!(fields[0].0, "chat_id");
            assert_eq!(fields[0].1, b"77");
            assert_eq!(fields[1].0, "caption");
            assert_eq!(fields[1].1, b"hello");
            assert_eq!(parts.len(), 1);
            assert_eq!(parts[0].0, "photo");
            assert_eq!(parts[0].1.file_name, "pic.jpg");
            assert_eq!(parts[0].1.bytes, vec![9, 8, 7]);
        }
        _ => panic!("request with a by-bytes field must use multipart encoding"),
    }

    let send_photo_by_id = SendPhoto {
        chat_id: ChatID::Identifier(77),
        photo: FileType::FileID("known".into()),
        ..Default::default()
    };
    match encode_request(&send_photo_by_id) {
        Payload::Json(body) => {
            assert_eq!(body, br#"{"chat_id":77,"photo":"known"}"#)
        }
        _ => panic!("request without by-bytes fields must use the JSON encoding"),
    }
}

#[test]
fn test_media_group_single_binary_part() {
    let group = SendMediaGroup {
        chat_id: ChatID::Identifier(5),
        media: vec![
            InputMedia::Photo(InputMediaPhoto {
                media: FileType::FileID("test1".into()),
                ..Default::default()
            }),
            InputMedia::Photo(InputMediaPhoto {
                media: FileType::Bytes("photo2".into(), b"xyz".to_vec()),
                ..Default::default()
            }),
        ],
        disable_notification: None,
        reply_to_message_id: None,
    };
    match encode_request(&group) {
        Payload::Multipart { fields, parts } => {
            assert_eq!(parts.len(), 1, "exactly one binary part");
            assert_eq!(parts[0].0, "photo2");
            assert_eq!(parts[0].1.file_name, "photo2");
            assert_eq!(parts[0].1.bytes, b"xyz".to_vec());
            assert_eq!(fields.len(), 2);
            assert_eq!(fields[0].0, "chat_id");
            assert_eq!(fields[0].1, b"5");
            assert_eq!(fields[1].0, "media");
            // The first item still embeds its identifier inline; the
            // second references the uploaded part by its local name.
            assert_eq!(
                fields[1].1,
                br#"[{"type":"photo","media":"test1"},{"type":"photo","media":"attach://photo2"}]"#
            );
        }
        _ => panic!("a media group with raw bytes must use multipart encoding"),
    }

    let all_remote = SendMediaGroup {
        chat_id: ChatID::Identifier(5),
        media: vec![InputMedia::Photo(InputMediaPhoto {
            media: FileType::FileID("test1".into()),
            ..Default::default()
        })],
        disable_notification: None,
        reply_to_message_id: None,
    };
    assert!(matches!(encode_request(&all_remote), Payload::Json(_)));
}
