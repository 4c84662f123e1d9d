use tgbotapi::files::FileType;
use tgbotapi::json::JsonValue;
use tgbotapi::requests::{ChatID, ForceReply, InputMediaPhoto, InputMediaVideo};
use tgbotapi::types::{ChatMemberStatus, ChatType, FromJson, User};

#[test]
fn test_force_reply() {
    let selective = ForceReply::selective();
    assert_eq!(selective.force_reply, true);
    assert_eq!(selective.selective, true);

    let default = ForceReply::default();
    assert_eq!(default.force_reply, true);
    assert_eq!(default.selective, false);
}

#[test]
fn test_media_defaults() {
    let photo = InputMediaPhoto::default();
    assert_eq!(photo.media_type, "photo");
    assert_eq!(photo.media, FileType::FileID(String::new()));
    assert_eq!(photo.caption, None);

    let video = InputMediaVideo::default();
    assert_eq!(video.media_type, "video");
    assert_eq!(video.media, FileType::FileID(String::new()));
    assert_eq!(video.thumb, None);
}

#[test]
fn test_chat_id() {
    assert_eq!(ChatID::default(), ChatID::Identifier(0));
    assert_eq!(ChatID::from(12i64), ChatID::Identifier(12));
    assert_eq!(ChatID::from(12i32), ChatID::Identifier(12));
    assert_eq!(ChatID::from("@channel"), ChatID::Username("@channel".into()));
}

#[test]
fn test_is_group() {
    assert!(ChatType::Group.is_group());
    assert!(ChatType::Supergroup.is_group());
    assert!(!ChatType::Private.is_group());
    assert!(!ChatType::Channel.is_group());
    assert_eq!(ChatType::default(), ChatType::Private);
}

#[test]
fn test_is_admin() {
    assert!(ChatMemberStatus::Creator.is_admin());
    assert!(ChatMemberStatus::Administrator.is_admin());
    assert!(!ChatMemberStatus::Member.is_admin());
    assert!(!ChatMemberStatus::Restricted.is_admin());
    assert!(!ChatMemberStatus::Left.is_admin());
    assert!(!ChatMemberStatus::Kicked.is_admin());
    assert_eq!(ChatMemberStatus::default(), ChatMemberStatus::Member);
}

#[test]
fn test_user_round_trip() {
    let user = User {
        id: 123,
        is_bot: true,
        first_name: "Test".into(),
        last_name: None,
        username: Some("test_bot".into()),
        language_code: None,
    };
    let rendered = user.to_json();
    let decoded = User::from_json(&rendered).expect("rendering decodes");
    assert_eq!(decoded, user);
}

#[test]
fn test_file_reference_rendering() {
    assert_eq!(
        FileType::FileID("abc".into()).to_json(),
        JsonValue::Text("abc".into())
    );
    assert_eq!(
        FileType::URL("https://example.com/f".into()).to_json(),
        JsonValue::Text("https://example.com/f".into())
    );
    assert_eq!(
        FileType::Attach("attach://x".into()).to_json(),
        JsonValue::Text("attach://x".into())
    );
    assert_eq!(
        FileType::Bytes("x".into(), vec![1]).to_json(),
        JsonValue::Text("attach://x".into())
    );
}
