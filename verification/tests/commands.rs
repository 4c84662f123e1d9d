use tgbotapi::types::{get_command, MessageEntity, MessageEntityType, User};

fn command_entity(offset: i32, length: i32) -> MessageEntity {
    MessageEntity {
        entity_type: MessageEntityType::BotCommand,
        offset,
        length,
        url: None,
        user: None,
    }
}

#[test]
fn test_plain_command() {
    let entities = vec![command_entity(0, 6)];
    let command = get_command("/start hello", &entities).expect("command found");
    assert_eq!(command.name, "/start");
    assert_eq!(command.username, None);
    assert_eq!(command.entity, entities[0]);
}

#[test]
fn test_command_with_username() {
    let entities = vec![command_entity(0, 10)];
    let command = get_command("/start@bot hello", &entities).expect("command found");
    assert_eq!(command.name, "/start");
    assert_eq!(command.username.as_deref(), Some("bot"));
}

#[test]
fn test_command_with_two_ats() {
    let entities = vec![command_entity(0, 10)];
    let command = get_command("/cmd@us@rs tail", &entities).expect("command found");
    assert_eq!(command.name, "/cmd");
    assert_eq!(command.username.as_deref(), Some("us"));
}

#[test]
fn test_no_command_entity() {
    assert!(get_command("/start", &vec![]).is_none());

    let not_at_start = vec![command_entity(3, 6)];
    assert!(get_command("hi /start", &not_at_start).is_none());

    let wrong_type = vec![MessageEntity {
        entity_type: MessageEntityType::Mention,
        offset: 0,
        length: 6,
        url: None,
        user: None,
    }];
    assert!(get_command("@stuff", &wrong_type).is_none());
}

#[test]
fn test_length_beyond_text() {
    let entities = vec![command_entity(0, 99)];
    let command = get_command("/all", &entities).expect("command found");
    assert_eq!(command.name, "/all");
    assert_eq!(command.username, None);
}

#[test]
fn test_entity_carried_over() {
    let user = User {
        id: 7,
        is_bot: false,
        first_name: "A".into(),
        last_name: None,
        username: None,
        language_code: None,
    };
    let entities = vec![MessageEntity {
        entity_type: MessageEntityType::BotCommand,
        offset: 0,
        length: 5,
        url: Some("https://example.com".into()),
        user: Some(user.clone()),
    }];
    let command = get_command("/help", &entities).expect("command found");
    assert_eq!(command.entity.url.as_deref(), Some("https://example.com"));
    assert_eq!(command.entity.user, Some(user));
}
