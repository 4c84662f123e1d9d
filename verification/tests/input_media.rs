use tgbotapi::files::FileType;
use tgbotapi::requests::{InputMedia, InputMediaPhoto, InputMediaVideo};

#[test]
fn test_input_media() {
    let photo = InputMedia::Photo(InputMediaPhoto {
        caption: Some("caption".into()),
        media: FileType::FileID("test1".into()),
        ..Default::default()
    });
    let new_photo = photo.update_media(FileType::URL("test2".into()));
    assert_eq!(new_photo.get_file(), &FileType::URL("test2".into()));

    let input_media_photo = match new_photo {
        InputMedia::Photo(photo) => photo,
        _ => panic!("input media had wrong type"),
    };
    assert_eq!(
        input_media_photo.caption.unwrap(),
        "caption",
        "caption should be the same"
    );

    let video = InputMedia::Video(InputMediaVideo {
        caption: Some("caption".into()),
        media: FileType::FileID("test1".into()),
        ..Default::default()
    });
    let new_video = video.update_media(FileType::URL("test2".into()));
    assert_eq!(new_video.get_file(), &FileType::URL("test2".into()));

    let input_media_video = match new_video {
        InputMedia::Video(video) => video,
        _ => panic!("input media had wrong type"),
    };
    assert_eq!(
        input_media_video.caption.unwrap(),
        "caption",
        "caption should be the same"
    );
}
