use vstd::prelude::*;

use crate::files::{FilePart, FilePartModel, FileType};
use crate::json::{
    opt_bool_model, opt_entry, opt_i32_model, opt_text_model, push_entry, push_opt_bool,
    push_opt_i32, push_opt_text, JsonModel, JsonValue,
};
use crate::types::{entity_list_model, render_entities, InlineKeyboardMarkup, MessageEntity};
use crate::TelegramRequest;

verus! {

/// ChatID represents a possible type of value for requests: a chat's
/// numeric identifier, or a channel's textual handle. The two wire shapes
/// do not overlap: a number is never read as a handle.
#[derive(Clone, Debug, PartialEq)]
pub enum ChatID {
    /// A chat's numeric ID.
    Identifier(i64),
    /// A username for a channel.
    Username(String),
}

impl ChatID {
    /// The structured rendering: the number or the handle, untagged.
    pub open spec fn json_model(&self) -> JsonModel {
        match self {
            ChatID::Identifier(id) => JsonModel::Int(*id as int),
            ChatID::Username(name) => JsonModel::Text(name@),
        }
    }

    /// Renders the chat reference for a structured body.
    pub fn to_json(&self) -> (v: JsonValue)
        ensures
            v.deep_view() == self.json_model(),
    {
        match self {
            ChatID::Identifier(id) => JsonValue::Int(*id),
            ChatID::Username(name) => JsonValue::Text(name.clone()),
        }
    }
}

impl Default for ChatID {
    /// The default chat reference is the numeric identifier zero.
    fn default() -> (r: Self)
        ensures
            r == ChatID::Identifier(0i64),
    {
        ChatID::Identifier(0)
    }
}

impl From<i64> for ChatID {
    fn from(item: i64) -> (r: Self) {
        ChatID::Identifier(item)
    }
}

impl vstd::std_specs::convert::FromSpecImpl<i64> for ChatID {
    open spec fn obeys_from_spec() -> bool {
        true
    }

    open spec fn from_spec(item: i64) -> Self {
        ChatID::Identifier(item)
    }
}

impl From<i32> for ChatID {
    fn from(item: i32) -> (r: Self) {
        ChatID::Identifier(item as i64)
    }
}

impl vstd::std_specs::convert::FromSpecImpl<i32> for ChatID {
    open spec fn obeys_from_spec() -> bool {
        true
    }

    open spec fn from_spec(item: i32) -> Self {
        ChatID::Identifier(item as i64)
    }
}

impl From<&str> for ChatID {
    fn from(item: &str) -> (r: Self) {
        ChatID::Username(item.to_owned())
    }
}

impl vstd::std_specs::convert::FromSpecImpl<&str> for ChatID {
    open spec fn obeys_from_spec() -> bool {
        false
    }

    open spec fn from_spec(item: &str) -> Self {
        ChatID::Identifier(0)
    }
}

/// ForceReply defaults users to replying to your message.
#[derive(Clone, Debug, PartialEq)]
pub struct ForceReply {
    /// This must be set to `true` to operate correctly.
    pub force_reply: bool,
    /// If only the user being mentioned or replied to should be defaulted
    /// to replying, instead of every member of the chat.
    pub selective: bool,
}

impl ForceReply {
    /// Create a [`ForceReply`] with selectivity.
    pub fn selective() -> (r: Self)
        ensures
            r == (ForceReply { force_reply: true, selective: true }),
    {
        Self { force_reply: true, selective: true }
    }

    /// The structured rendering: both flags, always written.
    pub open spec fn json_model(&self) -> JsonModel {
        JsonModel::Object(
            seq![("force_reply"@, JsonModel::Bool(self.force_reply))] + seq![
                ("selective"@, JsonModel::Bool(self.selective)),
            ],
        )
    }

    /// Renders the reply default for a structured body.
    pub fn to_json(&self) -> (v: JsonValue)
        ensures
            v.deep_view() == self.json_model(),
    {
        let mut entries: Vec<(String, JsonValue)> = Vec::new();
        push_entry(&mut entries, "force_reply", JsonValue::Bool(self.force_reply));
        push_entry(&mut entries, "selective", JsonValue::Bool(self.selective));
        let v = JsonValue::Object(entries);
        assert(v.deep_view() =~~= self.json_model());
        v
    }
}

impl Default for ForceReply {
    /// Create a [`ForceReply`] without selectivity.
    fn default() -> (r: Self)
        ensures
            r == (ForceReply { force_reply: true, selective: false }),
    {
        Self { force_reply: true, selective: false }
    }
}

/// ReplyMarkup is additional data sent with a message to enhance the bot
/// user experience: an inline keyboard, or a forced reply. The variant is
/// inferred on the wire from which keys are present; the two object
/// shapes share no keys.
#[derive(Clone, Debug, PartialEq)]
pub enum ReplyMarkup {
    InlineKeyboardMarkup(InlineKeyboardMarkup),
    ForceReply(ForceReply),
}

impl ReplyMarkup {
    /// The structured rendering of whichever variant is active.
    pub open spec fn json_model(&self) -> JsonModel {
        match self {
            ReplyMarkup::InlineKeyboardMarkup(m) => m.json_model(),
            ReplyMarkup::ForceReply(f) => f.json_model(),
        }
    }

    /// Renders the markup for a structured body.
    pub fn to_json(&self) -> (v: JsonValue)
        ensures
            v.deep_view() == self.json_model(),
    {
        match self {
            ReplyMarkup::InlineKeyboardMarkup(m) => m.to_json(),
            ReplyMarkup::ForceReply(f) => f.to_json(),
        }
    }
}

/// The model of an optional reply markup field.
pub open spec fn opt_markup_model(o: Option<ReplyMarkup>) -> Option<JsonModel> {
    match o {
        Some(m) => Some(m.json_model()),
        None => None,
    }
}

/// Appends the entry of an optional reply markup field, when present.
pub fn push_opt_markup(entries: &mut Vec<(String, JsonValue)>, key: &str, o: &Option<ReplyMarkup>)
    ensures
        crate::json::entries_model(final(entries)@) == crate::json::entries_model(old(entries)@)
            + opt_entry(key@, opt_markup_model(*o)),
{
    let ghost before = crate::json::entries_model(entries@);
    match o {
        Some(m) => {
            push_entry(entries, key, m.to_json());
        },
        None => {
            assert(crate::json::entries_model(entries@) =~~= before + opt_entry(
                key@,
                opt_markup_model(*o),
            ));
        },
    }
}

/// Mode that the remote service uses to parse text content.
#[derive(Clone, Copy, Debug, PartialEq, Eq, Structural)]
pub enum ParseMode {
    Html,
    Markdown,
    MarkdownV2,
}

impl ParseMode {
    /// The name of the mode on the wire.
    pub open spec fn wire_name(&self) -> Seq<char> {
        match self {
            ParseMode::Html => "Html"@,
            ParseMode::Markdown => "Markdown"@,
            ParseMode::MarkdownV2 => "MarkdownV2"@,
        }
    }

    /// The name of the mode on the wire.
    pub fn as_str(&self) -> (r: &str)
        ensures
            r@ == self.wire_name(),
    {
        match self {
            ParseMode::Html => "Html",
            ParseMode::Markdown => "Markdown",
            ParseMode::MarkdownV2 => "MarkdownV2",
        }
    }
}

/// The model of an optional parse mode field.
pub open spec fn opt_parse_mode_model(o: Option<ParseMode>) -> Option<JsonModel> {
    match o {
        Some(m) => Some(JsonModel::Text(m.wire_name())),
        None => None,
    }
}

/// Appends the entry of an optional parse mode field, when present.
pub fn push_opt_parse_mode(entries: &mut Vec<(String, JsonValue)>, key: &str, o: &Option<ParseMode>)
    ensures
        crate::json::entries_model(final(entries)@) == crate::json::entries_model(old(entries)@)
            + opt_entry(key@, opt_parse_mode_model(*o)),
{
    let ghost before = crate::json::entries_model(entries@);
    match o {
        Some(m) => {
            push_entry(entries, key, JsonValue::Text(m.as_str().to_owned()));
        },
        None => {
            assert(crate::json::entries_model(entries@) =~~= before + opt_entry(
                key@,
                opt_parse_mode_model(*o),
            ));
        },
    }
}

/// ChatAction is the action that the bot is indicating.
#[derive(Clone, Copy, Debug, PartialEq, Eq, Structural)]
pub enum ChatAction {
    Typing,
    UploadPhoto,
    RecordVideo,
    UploadVideo,
    RecordAudio,
    UploadAudio,
    UploadDocument,
    FindLocation,
    RecordVideoNote,
    UploadVideoNote,
}

impl ChatAction {
    /// The name of the action on the wire.
    pub open spec fn wire_name(&self) -> Seq<char> {
        match self {
            ChatAction::Typing => "typing"@,
            ChatAction::UploadPhoto => "upload_photo"@,
            ChatAction::RecordVideo => "record_video"@,
            ChatAction::UploadVideo => "upload_video"@,
            ChatAction::RecordAudio => "record_audio"@,
            ChatAction::UploadAudio => "upload_audio"@,
            ChatAction::UploadDocument => "upload_document"@,
            ChatAction::FindLocation => "find_location"@,
            ChatAction::RecordVideoNote => "record_video_note"@,
            ChatAction::UploadVideoNote => "upload_video_note"@,
        }
    }

    /// The name of the action on the wire.
    pub fn as_str(&self) -> (r: &str)
        ensures
            r@ == self.wire_name(),
    {
        match self {
            ChatAction::Typing => "typing",
            ChatAction::UploadPhoto => "upload_photo",
            ChatAction::RecordVideo => "record_video",
            ChatAction::UploadVideo => "upload_video",
            ChatAction::RecordAudio => "record_audio",
            ChatAction::UploadAudio => "upload_audio",
            ChatAction::UploadDocument => "upload_document",
            ChatAction::FindLocation => "find_location",
            ChatAction::RecordVideoNote => "record_video_note",
            ChatAction::UploadVideoNote => "upload_video_note",
        }
    }
}

/// Two file references hold the same data.
pub open spec fn file_like(a: FileType, b: FileType) -> bool {
    match (a, b) {
        (FileType::URL(x), FileType::URL(y)) => x@ == y@,
        (FileType::FileID(x), FileType::FileID(y)) => x@ == y@,
        (FileType::Attach(x), FileType::Attach(y)) => x@ == y@,
        (FileType::Bytes(n1, b1), FileType::Bytes(n2, b2)) => n1@ == n2@ && b1@ == b2@,
        _ => false,
    }
}

/// Two optional file references hold the same data.
pub open spec fn opt_file_like(a: Option<FileType>, b: Option<FileType>) -> bool {
    match (a, b) {
        (Option::None, Option::None) => true,
        (Option::Some(x), Option::Some(y)) => file_like(x, y),
        _ => false,
    }
}

/// Duplicates a file reference; the copy holds the same data.
pub fn clone_file_type(f: &FileType) -> (r: FileType)
    ensures
        file_like(r, *f),
{
    match f {
        FileType::URL(s) => FileType::URL(s.clone()),
        FileType::FileID(s) => FileType::FileID(s.clone()),
        FileType::Attach(s) => FileType::Attach(s.clone()),
        FileType::Bytes(name, bytes) => {
            let copied = bytes.clone();
            assert(copied@ =~= bytes@);
            FileType::Bytes(name.clone(), copied)
        },
    }
}

/// Duplicates an optional file reference; the copy holds the same data.
pub fn clone_opt_file(o: &Option<FileType>) -> (r: Option<FileType>)
    ensures
        opt_file_like(r, *o),
{
    match o {
        Some(f) => Some(clone_file_type(f)),
        None => None,
    }
}

/// The model of an optional unsigned 32-bit integer field.
pub open spec fn opt_u32_model(o: Option<u32>) -> Option<JsonModel> {
    match o {
        Some(n) => Some(JsonModel::Int(n as int)),
        None => None,
    }
}

/// Appends the entry of an optional unsigned 32-bit integer field, when
/// present.
pub fn push_opt_u32(entries: &mut Vec<(String, JsonValue)>, key: &str, o: &Option<u32>)
    ensures
        crate::json::entries_model(final(entries)@) == crate::json::entries_model(old(entries)@)
            + opt_entry(key@, opt_u32_model(*o)),
{
    let ghost before = crate::json::entries_model(entries@);
    match o {
        Some(n) => {
            push_entry(entries, key, JsonValue::Int(*n as i64));
        },
        None => {
            assert(crate::json::entries_model(entries@) =~~= before + opt_entry(
                key@,
                opt_u32_model(*o),
            ));
        },
    }
}

/// The model of an optional file-reference field.
pub open spec fn opt_file_model(o: Option<FileType>) -> Option<JsonModel> {
    match o {
        Some(f) => Some(f.json_model()),
        None => None,
    }
}

/// Appends the entry of an optional file-reference field, when present.
pub fn push_opt_file(entries: &mut Vec<(String, JsonValue)>, key: &str, o: &Option<FileType>)
    ensures
        crate::json::entries_model(final(entries)@) == crate::json::entries_model(old(entries)@)
            + opt_entry(key@, opt_file_model(*o)),
{
    let ghost before = crate::json::entries_model(entries@);
    match o {
        Some(f) => {
            push_entry(entries, key, f.to_json());
        },
        None => {
            assert(crate::json::entries_model(entries@) =~~= before + opt_entry(
                key@,
                opt_file_model(*o),
            ));
        },
    }
}

/// The entries a file-bearing field contributes to the structured body:
/// none when the reference carries raw bytes, which travel as a binary
/// part instead; its rendering otherwise.
pub open spec fn file_body_entry(key: Seq<char>, f: FileType) -> Seq<(Seq<char>, JsonModel)> {
    match f {
        FileType::Bytes(_, _) => Seq::empty(),
        _ => seq![(key, f.json_model())],
    }
}

/// Appends a file-bearing field's entry, unless the reference needs an
/// upload and is therefore omitted from the body.
pub fn push_file_unless_upload(entries: &mut Vec<(String, JsonValue)>, key: &str, f: &FileType)
    ensures
        crate::json::entries_model(final(entries)@) == crate::json::entries_model(old(entries)@)
            + file_body_entry(key@, *f),
{
    let ghost before = crate::json::entries_model(entries@);
    if f.needs_upload() {
        assert(crate::json::entries_model(entries@) =~~= before + file_body_entry(key@, *f));
    } else {
        push_entry(entries, key, f.to_json());
    }
}

/// The binary parts of a single file-bearing field: one part, named after
/// the field, when the reference carries raw bytes; none otherwise.
pub open spec fn single_file_spec(key: Seq<char>, f: FileType) -> Option<
    Seq<(Seq<char>, FilePartModel)>,
> {
    match f {
        FileType::Bytes(name, bytes) => Some(
            seq![(key, FilePartModel { file_name: name@, bytes: bytes@ })],
        ),
        _ => None,
    }
}

/// Builds the binary part list of a single file-bearing field.
pub fn single_file(key: &str, f: &FileType) -> (r: Option<Vec<(String, FilePart)>>)
    ensures
        r.deep_view() == single_file_spec(key@, *f),
{
    match f.file() {
        Some(part) => {
            let mut parts: Vec<(String, FilePart)> = Vec::new();
            parts.push((key.to_owned(), part));
            let r = Some(parts);
            assert(r.deep_view() =~~= single_file_spec(key@, *f));
            r
        },
        None => None,
    }
}

/// Represents a photo to be sent.
#[derive(Clone, Debug, PartialEq)]
pub struct InputMediaPhoto {
    /// The type of the result, must be `photo`. The default value sets it
    /// correctly.
    pub media_type: String,
    /// File to send. The remote service recommends using a file ID.
    pub media: FileType,
    /// Caption for the photo.
    pub caption: Option<String>,
    /// Parse mode for the caption.
    pub parse_mode: Option<ParseMode>,
    /// If the photo should be covered with a spoiler animation.
    pub has_spoiler: Option<bool>,
}

impl Default for InputMediaPhoto {
    fn default() -> (r: Self)
        ensures
            r.media_type@ == "photo"@,
            r.media matches FileType::FileID(s) && s@ == Seq::<char>::empty(),
            r.caption is None && r.parse_mode is None && r.has_spoiler is None,
    {
        Self {
            media_type: "photo".to_owned(),
            media: Default::default(),
            caption: None,
            parse_mode: None,
            has_spoiler: None,
        }
    }
}

impl InputMediaPhoto {
    /// The structured rendering: the type tag, the media reference, and
    /// the optional fields only when present.
    pub open spec fn json_model(&self) -> JsonModel {
        JsonModel::Object(
            seq![("type"@, JsonModel::Text(self.media_type@))] + seq![
                ("media"@, self.media.json_model()),
            ] + opt_entry("caption"@, opt_text_model(self.caption)) + opt_entry(
                "parse_mode"@,
                opt_parse_mode_model(self.parse_mode),
            ) + opt_entry("has_spoiler"@, opt_bool_model(self.has_spoiler)),
        )
    }

    /// Renders the photo item for a structured body.
    pub fn to_json(&self) -> (v: JsonValue)
        ensures
            v.deep_view() == self.json_model(),
    {
        let mut entries: Vec<(String, JsonValue)> = Vec::new();
        push_entry(&mut entries, "type", JsonValue::Text(self.media_type.clone()));
        push_entry(&mut entries, "media", self.media.to_json());
        push_opt_text(&mut entries, "caption", &self.caption);
        push_opt_parse_mode(&mut entries, "parse_mode", &self.parse_mode);
        push_opt_bool(&mut entries, "has_spoiler", &self.has_spoiler);
        let v = JsonValue::Object(entries);
        assert(v.deep_view() =~~= self.json_model());
        v
    }
}

/// Represents a video to be sent.
#[derive(Clone, Debug, PartialEq)]
pub struct InputMediaVideo {
    /// The type of the result, must be `video`. The default value sets it
    /// correctly.
    pub media_type: String,
    /// File to send. The remote service recommends using a file ID.
    pub media: FileType,
    /// Optional thumbnail for the video.
    pub thumb: Option<FileType>,
    /// Caption for the video.
    pub caption: Option<String>,
    /// Parse mode for the caption.
    pub parse_mode: Option<ParseMode>,
    /// Optional video width.
    pub width: Option<i32>,
    /// Optional video height.
    pub height: Option<i32>,
    /// Optional video duration.
    pub duration: Option<i32>,
    /// If the video is suitable for streaming.
    pub supports_streaming: Option<bool>,
    /// If the video should be covered with a spoiler animation.
    pub has_spoiler: Option<bool>,
}

impl Default for InputMediaVideo {
    fn default() -> (r: Self)
        ensures
            r.media_type@ == "video"@,
            r.media matches FileType::FileID(s) && s@ == Seq::<char>::empty(),
            r.thumb is None && r.caption is None && r.parse_mode is None,
            r.width is None && r.height is None && r.duration is None,
            r.supports_streaming is None && r.has_spoiler is None,
    {
        Self {
            media_type: "video".to_owned(),
            media: Default::default(),
            thumb: None,
            caption: None,
            parse_mode: None,
            width: None,
            height: None,
            duration: None,
            supports_streaming: None,
            has_spoiler: None,
        }
    }
}

impl InputMediaVideo {
    /// The structured rendering: the type tag, the media reference, and
    /// the optional fields only when present.
    pub open spec fn json_model(&self) -> JsonModel {
        JsonModel::Object(
            seq![("type"@, JsonModel::Text(self.media_type@))] + seq![
                ("media"@, self.media.json_model()),
            ] + opt_entry("thumb"@, opt_file_model(self.thumb)) + opt_entry(
                "caption"@,
                opt_text_model(self.caption),
            ) + opt_entry("parse_mode"@, opt_parse_mode_model(self.parse_mode)) + opt_entry(
                "width"@,
                opt_i32_model(self.width),
            ) + opt_entry("height"@, opt_i32_model(self.height)) + opt_entry(
                "duration"@,
                opt_i32_model(self.duration),
            ) + opt_entry("supports_streaming"@, opt_bool_model(self.supports_streaming))
                + opt_entry("has_spoiler"@, opt_bool_model(self.has_spoiler)),
        )
    }

    /// Renders the video item for a structured body.
    pub fn to_json(&self) -> (v: JsonValue)
        ensures
            v.deep_view() == self.json_model(),
    {
        let mut entries: Vec<(String, JsonValue)> = Vec::new();
        push_entry(&mut entries, "type", JsonValue::Text(self.media_type.clone()));
        push_entry(&mut entries, "media", self.media.to_json());
        push_opt_file(&mut entries, "thumb", &self.thumb);
        push_opt_text(&mut entries, "caption", &self.caption);
        push_opt_parse_mode(&mut entries, "parse_mode", &self.parse_mode);
        push_opt_i32(&mut entries, "width", &self.width);
        push_opt_i32(&mut entries, "height", &self.height);
        push_opt_i32(&mut entries, "duration", &self.duration);
        push_opt_bool(&mut entries, "supports_streaming", &self.supports_streaming);
        push_opt_bool(&mut entries, "has_spoiler", &self.has_spoiler);
        let v = JsonValue::Object(entries);
        assert(v.deep_view() =~~= self.json_model());
        v
    }
}

/// One item of a grouped-media request: a photo or a video. The variant
/// is inferred on the wire from the item's `type` tag.
#[derive(Clone, Debug, PartialEq)]
pub enum InputMedia {
    Photo(InputMediaPhoto),
    Video(InputMediaVideo),
}

impl InputMedia {
    /// The file carried by this item.
    pub open spec fn spec_file(&self) -> FileType {
        match self {
            InputMedia::Photo(photo) => photo.media,
            InputMedia::Video(video) => video.media,
        }
    }

    /// The structured rendering of whichever variant is active.
    pub open spec fn json_model(&self) -> JsonModel {
        match self {
            InputMedia::Photo(photo) => photo.json_model(),
            InputMedia::Video(video) => video.json_model(),
        }
    }

    /// Renders the item for a structured body.
    pub fn to_json(&self) -> (v: JsonValue)
        ensures
            v.deep_view() == self.json_model(),
    {
        match self {
            InputMedia::Photo(photo) => photo.to_json(),
            InputMedia::Video(video) => video.to_json(),
        }
    }

    /// Replaces the media within an item without caring about the type;
    /// every other field keeps its data.
    pub fn update_media(&self, media: FileType) -> (r: Self)
        ensures
            match (self, r) {
                (InputMedia::Photo(p), InputMedia::Photo(q)) => {
                    &&& q.media == media
                    &&& q.media_type == p.media_type
                    &&& q.caption == p.caption
                    &&& q.parse_mode == p.parse_mode
                    &&& q.has_spoiler == p.has_spoiler
                },
                (InputMedia::Video(w), InputMedia::Video(q)) => {
                    &&& q.media == media
                    &&& q.media_type == w.media_type
                    &&& opt_file_like(q.thumb, w.thumb)
                    &&& q.caption == w.caption
                    &&& q.parse_mode == w.parse_mode
                    &&& q.width == w.width
                    &&& q.height == w.height
                    &&& q.duration == w.duration
                    &&& q.supports_streaming == w.supports_streaming
                    &&& q.has_spoiler == w.has_spoiler
                },
                _ => false,
            },
    {
        match self {
            InputMedia::Photo(photo) => InputMedia::Photo(
                InputMediaPhoto {
                    media_type: photo.media_type.clone(),
                    media,
                    caption: crate::types::clone_opt_string(&photo.caption),
                    parse_mode: photo.parse_mode,
                    has_spoiler: photo.has_spoiler,
                },
            ),
            InputMedia::Video(video) => InputMedia::Video(
                InputMediaVideo {
                    media_type: video.media_type.clone(),
                    media,
                    thumb: clone_opt_file(&video.thumb),
                    caption: crate::types::clone_opt_string(&video.caption),
                    parse_mode: video.parse_mode,
                    width: video.width,
                    height: video.height,
                    duration: video.duration,
                    supports_streaming: video.supports_streaming,
                    has_spoiler: video.has_spoiler,
                },
            ),
        }
    }

    /// Get the file out of an item.
    pub fn get_file(&self) -> (r: &FileType)
        ensures
            *r == self.spec_file(),
    {
        match self {
            InputMedia::Photo(photo) => &photo.media,
            InputMedia::Video(video) => &video.media,
        }
    }
}

/// GetMe is a request that returns the bot's own user record.
#[derive(Clone, Debug, PartialEq)]
pub struct GetMe;

impl TelegramRequest for GetMe {
    open spec fn spec_endpoint(&self) -> Seq<char> {
        "getMe"@
    }

    open spec fn spec_values(&self) -> JsonModel {
        JsonModel::Null
    }

    open spec fn spec_files(&self) -> Option<Seq<(Seq<char>, FilePartModel)>> {
        None
    }

    fn endpoint(&self) -> (e: &str) {
        "getMe"
    }

    fn values(&self) -> (v: JsonValue) {
        JsonValue::Null
    }

    fn files(&self) -> (f: Option<Vec<(String, FilePart)>>) {
        None
    }
}

/// SendMessage sends a text message to a chat.
#[derive(Clone, Debug, Default, PartialEq)]
pub struct SendMessage {
    /// The ID of the chat to send a message to.
    pub chat_id: ChatID,
    /// The text of the message.
    pub text: String,
    /// The mode used to parse the provided text.
    pub parse_mode: Option<ParseMode>,
    /// If the remote service should not generate a web page preview.
    pub disable_web_page_preview: Option<bool>,
    /// If the message should be sent silently.
    pub disable_notification: Option<bool>,
    /// The ID of the message this message replies to.
    pub reply_to_message_id: Option<i32>,
    /// Allow sending the message even if the reply message was not found.
    pub allow_sending_without_reply: Option<bool>,
    /// The reply markup, if desired.
    pub reply_markup: Option<ReplyMarkup>,
}

impl TelegramRequest for SendMessage {
    open spec fn spec_endpoint(&self) -> Seq<char> {
        "sendMessage"@
    }

    open spec fn spec_values(&self) -> JsonModel {
        JsonModel::Object(
            seq![("chat_id"@, self.chat_id.json_model())] + seq![
                ("text"@, JsonModel::Text(self.text@)),
            ] + opt_entry("parse_mode"@, opt_parse_mode_model(self.parse_mode)) + opt_entry(
                "disable_web_page_preview"@,
                opt_bool_model(self.disable_web_page_preview),
            ) + opt_entry("disable_notification"@, opt_bool_model(self.disable_notification))
                + opt_entry("reply_to_message_id"@, opt_i32_model(self.reply_to_message_id))
                + opt_entry(
                "allow_sending_without_reply"@,
                opt_bool_model(self.allow_sending_without_reply),
            ) + opt_entry("reply_markup"@, opt_markup_model(self.reply_markup)),
        )
    }

    open spec fn spec_files(&self) -> Option<Seq<(Seq<char>, FilePartModel)>> {
        None
    }

    fn endpoint(&self) -> (e: &str) {
        "sendMessage"
    }

    fn values(&self) -> (v: JsonValue) {
        let mut entries: Vec<(String, JsonValue)> = Vec::new();
        push_entry(&mut entries, "chat_id", self.chat_id.to_json());
        push_entry(&mut entries, "text", JsonValue::Text(self.text.clone()));
        push_opt_parse_mode(&mut entries, "parse_mode", &self.parse_mode);
        push_opt_bool(&mut entries, "disable_web_page_preview", &self.disable_web_page_preview);
        push_opt_bool(&mut entries, "disable_notification", &self.disable_notification);
        push_opt_i32(&mut entries, "reply_to_message_id", &self.reply_to_message_id);
        push_opt_bool(
            &mut entries,
            "allow_sending_without_reply",
            &self.allow_sending_without_reply,
        );
        push_opt_markup(&mut entries, "reply_markup", &self.reply_markup);
        let v = JsonValue::Object(entries);
        assert(v.deep_view() =~~= self.spec_values());
        v
    }

    fn files(&self) -> (f: Option<Vec<(String, FilePart)>>) {
        None
    }
}

/// GetUpdates is a request that returns any available updates.
#[derive(Clone, Debug, Default, PartialEq)]
pub struct GetUpdates {
    /// ID for the first update to return. This must be set to one higher
    /// than previous IDs in order to confirm previous updates.
    pub offset: Option<i32>,
    /// Maximum number of updates to retrieve, 1-100.
    pub limit: Option<i32>,
    /// Number of seconds for long polling.
    pub timeout: Option<i32>,
    /// Which update types to receive.
    pub allowed_updates: Option<Vec<String>>,
}

impl TelegramRequest for GetUpdates {
    open spec fn spec_endpoint(&self) -> Seq<char> {
        "getUpdates"@
    }

    open spec fn spec_values(&self) -> JsonModel {
        JsonModel::Object(
            opt_entry("offset"@, opt_i32_model(self.offset)) + opt_entry(
                "limit"@,
                opt_i32_model(self.limit),
            ) + opt_entry("timeout"@, opt_i32_model(self.timeout)) + opt_entry(
                "allowed_updates"@,
                opt_text_list_model(self.allowed_updates),
            ),
        )
    }

    open spec fn spec_files(&self) -> Option<Seq<(Seq<char>, FilePartModel)>> {
        None
    }

    fn endpoint(&self) -> (e: &str) {
        "getUpdates"
    }

    fn values(&self) -> (v: JsonValue) {
        let mut entries: Vec<(String, JsonValue)> = Vec::new();
        push_opt_i32(&mut entries, "offset", &self.offset);
        push_opt_i32(&mut entries, "limit", &self.limit);
        push_opt_i32(&mut entries, "timeout", &self.timeout);
        push_opt_text_list(&mut entries, "allowed_updates", &self.allowed_updates);
        let v = JsonValue::Object(entries);
        assert(v.deep_view() =~~= self.spec_values());
        v
    }

    fn files(&self) -> (f: Option<Vec<(String, FilePart)>>) {
        None
    }
}

/// SendChatAction indicates to users that the bot is performing an
/// action.
#[derive(Clone, Debug, PartialEq)]
pub struct SendChatAction {
    /// The ID of the chat to send an action to.
    pub chat_id: ChatID,
    /// The action to indicate.
    pub action: ChatAction,
}

impl TelegramRequest for SendChatAction {
    open spec fn spec_endpoint(&self) -> Seq<char> {
        "sendChatAction"@
    }

    open spec fn spec_values(&self) -> JsonModel {
        JsonModel::Object(
            seq![("chat_id"@, self.chat_id.json_model())] + seq![
                ("action"@, JsonModel::Text(self.action.wire_name())),
            ],
        )
    }

    open spec fn spec_files(&self) -> Option<Seq<(Seq<char>, FilePartModel)>> {
        None
    }

    fn endpoint(&self) -> (e: &str) {
        "sendChatAction"
    }

    fn values(&self) -> (v: JsonValue) {
        let mut entries: Vec<(String, JsonValue)> = Vec::new();
        push_entry(&mut entries, "chat_id", self.chat_id.to_json());
        push_entry(&mut entries, "action", JsonValue::Text(self.action.as_str().to_owned()));
        let v = JsonValue::Object(entries);
        assert(v.deep_view() =~~= self.spec_values());
        v
    }

    fn files(&self) -> (f: Option<Vec<(String, FilePart)>>) {
        None
    }
}

/// SendPhoto sends a photo to a chat.
#[derive(Clone, Debug, Default, PartialEq)]
pub struct SendPhoto {
    /// The ID of the chat to send a photo to.
    pub chat_id: ChatID,
    /// The file that makes up this photo. Omitted from the structured
    /// body when it carries raw bytes, which travel as a binary part
    /// named `photo` instead.
    pub photo: FileType,
    /// A caption for the photo, if desired.
    pub caption: Option<String>,
    /// If the photo should be covered with a spoiler animation.
    pub has_spoiler: Option<bool>,
    /// The ID of the message this message replies to.
    pub reply_to_message_id: Option<i32>,
    /// Allow sending the message even if the reply message was not found.
    pub allow_sending_without_reply: Option<bool>,
    /// The reply markup, if desired.
    pub reply_markup: Option<ReplyMarkup>,
}

impl TelegramRequest for SendPhoto {
    open spec fn spec_endpoint(&self) -> Seq<char> {
        "sendPhoto"@
    }

    open spec fn spec_values(&self) -> JsonModel {
        JsonModel::Object(
            seq![("chat_id"@, self.chat_id.json_model())] + file_body_entry("photo"@, self.photo)
                + opt_entry("caption"@, opt_text_model(self.caption)) + opt_entry(
                "has_spoiler"@,
                opt_bool_model(self.has_spoiler),
            ) + opt_entry("reply_to_message_id"@, opt_i32_model(self.reply_to_message_id))
                + opt_entry(
                "allow_sending_without_reply"@,
                opt_bool_model(self.allow_sending_without_reply),
            ) + opt_entry("reply_markup"@, opt_markup_model(self.reply_markup)),
        )
    }

    open spec fn spec_files(&self) -> Option<Seq<(Seq<char>, FilePartModel)>> {
        single_file_spec("photo"@, self.photo)
    }

    fn endpoint(&self) -> (e: &str) {
        "sendPhoto"
    }

    fn values(&self) -> (v: JsonValue) {
        let mut entries: Vec<(String, JsonValue)> = Vec::new();
        push_entry(&mut entries, "chat_id", self.chat_id.to_json());
        push_file_unless_upload(&mut entries, "photo", &self.photo);
        push_opt_text(&mut entries, "caption", &self.caption);
        push_opt_bool(&mut entries, "has_spoiler", &self.has_spoiler);
        push_opt_i32(&mut entries, "reply_to_message_id", &self.reply_to_message_id);
        push_opt_bool(
            &mut entries,
            "allow_sending_without_reply",
            &self.allow_sending_without_reply,
        );
        push_opt_markup(&mut entries, "reply_markup", &self.reply_markup);
        let v = JsonValue::Object(entries);
        assert(v.deep_view() =~~= self.spec_values());
        v
    }

    fn files(&self) -> (f: Option<Vec<(String, FilePart)>>) {
        single_file("photo", &self.photo)
    }
}

/// SendDocument sends a general file to a chat.
#[derive(Clone, Debug, Default, PartialEq)]
pub struct SendDocument {
    /// The ID of the chat to send a document to.
    pub chat_id: ChatID,
    /// The file that makes up this document. Omitted from the structured
    /// body when it carries raw bytes, which travel as a binary part
    /// named `document` instead.
    pub document: FileType,
    /// A caption for the document, if desired.
    pub caption: Option<String>,
    /// Parse mode for the caption.
    pub parse_mode: Option<ParseMode>,
    /// If the message should be sent silently.
    pub disable_notification: Option<bool>,
    /// The ID of the message this message replies to.
    pub reply_to_message_id: Option<i32>,
    /// The reply markup, if desired.
    pub reply_markup: Option<ReplyMarkup>,
}

impl TelegramRequest for SendDocument {
    open spec fn spec_endpoint(&self) -> Seq<char> {
        "sendDocument"@
    }

    open spec fn spec_values(&self) -> JsonModel {
        JsonModel::Object(
            seq![("chat_id"@, self.chat_id.json_model())] + file_body_entry(
                "document"@,
                self.document,
            ) + opt_entry("caption"@, opt_text_model(self.caption)) + opt_entry(
                "parse_mode"@,
                opt_parse_mode_model(self.parse_mode),
            ) + opt_entry("disable_notification"@, opt_bool_model(self.disable_notification))
                + opt_entry("reply_to_message_id"@, opt_i32_model(self.reply_to_message_id))
                + opt_entry("reply_markup"@, opt_markup_model(self.reply_markup)),
        )
    }

    open spec fn spec_files(&self) -> Option<Seq<(Seq<char>, FilePartModel)>> {
        single_file_spec("document"@, self.document)
    }

    fn endpoint(&self) -> (e: &str) {
        "sendDocument"
    }

    fn values(&self) -> (v: JsonValue) {
        let mut entries: Vec<(String, JsonValue)> = Vec::new();
        push_entry(&mut entries, "chat_id", self.chat_id.to_json());
        push_file_unless_upload(&mut entries, "document", &self.document);
        push_opt_text(&mut entries, "caption", &self.caption);
        push_opt_parse_mode(&mut entries, "parse_mode", &self.parse_mode);
        push_opt_bool(&mut entries, "disable_notification", &self.disable_notification);
        push_opt_i32(&mut entries, "reply_to_message_id", &self.reply_to_message_id);
        push_opt_markup(&mut entries, "reply_markup", &self.reply_markup);
        let v = JsonValue::Object(entries);
        assert(v.deep_view() =~~= self.spec_values());
        v
    }

    fn files(&self) -> (f: Option<Vec<(String, FilePart)>>) {
        single_file("document", &self.document)
    }
}

/// SendVideo sends a video to a chat.
#[derive(Clone, Debug, Default, PartialEq)]
pub struct SendVideo {
    pub chat_id: ChatID,
    /// The file that makes up this video. Omitted from the structured
    /// body when it carries raw bytes, which travel as a binary part
    /// named `video` instead.
    pub video: FileType,
    pub duration: Option<i32>,
    pub width: Option<i32>,
    pub height: Option<i32>,
    pub caption: Option<String>,
    pub parse_mode: Option<ParseMode>,
    pub has_spoiler: Option<bool>,
    pub supports_streaming: Option<bool>,
    pub disable_notification: Option<bool>,
    pub reply_to_message_id: Option<i32>,
    pub reply_markup: Option<ReplyMarkup>,
}

impl TelegramRequest for SendVideo {
    open spec fn spec_endpoint(&self) -> Seq<char> {
        "sendVideo"@
    }

    open spec fn spec_values(&self) -> JsonModel {
        JsonModel::Object(
            seq![("chat_id"@, self.chat_id.json_model())] + file_body_entry("video"@, self.video)
                + opt_entry("duration"@, opt_i32_model(self.duration)) + opt_entry(
                "width"@,
                opt_i32_model(self.width),
            ) + opt_entry("height"@, opt_i32_model(self.height)) + opt_entry(
                "caption"@,
                opt_text_model(self.caption),
            ) + opt_entry("parse_mode"@, opt_parse_mode_model(self.parse_mode)) + opt_entry(
                "has_spoiler"@,
                opt_bool_model(self.has_spoiler),
            ) + opt_entry("supports_streaming"@, opt_bool_model(self.supports_streaming))
                + opt_entry("disable_notification"@, opt_bool_model(self.disable_notification))
                + opt_entry("reply_to_message_id"@, opt_i32_model(self.reply_to_message_id))
                + opt_entry("reply_markup"@, opt_markup_model(self.reply_markup)),
        )
    }

    open spec fn spec_files(&self) -> Option<Seq<(Seq<char>, FilePartModel)>> {
        single_file_spec("video"@, self.video)
    }

    fn endpoint(&self) -> (e: &str) {
        "sendVideo"
    }

    fn values(&self) -> (v: JsonValue) {
        let mut entries: Vec<(String, JsonValue)> = Vec::new();
        push_entry(&mut entries, "chat_id", self.chat_id.to_json());
        push_file_unless_upload(&mut entries, "video", &self.video);
        push_opt_i32(&mut entries, "duration", &self.duration);
        push_opt_i32(&mut entries, "width", &self.width);
        push_opt_i32(&mut entries, "height", &self.height);
        push_opt_text(&mut entries, "caption", &self.caption);
        push_opt_parse_mode(&mut entries, "parse_mode", &self.parse_mode);
        push_opt_bool(&mut entries, "has_spoiler", &self.has_spoiler);
        push_opt_bool(&mut entries, "supports_streaming", &self.supports_streaming);
        push_opt_bool(&mut entries, "disable_notification", &self.disable_notification);
        push_opt_i32(&mut entries, "reply_to_message_id", &self.reply_to_message_id);
        push_opt_markup(&mut entries, "reply_markup", &self.reply_markup);
        let v = JsonValue::Object(entries);
        assert(v.deep_view() =~~= self.spec_values());
        v
    }

    fn files(&self) -> (f: Option<Vec<(String, FilePart)>>) {
        single_file("video", &self.video)
    }
}

/// SendAnimation sends an animation to a chat.
#[derive(Clone, Debug, Default, PartialEq)]
pub struct SendAnimation {
    pub chat_id: ChatID,
    /// The file that makes up this animation. Omitted from the
    /// structured body when it carries raw bytes, which travel as a
    /// binary part named `animation` instead.
    pub animation: FileType,
    pub duration: Option<i32>,
    pub width: Option<i32>,
    pub height: Option<i32>,
    pub caption: Option<String>,
    pub parse_mode: Option<ParseMode>,
    pub has_spoiler: Option<bool>,
    pub disable_notification: Option<bool>,
    pub reply_to_message_id: Option<i32>,
    pub reply_markup: Option<ReplyMarkup>,
}

impl TelegramRequest for SendAnimation {
    open spec fn spec_endpoint(&self) -> Seq<char> {
        "sendAnimation"@
    }

    open spec fn spec_values(&self) -> JsonModel {
        JsonModel::Object(
            seq![("chat_id"@, self.chat_id.json_model())] + file_body_entry(
                "animation"@,
                self.animation,
            ) + opt_entry("duration"@, opt_i32_model(self.duration)) + opt_entry(
                "width"@,
                opt_i32_model(self.width),
            ) + opt_entry("height"@, opt_i32_model(self.height)) + opt_entry(
                "caption"@,
                opt_text_model(self.caption),
            ) + opt_entry("parse_mode"@, opt_parse_mode_model(self.parse_mode)) + opt_entry(
                "has_spoiler"@,
                opt_bool_model(self.has_spoiler),
            ) + opt_entry("disable_notification"@, opt_bool_model(self.disable_notification))
                + opt_entry("reply_to_message_id"@, opt_i32_model(self.reply_to_message_id))
                + opt_entry("reply_markup"@, opt_markup_model(self.reply_markup)),
        )
    }

    open spec fn spec_files(&self) -> Option<Seq<(Seq<char>, FilePartModel)>> {
        single_file_spec("animation"@, self.animation)
    }

    fn endpoint(&self) -> (e: &str) {
        "sendAnimation"
    }

    fn values(&self) -> (v: JsonValue) {
        let mut entries: Vec<(String, JsonValue)> = Vec::new();
        push_entry(&mut entries, "chat_id", self.chat_id.to_json());
        push_file_unless_upload(&mut entries, "animation", &self.animation);
        push_opt_i32(&mut entries, "duration", &self.duration);
        push_opt_i32(&mut entries, "width", &self.width);
        push_opt_i32(&mut entries, "height", &self.height);
        push_opt_text(&mut entries, "caption", &self.caption);
        push_opt_parse_mode(&mut entries, "parse_mode", &self.parse_mode);
        push_opt_bool(&mut entries, "has_spoiler", &self.has_spoiler);
        push_opt_bool(&mut entries, "disable_notification", &self.disable_notification);
        push_opt_i32(&mut entries, "reply_to_message_id", &self.reply_to_message_id);
        push_opt_markup(&mut entries, "reply_markup", &self.reply_markup);
        let v = JsonValue::Object(entries);
        assert(v.deep_view() =~~= self.spec_values());
        v
    }

    fn files(&self) -> (f: Option<Vec<(String, FilePart)>>) {
        single_file("animation", &self.animation)
    }
}

/// GetFile retrieves information about a file.
///
/// This will not download the file! It only returns a [`crate::types::File`]
/// containing the path which is needed to download the file.
#[derive(Clone, Debug, PartialEq)]
pub struct GetFile {
    /// The ID of the file to fetch.
    pub file_id: String,
}

impl TelegramRequest for GetFile {
    open spec fn spec_endpoint(&self) -> Seq<char> {
        "getFile"@
    }

    open spec fn spec_values(&self) -> JsonModel {
        JsonModel::Object(seq![("file_id"@, JsonModel::Text(self.file_id@))])
    }

    open spec fn spec_files(&self) -> Option<Seq<(Seq<char>, FilePartModel)>> {
        None
    }

    fn endpoint(&self) -> (e: &str) {
        "getFile"
    }

    fn values(&self) -> (v: JsonValue) {
        let mut entries: Vec<(String, JsonValue)> = Vec::new();
        push_entry(&mut entries, "file_id", JsonValue::Text(self.file_id.clone()));
        let v = JsonValue::Object(entries);
        assert(v.deep_view() =~~= self.spec_values());
        v
    }

    fn files(&self) -> (f: Option<Vec<(String, FilePart)>>) {
        None
    }
}

/// The models of a list of grouped-media items.
pub open spec fn media_list_model(media: Seq<InputMedia>) -> Seq<JsonModel> {
    Seq::new(
        media.len(),
        |i: int|
            if 0 <= i < media.len() {
                media[i].json_model()
            } else {
                JsonModel::Null
            },
    )
}

/// Whether any item of a media group carries raw bytes.
pub open spec fn media_has_upload(media: Seq<InputMedia>) -> bool {
    exists|i: int|
        0 <= i < media.len() && (#[trigger] media[i].spec_file()) matches FileType::Bytes(_, _)
}

/// The binary parts of a media group, from index `from` on: one part per
/// by-bytes item, named after the item's file, in the items' order.
pub open spec fn media_parts(media: Seq<InputMedia>, from: int) -> Seq<(Seq<char>, FilePartModel)>
    decreases media.len() - from,
{
    if from < 0 || from >= media.len() {
        Seq::empty()
    } else {
        (match media[from].spec_file() {
            FileType::Bytes(name, bytes) => seq![
                (name@, FilePartModel { file_name: name@, bytes: bytes@ }),
            ],
            _ => Seq::empty(),
        }) + media_parts(media, from + 1)
    }
}

/// How many items of a media group carry raw bytes, from index `from` on.
pub open spec fn upload_count(media: Seq<InputMedia>, from: int) -> int
    decreases media.len() - from,
{
    if from < 0 || from >= media.len() {
        0
    } else {
        (if media[from].spec_file() matches FileType::Bytes(_, _) {
            1int
        } else {
            0int
        }) + upload_count(media, from + 1)
    }
}

/// Law: a media group yields exactly one binary part per by-bytes item.
pub proof fn lemma_media_group_parts(media: Seq<InputMedia>, from: int)
    ensures
        media_parts(media, from).len() == upload_count(media, from),
    decreases media.len() - from,
{
    if 0 <= from < media.len() {
        lemma_media_group_parts(media, from + 1);
    }
}

/// SendMediaGroup sends several photos or videos as one album.
///
/// Items whose file reference carries raw bytes are rewritten in the
/// structured body to an `attach://<name>` cross-reference, and their
/// bytes travel as binary parts; the other items embed their identifier
/// or URL inline.
#[derive(Clone, Debug, Default, PartialEq)]
pub struct SendMediaGroup {
    pub chat_id: ChatID,
    pub media: Vec<InputMedia>,
    pub disable_notification: Option<bool>,
    pub reply_to_message_id: Option<i32>,
}

impl TelegramRequest for SendMediaGroup {
    open spec fn spec_endpoint(&self) -> Seq<char> {
        "sendMediaGroup"@
    }

    open spec fn spec_values(&self) -> JsonModel {
        JsonModel::Object(
            seq![("chat_id"@, self.chat_id.json_model())] + seq![
                ("media"@, JsonModel::List(media_list_model(self.media@))),
            ] + opt_entry("disable_notification"@, opt_bool_model(self.disable_notification))
                + opt_entry("reply_to_message_id"@, opt_i32_model(self.reply_to_message_id)),
        )
    }

    open spec fn spec_files(&self) -> Option<Seq<(Seq<char>, FilePartModel)>> {
        if media_has_upload(self.media@) {
            Some(media_parts(self.media@, 0))
        } else {
            None
        }
    }

    fn endpoint(&self) -> (e: &str) {
        "sendMediaGroup"
    }

    #[verifier::loop_isolation(false)]
    fn values(&self) -> (v: JsonValue) {
        let mut entries: Vec<(String, JsonValue)> = Vec::new();
        push_entry(&mut entries, "chat_id", self.chat_id.to_json());
        let mut rendered: Vec<JsonValue> = Vec::new();
        let mut i: usize = 0;
        while i < self.media.len()
            invariant
                0 <= i <= self.media@.len(),
                rendered@.len() == i,
                forall|j: int|
                    0 <= j < i ==> rendered@[j].deep_view() == #[trigger] self.media@[j].json_model(),
            decreases self.media@.len() - i,
        {
            rendered.push(self.media[i].to_json());
            i = i + 1;
        }
        let media_value = JsonValue::List(rendered);
        assert(media_value.deep_view() matches JsonModel::List(l) && l =~= media_list_model(
            self.media@,
        ));
        push_entry(&mut entries, "media", media_value);
        push_opt_bool(&mut entries, "disable_notification", &self.disable_notification);
        push_opt_i32(&mut entries, "reply_to_message_id", &self.reply_to_message_id);
        let v = JsonValue::Object(entries);
        assert(v.deep_view() =~~= self.spec_values());
        v
    }

    #[verifier::loop_isolation(false)]
    fn files(&self) -> (f: Option<Vec<(String, FilePart)>>) {
        let mut any = false;
        let mut i: usize = 0;
        while i < self.media.len()
            invariant
                0 <= i <= self.media@.len(),
                any <==> exists|j: int|
                    0 <= j < i && (#[trigger] self.media@[j].spec_file()) matches FileType::Bytes(
                        _,
                        _,
                    ),
            decreases self.media@.len() - i,
        {
            if self.media[i].get_file().needs_upload() {
                any = true;
            }
            i = i + 1;
        }
        if !any {
            return None;
        }
        let mut items: Vec<(String, FilePart)> = Vec::new();
        assert(items.deep_view() + media_parts(self.media@, 0) =~~= media_parts(self.media@, 0));
        let mut k: usize = 0;
        while k < self.media.len()
            invariant
                0 <= k <= self.media@.len(),
                items.deep_view() + media_parts(self.media@, k as int) == media_parts(
                    self.media@,
                    0,
                ),
            decreases self.media@.len() - k,
        {
            let ghost prev = items.deep_view();
            let file = self.media[k].get_file();
            match file.file() {
                Some(part) => {
                    let name = part.file_name.clone();
                    items.push((name, part));
                },
                None => {},
            }
            assert(items.deep_view() + media_parts(self.media@, k as int + 1) =~~= prev
                + media_parts(self.media@, k as int));
            k = k + 1;
        }
        assert(items.deep_view() + media_parts(self.media@, self.media@.len() as int) =~~= items.deep_view());
        let f = Some(items);
        assert(f.deep_view() =~~= self.spec_files());
        f
    }
}

/// One result offered in answer to an inline query.
#[derive(Clone, Debug, PartialEq)]
pub struct InlineQueryResult {
    /// The kind of result, e.g. `article` or `photo`.
    pub result_type: String,
    /// A unique identifier for this result.
    pub id: String,
    /// An inline keyboard shown with the result, if desired.
    pub reply_markup: Option<InlineKeyboardMarkup>,
    /// The kind-specific fields, flattened beside the common ones.
    pub content: InlineQueryType,
}

/// The kind-specific fields of an inline query result. The variant is
/// inferred on the wire from which keys are present, tried in
/// declaration order; the result's `type` tag names the intended one.
#[derive(Clone, Debug, PartialEq)]
pub enum InlineQueryType {
    Article(InlineQueryResultArticle),
    Photo(InlineQueryResultPhoto),
    Gif(InlineQueryResultGIF),
    Video(InlineQueryResultVideo),
}

/// An article result: a title and the message it sends.
#[derive(Clone, Debug, Default, PartialEq)]
pub struct InlineQueryResultArticle {
    pub title: String,
    /// The content of the message sent when the result is chosen,
    /// flattened beside the title.
    pub input_message_content: InputMessageType,
    pub description: Option<String>,
}

/// A photo result.
#[derive(Clone, Debug, Default, PartialEq)]
pub struct InlineQueryResultPhoto {
    pub photo_url: String,
    pub thumb_url: String,
    pub photo_width: Option<u32>,
    pub photo_height: Option<u32>,
    pub title: Option<String>,
    pub description: Option<String>,
    pub caption: Option<String>,
    pub parse_mode: Option<ParseMode>,
}

/// An animated image result.
#[derive(Clone, Debug, Default, PartialEq)]
pub struct InlineQueryResultGIF {
    pub gif_url: String,
    pub thumb_url: String,
    pub caption: Option<String>,
}

/// A video result.
#[derive(Clone, Debug, Default, PartialEq)]
pub struct InlineQueryResultVideo {
    pub video_url: String,
    pub mime_type: String,
    pub thumb_url: String,
    pub title: String,
    pub caption: Option<String>,
}

/// The content of a message sent for a chosen inline result. The variant
/// is inferred on the wire from which keys are present.
#[derive(Clone, Debug, PartialEq)]
pub enum InputMessageType {
    Text(InputMessageText),
}

impl Default for InputMessageType {
    fn default() -> (r: Self)
        ensures
            r matches InputMessageType::Text(t) && t.message_text@ == Seq::<char>::empty()
                && t.parse_mode is None,
    {
        InputMessageType::Text(Default::default())
    }
}

/// A text message sent for a chosen inline result.
#[derive(Clone, Debug, PartialEq)]
pub struct InputMessageText {
    pub message_text: String,
    pub parse_mode: Option<String>,
}

impl Default for InputMessageText {
    fn default() -> (r: Self)
        ensures
            r.message_text@ == Seq::<char>::empty(),
            r.parse_mode is None,
    {
        InputMessageText { message_text: String::new(), parse_mode: None }
    }
}

impl InputMessageText {
    /// The entries this content contributes to its result's body.
    pub open spec fn content_entries(&self) -> Seq<(Seq<char>, JsonModel)> {
        seq![("message_text"@, JsonModel::Text(self.message_text@))] + opt_entry(
            "parse_mode"@,
            opt_text_model(self.parse_mode),
        )
    }
}

impl InputMessageType {
    /// The entries this content contributes to its result's body.
    pub open spec fn content_entries(&self) -> Seq<(Seq<char>, JsonModel)> {
        match self {
            InputMessageType::Text(t) => t.content_entries(),
        }
    }
}

impl InlineQueryType {
    /// The entries this kind contributes to its result's body.
    pub open spec fn content_entries(&self) -> Seq<(Seq<char>, JsonModel)> {
        match self {
            InlineQueryType::Article(a) => seq![("title"@, JsonModel::Text(a.title@))]
                + a.input_message_content.content_entries() + opt_entry(
                "description"@,
                opt_text_model(a.description),
            ),
            InlineQueryType::Photo(p) => seq![("photo_url"@, JsonModel::Text(p.photo_url@))]
                + seq![("thumb_url"@, JsonModel::Text(p.thumb_url@))] + opt_entry(
                "photo_width"@,
                opt_u32_model(p.photo_width),
            ) + opt_entry("photo_height"@, opt_u32_model(p.photo_height)) + opt_entry(
                "title"@,
                opt_text_model(p.title),
            ) + opt_entry("description"@, opt_text_model(p.description)) + opt_entry(
                "caption"@,
                opt_text_model(p.caption),
            ) + opt_entry("parse_mode"@, opt_parse_mode_model(p.parse_mode)),
            InlineQueryType::Gif(g) => seq![("gif_url"@, JsonModel::Text(g.gif_url@))] + seq![
                ("thumb_url"@, JsonModel::Text(g.thumb_url@)),
            ] + opt_entry("caption"@, opt_text_model(g.caption)),
            InlineQueryType::Video(v) => seq![("video_url"@, JsonModel::Text(v.video_url@))]
                + seq![("mime_type"@, JsonModel::Text(v.mime_type@))] + seq![
                ("thumb_url"@, JsonModel::Text(v.thumb_url@)),
            ] + seq![("title"@, JsonModel::Text(v.title@))] + opt_entry(
                "caption"@,
                opt_text_model(v.caption),
            ),
        }
    }
}

/// Appends the kind-specific entries of an inline query result.
fn push_content(entries: &mut Vec<(String, JsonValue)>, content: &InlineQueryType)
    ensures
        crate::json::entries_model(final(entries)@) == crate::json::entries_model(old(entries)@)
            + content.content_entries(),
{
    match content {
        InlineQueryType::Article(a) => {
            push_entry(entries, "title", JsonValue::Text(a.title.clone()));
            match &a.input_message_content {
                InputMessageType::Text(t) => {
                    push_entry(
                        entries,
                        "message_text",
                        JsonValue::Text(t.message_text.clone()),
                    );
                    push_opt_text(entries, "parse_mode", &t.parse_mode);
                },
            }
            push_opt_text(entries, "description", &a.description);
            assert(crate::json::entries_model(entries@) =~~= crate::json::entries_model(
                old(entries)@,
            ) + content.content_entries());
        },
        InlineQueryType::Photo(p) => {
            push_entry(entries, "photo_url", JsonValue::Text(p.photo_url.clone()));
            push_entry(entries, "thumb_url", JsonValue::Text(p.thumb_url.clone()));
            push_opt_u32(entries, "photo_width", &p.photo_width);
            push_opt_u32(entries, "photo_height", &p.photo_height);
            push_opt_text(entries, "title", &p.title);
            push_opt_text(entries, "description", &p.description);
            push_opt_text(entries, "caption", &p.caption);
            push_opt_parse_mode(entries, "parse_mode", &p.parse_mode);
            assert(crate::json::entries_model(entries@) =~~= crate::json::entries_model(
                old(entries)@,
            ) + content.content_entries());
        },
        InlineQueryType::Gif(g) => {
            push_entry(entries, "gif_url", JsonValue::Text(g.gif_url.clone()));
            push_entry(entries, "thumb_url", JsonValue::Text(g.thumb_url.clone()));
            push_opt_text(entries, "caption", &g.caption);
            assert(crate::json::entries_model(entries@) =~~= crate::json::entries_model(
                old(entries)@,
            ) + content.content_entries());
        },
        InlineQueryType::Video(v) => {
            push_entry(entries, "video_url", JsonValue::Text(v.video_url.clone()));
            push_entry(entries, "mime_type", JsonValue::Text(v.mime_type.clone()));
            push_entry(entries, "thumb_url", JsonValue::Text(v.thumb_url.clone()));
            push_entry(entries, "title", JsonValue::Text(v.title.clone()));
            push_opt_text(entries, "caption", &v.caption);
            assert(crate::json::entries_model(entries@) =~~= crate::json::entries_model(
                old(entries)@,
            ) + content.content_entries());
        },
    }
}

/// The model of an optional inline keyboard field.
pub open spec fn opt_keyboard_model(o: Option<InlineKeyboardMarkup>) -> Option<JsonModel> {
    match o {
        Some(m) => Some(m.json_model()),
        None => None,
    }
}

/// Appends the entry of an optional inline keyboard field, when present.
pub fn push_opt_keyboard(
    entries: &mut Vec<(String, JsonValue)>,
    key: &str,
    o: &Option<InlineKeyboardMarkup>,
)
    ensures
        crate::json::entries_model(final(entries)@) == crate::json::entries_model(old(entries)@)
            + opt_entry(key@, opt_keyboard_model(*o)),
{
    let ghost before = crate::json::entries_model(entries@);
    match o {
        Some(m) => {
            push_entry(entries, key, m.to_json());
        },
        None => {
            assert(crate::json::entries_model(entries@) =~~= before + opt_entry(
                key@,
                opt_keyboard_model(*o),
            ));
        },
    }
}

impl InlineQueryResult {
    /// The structured rendering: the common fields, then the
    /// kind-specific ones flattened beside them.
    pub open spec fn json_model(&self) -> JsonModel {
        JsonModel::Object(
            seq![("type"@, JsonModel::Text(self.result_type@))] + seq![
                ("id"@, JsonModel::Text(self.id@)),
            ] + opt_entry("reply_markup"@, opt_keyboard_model(self.reply_markup))
                + self.content.content_entries(),
        )
    }

    /// Renders the result for a structured body.
    pub fn to_json(&self) -> (v: JsonValue)
        ensures
            v.deep_view() == self.json_model(),
    {
        let mut entries: Vec<(String, JsonValue)> = Vec::new();
        push_entry(&mut entries, "type", JsonValue::Text(self.result_type.clone()));
        push_entry(&mut entries, "id", JsonValue::Text(self.id.clone()));
        push_opt_keyboard(&mut entries, "reply_markup", &self.reply_markup);
        push_content(&mut entries, &self.content);
        let v = JsonValue::Object(entries);
        assert(v.deep_view() =~~= self.json_model());
        v
    }

    /// An article result that sends the given text when chosen.
    pub fn article(id: String, title: String, text: String) -> (r: InlineQueryResult)
        ensures
            r.result_type@ == "article"@,
            r.id == id,
            r.reply_markup is None,
            r.content matches InlineQueryType::Article(a) && a.title == title
                && a.description is None && (a.input_message_content matches InputMessageType::Text(
                t,
            ) && t.message_text == text && t.parse_mode is None),
    {
        InlineQueryResult {
            result_type: "article".to_owned(),
            id,
            reply_markup: None,
            content: InlineQueryType::Article(
                InlineQueryResultArticle {
                    title,
                    description: None,
                    input_message_content: InputMessageType::Text(
                        InputMessageText { message_text: text, parse_mode: None },
                    ),
                },
            ),
        }
    }

    /// A photo result.
    pub fn photo(id: String, photo_url: String, thumb_url: String) -> (r: InlineQueryResult)
        ensures
            r.result_type@ == "photo"@,
            r.id == id,
            r.reply_markup is None,
            r.content matches InlineQueryType::Photo(p) && p.photo_url == photo_url && p.thumb_url
                == thumb_url && p.photo_width is None && p.photo_height is None && p.title is None
                && p.description is None && p.caption is None && p.parse_mode is None,
    {
        InlineQueryResult {
            result_type: "photo".to_owned(),
            id,
            reply_markup: None,
            content: InlineQueryType::Photo(
                InlineQueryResultPhoto {
                    photo_url,
                    thumb_url,
                    photo_width: None,
                    photo_height: None,
                    title: None,
                    description: None,
                    caption: None,
                    parse_mode: None,
                },
            ),
        }
    }

    /// An animated image result.
    pub fn gif(id: String, gif_url: String, thumb_url: String) -> (r: InlineQueryResult)
        ensures
            r.result_type@ == "gif"@,
            r.id == id,
            r.reply_markup is None,
            r.content matches InlineQueryType::Gif(g) && g.gif_url == gif_url && g.thumb_url
                == thumb_url && g.caption is None,
    {
        InlineQueryResult {
            result_type: "gif".to_owned(),
            id,
            reply_markup: None,
            content: InlineQueryType::Gif(
                InlineQueryResultGIF { gif_url, thumb_url, caption: None },
            ),
        }
    }

    /// A video result.
    pub fn video(
        id: String,
        video_url: String,
        mime_type: String,
        thumb_url: String,
        title: String,
    ) -> (r: InlineQueryResult)
        ensures
            r.result_type@ == "video"@,
            r.id == id,
            r.reply_markup is None,
            r.content matches InlineQueryType::Video(v) && v.video_url == video_url && v.mime_type
                == mime_type && v.thumb_url == thumb_url && v.title == title && v.caption is None,
    {
        InlineQueryResult {
            result_type: "video".to_owned(),
            id,
            reply_markup: None,
            content: InlineQueryType::Video(
                InlineQueryResultVideo { video_url, mime_type, thumb_url, title, caption: None },
            ),
        }
    }
}

/// The models of a list of inline query results.
pub open spec fn results_list_model(results: Seq<InlineQueryResult>) -> Seq<JsonModel> {
    Seq::new(
        results.len(),
        |i: int|
            if 0 <= i < results.len() {
                results[i].json_model()
            } else {
                JsonModel::Null
            },
    )
}

/// AnswerInlineQuery responds to an inline query with results.
#[derive(Clone, Debug, Default, PartialEq)]
pub struct AnswerInlineQuery {
    /// ID of the inline query.
    pub inline_query_id: String,
    /// Results displayed to the user. May include up to 50 items.
    pub results: Vec<InlineQueryResult>,
    /// Maximum amount of time the server may cache these results for.
    pub cache_time: Option<i32>,
    /// If the results are specific to the user.
    pub is_personal: Option<bool>,
    /// Offset for getting more results.
    pub next_offset: Option<String>,
    /// Provide a button with the specified text to start sending a
    /// message to the bot, used with `switch_pm_parameter`.
    pub switch_pm_text: Option<String>,
    /// Deep-linking parameter when switching to private messages.
    pub switch_pm_parameter: Option<String>,
}

impl TelegramRequest for AnswerInlineQuery {
    open spec fn spec_endpoint(&self) -> Seq<char> {
        "answerInlineQuery"@
    }

    open spec fn spec_values(&self) -> JsonModel {
        JsonModel::Object(
            seq![("inline_query_id"@, JsonModel::Text(self.inline_query_id@))] + seq![
                ("results"@, JsonModel::List(results_list_model(self.results@))),
            ] + opt_entry("cache_time"@, opt_i32_model(self.cache_time)) + opt_entry(
                "is_personal"@,
                opt_bool_model(self.is_personal),
            ) + opt_entry("next_offset"@, opt_text_model(self.next_offset)) + opt_entry(
                "switch_pm_text"@,
                opt_text_model(self.switch_pm_text),
            ) + opt_entry("switch_pm_parameter"@, opt_text_model(self.switch_pm_parameter)),
        )
    }

    open spec fn spec_files(&self) -> Option<Seq<(Seq<char>, FilePartModel)>> {
        None
    }

    fn endpoint(&self) -> (e: &str) {
        "answerInlineQuery"
    }

    #[verifier::loop_isolation(false)]
    fn values(&self) -> (v: JsonValue) {
        let mut entries: Vec<(String, JsonValue)> = Vec::new();
        push_entry(
            &mut entries,
            "inline_query_id",
            JsonValue::Text(self.inline_query_id.clone()),
        );
        let mut rendered: Vec<JsonValue> = Vec::new();
        let mut i: usize = 0;
        while i < self.results.len()
            invariant
                0 <= i <= self.results@.len(),
                rendered@.len() == i,
                forall|j: int|
                    0 <= j < i ==> rendered@[j].deep_view() == #[trigger] self.results@[j].json_model(),
            decreases self.results@.len() - i,
        {
            rendered.push(self.results[i].to_json());
            i = i + 1;
        }
        let results_value = JsonValue::List(rendered);
        assert(results_value.deep_view() matches JsonModel::List(l) && l =~= results_list_model(
            self.results@,
        ));
        push_entry(&mut entries, "results", results_value);
        push_opt_i32(&mut entries, "cache_time", &self.cache_time);
        push_opt_bool(&mut entries, "is_personal", &self.is_personal);
        push_opt_text(&mut entries, "next_offset", &self.next_offset);
        push_opt_text(&mut entries, "switch_pm_text", &self.switch_pm_text);
        push_opt_text(&mut entries, "switch_pm_parameter", &self.switch_pm_parameter);
        let v = JsonValue::Object(entries);
        assert(v.deep_view() =~~= self.spec_values());
        v
    }

    fn files(&self) -> (f: Option<Vec<(String, FilePart)>>) {
        None
    }
}

/// AnswerCallbackQuery answers a callback query sent from an inline
/// keyboard. The answer is displayed to the user as a notification.
#[derive(Clone, Debug, Default, PartialEq)]
pub struct AnswerCallbackQuery {
    /// ID of the query to answer.
    pub callback_query_id: String,
    /// The text of the notification.
    pub text: Option<String>,
    /// If an alert should be shown to the user.
    pub show_alert: Option<bool>,
    /// URL opened by the user's client.
    pub url: Option<String>,
    /// Maximum time to cache the result.
    pub cache_time: Option<i32>,
}

impl TelegramRequest for AnswerCallbackQuery {
    open spec fn spec_endpoint(&self) -> Seq<char> {
        "answerCallbackQuery"@
    }

    open spec fn spec_values(&self) -> JsonModel {
        JsonModel::Object(
            seq![("callback_query_id"@, JsonModel::Text(self.callback_query_id@))] + opt_entry(
                "text"@,
                opt_text_model(self.text),
            ) + opt_entry("show_alert"@, opt_bool_model(self.show_alert)) + opt_entry(
                "url"@,
                opt_text_model(self.url),
            ) + opt_entry("cache_time"@, opt_i32_model(self.cache_time)),
        )
    }

    open spec fn spec_files(&self) -> Option<Seq<(Seq<char>, FilePartModel)>> {
        None
    }

    fn endpoint(&self) -> (e: &str) {
        "answerCallbackQuery"
    }

    fn values(&self) -> (v: JsonValue) {
        let mut entries: Vec<(String, JsonValue)> = Vec::new();
        push_entry(
            &mut entries,
            "callback_query_id",
            JsonValue::Text(self.callback_query_id.clone()),
        );
        push_opt_text(&mut entries, "text", &self.text);
        push_opt_bool(&mut entries, "show_alert", &self.show_alert);
        push_opt_text(&mut entries, "url", &self.url);
        push_opt_i32(&mut entries, "cache_time", &self.cache_time);
        let v = JsonValue::Object(entries);
        assert(v.deep_view() =~~= self.spec_values());
        v
    }

    fn files(&self) -> (f: Option<Vec<(String, FilePart)>>) {
        None
    }
}

/// The model of an optional list-of-entities field.
pub open spec fn opt_entities_model(o: Option<Vec<MessageEntity>>) -> Option<JsonModel> {
    match o {
        Some(es) => Some(JsonModel::List(entity_list_model(es@))),
        None => None,
    }
}

/// Appends the entry of an optional list-of-entities field, when present.
pub fn push_opt_entities(
    entries: &mut Vec<(String, JsonValue)>,
    key: &str,
    o: &Option<Vec<MessageEntity>>,
)
    ensures
        crate::json::entries_model(final(entries)@) == crate::json::entries_model(old(entries)@)
            + opt_entry(key@, opt_entities_model(*o)),
{
    let ghost before = crate::json::entries_model(entries@);
    match o {
        Some(es) => {
            push_entry(entries, key, render_entities(es));
        },
        None => {
            assert(crate::json::entries_model(entries@) =~~= before + opt_entry(
                key@,
                opt_entities_model(*o),
            ));
        },
    }
}

/// EditMessageText replaces the text of a sent message.
#[derive(Clone, Debug, Default, PartialEq)]
pub struct EditMessageText {
    pub chat_id: ChatID,
    pub message_id: Option<i32>,
    pub inline_message_id: Option<String>,
    pub text: String,
    pub parse_mode: Option<ParseMode>,
    pub entities: Option<Vec<MessageEntity>>,
    pub disable_web_page_preview: Option<bool>,
    pub reply_markup: Option<ReplyMarkup>,
}

impl TelegramRequest for EditMessageText {
    open spec fn spec_endpoint(&self) -> Seq<char> {
        "editMessageText"@
    }

    open spec fn spec_values(&self) -> JsonModel {
        JsonModel::Object(
            seq![("chat_id"@, self.chat_id.json_model())] + opt_entry(
                "message_id"@,
                opt_i32_model(self.message_id),
            ) + opt_entry("inline_message_id"@, opt_text_model(self.inline_message_id)) + seq![
                ("text"@, JsonModel::Text(self.text@)),
            ] + opt_entry("parse_mode"@, opt_parse_mode_model(self.parse_mode)) + opt_entry(
                "entities"@,
                opt_entities_model(self.entities),
            ) + opt_entry(
                "disable_web_page_preview"@,
                opt_bool_model(self.disable_web_page_preview),
            ) + opt_entry("reply_markup"@, opt_markup_model(self.reply_markup)),
        )
    }

    open spec fn spec_files(&self) -> Option<Seq<(Seq<char>, FilePartModel)>> {
        None
    }

    fn endpoint(&self) -> (e: &str) {
        "editMessageText"
    }

    fn values(&self) -> (v: JsonValue) {
        let mut entries: Vec<(String, JsonValue)> = Vec::new();
        push_entry(&mut entries, "chat_id", self.chat_id.to_json());
        push_opt_i32(&mut entries, "message_id", &self.message_id);
        push_opt_text(&mut entries, "inline_message_id", &self.inline_message_id);
        push_entry(&mut entries, "text", JsonValue::Text(self.text.clone()));
        push_opt_parse_mode(&mut entries, "parse_mode", &self.parse_mode);
        push_opt_entities(&mut entries, "entities", &self.entities);
        push_opt_bool(&mut entries, "disable_web_page_preview", &self.disable_web_page_preview);
        push_opt_markup(&mut entries, "reply_markup", &self.reply_markup);
        let v = JsonValue::Object(entries);
        assert(v.deep_view() =~~= self.spec_values());
        v
    }

    fn files(&self) -> (f: Option<Vec<(String, FilePart)>>) {
        None
    }
}

/// EditMessageCaption replaces the caption of a sent message.
#[derive(Clone, Debug, Default, PartialEq)]
pub struct EditMessageCaption {
    pub chat_id: ChatID,
    pub message_id: Option<i32>,
    pub inline_message_id: Option<String>,
    pub caption: Option<String>,
    pub parse_mode: Option<String>,
    pub caption_entities: Option<Vec<MessageEntity>>,
    pub reply_markup: Option<ReplyMarkup>,
}

impl TelegramRequest for EditMessageCaption {
    open spec fn spec_endpoint(&self) -> Seq<char> {
        "editMessageCaption"@
    }

    open spec fn spec_values(&self) -> JsonModel {
        JsonModel::Object(
            seq![("chat_id"@, self.chat_id.json_model())] + opt_entry(
                "message_id"@,
                opt_i32_model(self.message_id),
            ) + opt_entry("inline_message_id"@, opt_text_model(self.inline_message_id))
                + opt_entry("caption"@, opt_text_model(self.caption)) + opt_entry(
                "parse_mode"@,
                opt_text_model(self.parse_mode),
            ) + opt_entry("caption_entities"@, opt_entities_model(self.caption_entities))
                + opt_entry("reply_markup"@, opt_markup_model(self.reply_markup)),
        )
    }

    open spec fn spec_files(&self) -> Option<Seq<(Seq<char>, FilePartModel)>> {
        None
    }

    fn endpoint(&self) -> (e: &str) {
        "editMessageCaption"
    }

    fn values(&self) -> (v: JsonValue) {
        let mut entries: Vec<(String, JsonValue)> = Vec::new();
        push_entry(&mut entries, "chat_id", self.chat_id.to_json());
        push_opt_i32(&mut entries, "message_id", &self.message_id);
        push_opt_text(&mut entries, "inline_message_id", &self.inline_message_id);
        push_opt_text(&mut entries, "caption", &self.caption);
        push_opt_text(&mut entries, "parse_mode", &self.parse_mode);
        push_opt_entities(&mut entries, "caption_entities", &self.caption_entities);
        push_opt_markup(&mut entries, "reply_markup", &self.reply_markup);
        let v = JsonValue::Object(entries);
        assert(v.deep_view() =~~= self.spec_values());
        v
    }

    fn files(&self) -> (f: Option<Vec<(String, FilePart)>>) {
        None
    }
}

/// EditMessageReplyMarkup replaces the reply markup of a sent message.
#[derive(Clone, Debug, Default, PartialEq)]
pub struct EditMessageReplyMarkup {
    pub chat_id: ChatID,
    pub message_id: Option<i32>,
    pub inline_message_id: Option<String>,
    pub reply_markup: Option<ReplyMarkup>,
}

impl TelegramRequest for EditMessageReplyMarkup {
    open spec fn spec_endpoint(&self) -> Seq<char> {
        "editMessageReplyMarkup"@
    }

    open spec fn spec_values(&self) -> JsonModel {
        JsonModel::Object(
            seq![("chat_id"@, self.chat_id.json_model())] + opt_entry(
                "message_id"@,
                opt_i32_model(self.message_id),
            ) + opt_entry("inline_message_id"@, opt_text_model(self.inline_message_id))
                + opt_entry("reply_markup"@, opt_markup_model(self.reply_markup)),
        )
    }

    open spec fn spec_files(&self) -> Option<Seq<(Seq<char>, FilePartModel)>> {
        None
    }

    fn endpoint(&self) -> (e: &str) {
        "editMessageReplyMarkup"
    }

    fn values(&self) -> (v: JsonValue) {
        let mut entries: Vec<(String, JsonValue)> = Vec::new();
        push_entry(&mut entries, "chat_id", self.chat_id.to_json());
        push_opt_i32(&mut entries, "message_id", &self.message_id);
        push_opt_text(&mut entries, "inline_message_id", &self.inline_message_id);
        push_opt_markup(&mut entries, "reply_markup", &self.reply_markup);
        let v = JsonValue::Object(entries);
        assert(v.deep_view() =~~= self.spec_values());
        v
    }

    fn files(&self) -> (f: Option<Vec<(String, FilePart)>>) {
        None
    }
}

/// DeleteMessage removes a sent message.
#[derive(Clone, Debug, Default, PartialEq)]
pub struct DeleteMessage {
    pub chat_id: ChatID,
    pub message_id: i32,
}

impl TelegramRequest for DeleteMessage {
    open spec fn spec_endpoint(&self) -> Seq<char> {
        "deleteMessage"@
    }

    open spec fn spec_values(&self) -> JsonModel {
        JsonModel::Object(
            seq![("chat_id"@, self.chat_id.json_model())] + seq![
                ("message_id"@, JsonModel::Int(self.message_id as int)),
            ],
        )
    }

    open spec fn spec_files(&self) -> Option<Seq<(Seq<char>, FilePartModel)>> {
        None
    }

    fn endpoint(&self) -> (e: &str) {
        "deleteMessage"
    }

    fn values(&self) -> (v: JsonValue) {
        let mut entries: Vec<(String, JsonValue)> = Vec::new();
        push_entry(&mut entries, "chat_id", self.chat_id.to_json());
        push_entry(&mut entries, "message_id", JsonValue::Int(self.message_id as i64));
        let v = JsonValue::Object(entries);
        assert(v.deep_view() =~~= self.spec_values());
        v
    }

    fn files(&self) -> (f: Option<Vec<(String, FilePart)>>) {
        None
    }
}

/// GetChat returns information about a chat.
#[derive(Clone, Debug, Default, PartialEq)]
pub struct GetChat {
    pub chat_id: ChatID,
}

impl TelegramRequest for GetChat {
    open spec fn spec_endpoint(&self) -> Seq<char> {
        "getChat"@
    }

    open spec fn spec_values(&self) -> JsonModel {
        JsonModel::Object(seq![("chat_id"@, self.chat_id.json_model())])
    }

    open spec fn spec_files(&self) -> Option<Seq<(Seq<char>, FilePartModel)>> {
        None
    }

    fn endpoint(&self) -> (e: &str) {
        "getChat"
    }

    fn values(&self) -> (v: JsonValue) {
        let mut entries: Vec<(String, JsonValue)> = Vec::new();
        push_entry(&mut entries, "chat_id", self.chat_id.to_json());
        let v = JsonValue::Object(entries);
        assert(v.deep_view() =~~= self.spec_values());
        v
    }

    fn files(&self) -> (f: Option<Vec<(String, FilePart)>>) {
        None
    }
}

/// GetChatAdministrators lists the administrators of a chat.
#[derive(Clone, Debug, Default, PartialEq)]
pub struct GetChatAdministrators {
    pub chat_id: ChatID,
}

impl TelegramRequest for GetChatAdministrators {
    open spec fn spec_endpoint(&self) -> Seq<char> {
        "getChatAdministrators"@
    }

    open spec fn spec_values(&self) -> JsonModel {
        JsonModel::Object(seq![("chat_id"@, self.chat_id.json_model())])
    }

    open spec fn spec_files(&self) -> Option<Seq<(Seq<char>, FilePartModel)>> {
        None
    }

    fn endpoint(&self) -> (e: &str) {
        "getChatAdministrators"
    }

    fn values(&self) -> (v: JsonValue) {
        let mut entries: Vec<(String, JsonValue)> = Vec::new();
        push_entry(&mut entries, "chat_id", self.chat_id.to_json());
        let v = JsonValue::Object(entries);
        assert(v.deep_view() =~~= self.spec_values());
        v
    }

    fn files(&self) -> (f: Option<Vec<(String, FilePart)>>) {
        None
    }
}

/// GetChatMember returns one member's standing in a chat.
#[derive(Clone, Debug, Default, PartialEq)]
pub struct GetChatMember {
    pub chat_id: ChatID,
    pub user_id: i64,
}

impl TelegramRequest for GetChatMember {
    open spec fn spec_endpoint(&self) -> Seq<char> {
        "getChatMember"@
    }

    open spec fn spec_values(&self) -> JsonModel {
        JsonModel::Object(
            seq![("chat_id"@, self.chat_id.json_model())] + seq![
                ("user_id"@, JsonModel::Int(self.user_id as int)),
            ],
        )
    }

    open spec fn spec_files(&self) -> Option<Seq<(Seq<char>, FilePartModel)>> {
        None
    }

    fn endpoint(&self) -> (e: &str) {
        "getChatMember"
    }

    fn values(&self) -> (v: JsonValue) {
        let mut entries: Vec<(String, JsonValue)> = Vec::new();
        push_entry(&mut entries, "chat_id", self.chat_id.to_json());
        push_entry(&mut entries, "user_id", JsonValue::Int(self.user_id));
        let v = JsonValue::Object(entries);
        assert(v.deep_view() =~~= self.spec_values());
        v
    }

    fn files(&self) -> (f: Option<Vec<(String, FilePart)>>) {
        None
    }
}

/// The rights granted to an administrator by default.
#[derive(Clone, Debug, Default, PartialEq)]
pub struct ChatAdministratorRights {
    pub is_anonymous: bool,
}

/// SetMyDefaultAdministratorRights changes the rights the bot asks for
/// when it is added to a chat as an administrator.
#[derive(Clone, Debug, Default, PartialEq)]
pub struct SetMyDefaultAdministratorRights {
    /// The rights to ask for, flattened into the body.
    pub rights: ChatAdministratorRights,
    pub for_channels: Option<bool>,
}

impl TelegramRequest for SetMyDefaultAdministratorRights {
    open spec fn spec_endpoint(&self) -> Seq<char> {
        "setMyDefaultAdministratorRights"@
    }

    open spec fn spec_values(&self) -> JsonModel {
        JsonModel::Object(
            seq![("is_anonymous"@, JsonModel::Bool(self.rights.is_anonymous))] + opt_entry(
                "for_channels"@,
                opt_bool_model(self.for_channels),
            ),
        )
    }

    open spec fn spec_files(&self) -> Option<Seq<(Seq<char>, FilePartModel)>> {
        None
    }

    fn endpoint(&self) -> (e: &str) {
        "setMyDefaultAdministratorRights"
    }

    fn values(&self) -> (v: JsonValue) {
        let mut entries: Vec<(String, JsonValue)> = Vec::new();
        push_entry(&mut entries, "is_anonymous", JsonValue::Bool(self.rights.is_anonymous));
        push_opt_bool(&mut entries, "for_channels", &self.for_channels);
        let v = JsonValue::Object(entries);
        assert(v.deep_view() =~~= self.spec_values());
        v
    }

    fn files(&self) -> (f: Option<Vec<(String, FilePart)>>) {
        None
    }
}

/// GetMyDefaultAdministratorRights reads those default rights back.
#[derive(Clone, Debug, Default, PartialEq)]
pub struct GetMyDefaultAdministratorRights {
    pub for_channels: Option<bool>,
}

impl TelegramRequest for GetMyDefaultAdministratorRights {
    open spec fn spec_endpoint(&self) -> Seq<char> {
        "getMyDefaultAdministratorRights"@
    }

    open spec fn spec_values(&self) -> JsonModel {
        JsonModel::Object(opt_entry("for_channels"@, opt_bool_model(self.for_channels)))
    }

    open spec fn spec_files(&self) -> Option<Seq<(Seq<char>, FilePartModel)>> {
        None
    }

    fn endpoint(&self) -> (e: &str) {
        "getMyDefaultAdministratorRights"
    }

    fn values(&self) -> (v: JsonValue) {
        let mut entries: Vec<(String, JsonValue)> = Vec::new();
        push_opt_bool(&mut entries, "for_channels", &self.for_channels);
        let v = JsonValue::Object(entries);
        assert(v.deep_view() =~~= self.spec_values());
        v
    }

    fn files(&self) -> (f: Option<Vec<(String, FilePart)>>) {
        None
    }
}

/// SetWebhook asks the remote service to deliver updates to a URL.
#[derive(Clone, Debug, Default, PartialEq)]
pub struct SetWebhook {
    /// Where updates should be delivered.
    pub url: String,
    /// Which update types to receive.
    pub allowed_updates: Option<Vec<String>>,
    /// A token the remote service echoes back on each delivery.
    pub secret_token: Option<String>,
}

/// The model of an optional list-of-strings field.
pub open spec fn opt_text_list_model(o: Option<Vec<String>>) -> Option<JsonModel> {
    match o {
        Some(items) => Some(JsonModel::List(text_list_model(items@))),
        None => None,
    }
}

/// The models of a list of strings.
pub open spec fn text_list_model(items: Seq<String>) -> Seq<JsonModel> {
    Seq::new(
        items.len(),
        |i: int|
            if 0 <= i < items.len() {
                JsonModel::Text(items[i]@)
            } else {
                JsonModel::Null
            },
    )
}

/// Appends the entry of an optional list-of-strings field, when present.
#[verifier::loop_isolation(false)]
pub fn push_opt_text_list(
    entries: &mut Vec<(String, JsonValue)>,
    key: &str,
    o: &Option<Vec<String>>,
)
    ensures
        crate::json::entries_model(final(entries)@) == crate::json::entries_model(old(entries)@)
            + opt_entry(key@, opt_text_list_model(*o)),
{
    let ghost before = crate::json::entries_model(entries@);
    match o {
        Some(items) => {
            let mut rendered: Vec<JsonValue> = Vec::new();
            let mut i: usize = 0;
            while i < items.len()
                invariant
                    0 <= i <= items@.len(),
                    rendered@.len() == i,
                    forall|j: int|
                        0 <= j < i ==> rendered@[j].deep_view() == JsonModel::Text(
                            #[trigger] items@[j]@,
                        ),
                decreases items@.len() - i,
            {
                rendered.push(JsonValue::Text(items[i].clone()));
                i = i + 1;
            }
            let value = JsonValue::List(rendered);
            assert(value.deep_view() matches JsonModel::List(l) && l =~= text_list_model(items@));
            push_entry(entries, key, value);
        },
        None => {
            assert(crate::json::entries_model(entries@) =~~= before + opt_entry(
                key@,
                opt_text_list_model(*o),
            ));
        },
    }
}

impl TelegramRequest for SetWebhook {
    open spec fn spec_endpoint(&self) -> Seq<char> {
        "setWebhook"@
    }

    open spec fn spec_values(&self) -> JsonModel {
        JsonModel::Object(
            seq![("url"@, JsonModel::Text(self.url@))] + opt_entry(
                "allowed_updates"@,
                opt_text_list_model(self.allowed_updates),
            ) + opt_entry("secret_token"@, opt_text_model(self.secret_token)),
        )
    }

    open spec fn spec_files(&self) -> Option<Seq<(Seq<char>, FilePartModel)>> {
        None
    }

    fn endpoint(&self) -> (e: &str) {
        "setWebhook"
    }

    fn values(&self) -> (v: JsonValue) {
        let mut entries: Vec<(String, JsonValue)> = Vec::new();
        push_entry(&mut entries, "url", JsonValue::Text(self.url.clone()));
        push_opt_text_list(&mut entries, "allowed_updates", &self.allowed_updates);
        push_opt_text(&mut entries, "secret_token", &self.secret_token);
        let v = JsonValue::Object(entries);
        assert(v.deep_view() =~~= self.spec_values());
        v
    }

    fn files(&self) -> (f: Option<Vec<(String, FilePart)>>) {
        None
    }
}

/// DeleteWebhook removes a webhook set with [`SetWebhook`].
#[derive(Clone, Debug, PartialEq)]
pub struct DeleteWebhook;

impl TelegramRequest for DeleteWebhook {
    open spec fn spec_endpoint(&self) -> Seq<char> {
        "deleteWebhook"@
    }

    open spec fn spec_values(&self) -> JsonModel {
        JsonModel::Null
    }

    open spec fn spec_files(&self) -> Option<Seq<(Seq<char>, FilePartModel)>> {
        None
    }

    fn endpoint(&self) -> (e: &str) {
        "deleteWebhook"
    }

    fn values(&self) -> (v: JsonValue) {
        JsonValue::Null
    }

    fn files(&self) -> (f: Option<Vec<(String, FilePart)>>) {
        None
    }
}

} // verus!
