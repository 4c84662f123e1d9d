use vstd::prelude::*;

use crate::json::{JsonModel, JsonValue};
use vstd::string::StringExecFns;

verus! {

/// A named binary payload taken out of a by-bytes file reference, to be
/// transmitted as one binary part of a multipart form.
#[derive(Clone, Debug, PartialEq)]
pub struct FilePart {
    pub file_name: String,
    pub bytes: Vec<u8>,
}

/// Mathematical model of a [`FilePart`].
pub struct FilePartModel {
    pub file_name: Seq<char>,
    pub bytes: Seq<u8>,
}

impl DeepView for FilePart {
    type V = FilePartModel;

    open spec fn deep_view(&self) -> FilePartModel {
        FilePartModel { file_name: self.file_name@, bytes: self.bytes@ }
    }
}

/// A reference to a file in a request. Exactly one variant is active:
/// a remote URL the service fetches itself, an identifier the service
/// already knows, a local cross-reference to a part attached elsewhere in
/// the same request, or an owned binary buffer that must be uploaded with
/// this call.
#[derive(Clone, Debug, PartialEq)]
pub enum FileType {
    /// A URL that the remote service downloads itself.
    URL(String),
    /// An opaque identifier for a file the remote service already has.
    FileID(String),
    /// A cross-reference to a binary part attached elsewhere in the same
    /// request, written `attach://<name>`.
    Attach(String),
    /// A file name and an owned binary buffer to upload with this call.
    Bytes(String, Vec<u8>),
}

impl FileType {
    /// How the reference appears inside the structured body: the three
    /// already-remote variants stand for their string; a by-bytes
    /// reference is rewritten to a local `attach://<name>` cross-reference
    /// while its bytes travel as a separate binary part.
    pub open spec fn json_model(&self) -> JsonModel {
        match self {
            FileType::URL(s) => JsonModel::Text(s@),
            FileType::FileID(s) => JsonModel::Text(s@),
            FileType::Attach(s) => JsonModel::Text(s@),
            FileType::Bytes(name, _) => JsonModel::Text("attach://"@ + name@),
        }
    }

    /// True exactly when this reference carries raw bytes that must be
    /// uploaded as a binary part.
    pub fn needs_upload(&self) -> (r: bool)
        ensures
            r == (self matches FileType::Bytes(_, _)),
    {
        match self {
            FileType::Bytes(_, _) => true,
            _ => false,
        }
    }

    /// The named binary part for a by-bytes reference; nothing for the
    /// other three variants, which travel entirely inside the structured
    /// body.
    pub fn file(&self) -> (r: Option<FilePart>)
        ensures
            match self {
                FileType::Bytes(name, bytes) => r matches Some(p) && p.file_name@ == name@
                    && p.bytes@ == bytes@,
                _ => r is None,
            },
    {
        match self {
            FileType::Bytes(name, bytes) => {
                let copied = bytes.clone();
                assert(copied@ =~= bytes@);
                Some(FilePart { file_name: name.clone(), bytes: copied })
            },
            _ => None,
        }
    }

    /// Renders the reference for the structured body.
    pub fn to_json(&self) -> (v: JsonValue)
        ensures
            v.deep_view() == self.json_model(),
    {
        match self {
            FileType::URL(s) => JsonValue::Text(s.clone()),
            FileType::FileID(s) => JsonValue::Text(s.clone()),
            FileType::Attach(s) => JsonValue::Text(s.clone()),
            FileType::Bytes(name, _) => {
                let mut t = "attach://".to_owned();
                t.append(name.as_str());
                JsonValue::Text(t)
            },
        }
    }
}

impl Default for FileType {
    /// The default reference is an empty by-identifier reference.
    fn default() -> (r: Self)
        ensures
            r matches FileType::FileID(s) && s@ == Seq::<char>::empty(),
    {
        FileType::FileID(String::new())
    }
}

} // verus!
