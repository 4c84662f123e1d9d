use vstd::prelude::*;

verus! {

/// Structured retry metadata the remote service may attach to a failure.
#[derive(Clone, Debug, PartialEq)]
pub struct ResponseParameters {
    /// The chat moved: the identifier of the supergroup it became.
    pub migrate_to_chat_id: Option<i64>,
    /// The call was rate limited: how many seconds to wait before retrying.
    pub retry_after: Option<i32>,
}

/// The error metadata of a response envelope. Every field is optional:
/// an envelope may report failure without any of them.
#[derive(Clone, Debug, PartialEq)]
pub struct TelegramError {
    /// A numeric error code; its values are not documented by the remote
    /// service.
    pub error_code: Option<i32>,
    /// A human-readable description of the failure.
    pub description: Option<String>,
    /// Structured retry metadata, when supplied.
    pub parameters: Option<ResponseParameters>,
}

impl TelegramError {
    /// The metadata of an envelope that supplied none: every field absent.
    pub fn empty() -> (r: Self)
        ensures
            r == (TelegramError { error_code: None, description: None, parameters: None }),
    {
        TelegramError { error_code: None, description: None, parameters: None }
    }
}

/// One outcome class per call: the remote service reported failure, the
/// network layer failed, the request could not be encoded, or the response
/// bytes did not match the expected shape.
#[derive(Clone, Debug, PartialEq)]
pub enum Error {
    /// The envelope arrived but reported failure; carries the remote's
    /// error metadata. A normal, expected outcome, not a defect.
    Telegram(TelegramError),
    /// The network layer failed before an envelope arrived: connection,
    /// name resolution, TLS, or timeout. Carries the transport's message.
    Transport(String),
    /// The request could not be rendered for sending.
    Encoding(String),
    /// The response bytes do not match the envelope or result shape.
    Decoding(String),
}

} // verus!
