use vstd::prelude::*;

verus! {

/// Model family that a host may select for a decode session.
#[derive(Clone, Copy, Debug)]
pub enum AndroidModelKind {
    Deepseek,
    PaddleOcrVl,
}

/// Filesystem locations of the artefacts that one model needs.
#[derive(Clone, Debug)]
pub struct AndroidModelPaths {
    pub kind: AndroidModelKind,
    pub config_path: String,
    pub tokenizer_path: String,
    pub weights_path: String,
}

/// One raw image handed in by the host: encoded bytes plus an optional
/// declared MIME type.
#[derive(Clone, Debug)]
pub struct AndroidImageInput {
    pub data: Vec<u8>,
    pub mime_type: Option<String>,
}

/// Severity of one diagnostic message routed to the host's log sink.
#[derive(Clone, Copy, Debug)]
pub enum AndroidLogLevel {
    Debug,
    Info,
    Warn,
}

/// Host-supplied log sink; implementations must be safe to invoke from the
/// decode thread.
pub trait AndroidLogCallback: Send + Sync {
    fn on_log(&self, level: AndroidLogLevel, message: String);
}

/// One progress event delivered to the host: the cumulative token count the
/// delta was computed at, the newly available text, and whether this is the
/// terminal event of the session.
#[derive(Clone, Debug)]
pub struct AndroidProgressEvent {
    pub token_count: u32,
    pub delta_text: String,
    pub is_final: bool,
}

/// Host-supplied progress sink; implementations must be safe to invoke from
/// the decode thread.
pub trait AndroidProgressCallback: Send + Sync {
    fn on_progress(&self, event: AndroidProgressEvent);
}

/// Terminal failure of a decode session, carrying a human-readable message.
#[derive(Debug)]
pub enum AndroidOcrError {
    Failure(String),
}

impl AndroidOcrError {
    /// The characters of the human-readable message.
    pub closed spec fn message_view(&self) -> Seq<char> {
        match self {
            AndroidOcrError::Failure(text) => text@,
        }
    }

    /// The human-readable message carried by this failure.
    pub fn message(&self) -> (message: &str)
        ensures
            message@ == self.message_view(),
    {
        match self {
            AndroidOcrError::Failure(text) => text.as_str(),
        }
    }
}

} // verus!
