//! Streaming delta engine and cooperative cancellation bridge for an
//! autoregressive OCR decode loop.
//!
//! The decode backend delivers growing token-id snapshots; sub-word
//! detokenization can rewrite trailing characters as tokens are appended, so
//! each snapshot is re-decoded in full and diffed against the text already
//! emitted. The library turns those snapshots into minimal, monotonically
//! ordered text fragments and lets a host request cancellation mid-decode.

mod cancellation;
mod delta;
mod dispatch;
mod mime;
mod prompt;
mod types;

pub use cancellation::CancellationToken;
pub use delta::DeltaTracker;
pub use delta::common_prefix_len;
pub use delta::concat_deltas;
pub use delta::delta_of;
pub use delta::lemma_delta_concatenation;
pub use dispatch::DispatcherModel;
pub use dispatch::ProgressDispatcher;
pub use dispatch::ProgressEventModel;
pub use dispatch::accepts;
pub use dispatch::clamp_count;
pub use dispatch::decoded_view;
pub use dispatch::lemma_empty_delta_suppression;
pub use dispatch::lemma_final_flush;
pub use dispatch::matches_event;
pub use dispatch::step_event;
pub use dispatch::step_state;
pub use dispatch::valid_token_ids;
pub use mime::mime_for_extension;
pub use mime::mime_from_extension;
pub use prompt::count_image_slots;
pub use prompt::image_slot_count;
pub use prompt::image_slot_pattern;
pub use prompt::normalize_template;
pub use prompt::validate_image_slots;
pub use types::AndroidImageInput;
pub use types::AndroidLogCallback;
pub use types::AndroidLogLevel;
pub use types::AndroidModelKind;
pub use types::AndroidModelPaths;
pub use types::AndroidOcrError;
pub use types::AndroidProgressCallback;
pub use types::AndroidProgressEvent;
