//! Safe, typed adaptation layer over the artifacts of an external RAW-image
//! decode engine: status-code classification, metadata decoding, thumbnail
//! collection, and an owned model of the engine's processed pixel buffers.

mod err;
mod lens;
mod mounts;
mod processed;
mod text;
mod thumb;

pub use err::classify_spec;
pub use err::is_known_code;
pub use err::lemma_unknown_round_trip;
pub use err::tag_spec;
pub use err::Error;
pub use lens::focus_type_spec;
pub use lens::resolve_focus_spec;
pub use lens::FocusType;
pub use lens::LensInfo;
pub use lens::LensRecord;
pub use mounts::mount_name;
pub use mounts::Mounts;
pub use processed::sample16_spec;
pub use processed::ImageFormat;
pub use processed::ProcessedImage;
pub use text::decode_text;
pub use text::decode_text_trimmed;
pub use text::lossy_text_of;
pub use text::nul_prefix;
pub use text::trimmed_of;
pub use thumb::lemma_stable_insert_ordering;
pub use thumb::sorted_by_height;
pub use thumb::stable_insert_pos;
pub use thumb::thumb_format_spec;
pub use thumb::ThumbFormat;
pub use thumb::ThumbnailImage;
pub use thumb::Thumbnails;
