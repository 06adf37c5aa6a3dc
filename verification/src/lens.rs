//! Lens metadata: the focus-type classification with its numeric-inference
//! fallback, the library's model of the engine's fixed-layout lens record,
//! and the decoder that turns such a record into a structured `LensInfo`.
//!
//! The engine reports focal lengths and apertures as binary32 values; this
//! module carries each one as the `u32` holding its bit pattern, an encoding
//! that preserves the only thing the logic reads of them: equality.

use vstd::prelude::*;

use crate::mounts::mount_name;
use crate::mounts::Mounts;
use crate::text::decode_text;
use crate::text::decode_text_trimmed;
use crate::text::lossy_text_of;
use crate::text::nul_prefix;
use crate::text::trimmed_of;

verus! {

/// The engine's code for a fixed-focal (prime) lens.
pub const FOCAL_TYPE_PRIME: u32 = 1;

pub const FOCAL_TYPE_ZOOM: u32 = 2;

pub const FOCAL_TYPE_ZOOM_CONSTANT_APERTURE: u32 = 3;

pub const FOCAL_TYPE_ZOOM_VARIABLE_APERTURE: u32 = 4;

/// The closed focus-type classification of a lens.
#[derive(Debug, Clone, Copy, PartialEq, Eq, Structural)]
pub enum FocusType {
    Unknown,
    Prime,
    Zoom,
    ZoomConstAp,
    ZoomVarAp,
}

/// Which classification a focal-type code denotes; codes outside the
/// published set denote `Unknown`.
pub open spec fn focus_type_spec(code: u32) -> FocusType {
    if code == FOCAL_TYPE_PRIME {
        FocusType::Prime
    } else if code == FOCAL_TYPE_ZOOM {
        FocusType::Zoom
    } else if code == FOCAL_TYPE_ZOOM_CONSTANT_APERTURE {
        FocusType::ZoomConstAp
    } else if code == FOCAL_TYPE_ZOOM_VARIABLE_APERTURE {
        FocusType::ZoomVarAp
    } else {
        FocusType::Unknown
    }
}

/// The resolution policy: an explicit classification is trusted as it
/// stands; only an `Unknown` hint falls back to numeric inference over the
/// focal and aperture extremes.
pub open spec fn resolve_focus_spec(
    hint: FocusType,
    min_focal: u32,
    max_focal: u32,
    max_ap_at_min_focal: u32,
    max_ap_at_max_focal: u32,
) -> FocusType {
    if hint != FocusType::Unknown {
        hint
    } else if min_focal == max_focal {
        FocusType::Prime
    } else if max_ap_at_min_focal == max_ap_at_max_focal {
        FocusType::ZoomConstAp
    } else {
        FocusType::ZoomVarAp
    }
}

impl FocusType {
    /// Total decoding of the engine's explicit focal-type code.
    pub fn from_code(code: u32) -> (r: FocusType)
        ensures
            r == focus_type_spec(code),
    {
        if code == FOCAL_TYPE_PRIME {
            FocusType::Prime
        } else if code == FOCAL_TYPE_ZOOM {
            FocusType::Zoom
        } else if code == FOCAL_TYPE_ZOOM_CONSTANT_APERTURE {
            FocusType::ZoomConstAp
        } else if code == FOCAL_TYPE_ZOOM_VARIABLE_APERTURE {
            FocusType::ZoomVarAp
        } else {
            FocusType::Unknown
        }
    }

    /// Resolves a lens's focus type from the engine's explicit hint and the
    /// record's numeric fields: a non-`Unknown` hint is returned unchanged;
    /// otherwise equal focal extremes classify `Prime`, equal maximum
    /// apertures at the two extremes `ZoomConstAp`, anything else
    /// `ZoomVarAp`. Total, with no failure modes.
    pub fn resolve(
        hint: FocusType,
        min_focal: u32,
        max_focal: u32,
        max_ap_at_min_focal: u32,
        max_ap_at_max_focal: u32,
    ) -> (r: FocusType)
        ensures
            r == resolve_focus_spec(hint, min_focal, max_focal, max_ap_at_min_focal, max_ap_at_max_focal),
    {
        if hint != FocusType::Unknown {
            hint
        } else if min_focal == max_focal {
            FocusType::Prime
        } else if max_ap_at_min_focal == max_ap_at_max_focal {
            FocusType::ZoomConstAp
        } else {
            FocusType::ZoomVarAp
        }
    }
}

/// The library's model of the engine's fixed-layout lens record: numeric
/// fields as plain values (focal lengths and apertures as binary32 bit
/// patterns), text fields as the raw NUL-terminated bytes.
#[derive(Debug, Clone)]
pub struct LensRecord {
    pub min_focal: u32,
    pub max_focal: u32,
    pub max_ap4_min_focal: u32,
    pub max_ap4_max_focal: u32,
    pub lens_make: Vec<u8>,
    pub lens: Vec<u8>,
    pub lens_serial: Vec<u8>,
    pub internal_lens_serial: Vec<u8>,
    pub focal_length_in_35mm_format: u16,
    pub focal_type: u32,
    pub lens_mount: u32,
    pub lens_features_pre: Vec<u8>,
    pub lens_features_suf: Vec<u8>,
}

/// Structured lens metadata, built once from a `LensRecord` and immutable
/// afterwards.
#[derive(Debug, Clone, PartialEq)]
pub struct LensInfo {
    pub min_focal: u32,
    pub max_focal: u32,
    pub max_aperture_at_min_focal: u32,
    pub max_aperture_at_max_focal: u32,
    pub lens_make: String,
    pub lens_name: String,
    pub lens_serial: String,
    pub internal_lens_serial: String,
    pub focal_length_in_35mm_format: u16,
    pub mounts: String,
    pub focus_type: FocusType,
    pub feture_pre: String,
    pub feture_suf: String,
}

impl LensInfo {
    /// Decodes a lens record: make, name and feature fields with the plain
    /// text decoder, serial fields with the trimming one, the mount name
    /// resolved from the record's mount code, the focus type resolved from
    /// the explicit hint with numeric fallback, and the remaining numeric
    /// fields copied. The maximum focal length is taken from the record's
    /// minimum-focal field, keeping this adapter's established field
    /// mapping. Never fails.
    pub fn decode(record: &LensRecord) -> (r: LensInfo)
        ensures
            r.min_focal == record.min_focal,
            r.max_focal == record.min_focal,
            r.max_aperture_at_min_focal == record.max_ap4_min_focal,
            r.max_aperture_at_max_focal == record.max_ap4_max_focal,
            r.lens_make@ == lossy_text_of(nul_prefix(record.lens_make@)),
            r.lens_name@ == lossy_text_of(nul_prefix(record.lens@)),
            r.lens_serial@ == trimmed_of(lossy_text_of(nul_prefix(record.lens_serial@))),
            r.internal_lens_serial@ == trimmed_of(
                lossy_text_of(nul_prefix(record.internal_lens_serial@)),
            ),
            r.focal_length_in_35mm_format == record.focal_length_in_35mm_format,
            r.mounts@ == mount_name(record.lens_mount),
            r.focus_type == resolve_focus_spec(
                focus_type_spec(record.focal_type),
                record.min_focal,
                record.max_focal,
                record.max_ap4_min_focal,
                record.max_ap4_max_focal,
            ),
            r.feture_pre@ == lossy_text_of(nul_prefix(record.lens_features_pre@)),
            r.feture_suf@ == lossy_text_of(nul_prefix(record.lens_features_suf@)),
    {
        let hint = FocusType::from_code(record.focal_type);
        let focus_type = FocusType::resolve(
            hint,
            record.min_focal,
            record.max_focal,
            record.max_ap4_min_focal,
            record.max_ap4_max_focal,
        );
        let mounts = Mounts::from_code(record.lens_mount).repr().to_owned();
        LensInfo {
            min_focal: record.min_focal,
            max_focal: record.min_focal,
            max_aperture_at_min_focal: record.max_ap4_min_focal,
            max_aperture_at_max_focal: record.max_ap4_max_focal,
            lens_make: decode_text(record.lens_make.as_slice()),
            lens_name: decode_text(record.lens.as_slice()),
            lens_serial: decode_text_trimmed(record.lens_serial.as_slice()),
            internal_lens_serial: decode_text_trimmed(record.internal_lens_serial.as_slice()),
            focal_length_in_35mm_format: record.focal_length_in_35mm_format,
            mounts,
            focus_type,
            feture_pre: decode_text(record.lens_features_pre.as_slice()),
            feture_suf: decode_text(record.lens_features_suf.as_slice()),
        }
    }
}

} // verus!
