use rsraw::ImageFormat;
use rsraw::ProcessedImage;

#[test]
fn image_format_codes() {
    assert_eq!(ImageFormat::from_code(1), ImageFormat::Jpeg);
    assert_eq!(ImageFormat::from_code(2), ImageFormat::Bitmap);
}

#[test]
fn metadata_reads_back() {
    let p = ProcessedImage::new(640, 480, ImageFormat::Jpeg, 3, 8, vec![0; 12]);
    assert_eq!(p.width(), 640);
    assert_eq!(p.height(), 480);
    assert_eq!(p.image_format(), ImageFormat::Jpeg);
    assert_eq!(p.colors(), 3);
    assert_eq!(p.bits(), 8);
    assert_eq!(p.data_size(), 12);
}

#[test]
fn eight_bit_view_has_one_sample_per_byte() {
    let p = ProcessedImage::new(5, 2, ImageFormat::Bitmap, 1, 8, vec![7; 10]);
    assert_eq!(p.samples8().len(), 10);
}

#[test]
fn sixteen_bit_view_halves_the_byte_length() {
    let p = ProcessedImage::new(5, 1, ImageFormat::Bitmap, 1, 16, vec![0; 10]);
    assert_eq!(p.samples16().len(), 5);
}

#[test]
fn sixteen_bit_samples_read_little_endian() {
    let p = ProcessedImage::new(2, 1, ImageFormat::Bitmap, 1, 16, vec![0x01, 0x02, 0xFF, 0x00]);
    let v = p.samples16();
    assert_eq!(v, vec![0x0201, 0x00FF]);
}

#[test]
fn release_happens_once_after_any_number_of_reads() {
    let mut p = ProcessedImage::new(2, 1, ImageFormat::Bitmap, 1, 16, vec![1, 2, 3, 4]);
    assert!(!p.released());
    let _ = p.samples16();
    let _ = p.samples16();
    let _ = p.data_size();
    assert!(!p.released());
    p.release();
    assert!(p.released());
}
