use rsraw::ThumbFormat;
use rsraw::ThumbnailImage;
use rsraw::Thumbnails;

fn thumb(height: u32, width: u32) -> ThumbnailImage {
    ThumbnailImage {
        format: ThumbFormat::Jpeg,
        width,
        height,
        colors: 3,
        data: vec![],
    }
}

#[test]
fn format_codes() {
    assert_eq!(ThumbFormat::from_code(1), ThumbFormat::Jpeg);
    assert_eq!(ThumbFormat::from_code(2), ThumbFormat::Bitmap);
    assert_eq!(ThumbFormat::from_code(3), ThumbFormat::Bitmap16);
    assert_eq!(ThumbFormat::from_code(4), ThumbFormat::Layer);
    assert_eq!(ThumbFormat::from_code(5), ThumbFormat::Rollei);
    assert_eq!(ThumbFormat::from_code(6), ThumbFormat::H265);
    assert_eq!(ThumbFormat::from_code(0), ThumbFormat::Unknown);
    assert_eq!(ThumbFormat::from_code(77), ThumbFormat::Unknown);
}

#[test]
fn empty_collection() {
    let t = Thumbnails::new();
    assert!(t.into_inner().is_empty());
}

#[test]
fn appends_stay_sorted_by_height() {
    let mut t = Thumbnails::new();
    for h in [160u32, 40, 480, 40, 1080, 160, 40] {
        t.append(thumb(h, h * 2));
    }
    let out = t.into_inner();
    assert_eq!(out.len(), 7);
    for pair in out.windows(2) {
        assert!(pair[0].height <= pair[1].height);
    }
}

#[test]
fn equal_heights_keep_insertion_order() {
    // Equal-height records are told apart by width: the widths record the
    // order in which they were appended.
    let mut t = Thumbnails::new();
    t.append(thumb(100, 1));
    t.append(thumb(50, 2));
    t.append(thumb(100, 3));
    t.append(thumb(50, 4));
    t.append(thumb(100, 5));
    let out = t.into_inner();
    let heights: Vec<u32> = out.iter().map(|i| i.height).collect();
    let widths: Vec<u32> = out.iter().map(|i| i.width).collect();
    assert_eq!(heights, vec![50, 50, 100, 100, 100]);
    assert_eq!(widths, vec![2, 4, 1, 3, 5]);
}

#[test]
fn append_keeps_every_record() {
    let mut t = Thumbnails::new();
    t.append(thumb(7, 70));
    t.append(thumb(3, 30));
    t.append(thumb(5, 50));
    let out = t.into_inner();
    assert_eq!(out.len(), 3);
    let heights: Vec<u32> = out.iter().map(|i| i.height).collect();
    assert_eq!(heights, vec![3, 5, 7]);
    assert_eq!(out[0].width, 30);
    assert_eq!(out[1].width, 50);
    assert_eq!(out[2].width, 70);
}

#[test]
fn record_fields_survive_append() {
    let mut t = Thumbnails::new();
    t.append(ThumbnailImage {
        format: ThumbFormat::Bitmap16,
        width: 320,
        height: 240,
        colors: 4,
        data: vec![9, 8, 7],
    });
    let out = t.into_inner();
    assert_eq!(out[0].format, ThumbFormat::Bitmap16);
    assert_eq!(out[0].width, 320);
    assert_eq!(out[0].height, 240);
    assert_eq!(out[0].colors, 4);
    assert_eq!(out[0].data, vec![9, 8, 7]);
}

#[test]
fn default_is_empty() {
    let t: Thumbnails = Default::default();
    assert!(t.into_inner().is_empty());
}
