//! Decoded embedded thumbnails and an ordered collection of them. The
//! collection keeps its records sorted by ascending height across appends,
//! with equal heights keeping their relative insertion order.

use vstd::prelude::*;

verus! {

/// The engine's code for a JPEG-encoded thumbnail.
pub const THUMB_FORMAT_JPEG: u32 = 1;

pub const THUMB_FORMAT_BITMAP: u32 = 2;

pub const THUMB_FORMAT_BITMAP16: u32 = 3;

pub const THUMB_FORMAT_LAYER: u32 = 4;

pub const THUMB_FORMAT_ROLLEI: u32 = 5;

pub const THUMB_FORMAT_H265: u32 = 6;

/// The closed set of thumbnail encodings the engine reports.
#[derive(Debug, Clone, Copy, PartialEq, Eq, Hash, Structural)]
pub enum ThumbFormat {
    Unknown,
    Jpeg,
    Bitmap,
    Bitmap16,
    Layer,
    Rollei,
    H265,
}

/// Which encoding a thumbnail-format code denotes; codes outside the
/// published set denote `Unknown`.
pub open spec fn thumb_format_spec(code: u32) -> ThumbFormat {
    if code == THUMB_FORMAT_JPEG {
        ThumbFormat::Jpeg
    } else if code == THUMB_FORMAT_BITMAP {
        ThumbFormat::Bitmap
    } else if code == THUMB_FORMAT_BITMAP16 {
        ThumbFormat::Bitmap16
    } else if code == THUMB_FORMAT_LAYER {
        ThumbFormat::Layer
    } else if code == THUMB_FORMAT_ROLLEI {
        ThumbFormat::Rollei
    } else if code == THUMB_FORMAT_H265 {
        ThumbFormat::H265
    } else {
        ThumbFormat::Unknown
    }
}

impl ThumbFormat {
    /// Total decoding of the engine's thumbnail-format code.
    pub fn from_code(code: u32) -> (r: ThumbFormat)
        ensures
            r == thumb_format_spec(code),
    {
        if code == THUMB_FORMAT_JPEG {
            ThumbFormat::Jpeg
        } else if code == THUMB_FORMAT_BITMAP {
            ThumbFormat::Bitmap
        } else if code == THUMB_FORMAT_BITMAP16 {
            ThumbFormat::Bitmap16
        } else if code == THUMB_FORMAT_LAYER {
            ThumbFormat::Layer
        } else if code == THUMB_FORMAT_ROLLEI {
            ThumbFormat::Rollei
        } else if code == THUMB_FORMAT_H265 {
            ThumbFormat::H265
        } else {
            ThumbFormat::Unknown
        }
    }
}

/// One decoded embedded thumbnail: its encoding, dimensions, channel count
/// and owned byte payload. Immutable once created.
#[derive(Debug, Hash)]
pub struct ThumbnailImage {
    pub format: ThumbFormat,
    pub width: u32,
    pub height: u32,
    pub colors: u16,
    pub data: Vec<u8>,
}

/// Heights never decrease along the sequence.
pub open spec fn sorted_by_height(s: Seq<ThumbnailImage>) -> bool {
    forall|i: int, j: int| 0 <= i < j < s.len() ==> #[trigger] s[i].height <= #[trigger] s[j].height
}

/// Where a stable by-height ordering places a record of height `h` into `s`:
/// directly behind every record of height at most `h`.
pub open spec fn stable_insert_pos(s: Seq<ThumbnailImage>, h: u32) -> int
    decreases s.len(),
{
    if s.len() == 0 {
        0
    } else if s[0].height <= h {
        1 + stable_insert_pos(s.subrange(1, s.len() as int), h)
    } else {
        0
    }
}

proof fn lemma_stable_insert_pos_char(s: Seq<ThumbnailImage>, h: u32, i: int)
    requires
        0 <= i <= s.len(),
        forall|j: int| 0 <= j < i ==> #[trigger] s[j].height <= h,
        i < s.len() ==> s[i].height > h,
    ensures
        stable_insert_pos(s, h) == i,
    decreases s.len(),
{
    if s.len() == 0 {
    } else if i == 0 {
        assert(s[0].height > h);
    } else {
        assert(s[0].height <= h);
        let t = s.subrange(1, s.len() as int);
        assert(forall|j: int| 0 <= j < i - 1 ==> #[trigger] t[j].height <= h) by {
            assert(forall|j: int| 0 <= j < i - 1 ==> t[j] == s[j + 1]);
        }
        assert(i - 1 < t.len() ==> t[i - 1].height > h) by {
            if i - 1 < t.len() {
                assert(t[i - 1] == s[i]);
            }
        }
        lemma_stable_insert_pos_char(t, h, i - 1);
    }
}

/// The law of an append on a height-sorted sequence: the result is still
/// sorted, the new record stands directly behind every record whose height
/// does not exceed its own — so equal heights keep their relative insertion
/// order — and every other record keeps its relative place.
pub proof fn lemma_stable_insert_ordering(s: Seq<ThumbnailImage>, image: ThumbnailImage)
    requires
        sorted_by_height(s),
    ensures
        0 <= stable_insert_pos(s, image.height) <= s.len(),
        sorted_by_height(s.insert(stable_insert_pos(s, image.height), image)),
        s.insert(stable_insert_pos(s, image.height), image)[stable_insert_pos(s, image.height)]
            == image,
        forall|j: int|
            0 <= j < stable_insert_pos(s, image.height) ==> s.insert(
                stable_insert_pos(s, image.height),
                image,
            )[j] == s[j] && #[trigger] s[j].height <= image.height,
        forall|j: int|
            stable_insert_pos(s, image.height) <= j < s.len() ==> s.insert(
                stable_insert_pos(s, image.height),
                image,
            )[j + 1] == s[j] && #[trigger] s[j].height > image.height,
{
    let h = image.height;
    let len = s.len() as int;
    let w = least_above(s, h, 0);
    lemma_least_above(s, h, 0);
    lemma_stable_insert_pos_char(s, h, w);
    let p = stable_insert_pos(s, h);
    let t = s.insert(p, image);
    assert(forall|j: int| p <= j < len ==> #[trigger] s[j].height > h) by {
        assert(forall|j: int| p < j < len ==> s[p].height <= s[j].height);
    }
    assert(sorted_by_height(t)) by {
        assert(forall|i: int, j: int|
            0 <= i < j < t.len() ==> #[trigger] t[i].height <= #[trigger] t[j].height) by {
            assert(forall|k: int| 0 <= k < p ==> t[k] == s[k]);
            assert(t[p] == image);
            assert(forall|k: int| p < k < t.len() ==> t[k] == s[k - 1]);
        }
    }
}

spec fn least_above(s: Seq<ThumbnailImage>, h: u32, from: int) -> int
    decreases s.len() - from,
{
    if from < 0 || from >= s.len() {
        s.len() as int
    } else if s[from].height > h {
        from
    } else {
        least_above(s, h, from + 1)
    }
}

proof fn lemma_least_above(s: Seq<ThumbnailImage>, h: u32, from: int)
    requires
        0 <= from <= s.len(),
    ensures
        from <= least_above(s, h, from) <= s.len(),
        forall|j: int| from <= j < least_above(s, h, from) ==> #[trigger] s[j].height <= h,
        least_above(s, h, from) < s.len() ==> s[least_above(s, h, from)].height > h,
    decreases s.len() - from,
{
    if from < s.len() && s[from].height <= h {
        lemma_least_above(s, h, from + 1);
    }
}

/// The ordered collection of decoded thumbnails. At every observable point
/// its records stand in ascending height order.
#[derive(Debug)]
pub struct Thumbnails {
    thumbs: Vec<ThumbnailImage>,
}

impl View for Thumbnails {
    type V = Seq<ThumbnailImage>;

    closed spec fn view(&self) -> Seq<ThumbnailImage> {
        self.thumbs@
    }
}

impl Thumbnails {
    /// The collection's ordering invariant.
    pub open spec fn wf(&self) -> bool {
        sorted_by_height(self@)
    }

    /// An empty collection.
    pub fn new() -> (r: Thumbnails)
        ensures
            r@ == Seq::<ThumbnailImage>::empty(),
            r.wf(),
    {
        Thumbnails { thumbs: Vec::new() }
    }

    /// Inserts the record at its stable by-height position: behind every
    /// record of height at most its own, ahead of all the rest. The
    /// ascending-height invariant is re-established; nothing is removed.
    pub fn append(&mut self, image: ThumbnailImage)
        requires
            old(self).wf(),
        ensures
            final(self).wf(),
            final(self)@ == old(self)@.insert(
                stable_insert_pos(old(self)@, image.height),
                image,
            ),
    {
        proof {
            lemma_stable_insert_ordering(self@, image);
        }
        let ghost s = self.thumbs@;
        let h = image.height;
        let mut i: usize = 0;
        while i < self.thumbs.len() && self.thumbs[i].height <= h
            invariant
                0 <= i <= s.len(),
                self.thumbs@ == s,
                forall|j: int| 0 <= j < i ==> #[trigger] s[j].height <= h,
            decreases s.len() - i,
        {
            i = i + 1;
        }
        proof {
            lemma_stable_insert_pos_char(s, h, i as int);
        }
        self.thumbs.insert(i, image);
    }

    /// Consumes the collection, yielding its records in ascending height
    /// order.
    pub fn into_inner(self) -> (r: Vec<ThumbnailImage>)
        ensures
            r@ == self@,
    {
        self.thumbs
    }
}

impl Default for Thumbnails {
    /// An empty collection.
    fn default() -> (r: Thumbnails)
        ensures
            r@ == Seq::<ThumbnailImage>::empty(),
            r.wf(),
    {
        Thumbnails::new()
    }
}

} // verus!
