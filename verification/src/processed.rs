//! Owned model of an engine-produced pixel buffer: its declared metadata,
//! its byte region, and its release state. The buffer is bit-depth
//! polymorphic through a width tag fixed at construction: an 8-bit buffer
//! views its region as single-byte samples, a 16-bit one as two-byte
//! samples, which demands an even byte length. Nothing may be read after
//! release, and release happens at most once.

use vstd::prelude::*;

verus! {

/// The engine's code for a JPEG-encoded processed image.
pub const IMAGE_FORMAT_JPEG: u32 = 1;

/// The engine's code for a raw-sample bitmap processed image.
pub const IMAGE_FORMAT_BITMAP: u32 = 2;

/// How a processed image is encoded: a compressed JPEG stream or a plain
/// sample bitmap.
#[derive(Debug, Clone, Copy, PartialEq, Eq, Structural)]
pub enum ImageFormat {
    Jpeg,
    Bitmap,
}

impl ImageFormat {
    /// Decodes the engine's image-format code. The engine only ever reports
    /// the two published codes, so any other value is a caller error and is
    /// excluded outright.
    pub fn from_code(code: u32) -> (r: ImageFormat)
        requires
            code == IMAGE_FORMAT_JPEG || code == IMAGE_FORMAT_BITMAP,
        ensures
            code == IMAGE_FORMAT_JPEG ==> r == ImageFormat::Jpeg,
            code == IMAGE_FORMAT_BITMAP ==> r == ImageFormat::Bitmap,
    {
        if code == IMAGE_FORMAT_JPEG {
            ImageFormat::Jpeg
        } else {
            ImageFormat::Bitmap
        }
    }
}

/// The two-byte sample at index `i` of a byte region read least-significant
/// byte first.
pub open spec fn sample16_spec(data: Seq<u8>, i: int) -> u16 {
    (data[2 * i] + data[2 * i + 1] * 256) as u16
}

/// A decoder-produced pixel buffer with its declared metadata. Created by
/// taking ownership of the engine's region; released at most once, and
/// never readable afterwards.
#[derive(Debug)]
pub struct ProcessedImage {
    width: u32,
    height: u32,
    format: ImageFormat,
    colors: u16,
    bits: u16,
    data: Vec<u8>,
    released: bool,
}

impl ProcessedImage {
    /// The buffer's declared width.
    pub closed spec fn spec_width(&self) -> u32 {
        self.width
    }

    /// The buffer's declared height.
    pub closed spec fn spec_height(&self) -> u32 {
        self.height
    }

    /// The buffer's image encoding.
    pub closed spec fn spec_format(&self) -> ImageFormat {
        self.format
    }

    /// The buffer's color-channel count.
    pub closed spec fn spec_colors(&self) -> u16 {
        self.colors
    }

    /// The buffer's per-sample bit width.
    pub closed spec fn spec_bits(&self) -> u16 {
        self.bits
    }

    /// The buffer's byte region.
    pub closed spec fn spec_data(&self) -> Seq<u8> {
        self.data@
    }

    /// Whether the region was handed back already.
    pub closed spec fn spec_released(&self) -> bool {
        self.released
    }

    /// The buffer's invariant: the sample width is 8 or 16 bits, and a
    /// 16-bit region holds whole two-byte samples.
    pub open spec fn wf(&self) -> bool {
        &&& (self.spec_bits() == 8 || self.spec_bits() == 16)
        &&& (self.spec_bits() == 16 ==> self.spec_data().len() % 2 == 0)
    }

    /// Takes ownership of a decoded region together with its declared
    /// metadata. The sample width must be 8 or 16 bits, and a 16-bit region
    /// must hold an even number of bytes: an odd trailing byte would be
    /// silently unreachable through the typed view, so it is rejected as a
    /// caller error rather than truncated.
    pub fn new(
        width: u32,
        height: u32,
        format: ImageFormat,
        colors: u16,
        bits: u16,
        data: Vec<u8>,
    ) -> (r: ProcessedImage)
        requires
            bits == 8 || bits == 16,
            bits == 16 ==> data@.len() % 2 == 0,
        ensures
            r.wf(),
            !r.spec_released(),
            r.spec_width() == width,
            r.spec_height() == height,
            r.spec_format() == format,
            r.spec_colors() == colors,
            r.spec_bits() == bits,
            r.spec_data() == data@,
    {
        ProcessedImage { width, height, format, colors, bits, data, released: false }
    }

    /// The declared width; a pure read.
    pub fn width(&self) -> (r: u32)
        requires
            !self.spec_released(),
        ensures
            r == self.spec_width(),
    {
        self.width
    }

    /// The declared height; a pure read.
    pub fn height(&self) -> (r: u32)
        requires
            !self.spec_released(),
        ensures
            r == self.spec_height(),
    {
        self.height
    }

    /// The image encoding; a pure read.
    pub fn image_format(&self) -> (r: ImageFormat)
        requires
            !self.spec_released(),
        ensures
            r == self.spec_format(),
    {
        self.format
    }

    /// The color-channel count; a pure read.
    pub fn colors(&self) -> (r: u16)
        requires
            !self.spec_released(),
        ensures
            r == self.spec_colors(),
    {
        self.colors
    }

    /// The per-sample bit width; a pure read.
    pub fn bits(&self) -> (r: u16)
        requires
            !self.spec_released(),
        ensures
            r == self.spec_bits(),
    {
        self.bits
    }

    /// The byte length of the region; a pure read.
    pub fn data_size(&self) -> (r: usize)
        requires
            !self.spec_released(),
        ensures
            r == self.spec_data().len(),
    {
        self.data.len()
    }

    /// Whether the region was handed back already.
    pub fn released(&self) -> (r: bool)
        ensures
            r == self.spec_released(),
    {
        self.released
    }

    /// The typed view of an 8-bit buffer: one sample per byte, the whole
    /// region, copied nowhere.
    pub fn samples8(&self) -> (r: &[u8])
        requires
            !self.spec_released(),
            self.spec_bits() == 8,
        ensures
            r@ == self.spec_data(),
    {
        self.data.as_slice()
    }

    /// The typed view of a 16-bit buffer: the region reinterpreted as
    /// two-byte samples, least-significant byte first, of length exactly
    /// half the byte length.
    pub fn samples16(&self) -> (r: Vec<u16>)
        requires
            !self.spec_released(),
            self.wf(),
            self.spec_bits() == 16,
        ensures
            r@.len() == self.spec_data().len() / 2,
            forall|i: int| 0 <= i < r@.len() ==> r@[i] == sample16_spec(self.spec_data(), i),
    {
        let n = self.data.len() / 2;
        let mut r: Vec<u16> = Vec::new();
        let mut i: usize = 0;
        while i < n
            invariant
                0 <= i <= n,
                n <= usize::MAX / 2,
                n == self.spec_data().len() / 2,
                self.spec_data().len() % 2 == 0,
                self.spec_data() == self.data@,
                r@.len() == i,
                forall|j: int| 0 <= j < i ==> r@[j] == sample16_spec(self.spec_data(), j),
            decreases n - i,
        {
            proof {
                assert(2 * (n as int) == self.spec_data().len());
                assert(2 * (i as int) + 1 < self.spec_data().len());
            }
            let lo = self.data[2 * i];
            let hi = self.data[2 * i + 1];
            let sample: u16 = lo as u16 + hi as u16 * 256;
            r.push(sample);
            i = i + 1;
        }
        r
    }

    /// Hands the region back: permitted exactly once, never after a
    /// previous release, and leaves every declared field unchanged. Reads
    /// take shared references, so no number of typed-view reads can release
    /// the buffer or be performed after its release.
    pub fn release(&mut self)
        requires
            !old(self).spec_released(),
        ensures
            final(self).spec_released(),
            final(self).spec_width() == old(self).spec_width(),
            final(self).spec_height() == old(self).spec_height(),
            final(self).spec_format() == old(self).spec_format(),
            final(self).spec_colors() == old(self).spec_colors(),
            final(self).spec_bits() == old(self).spec_bits(),
            final(self).spec_data() == old(self).spec_data(),
    {
        self.released = true;
    }
}

} // verus!
