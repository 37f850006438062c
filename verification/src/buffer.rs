//! The pixel buffer: a dense, row-major grid of pixels whose length always
//! equals width times height.

use crate::error::ImageError;
use crate::pixel::{luma_of, luma_u8, Pixel};
use crate::types::ImageDimensions;
use vstd::prelude::*;

verus! {

/// The layout tag of a buffer.
#[derive(Debug, Clone, Copy, PartialEq, Eq, Structural)]
pub enum PixelFormat {
    Rgb8,
    Rgba8,
    Gray8,
    Gray16,
    Rgb16,
    Rgba16,
}

/// A grid of pixels in rows from top to bottom.
#[derive(Debug, Clone)]
pub struct ImageBuffer<P: Pixel> {
    pixels: Vec<P>,
    dimensions: ImageDimensions,
    pixel_format: PixelFormat,
}

/// The channel at `i`, or `default` where the pixel has no such channel.
pub open spec fn channel_or(channels: Seq<u8>, i: int, default: u8) -> u8 {
    if 0 <= i < channels.len() {
        channels[i]
    } else {
        default
    }
}

/// The channels of a pixel after conversion to a pixel of `target_count`
/// channels. Red, green and blue are the first three channels of the source,
/// each 0 where the source has none; alpha is the fourth, or 255. Four
/// channels keep all of them, three keep the colours, and one holds the grey
/// value of the colours.
pub open spec fn converted_channels(channels: Seq<u8>, target_count: nat) -> Seq<u8> {
    let r = channel_or(channels, 0, 0);
    let g = channel_or(channels, 1, 0);
    let b = channel_or(channels, 2, 0);
    let a = channel_or(channels, 3, 255);
    if target_count == 4 {
        seq![r, g, b, a]
    } else if target_count == 3 {
        seq![r, g, b]
    } else {
        seq![luma_of(r as int, g as int, b as int) as u8]
    }
}

/// Reads the channel at `i`, or `default` where there is none.
fn get_channel_or(channels: &Vec<u8>, i: usize, default: u8) -> (c: u8)
    ensures
        c == channel_or(channels@, i as int, default),
{
    if i < channels.len() {
        channels[i]
    } else {
        default
    }
}

/// A row-major index is in range: with `x < w` and `y < h`, `y * w + x` is
/// below `w * h`.
pub proof fn lemma_index_in_range(x: int, y: int, w: int, h: int)
    requires
        0 <= x < w,
        0 <= y < h,
    ensures
        0 <= y * w + x < w * h,
{
    assert(y * w + x < w * h) by (nonlinear_arith)
        requires
            0 <= x < w,
            0 <= y < h,
    {
        assert((y + 1) * w <= h * w);
    }
    assert(0 <= y * w) by (nonlinear_arith)
        requires
            0 <= y,
            0 <= w,
    ;
}

impl<P: Pixel> ImageBuffer<P> {
    /// The invariant of a buffer: it holds exactly width times height
    /// pixels. Every constructor establishes it and every method keeps it.
    pub closed spec fn wf(&self) -> bool {
        self.pixels@.len() == self.dimensions.width * self.dimensions.height
    }

    /// What the invariant says, over the model.
    pub proof fn lemma_length(&self)
        requires
            self.wf(),
        ensures
            self@.len() == self.width() * self.height(),
    {
    }

    /// The pixels of the buffer, row after row.
    pub closed spec fn view(&self) -> Seq<P> {
        self.pixels@
    }

    /// The width of the buffer.
    pub closed spec fn width(&self) -> nat {
        self.dimensions.width as nat
    }

    /// The height of the buffer.
    pub closed spec fn height(&self) -> nat {
        self.dimensions.height as nat
    }

    /// The layout tag of the buffer.
    pub closed spec fn format(&self) -> PixelFormat {
        self.pixel_format
    }

    /// The position of the pixel at column `x` and row `y`.
    pub open spec fn index_of(&self, x: u32, y: u32) -> int {
        y * self.width() + x
    }

    /// A buffer of `width` by `height` pixels whose channels are all zero.
    pub fn new(width: u32, height: u32, format: PixelFormat) -> (buffer: Self) where
        P: Pixel<Subpixel = u8>,

        requires
            width * height <= usize::MAX,
        ensures
            buffer.wf(),
            buffer.width() == width,
            buffer.height() == height,
            buffer.format() == format,
            buffer@.len() == width * height,
            forall|i: int, c: int|
                0 <= i < buffer@.len() && 0 <= c < P::spec_channel_count()
                    ==> #[trigger] buffer@[i].channels()[c] == 0,
    {
        let zeros: Vec<u8> = vec![0u8, 0u8, 0u8, 0u8];
        let count = P::channel_count();
        let default_pixel = P::from_channels(zeros.as_slice());
        assert(width * height == (width as usize) * (height as usize)) by (nonlinear_arith);
        let len: usize = (width as usize) * (height as usize);
        let mut pixels: Vec<P> = Vec::new();
        let mut i: usize = 0;
        while i < len
            invariant
                i <= len,
                pixels@.len() == i,
                forall|k: int| 0 <= k < i ==> pixels@[k] == default_pixel,
            decreases len - i,
        {
            pixels.push(default_pixel);
            i += 1;
        }
        ImageBuffer { pixels, dimensions: ImageDimensions { width, height }, pixel_format: format }
    }

    /// A buffer over `data`, which must hold exactly `width * height` pixels.
    pub fn from_raw(width: u32, height: u32, data: Vec<P>, format: PixelFormat) -> (r: Result<
        Self,
        ImageError,
    >)
        ensures
            data@.len() == width * height ==> (r matches Ok(buffer) && buffer.wf() && buffer@ == data@
                && buffer.width() == width && buffer.height() == height && buffer.format()
                == format),
            data@.len() != width * height ==> (r matches Err(
                ImageError::InvalidParameters { details },
            ) && details@ == "data length does not match dimensions"@),
    {
        assert(width * height <= 0xffff_ffff * 0xffff_ffff) by (nonlinear_arith)
            requires
                0 <= width <= 0xffff_ffff,
                0 <= height <= 0xffff_ffff,
        ;
        let expected: u128 = (width as u128) * (height as u128);
        if data.len() as u128 != expected {
            return Err(ImageError::invalid_parameters("data length does not match dimensions"));
        }
        Ok(ImageBuffer { pixels: data, dimensions: ImageDimensions { width, height }, pixel_format: format })
    }

    /// The pixel at column `x` and row `y`, if there is one.
    pub fn get_pixel(&self, x: u32, y: u32) -> (r: Option<&P>)
        requires
            self.wf(),
        ensures
            x < self.width() && y < self.height() ==> r == Some(&self@[self.index_of(x, y)]),
            !(x < self.width() && y < self.height()) ==> r is None,
    {
        if x >= self.dimensions.width || y >= self.dimensions.height {
            return None;
        }
        let len = self.pixels.len();
        proof {
            lemma_index_in_range(
                x as int,
                y as int,
                self.dimensions.width as int,
                self.dimensions.height as int,
            );
        }
        let idx: usize = (y as usize) * (self.dimensions.width as usize) + (x as usize);
        Some(&self.pixels[idx])
    }

    /// Writes `pixel` at column `x` and row `y`. Outside the grid nothing is
    /// written and the call fails.
    pub fn put_pixel(&mut self, x: u32, y: u32, pixel: P) -> (r: Result<(), ImageError>)
        requires
            old(self).wf(),
        ensures
            final(self).wf(),
            final(self).width() == old(self).width(),
            final(self).height() == old(self).height(),
            final(self).format() == old(self).format(),
            x < old(self).width() && y < old(self).height() ==> r is Ok && final(self)@ == old(
                self,
            )@.update(old(self).index_of(x, y), pixel),
            !(x < old(self).width() && y < old(self).height()) ==> (r matches Err(
                ImageError::InvalidParameters { details },
            ) && details@ == "pixel out of bounds"@) && final(self)@ == old(self)@,
    {
        if x >= self.dimensions.width || y >= self.dimensions.height {
            return Err(ImageError::invalid_parameters("pixel out of bounds"));
        }
        let len = self.pixels.len();
        proof {
            lemma_index_in_range(
                x as int,
                y as int,
                self.dimensions.width as int,
                self.dimensions.height as int,
            );
        }
        let idx: usize = (y as usize) * (self.dimensions.width as usize) + (x as usize);
        self.pixels.set(idx, pixel);
        Ok(())
    }

    /// The pixels of the buffer, to be changed in place. The grid keeps its
    /// size: what is written through the slice becomes the buffer's pixels.
    pub fn as_mut_slice(&mut self) -> (s: &mut [P])
        requires
            old(self).wf(),
        ensures
            s@ == old(self)@,
            final(self)@ == final(s)@,
            final(self).width() == old(self).width(),
            final(self).height() == old(self).height(),
            final(self).format() == old(self).format(),
            final(s)@.len() == s@.len() ==> final(self).wf(),
    {
        self.pixels.as_mut_slice()
    }

    /// A buffer of the same size whose pixels are those of `self`, each
    /// converted to the pixel type `Q`. The source is left as it is.
    pub fn convert_pixel_format<Q: Pixel<Subpixel = u8>>(&self, target_format: PixelFormat) -> (r:
        Result<ImageBuffer<Q>, ImageError>) where P: Pixel<Subpixel = u8>
        requires
            self.wf(),
        ensures
            r matches Ok(out) && out.wf() && out.width() == self.width() && out.height()
                == self.height() && out.format() == target_format && out@.len() == self@.len()
                && forall|i: int|
                0 <= i < self@.len() ==> #[trigger] out@[i].channels() == converted_channels(
                    self@[i].channels(),
                    Q::spec_channel_count(),
                ),
    {
        let count = Q::channel_count();
        let len = self.pixels.len();
        let mut out: Vec<Q> = Vec::new();
        let mut i: usize = 0;
        while i < len
            invariant
                i <= len,
                len == self.pixels@.len(),
                out@.len() == i,
                count == Q::spec_channel_count(),
                count == 1 || count == 3 || count == 4,
                forall|k: int|
                    0 <= k < i ==> #[trigger] out@[k].channels() == converted_channels(
                        self.pixels@[k].channels(),
                        Q::spec_channel_count(),
                    ),
            decreases len - i,
        {
            let ch = self.pixels[i].to_channels();
            let r = get_channel_or(&ch, 0, 0);
            let g = get_channel_or(&ch, 1, 0);
            let b = get_channel_or(&ch, 2, 0);
            let q = if count == 4 {
                let a = get_channel_or(&ch, 3, 255);
                let arr: [u8; 4] = [r, g, b, a];
                assert(arr@.subrange(0, 4) =~= seq![r, g, b, a]);
                Q::from_channels(arr.as_slice())
            } else if count == 3 {
                let arr: [u8; 3] = [r, g, b];
                assert(arr@.subrange(0, 3) =~= seq![r, g, b]);
                Q::from_channels(arr.as_slice())
            } else {
                let y = luma_u8(r, g, b);
                let arr: [u8; 1] = [y];
                assert(arr@.subrange(0, 1) =~= seq![y]);
                Q::from_channels(arr.as_slice())
            };
            out.push(q);
            i += 1;
        }
        ImageBuffer::from_raw(self.dimensions.width, self.dimensions.height, out, target_format)
    }

    /// The width and height of the buffer.
    pub fn dimensions(&self) -> (d: ImageDimensions)
        ensures
            d.width == self.width(),
            d.height == self.height(),
    {
        self.dimensions
    }

    /// The layout tag of the buffer.
    pub fn pixel_format(&self) -> (f: PixelFormat)
        ensures
            f == self.format(),
    {
        self.pixel_format
    }

    /// The pixels of the buffer, row after row.
    pub fn as_slice(&self) -> (s: &[P])
        ensures
            s@ == self@,
    {
        self.pixels.as_slice()
    }
}

} // verus!
