//! Overlay images: a PNG file's bytes decoded by the `png` crate and
//! turned into RGBA pixels, row by row from the top.

use vstd::prelude::*;

verus! {

/// How the decoded samples of a PNG image are laid out.
#[derive(Debug, Clone, Copy, PartialEq, Eq, Structural)]
pub enum PixelLayout {
    Grayscale,
    Rgb,
    Indexed,
    GrayscaleAlpha,
    Rgba,
}

/// What `png` makes of a file's bytes: its width, height and colour type
/// (from the header), the decoded buffer of its first frame and that
/// frame's byte count; none when the bytes do not decode.
pub uninterp spec fn png_decode(bytes: Seq<u8>) -> Option<(u32, u32, PixelLayout, Seq<u8>, nat)>;

/// Decodes PNG bytes with `png::Decoder` (header, then the first frame into
/// a buffer of the reader's output size). The outcome is named, not spelled
/// out: it depends on the bytes alone.
#[verifier::external_body]
fn decode_png(bytes: &[u8]) -> (r: Option<(u32, u32, PixelLayout, Vec<u8>, usize)>)
    ensures
        match png_decode(bytes@) {
            None => r is None,
            Some((w, h, l, d, n)) => r matches Some((rw, rh, rl, rd, rn)) && rw == w && rh == h && rl == l && rd@
                == d && rn as nat == n,
        },
{
    let mut reader = png::Decoder::new(std::io::Cursor::new(bytes)).read_info().ok()?;
    let (width, height, color) = (reader.info().width, reader.info().height, reader.info().color_type);
    let mut buf = vec![0u8; reader.output_buffer_size()];
    let frame = reader.next_frame(&mut buf).ok()?;
    let layout = match color {
        png::ColorType::Grayscale => PixelLayout::Grayscale,
        png::ColorType::Rgb => PixelLayout::Rgb,
        png::ColorType::Indexed => PixelLayout::Indexed,
        png::ColorType::GrayscaleAlpha => PixelLayout::GrayscaleAlpha,
        png::ColorType::Rgba => PixelLayout::Rgba,
    };
    Some((width, height, layout, buf, frame.buffer_size()))
}

/// One RGBA pixel.
pub type Rgba8 = (u8, u8, u8, u8);

/// The bytes each pixel takes in the order the samples are read: four for
/// RGBA, three for RGB and for indexed data (read as RGB), two for grey
/// with alpha, one for grey.
pub open spec fn pixel_bytes(l: PixelLayout) -> nat {
    match l {
        PixelLayout::Rgba => 4,
        PixelLayout::Rgb | PixelLayout::Indexed => 3,
        PixelLayout::GrayscaleAlpha => 2,
        PixelLayout::Grayscale => 1,
    }
}

/// Pixel `i` of `data`: RGBA as is; RGB and indexed data opaque; grey
/// spread over the three channels, opaque or with its alpha sample.
pub open spec fn pixel_at(l: PixelLayout, data: Seq<u8>, i: int) -> Rgba8 {
    let k = pixel_bytes(l) as int;
    match l {
        PixelLayout::Rgba => (data[k * i], data[k * i + 1], data[k * i + 2], data[k * i + 3]),
        PixelLayout::Rgb | PixelLayout::Indexed => (data[k * i], data[k * i + 1], data[k * i + 2], 255u8),
        PixelLayout::GrayscaleAlpha => (data[k * i], data[k * i], data[k * i], data[k * i + 1]),
        PixelLayout::Grayscale => (data[i], data[i], data[i], 255u8),
    }
}

/// The pixels of `data`: one per complete group of samples; a trailing
/// incomplete group is dropped.
pub open spec fn pixels_of(l: PixelLayout, data: Seq<u8>) -> Seq<Rgba8> {
    Seq::new(data.len() / pixel_bytes(l), |i: int| pixel_at(l, data, i))
}

/// The RGBA pixels of decoded samples.
pub fn rgba_pixels(l: PixelLayout, data: &[u8]) -> (r: Vec<Rgba8>)
    ensures
        r@ == pixels_of(l, data@),
{
    let k: usize = match l {
        PixelLayout::Rgba => 4,
        PixelLayout::Rgb | PixelLayout::Indexed => 3,
        PixelLayout::GrayscaleAlpha => 2,
        PixelLayout::Grayscale => 1,
    };
    let len = data.len();
    let n = len / k;
    let mut r: Vec<Rgba8> = Vec::new();
    let mut i: usize = 0;
    while i < n
        invariant
            len == data@.len(),
            k as nat == pixel_bytes(l),
            n == data@.len() / (k as nat),
            0 <= i <= n,
            r@.len() == i,
            forall|j: int| 0 <= j < i ==> #[trigger] r@[j] == pixel_at(l, data@, j),
        decreases n - i,
    {
        proof {
            assert(k * i + k <= data@.len()) by (nonlinear_arith)
                requires
                    i < n,
                    n == data@.len() / (k as nat),
                    1 <= k <= 4,
            ;
        }
        let b = k * i;
        let p = match l {
            PixelLayout::Rgba => (data[b], data[b + 1], data[b + 2], data[b + 3]),
            PixelLayout::Rgb | PixelLayout::Indexed => (data[b], data[b + 1], data[b + 2], 255u8),
            PixelLayout::GrayscaleAlpha => (data[b], data[b], data[b], data[b + 1]),
            PixelLayout::Grayscale => (data[b], data[b], data[b], 255u8),
        };
        r.push(p);
        i = i + 1;
    }
    proof {
        assert(r@ =~= pixels_of(l, data@));
    }
    r
}

/// A decoded overlay image.
#[derive(Debug)]
pub struct PngImage {
    /// The pixels, row by row from the top.
    pub pixels: Vec<Rgba8>,
    pub width: usize,
    pub height: usize,
}

/// The image in a PNG file's bytes: the first frame's bytes (the frame's
/// byte count of the decoded buffer) as RGBA pixels, with the header's
/// size; none when the bytes do not decode or the frame would not fit its
/// buffer.
pub fn load_png(bytes: &[u8]) -> (r: Option<PngImage>)
    ensures
        match png_decode(bytes@) {
            None => r is None,
            Some((w, h, l, d, n)) => if n <= d.len() {
                r matches Some(img) && img.width == w && img.height == h && img.pixels@ == pixels_of(
                    l,
                    d.take(n as int),
                )
            } else {
                r is None
            },
        },
{
    let (w, h, layout, buf, size) = match decode_png(bytes) {
        Some(d) => d,
        None => return None,
    };
    if size > buf.len() {
        return None;
    }
    let mut frame: Vec<u8> = Vec::new();
    let mut i: usize = 0;
    while i < size
        invariant
            size <= buf@.len(),
            0 <= i <= size,
            frame@ == buf@.take(i as int),
        decreases size - i,
    {
        frame.push(buf[i]);
        proof {
            assert(buf@.take(i + 1) =~= buf@.take(i as int).push(buf@[i as int]));
        }
        i = i + 1;
    }
    let pixels = rgba_pixels(layout, frame.as_slice());
    Some(PngImage { pixels, width: w as usize, height: h as usize })
}

} // verus!
