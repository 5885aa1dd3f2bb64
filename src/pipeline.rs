use vstd::prelude::*;
use image::codecs::jpeg::JpegEncoder;
use image::{ExtendedColorType, ImageBuffer, ImageError, Rgb};

verus! {

#[verifier::external_type_specification]
#[verifier::external_body]
pub struct ExImageError(ImageError);

/// A decoded image as 8-bit RGB: `pixels` holds three bytes per pixel, row
/// by row.
pub struct Picture {
    width: u32,
    height: u32,
    pixels: Vec<u8>,
}

impl Picture {
    pub closed spec fn width(&self) -> u32 {
        self.width
    }

    pub closed spec fn height(&self) -> u32 {
        self.height
    }

    pub closed spec fn pixels(&self) -> Seq<u8> {
        self.pixels@
    }

    pub open spec fn wf(&self) -> bool {
        self.pixels().len() == 3 * self.width() * self.height()
    }
}

/// What `image::load_from_memory` followed by `into_rgb8` makes of a file's
/// bytes: its width, height and RGB pixels, or nothing where it fails.
pub uninterp spec fn decoded_of(data: Seq<u8>) -> Option<(u32, u32, Seq<u8>)>;

/// What `imageops::thumbnail` makes of RGB pixels of the given size when
/// scaling them to `nwidth` x `nheight`.
pub uninterp spec fn scaled_of(
    pixels: Seq<u8>,
    width: u32,
    height: u32,
    nwidth: u32,
    nheight: u32,
) -> Seq<u8>;

/// What `JpegEncoder::encode` writes for RGB pixels of the given size, or
/// nothing where it fails.
pub uninterp spec fn jpeg_of(pixels: Seq<u8>, width: u32, height: u32) -> Option<Seq<u8>>;

/// Relies on `image::load_from_memory`, which guesses the format from the
/// leading bytes, not from a file name, and decodes; the result is taken as
/// 8-bit RGB, three bytes per pixel.
#[verifier::external_body]
fn decode(data: &[u8]) -> (r: Result<Picture, ImageError>)
    ensures
        r is Ok <==> decoded_of(data@) is Some,
        r is Ok ==> decoded_of(data@) == Some(
            (r->Ok_0.width(), r->Ok_0.height(), r->Ok_0.pixels()),
        ) && r->Ok_0.wf(),
{
    image::load_from_memory(data).map(|img| {
        let rgb = img.into_rgb8();
        Picture { width: rgb.width(), height: rgb.height(), pixels: rgb.into_raw() }
    })
}

/// Relies on `imageops::thumbnail`: resamples the pixels to exactly
/// `nwidth` x `nheight`.
#[verifier::external_body]
fn scale(p: &Picture, nwidth: u32, nheight: u32) -> (r: Picture)
    requires
        p.wf(),
    ensures
        r.width() == nwidth,
        r.height() == nheight,
        r.pixels() == scaled_of(p.pixels(), p.width(), p.height(), nwidth, nheight),
        r.wf(),
{
    let src = ImageBuffer::<Rgb<u8>, &[u8]>::from_raw(p.width, p.height, p.pixels.as_slice());
    let out = image::imageops::thumbnail(&src.unwrap(), nwidth, nheight);
    Picture { width: nwidth, height: nheight, pixels: out.into_raw() }
}

/// Relies on `JpegEncoder::encode` with `ExtendedColorType::Rgb8`, which
/// panics unless the buffer holds three bytes per pixel.
#[verifier::external_body]
fn encode_jpeg(p: &Picture) -> (r: Result<Vec<u8>, ImageError>)
    requires
        p.wf(),
    ensures
        r is Ok <==> jpeg_of(p.pixels(), p.width(), p.height()) is Some,
        r is Ok ==> r->Ok_0@ == jpeg_of(p.pixels(), p.width(), p.height())->Some_0,
{
    let mut buffer: Vec<u8> = Vec::new();
    JpegEncoder::new(&mut buffer)
        .encode(&p.pixels, p.width, p.height, ExtendedColorType::Rgb8)
        .map(|_| buffer)
}

/// Why a selected image could not be served, with the underlying cause.
#[derive(Debug)]
pub enum PipelineError {
    /// The file could not be opened or read.
    IO(String),
    /// The contents are no image that could be decoded.
    Load(ImageError),
    /// The thumbnail could not be encoded as JPEG.
    Encode(ImageError),
}

/// A side scaled by `bound / long`, rounded to nearest, and at least 1.
pub open spec fn scaled_side(side: int, long: int, bound: int) -> int {
    let q = (2 * side * bound + long) / (2 * long);
    if q < 1 {
        1
    } else {
        q
    }
}

/// The thumbnail size of a `width` x `height` image that exceeds the square
/// bound: the longer side becomes the bound, the other is scaled in
/// proportion.
pub open spec fn thumb_dims(width: u32, height: u32, bound: u32) -> (u32, u32) {
    if width >= height {
        (bound, scaled_side(height as int, width as int, bound as int) as u32)
    } else {
        (scaled_side(width as int, height as int, bound as int) as u32, bound)
    }
}

/// The size and pixels that are encoded for a decoded image: scaled down to
/// fit the bound where it exceeds it, else the image as it is.
pub open spec fn fitted(width: u32, height: u32, pixels: Seq<u8>, bound: u32) -> (u32, u32, Seq<u8>) {
    if width > bound || height > bound {
        let (w, h) = thumb_dims(width, height, bound);
        (w, h, scaled_of(pixels, width, height, w, h))
    } else {
        (width, height, pixels)
    }
}

/// The outcome of the pipeline on a file's bytes: `None` where decoding
/// fails, `Some(None)` where encoding fails, else the JPEG bytes.
pub open spec fn rendered(data: Seq<u8>, bound: u32) -> Option<Option<Seq<u8>>> {
    match decoded_of(data) {
        None => None,
        Some(d) => {
            let f = fitted(d.0, d.1, d.2, bound);
            Some(jpeg_of(f.2, f.0, f.1))
        },
    }
}

/// A thumbnail never exceeds the bound; an image within the bound keeps its
/// size and pixels; one beyond it gets the bound as its longer side, and the
/// other side is the proportional one rounded to nearest.
pub proof fn lemma_fitted_within_bound(width: u32, height: u32, pixels: Seq<u8>, bound: u32)
    requires
        bound > 0,
    ensures
        fitted(width, height, pixels, bound).0 <= bound,
        fitted(width, height, pixels, bound).1 <= bound,
        width <= bound && height <= bound ==> fitted(width, height, pixels, bound) == (
            width,
            height,
            pixels,
        ),
        width > bound || height > bound ==> fitted(width, height, pixels, bound).0 == bound
            || fitted(width, height, pixels, bound).1 == bound,
        width > bound && width >= height ==> fitted(width, height, pixels, bound).0 == bound
            && fitted(width, height, pixels, bound).1 == scaled_side(
            height as int,
            width as int,
            bound as int,
        ),
        height > bound && height > width ==> fitted(width, height, pixels, bound).1 == bound
            && fitted(width, height, pixels, bound).0 == scaled_side(
            width as int,
            height as int,
            bound as int,
        ),
{
    if width > bound || height > bound {
        if width >= height {
            lemma_scaled_side_bounded(height as int, width as int, bound as int);
        } else {
            lemma_scaled_side_bounded(width as int, height as int, bound as int);
        }
    }
}

proof fn lemma_scaled_side_bounded(side: int, long: int, bound: int)
    requires
        0 <= side <= long,
        0 < bound < long,
    ensures
        1 <= scaled_side(side, long, bound) <= bound,
{
    assert(2 * side * bound + long <= 2 * long * bound + long) by (nonlinear_arith)
        requires
            0 <= side <= long,
            0 < bound,
    ;
    assert((2 * side * bound + long) / (2 * long) <= bound) by (nonlinear_arith)
        requires
            2 * side * bound + long <= 2 * long * bound + long,
            0 < long,
    ;
}

/// The size of the thumbnail of an image that exceeds the bound.
pub fn thumbnail_size(width: u32, height: u32, bound: u32) -> (r: (u32, u32))
    requires
        bound > 0,
        width > bound || height > bound,
    ensures
        r == thumb_dims(width, height, bound),
{
    let (side, long) = if width >= height {
        (height, width)
    } else {
        (width, height)
    };
    proof {
        lemma_scaled_side_bounded(side as int, long as int, bound as int);
        assert(2 * side * bound + long <= 2 * 0x1_0000_0000 * 0x1_0000_0000 + 0x1_0000_0000)
            by (nonlinear_arith)
            requires
                side < 0x1_0000_0000,
                bound < 0x1_0000_0000,
                long < 0x1_0000_0000,
        ;
    }
    let num: u128 = 2 * (side as u128) * (bound as u128) + long as u128;
    let q: u128 = num / (2 * long as u128);
    let other: u32 = if q < 1 {
        1
    } else {
        q as u32
    };
    if width >= height {
        (bound, other)
    } else {
        (other, bound)
    }
}

/// Whether an image of `width` x `height` exceeds the square bound and so
/// must be scaled down; one that fits keeps its size.
pub fn needs_scaling(width: u32, height: u32, resolution: u32) -> (r: bool)
    ensures
        r == (width > resolution || height > resolution),
{
    width > resolution || height > resolution
}

/// Decodes image bytes, scales the image down to fit `resolution` on both
/// sides where it exceeds it (never enlarging it), and encodes the result as
/// JPEG. Decoding failure gives `Load`, encoding failure `Encode`.
pub fn render_image(data: &[u8], resolution: u32) -> (r: Result<Vec<u8>, PipelineError>)
    requires
        resolution > 0,
    ensures
        rendered(data@, resolution) is None <==> (r is Err && r->Err_0 is Load),
        rendered(data@, resolution) == Some(None::<Seq<u8>>) <==> (r is Err && r->Err_0 is Encode),
        r is Ok <==> (rendered(data@, resolution) is Some && rendered(data@, resolution)->Some_0 is Some),
        r is Ok ==> r->Ok_0@ == rendered(data@, resolution)->Some_0->Some_0,
{
    match decode(data) {
        Err(e) => Err(PipelineError::Load(e)),
        Ok(img) => {
            let encoded = if needs_scaling(img.width, img.height, resolution) {
                let (w, h) = thumbnail_size(img.width, img.height, resolution);
                encode_jpeg(&scale(&img, w, h))
            } else {
                encode_jpeg(&img)
            };
            match encoded {
                Err(e) => Err(PipelineError::Encode(e)),
                Ok(bytes) => Ok(bytes),
            }
        },
    }
}

/// Runs the pipeline on what reading the selected file gave: a read failure
/// is reported as such with its cause, and read bytes go through
/// `render_image`.
pub fn render(contents: Result<Vec<u8>, String>, resolution: u32) -> (r: Result<
    Vec<u8>,
    PipelineError,
>)
    requires
        resolution > 0,
    ensures
        contents is Err ==> r == Err::<Vec<u8>, PipelineError>(
            PipelineError::IO(contents->Err_0),
        ),
        contents is Ok ==> {
            let out = rendered(contents->Ok_0@, resolution);
            &&& out is None <==> (r is Err && r->Err_0 is Load)
            &&& out == Some(None::<Seq<u8>>) <==> (r is Err && r->Err_0 is Encode)
            &&& r is Ok <==> (out is Some && out->Some_0 is Some)
            &&& r is Ok ==> r->Ok_0@ == out->Some_0->Some_0
        },
{
    match contents {
        Err(cause) => Err(PipelineError::IO(cause)),
        Ok(data) => render_image(data.as_slice(), resolution),
    }
}

} // verus!
