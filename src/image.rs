//! The decoded raster, the optional watermark and the encoded output.

use vstd::prelude::*;
use crate::device::DevicePreset;
use crate::error::PipelineError;

verus! {

/// An RGBA image: four bytes per pixel, row by row.
#[derive(Clone, Debug)]
pub struct RasterImage {
    pub width: u32,
    pub height: u32,
    pub pixels: Vec<u8>,
}

impl RasterImage {
    /// The buffer holds exactly four bytes for each pixel.
    pub open spec fn wf(&self) -> bool {
        self.pixels@.len() == 4 * (self.width as int) * (self.height as int)
    }

    /// A well-formed image with at least one pixel, which PNG can encode.
    pub open spec fn encodable(&self) -> bool {
        self.wf() && self.width >= 1 && self.height >= 1
    }
}

/// Whether byte `k` of an image `width` pixels wide lies outside the
/// rectangle of `w` by `h` pixels at the top-left corner.
pub open spec fn outside_corner(k: int, width: u32, w: u32, h: u32) -> bool {
    (k / 4) % (width as int) >= w || (k / 4) / (width as int) >= h
}

/// The PNG encoding of an RGBA image.
pub uninterp spec fn png_of(width: u32, height: u32, pixels: Seq<u8>) -> Seq<u8>;

/// Relies on `photon_rs::PhotonImage::get_bytes`: the PNG encoding of the
/// image, a function of its size and pixels alone. It panics on a malformed
/// buffer and on an empty side, which the PNG encoder rejects.
#[verifier::external_body]
fn png_bytes(image: &RasterImage) -> (r: Vec<u8>)
    requires
        image.encodable(),
    ensures
        r@ == png_of(image.width, image.height, image.pixels@),
{
    photon_rs::PhotonImage::new(image.pixels.clone(), image.width, image.height).get_bytes()
}

/// The RGBA bytes of an image with a mark blended over its top-left corner.
pub uninterp spec fn watermarked_of(
    width: u32,
    height: u32,
    pixels: Seq<u8>,
    mark_width: u32,
    mark_height: u32,
    mark: Seq<u8>,
) -> Seq<u8>;

/// Whether `pixels` are the bytes of `image` with a mark of the preset's
/// largest size blended over its top-left corner.
pub open spec fn watermarked_with_preset_mark(
    image: RasterImage,
    preset: DevicePreset,
    pixels: Seq<u8>,
) -> bool {
    exists|m: RasterImage|
        {
            &&& m.width == preset.max_width
            &&& m.height == preset.max_height
            &&& m.wf()
            &&& #[trigger] watermarked_of(
                image.width,
                image.height,
                image.pixels@,
                m.width,
                m.height,
                m.pixels@,
            ) == pixels
        }
}

/// Relies on `photon_rs::transform::resize` with the Lanczos3 filter: the
/// result has exactly the requested size.
#[verifier::external_body]
fn resize_lanczos3(image: &RasterImage, width: u32, height: u32) -> (r: RasterImage)
    requires
        image.wf(),
        image.width >= 1,
        image.height >= 1,
        width >= 1,
        height >= 1,
    ensures
        r.width == width,
        r.height == height,
        r.wf(),
{
    let source = photon_rs::PhotonImage::new(image.pixels.clone(), image.width, image.height);
    let resized = photon_rs::transform::resize(
        &source,
        width,
        height,
        photon_rs::transform::SamplingFilter::Lanczos3,
    );
    RasterImage {
        width: resized.get_width(),
        height: resized.get_height(),
        pixels: resized.get_raw_pixels(),
    }
}

/// Relies on `photon_rs::multiple::watermark` at the origin, which blends
/// `mark` over the top-left corner through `image::imageops::overlay`: the
/// size stays, no byte outside the covered corner changes, and the new bytes
/// depend on the two images alone.
#[verifier::external_body]
fn overlay_at_origin(image: &mut RasterImage, mark: &RasterImage)
    requires
        old(image).wf(),
        mark.wf(),
    ensures
        final(image).width == old(image).width,
        final(image).height == old(image).height,
        final(image).wf(),
        final(image).pixels@ == watermarked_of(
            old(image).width,
            old(image).height,
            old(image).pixels@,
            mark.width,
            mark.height,
            mark.pixels@,
        ),
        forall|k: int|
            0 <= k < final(image).pixels@.len() && outside_corner(
                k,
                old(image).width,
                mark.width,
                mark.height,
            ) ==> #[trigger] final(image).pixels@[k] == old(image).pixels@[k],
{
    let mut base = photon_rs::PhotonImage::new(image.pixels.clone(), image.width, image.height);
    let top = photon_rs::PhotonImage::new(mark.pixels.clone(), mark.width, mark.height);
    photon_rs::multiple::watermark(&mut base, &top, 0, 0);
    image.pixels = base.get_raw_pixels();
}

/// Whether a buffer of `len` bytes holds a `width` by `height` RGBA image.
fn fits_rgba(width: u32, height: u32, len: usize) -> (r: bool)
    ensures
        r == (len as int == 4 * (width as int) * (height as int)),
{
    let w = width as u64;
    let h = height as u64;
    assert((w as int) * (h as int) <= 0xffff_ffffint * 0xffff_ffffint) by (nonlinear_arith)
        requires
            w <= 0xffff_ffff,
            h <= 0xffff_ffff,
    ;
    let area = w * h;
    assert(4 * (width as int) * (height as int) == 4 * (area as int)) by (nonlinear_arith)
        requires
            area as int == (w as int) * (h as int),
            w == width,
            h == height,
    ;
    if area > 0x3fff_ffff_ffff_ffff {
        false
    } else {
        area * 4 == len as u64
    }
}

/// Builds an image from its size and RGBA bytes; a buffer of the wrong
/// length means the decode produced no usable image.
pub fn from_rgba(width: u32, height: u32, pixels: Vec<u8>) -> (r: Result<RasterImage, PipelineError>)
    ensures
        pixels@.len() == 4 * (width as int) * (height as int) ==> r == Ok::<RasterImage, PipelineError>(
            RasterImage { width, height, pixels },
        ),
        pixels@.len() != 4 * (width as int) * (height as int) ==> r == Err::<RasterImage, PipelineError>(
            PipelineError::Decode,
        ),
{
    if fits_rgba(width, height, pixels.len()) {
        Ok(RasterImage { width, height, pixels })
    } else {
        Err(PipelineError::Decode)
    }
}

/// The PNG bytes of an image; a malformed buffer or an empty image is a
/// decode failure.
pub fn encode_image(image: &RasterImage) -> (r: Result<Vec<u8>, PipelineError>)
    ensures
        image.encodable() ==> (r matches Ok(bytes) && bytes@ == png_of(
            image.width,
            image.height,
            image.pixels@,
        )),
        !image.encodable() ==> r == Err::<Vec<u8>, PipelineError>(PipelineError::Decode),
{
    if fits_rgba(image.width, image.height, image.pixels.len()) && image.width >= 1
        && image.height >= 1 {
        Ok(png_bytes(image))
    } else {
        Err(PipelineError::Decode)
    }
}

/// Composites the watermark when `flag` is set. Without the flag the image
/// comes back as it was. With it, the asset is required: a missing or
/// malformed asset fails the request. The asset is resized to the preset's
/// largest size and blended over the top-left corner, so that only bytes
/// within that corner may change.
pub fn apply_watermark_if(
    flag: bool,
    image: RasterImage,
    asset: Option<RasterImage>,
    preset: &DevicePreset,
) -> (r: Result<RasterImage, PipelineError>)
    ensures
        !flag ==> r == Ok::<RasterImage, PipelineError>(image),
        flag && image.wf() && preset.max_width >= 1 && preset.max_height >= 1 ==> (r is Ok
            <==> (asset matches Some(a) && a.encodable())),
        flag && !(image.wf() && preset.max_width >= 1 && preset.max_height >= 1) ==> r
            == Err::<RasterImage, PipelineError>(PipelineError::Decode),
        flag && r is Err && image.wf() && preset.max_width >= 1 && preset.max_height >= 1 ==> r == Err::<RasterImage, PipelineError>(
            PipelineError::AssetLoad,
        ),
        flag ==> (r matches Ok(out) ==> {
            &&& out.width == image.width
            &&& out.height == image.height
            &&& out.wf()
            &&& asset is Some
            &&& watermarked_with_preset_mark(image, *preset, out.pixels@)
            &&& forall|k: int|
                0 <= k < out.pixels@.len() && outside_corner(
                    k,
                    image.width,
                    preset.max_width,
                    preset.max_height,
                ) ==> #[trigger] out.pixels@[k] == image.pixels@[k]
        }),
{
    if !flag {
        return Ok(image);
    }
    if !(fits_rgba(image.width, image.height, image.pixels.len()) && preset.max_width >= 1
        && preset.max_height >= 1) {
        return Err(PipelineError::Decode);
    }
    match asset {
        Some(a) => {
            if !(fits_rgba(a.width, a.height, a.pixels.len()) && a.width >= 1 && a.height >= 1) {
                return Err(PipelineError::AssetLoad);
            }
            let mark = resize_lanczos3(&a, preset.max_width, preset.max_height);
            let mut out = image;
            overlay_at_origin(&mut out, &mark);
            Ok(out)
        },
        None => Err(PipelineError::AssetLoad),
    }
}

/// The encoded output of a request: the decoded image, watermarked when
/// `flag` is set, as PNG bytes. Without the flag the bytes are exactly the
/// encoding of the decoded image.
pub fn finish_image(
    flag: bool,
    image: RasterImage,
    asset: Option<RasterImage>,
    preset: &DevicePreset,
) -> (r: Result<Vec<u8>, PipelineError>)
    ensures
        !image.encodable() ==> r == Err::<Vec<u8>, PipelineError>(PipelineError::Decode),
        !flag && image.encodable() ==> (r matches Ok(bytes) && bytes@ == png_of(
            image.width,
            image.height,
            image.pixels@,
        )),
        flag && image.encodable() && preset.max_width >= 1 && preset.max_height >= 1 ==> (r is Ok
            <==> (asset matches Some(a) && a.encodable())),
        flag ==> (r matches Ok(bytes) ==> exists|pixels: Seq<u8>|
            {
                &&& asset is Some
                &&& watermarked_with_preset_mark(image, *preset, pixels)
                &&& #[trigger] png_of(image.width, image.height, pixels) == bytes@
            }),
{
    if !(fits_rgba(image.width, image.height, image.pixels.len()) && image.width >= 1
        && image.height >= 1) {
        return Err(PipelineError::Decode);
    }
    match apply_watermark_if(flag, image, asset, preset) {
        Ok(out) => {
            let bytes = png_bytes(&out);
            Ok(bytes)
        },
        Err(e) => Err(e),
    }
}

} // verus!
