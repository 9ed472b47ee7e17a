//! The Fetch-Decode Worker: turns what one retrieval brought back into a
//! fixed-size packed pixel buffer, or a typed failure.

use vstd::prelude::*;

verus! {

#[verifier::external_type_specification]
#[verifier::external_body]
pub struct ExDynamicImage(image::DynamicImage);

#[verifier::external_type_specification]
#[verifier::external_body]
pub struct ExImageError(image::ImageError);

#[verifier::external_type_specification]
#[verifier::external_body]
pub struct ExImageFormat(image::ImageFormat);

/// Whether the image library recognises an image container in `bytes`.
pub uninterp spec fn format_recognized(bytes: Seq<u8>) -> bool;

/// The width and height of the image that the image library decodes from
/// `bytes`, in the container it detects; `None` when decoding fails.
pub uninterp spec fn decoded_size(bytes: Seq<u8>) -> Option<(u32, u32)>;

/// The width and height of a decoded image.
pub uninterp spec fn image_size(img: image::DynamicImage) -> (u32, u32);

/// Relies on image::guess_format: it succeeds exactly when the leading bytes
/// match one of the container signatures it knows, so it depends on the bytes
/// alone.
#[verifier::external_body]
fn guess_format(bytes: &[u8]) -> (r: Result<image::ImageFormat, image::ImageError>)
    ensures
        r is Ok == format_recognized(bytes@),
{
    image::guess_format(bytes)
}

/// Relies on image::load_from_memory: detects the container and decodes the
/// bytes; what it gives depends on the bytes alone.
#[verifier::external_body]
fn load_from_memory(bytes: &[u8]) -> (r: Result<image::DynamicImage, image::ImageError>)
    ensures
        r is Ok == decoded_size(bytes@) is Some,
        r is Ok ==> image_size(r->Ok_0) == decoded_size(bytes@)->Some_0,
{
    image::load_from_memory(bytes)
}

/// Relies on GenericImageView::dimensions of DynamicImage: its width and height.
#[verifier::external_body]
fn image_dimensions(img: &image::DynamicImage) -> (r: (u32, u32))
    ensures
        r == image_size(*img),
{
    image::GenericImageView::dimensions(img)
}

/// Relies on DynamicImage::resize_exact with nearest-neighbour sampling, which
/// returns an image of exactly `width` x `height`, here read out through
/// to_rgb8 and into_raw as its 8-bit RGB samples in row-major order: three
/// bytes per pixel. Resampling a source without pixels panics, so the source
/// must have some.
#[verifier::external_body]
fn resize_to_rgb(img: &image::DynamicImage, width: u32, height: u32) -> (r: Vec<u8>)
    requires
        image_size(*img).0 >= 1,
        image_size(*img).1 >= 1,
        3 * (width as int) * (height as int) <= usize::MAX,
    ensures
        r@.len() == 3 * (width as int) * (height as int),
{
    img.resize_exact(width, height, image::imageops::FilterType::Nearest).to_rgb8().into_raw()
}

/// One pixel packed into a 32-bit value: red in bits 16-23, green in bits
/// 8-15, blue in bits 0-7.
pub open spec fn packed_pixel(red: u8, green: u8, blue: u8) -> u32 {
    ((red as u32) << 16u32) | ((green as u32) << 8u32) | (blue as u32)
}

/// The packed pixels of a row-major sequence of RGB samples; a trailing
/// partial pixel is ignored.
pub open spec fn packed_pixels(rgb: Seq<u8>) -> Seq<u32> {
    Seq::new(rgb.len() / 3, |i: int| packed_pixel(rgb[3 * i], rgb[3 * i + 1], rgb[3 * i + 2]))
}

/// Packs row-major 8-bit RGB samples into one 32-bit value per pixel.
pub fn pack_rgb(rgb: &Vec<u8>) -> (r: Vec<u32>)
    ensures
        r@ == packed_pixels(rgb@),
{
    let mut r: Vec<u32> = Vec::new();
    let mut i: usize = 0;
    let mut j: usize = 0;
    while 3 <= rgb.len() - j
        invariant
            j == 3 * i,
            j <= rgb.len(),
            r@ =~= packed_pixels(rgb@).take(i as int),
            i <= rgb.len() / 3,
        decreases rgb.len() - j,
    {
        let p = ((rgb[j] as u32) << 16u32) | ((rgb[j + 1] as u32) << 8u32) | (rgb[j + 2] as u32);
        r.push(p);
        proof {
            assert(i + 1 <= rgb.len() / 3) by (nonlinear_arith)
                requires
                    j == 3 * i,
                    j + 3 <= rgb.len(),
            ;
        }
        i = i + 1;
        j = j + 3;
    }
    proof {
        let n = rgb.len() as int;
        assert(i == n / 3) by (nonlinear_arith)
            requires
                j == 3 * i,
                j <= n,
                n < j + 3,
        ;
    }
    r
}

/// What one retrieval of a descriptor's location brought back.
pub enum FetchOutcome {
    /// The request failed in transport: refused, timed out, no such host.
    Unreachable,
    /// A response came, but its body could not be read to the end.
    BodyUnreadable,
    /// A response with its status code and full body.
    Received { status: u16, body: Vec<u8> },
}

/// Why a worker produced no buffer.
#[derive(PartialEq, Eq, Structural, Debug, Clone, Copy)]
pub enum WorkerFailure {
    ItemUnreachable,
    BadStatus(u16),
    PayloadUnreadable,
    UnknownFormat,
    Undecodable,
}

/// Success statuses are those of the 2xx class.
pub open spec fn is_success_status(status: u16) -> bool {
    200 <= status <= 299
}

/// The failure a worker reports for an outcome, or `None` when it succeeds.
/// A decoded image without pixels counts as undecodable.
pub open spec fn worker_failure(outcome: FetchOutcome) -> Option<WorkerFailure> {
    match outcome {
        FetchOutcome::Unreachable => Some(WorkerFailure::ItemUnreachable),
        FetchOutcome::BodyUnreadable => Some(WorkerFailure::PayloadUnreadable),
        FetchOutcome::Received { status, body } => if !is_success_status(status) {
            Some(WorkerFailure::BadStatus(status))
        } else if !format_recognized(body@) {
            Some(WorkerFailure::UnknownFormat)
        } else {
            match decoded_size(body@) {
                Some(size) => if size.0 == 0 || size.1 == 0 {
                    Some(WorkerFailure::Undecodable)
                } else {
                    None
                },
                None => Some(WorkerFailure::Undecodable),
            }
        },
    }
}

/// The body a worker goes on to decode, or the failure that stops it first.
pub fn received_body(outcome: &FetchOutcome) -> (r: Result<&Vec<u8>, WorkerFailure>)
    ensures
        match *outcome {
            FetchOutcome::Unreachable => r == Err::<&Vec<u8>, _>(WorkerFailure::ItemUnreachable),
            FetchOutcome::BodyUnreadable => r == Err::<&Vec<u8>, _>(
                WorkerFailure::PayloadUnreadable,
            ),
            FetchOutcome::Received { status, body } => if is_success_status(status) {
                r is Ok && *r->Ok_0 == body
            } else {
                r == Err::<&Vec<u8>, _>(WorkerFailure::BadStatus(status))
            },
        },
{
    match outcome {
        FetchOutcome::Unreachable => Err(WorkerFailure::ItemUnreachable),
        FetchOutcome::BodyUnreadable => Err(WorkerFailure::PayloadUnreadable),
        FetchOutcome::Received { status, body } => {
            if 200 <= *status && *status <= 299 {
                Ok(body)
            } else {
                Err(WorkerFailure::BadStatus(*status))
            }
        },
    }
}

/// Decodes what one retrieval brought back, resizes it to exactly
/// `width` x `height` and packs its pixels. Each failure is reported as its
/// own variant; no partial buffer is ever returned.
pub fn process_fetched(outcome: &FetchOutcome, width: u32, height: u32) -> (r: Result<
    Vec<u32>,
    WorkerFailure,
>)
    requires
        3 * (width as int) * (height as int) <= usize::MAX,
    ensures
        match worker_failure(*outcome) {
            Some(f) => r == Err::<Vec<u32>, WorkerFailure>(f),
            None => r is Ok && r->Ok_0@.len() == (width as int) * (height as int),
        },
{
    let body = match received_body(outcome) {
        Ok(b) => b,
        Err(f) => {
            return Err(f);
        },
    };
    if guess_format(body.as_slice()).is_err() {
        return Err(WorkerFailure::UnknownFormat);
    }
    let img = match load_from_memory(body.as_slice()) {
        Ok(img) => img,
        Err(_) => {
            return Err(WorkerFailure::Undecodable);
        },
    };
    let (src_width, src_height) = image_dimensions(&img);
    if src_width == 0 || src_height == 0 {
        return Err(WorkerFailure::Undecodable);
    }
    let rgb = resize_to_rgb(&img, width, height);
    let pixels = pack_rgb(&rgb);
    proof {
        let n = 3 * (width as int) * (height as int);
        assert(n / 3 == (width as int) * (height as int)) by (nonlinear_arith)
            requires
                n == 3 * (width as int) * (height as int),
        ;
    }
    Ok(pixels)
}

} // verus!
