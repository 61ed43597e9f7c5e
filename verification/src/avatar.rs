//! Avatar uploads: size and format checks, then a 512x512 WebP re-encoding.
use vstd::prelude::*;

use crate::dto::user::Avatar;
use crate::error::CoreError;

use image::imageops::FilterType as Filter;
use image::ImageFormat as F;
use image::DynamicImage;
use ImageKind as K;

verus! {

#[verifier::external_type_specification]
#[verifier::external_body]
pub struct ExDynamicImage(image::DynamicImage);

/// Largest accepted upload: 5 MB.
pub const MAX_AVATAR_BYTES: usize = 5 * 1024 * 1024;

/// Width and height an avatar is fitted into.
pub const AVATAR_SIDE: u32 = 512;

/// The image formats of the `image` crate.
#[derive(Debug, Clone, Copy, PartialEq, Eq)]
pub enum ImageKind {
    Png,
    Jpeg,
    Gif,
    WebP,
    Pnm,
    Tiff,
    Tga,
    Dds,
    Bmp,
    Ico,
    Hdr,
    OpenExr,
    Farbfeld,
    Avif,
    Qoi,
    /// A format this list does not name (the crate's hidden, deprecated PCX).
    Other,
}

/// The resampling filters of the `image` crate.
#[derive(Debug, Clone, Copy, PartialEq, Eq)]
pub enum ResizeFilter {
    Nearest,
    Triangle,
    CatmullRom,
    Gaussian,
    Lanczos3,
}

/// How an image value was made: decoded from bytes by `image::load_from_memory`,
/// or made from another image by `DynamicImage::resize` with a bounding width,
/// a bounding height and a filter.
pub enum ImageModel {
    Decoded(Seq<u8>),
    Resized(Box<ImageModel>, u32, u32, ResizeFilter),
}

/// A decoded image, with the record of how it was made. Only the wrappers of
/// this module make one, so the record always matches the pixels.
struct Image {
    inner: DynamicImage,
    model: Ghost<ImageModel>,
}

impl Image {
    spec fn model(&self) -> ImageModel {
        self.model@
    }
}

/// Width and height of the image `image` stands for (what
/// `DynamicImage::dimensions` reports of it).
pub uninterp spec fn image_dimensions(image: ImageModel) -> (u32, u32);

/// What `DynamicImage::write_to` with `ImageFormat::WebP` writes into memory
/// for the image `image` stands for: the bytes, or the text of the error.
pub uninterp spec fn webp_encoding(image: ImageModel) -> Result<Seq<u8>, Seq<char>>;

/// The size `DynamicImage::resize` gives an image of size `src` fitted into
/// `bound` (both with nonzero sides): the same size when `src` already is
/// `bound`; otherwise both sides at least 1 and within the bound, one side
/// equal to its bound, and the aspect ratio kept to within the rounding of
/// each side to a whole pixel.
pub open spec fn fits_resized(src: (u32, u32), bound: (u32, u32), out: (u32, u32)) -> bool {
    let (w, h) = src;
    let (bw, bh) = bound;
    let (ow, oh) = out;
    if src == bound {
        out == src
    } else {
        &&& 1 <= ow <= bw
        &&& 1 <= oh <= bh
        &&& ow == bw || oh == bh
        &&& -(w + h) <= ow * h - oh * w <= w + h
    }
}

/// Both sides of a size are nonzero.
pub open spec fn nonzero_size(size: (u32, u32)) -> bool {
    size.0 > 0 && size.1 > 0
}

/// The image an avatar upload becomes: its bytes decoded, then fitted into
/// 512x512 with the Lanczos3 filter.
pub open spec fn avatar_image(data: Seq<u8>) -> ImageModel {
    ImageModel::Resized(Box::new(ImageModel::Decoded(data)), AVATAR_SIDE, AVATAR_SIDE, ResizeFilter::Lanczos3)
}

/// ASCII letters of `s` in lowercase; other characters unchanged.
pub open spec fn ascii_lowercase(s: Seq<char>) -> Seq<char> {
    Seq::new(
        s.len(),
        |i: int|
            if 'A' <= s[i] <= 'Z' {
                (s[i] as int + 32) as char
            } else {
                s[i]
            },
    )
}

/// The format `ImageFormat::from_extension` gives a file extension, compared
/// without regard to ASCII case.
pub open spec fn format_from_extension(ext: Seq<char>) -> Option<ImageKind> {
    let e = ascii_lowercase(ext);
    if e == "avif"@ {
        Some(ImageKind::Avif)
    } else if e == "jpg"@ || e == "jpeg"@ || e == "jfif"@ {
        Some(ImageKind::Jpeg)
    } else if e == "png"@ || e == "apng"@ {
        Some(ImageKind::Png)
    } else if e == "gif"@ {
        Some(ImageKind::Gif)
    } else if e == "webp"@ {
        Some(ImageKind::WebP)
    } else if e == "tif"@ || e == "tiff"@ {
        Some(ImageKind::Tiff)
    } else if e == "tga"@ {
        Some(ImageKind::Tga)
    } else if e == "dds"@ {
        Some(ImageKind::Dds)
    } else if e == "bmp"@ {
        Some(ImageKind::Bmp)
    } else if e == "ico"@ {
        Some(ImageKind::Ico)
    } else if e == "hdr"@ {
        Some(ImageKind::Hdr)
    } else if e == "exr"@ {
        Some(ImageKind::OpenExr)
    } else if e == "pbm"@ || e == "pam"@ || e == "ppm"@ || e == "pgm"@ || e == "pnm"@ {
        Some(ImageKind::Pnm)
    } else if e == "ff"@ {
        Some(ImageKind::Farbfeld)
    } else if e == "qoi"@ {
        Some(ImageKind::Qoi)
    } else {
        None
    }
}

/// What `Path::extension` gives for `path`: the part of the file name after
/// its last `.`; `None` when the file name has no `.`, or has one only as its
/// first character (as in `.png`), or when there is no file name.
pub uninterp spec fn path_extension(path: Seq<char>) -> Option<Seq<char>>;

/// The format `image::guess_format` reads from the first bytes of `data`.
pub uninterp spec fn guess_image_format(data: Seq<u8>) -> Option<ImageKind>;

/// The text of the error `image::load_from_memory` reports on `data`, or
/// `None` when it decodes.
pub uninterp spec fn image_decode_error(data: Seq<u8>) -> Option<Seq<char>>;

/// The PNG file signature.
pub open spec fn has_png_signature(data: Seq<u8>) -> bool {
    data.len() >= 8 && data.take(8) == seq![0x89u8, 0x50u8, 0x4Eu8, 0x47u8, 0x0Du8, 0x0Au8, 0x1Au8, 0x0Au8]
}

/// The JPEG start-of-image marker.
pub open spec fn has_jpeg_signature(data: Seq<u8>) -> bool {
    data.len() >= 3 && data[0] == 0xFFu8 && data[1] == 0xD8u8 && data[2] == 0xFFu8
}

/// A RIFF container of type `WEBP`.
pub open spec fn has_webp_signature(data: Seq<u8>) -> bool {
    &&& data.len() >= 12
    &&& data.take(4) == seq![0x52u8, 0x49u8, 0x46u8, 0x46u8]
    &&& data.subrange(8, 12) == seq![0x57u8, 0x45u8, 0x42u8, 0x50u8]
}

/// `ImageFormat::from_extension`: the contract states the crate's whole table
/// (`format_from_extension`).
#[verifier::external_body]
fn format_of_extension(ext: &str) -> (r: Option<ImageKind>)
    ensures
        r == format_from_extension(ext@),
{
    F::from_extension(ext).map(|f| match f {
        F::Png => K::Png, F::Jpeg => K::Jpeg, F::Gif => K::Gif, F::WebP => K::WebP,
        F::Pnm => K::Pnm, F::Tiff => K::Tiff, F::Tga => K::Tga, F::Dds => K::Dds,
        F::Bmp => K::Bmp, F::Ico => K::Ico, F::Hdr => K::Hdr, F::OpenExr => K::OpenExr,
        F::Farbfeld => K::Farbfeld, F::Avif => K::Avif, F::Qoi => K::Qoi,
        _ => K::Other,
    })
}

/// `image::guess_format` (an error becomes `None`). The contract names the
/// result and states, from the crate's table of magic bytes, exactly when it
/// is PNG, JPEG or WebP.
#[verifier::external_body]
fn guess_format(data: &[u8]) -> (r: Option<ImageKind>)
    ensures
        r == guess_image_format(data@),
        (r == Some(ImageKind::Png)) == has_png_signature(data@),
        (r == Some(ImageKind::Jpeg)) == has_jpeg_signature(data@),
        (r == Some(ImageKind::WebP)) == has_webp_signature(data@),
{
    image::guess_format(data).ok().map(|f| match f {
        F::Png => K::Png, F::Jpeg => K::Jpeg, F::Gif => K::Gif, F::WebP => K::WebP,
        F::Pnm => K::Pnm, F::Tiff => K::Tiff, F::Tga => K::Tga, F::Dds => K::Dds,
        F::Bmp => K::Bmp, F::Ico => K::Ico, F::Hdr => K::Hdr, F::OpenExr => K::OpenExr,
        F::Farbfeld => K::Farbfeld, F::Avif => K::Avif, F::Qoi => K::Qoi,
        _ => K::Other,
    })
}

/// `Path::extension` of `path`, as text; the contract names the result.
#[verifier::external_body]
fn file_extension(path: &str) -> (r: Option<String>)
    ensures
        match r {
            Some(e) => path_extension(path@) == Some(e@),
            None => path_extension(path@) is None,
        },
{
    std::path::Path::new(path).extension().and_then(|e| e.to_str()).map(|e| e.to_string())
}

/// `image::load_from_memory`; an error becomes its text. The contract names
/// the outcome on the bytes, and records that the image was decoded from them.
#[verifier::external_body]
fn decode_image(data: &[u8]) -> (r: Result<Image, String>)
    ensures
        match r {
            Ok(img) => image_decode_error(data@) is None && img.model() == ImageModel::Decoded(data@),
            Err(t) => image_decode_error(data@) == Some(t@),
        },
{
    match image::load_from_memory(data) {
        Ok(inner) => Ok(Image { inner, model: Ghost(ImageModel::Decoded(data@)) }),
        Err(e) => Err(e.to_string()),
    }
}

/// `DynamicImage::resize`: fits the image into `width` x `height`, keeping its
/// aspect ratio. The contract records how the result was made and states the
/// size the crate's `resize_dimensions` gives it (`fits_resized`; the crate
/// computes it in `f64`, and rounds each side to the nearest whole pixel, at
/// least 1), for sizes with nonzero sides.
#[verifier::external_body]
fn resize_image(img: &Image, width: u32, height: u32, filter: ResizeFilter) -> (r: Image)
    ensures
        r.model() == ImageModel::Resized(Box::new(img.model()), width, height, filter),
        nonzero_size(image_dimensions(img.model())) && nonzero_size((width, height))
            ==> fits_resized(image_dimensions(img.model()), (width, height), image_dimensions(r.model())),
{
    let f = match filter {
        ResizeFilter::Nearest => Filter::Nearest,
        ResizeFilter::Triangle => Filter::Triangle,
        ResizeFilter::CatmullRom => Filter::CatmullRom,
        ResizeFilter::Gaussian => Filter::Gaussian,
        ResizeFilter::Lanczos3 => Filter::Lanczos3,
    };
    Image { inner: img.inner.resize(width, height, f), model: Ghost(ImageModel::Resized(Box::new(img.model@), width, height, filter)) }
}

/// `DynamicImage::write_to` into memory as WebP; an error becomes its text.
/// The contract names the outcome on the image (`webp_encoding`).
#[verifier::external_body]
fn encode_webp(img: &Image) -> (r: Result<Vec<u8>, String>)
    ensures
        match r {
            Ok(b) => webp_encoding(img.model()) == Ok::<Seq<u8>, Seq<char>>(b@),
            Err(t) => webp_encoding(img.model()) == Err::<Seq<u8>, Seq<char>>(t@),
        },
{
    let mut out: Vec<u8> = Vec::new();
    match img.inner.write_to(&mut std::io::Cursor::new(&mut out), F::WebP) {
        Ok(()) => Ok(out),
        Err(e) => Err(e.to_string()),
    }
}

/// JPEG, PNG and WebP are the formats an avatar may come in.
pub open spec fn is_avatar_format(k: Option<ImageKind>) -> bool {
    k == Some(ImageKind::Jpeg) || k == Some(ImageKind::Png) || k == Some(ImageKind::WebP)
}

/// An upload is in an avatar format when its file extension names one, or
/// else when its first bytes show one.
pub open spec fn avatar_format_accepted(filename: Seq<char>, data: Seq<u8>) -> bool {
    let ext = match path_extension(filename) {
        Some(e) => e,
        None => Seq::empty(),
    };
    is_avatar_format(format_from_extension(ext)) || is_avatar_format(guess_image_format(data))
}

fn is_avatar_kind(k: Option<ImageKind>) -> (r: bool)
    ensures
        r == is_avatar_format(k),
{
    match k {
        Some(ImageKind::Jpeg) => true,
        Some(ImageKind::Png) => true,
        Some(ImageKind::WebP) => true,
        _ => false,
    }
}

/// Checks and converts an uploaded avatar: refuses more than 5 MB, refuses a
/// file that is not JPEG, PNG or WebP by its extension or its content, refuses
/// data that does not decode, and otherwise fits the image into 512x512
/// (Lanczos3) and re-encodes it as WebP. Returns the WebP bytes and their MIME
/// type.
pub fn process_avatar(avatar: &Avatar) -> (r: Result<(Vec<u8>, String), CoreError>)
    ensures
        avatar.bytes@.len() > MAX_AVATAR_BYTES ==> (r matches Err(CoreError::PayloadTooLarge(m))
            && m@ == "Avatar too large. Max 5 MB"@),
        avatar.bytes@.len() <= MAX_AVATAR_BYTES && !avatar_format_accepted(
            avatar.filename@,
            avatar.bytes@,
        ) ==> (r matches Err(CoreError::UnsupportedMediaType(m)) && m@
            == "Only JPEG, PNG, WebP images are supported"@),
        avatar.bytes@.len() <= MAX_AVATAR_BYTES && avatar_format_accepted(
            avatar.filename@,
            avatar.bytes@,
        ) && image_decode_error(avatar.bytes@) is Some ==> (r matches Err(
            CoreError::UnprocessableEntity(m),
        ) && m@ == "Invalid image data: "@ + image_decode_error(avatar.bytes@)->0),
        avatar.bytes@.len() <= MAX_AVATAR_BYTES && avatar_format_accepted(
            avatar.filename@,
            avatar.bytes@,
        ) && image_decode_error(avatar.bytes@) is None ==> {
            &&& webp_encoding(avatar_image(avatar.bytes@)) matches Ok(b) ==> (r matches Ok(
                (out, mime),
            ) && out@ == b && mime@ == "image/webp"@ && (nonzero_size(
                image_dimensions(ImageModel::Decoded(avatar.bytes@)),
            ) ==> fits_resized(
                image_dimensions(ImageModel::Decoded(avatar.bytes@)),
                (AVATAR_SIDE, AVATAR_SIDE),
                image_dimensions(avatar_image(avatar.bytes@)),
            )))
            &&& webp_encoding(avatar_image(avatar.bytes@)) matches Err(t) ==> (r matches Err(
                CoreError::InternalServerError(m),
            ) && m@ == "Failed to process image: "@ + t)
        },
{
    if avatar.bytes.len() > MAX_AVATAR_BYTES {
        return Err(CoreError::PayloadTooLarge("Avatar too large. Max 5 MB".to_string()));
    }
    let ext = file_extension(avatar.filename.as_str());
    let by_extension = match ext {
        Some(e) => format_of_extension(e.as_str()),
        None => format_of_extension(""),
    };
    proof {
        reveal_strlit("");
        let ext_seq = match path_extension(avatar.filename@) {
            Some(e) => e,
            None => Seq::<char>::empty(),
        };
        assert(""@ =~= Seq::<char>::empty());
        assert(by_extension == format_from_extension(ext_seq));
    }
    if !is_avatar_kind(by_extension) {
        let by_content = guess_format(avatar.bytes.as_slice());
        if !is_avatar_kind(by_content) {
            return Err(
                CoreError::UnsupportedMediaType(
                    "Only JPEG, PNG, WebP images are supported".to_string(),
                ),
            );
        }
    }
    let img = match decode_image(avatar.bytes.as_slice()) {
        Ok(img) => img,
        Err(e) => {
            let mut m = "Invalid image data: ".to_string();
            m.append(e.as_str());
            return Err(CoreError::UnprocessableEntity(m));
        },
    };
    let resized = resize_image(&img, AVATAR_SIDE, AVATAR_SIDE, ResizeFilter::Lanczos3);
    match encode_webp(&resized) {
        Ok(bytes) => Ok((bytes, "image/webp".to_string())),
        Err(e) => {
            let mut m = "Failed to process image: ".to_string();
            m.append(e.as_str());
            Err(CoreError::InternalServerError(m))
        },
    }
}

/// Which uploads are in an avatar format: exactly those whose file extension
/// names JPEG, PNG or WebP, or, failing that, whose first bytes show one of
/// the three. Uploads are checked against a limit of 5 MB (5242880 bytes) and
/// fitted into 512x512.
pub proof fn lemma_avatar_formats(filename: Seq<char>, data: Seq<u8>)
    ensures
        avatar_format_accepted(filename, data) <==> {
            let ext = match path_extension(filename) {
                Some(e) => e,
                None => Seq::empty(),
            };
            ||| format_from_extension(ext) == Some(ImageKind::Jpeg)
            ||| format_from_extension(ext) == Some(ImageKind::Png)
            ||| format_from_extension(ext) == Some(ImageKind::WebP)
            ||| guess_image_format(data) == Some(ImageKind::Jpeg)
            ||| guess_image_format(data) == Some(ImageKind::Png)
            ||| guess_image_format(data) == Some(ImageKind::WebP)
        },
        MAX_AVATAR_BYTES == 5242880,
        AVATAR_SIDE == 512,
{
}

} // verus!
