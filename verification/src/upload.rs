//! Uploaded files kept in memory: decoded images and GIF animations, stored by
//! file name.

use std::sync::Arc;

use image::AnimationDecoder;
use vstd::prelude::*;

use crate::text::{
    chars_of, compare_chars, lemma_lex_irreflexive, lemma_lex_total, lemma_lex_transitive, lex_lt,
    same_chars, Precedence,
};

verus! {

#[verifier::external_type_specification]
#[verifier::external_body]
pub struct ExImageError(image::ImageError);

#[verifier::external_type_specification]
#[verifier::external_body]
pub struct ExImageFormat(image::ImageFormat);

#[verifier::external_type_specification]
#[verifier::external_body]
pub struct ExIoError(std::io::Error);

#[verifier::external_type_specification]
#[verifier::external_body]
pub struct ExFilterType(image::imageops::FilterType);

/// Why an upload could not be turned into an asset.
#[derive(Debug)]
pub enum UploadError {
    ImageError(image::ImageError),
    IoError(std::io::Error),
    UnsupportedImageType(image::ImageFormat),
}

/// Interpolation used when resizing.
#[derive(Debug, PartialEq, Eq, Structural, Clone, Copy)]
pub enum ResizeFilter {
    Nearest,
    Triangle,
    CatmullRom,
    Gaussian,
    Lanczos3,
}

/// Letters `A`..=`Z` turned to lower case, every other character kept.
pub open spec fn ascii_lower(s: Seq<char>) -> Seq<char> {
    s.map_values(|c: char| if 'A' <= c && c <= 'Z' { ((c as int) + 32) as char } else { c })
}

/// The filter a (lower-case) name selects.
pub open spec fn filter_named(name: Seq<char>) -> Option<ResizeFilter> {
    if name == "nearest_neighbor"@ {
        Some(ResizeFilter::Nearest)
    } else if name == "bilinear"@ {
        Some(ResizeFilter::Triangle)
    } else if name == "bicubic"@ {
        Some(ResizeFilter::CatmullRom)
    } else {
        None
    }
}

/// The filter named by `s`, read without regard to ASCII case.
pub fn resize_filter_from_str(s: &str) -> (r: Option<ResizeFilter>)
    ensures
        r == filter_named(ascii_lower(s@)),
{
    let v = chars_of(s);
    let mut lower: Vec<char> = Vec::new();
    let mut i: usize = 0;
    while i < v.len()
        invariant
            v@ == s@,
            i <= v@.len(),
            lower@ == ascii_lower(v@).take(i as int),
        decreases v@.len() - i,
    {
        let c = v[i];
        let l = if 'A' <= c && c <= 'Z' {
            ((c as u8) + 32) as char
        } else {
            c
        };
        lower.push(l);
        assert(ascii_lower(v@).take(i + 1) == ascii_lower(v@).take(i as int).push(l));
        i = i + 1;
    }
    assert(ascii_lower(v@).take(v@.len() as int) == ascii_lower(v@));
    if same_chars(&lower, &chars_of("nearest_neighbor")) {
        Some(ResizeFilter::Nearest)
    } else if same_chars(&lower, &chars_of("bilinear")) {
        Some(ResizeFilter::Triangle)
    } else if same_chars(&lower, &chars_of("bicubic")) {
        Some(ResizeFilter::CatmullRom)
    } else {
        None
    }
}

/// A requested resize: both sides stretch exactly, one side keeps the aspect
/// ratio, neither leaves the image as it is.
#[derive(Debug, PartialEq, Eq, Structural, Clone, Copy)]
pub struct ResizeOptions {
    pub width: Option<u32>,
    pub height: Option<u32>,
    pub filter: ResizeFilter,
}

/// An 8-bit RGBA image: rows of `width` pixels, four bytes each.
#[derive(Debug)]
pub struct RgbaPixels {
    pub width: u32,
    pub height: u32,
    pub data: Vec<u8>,
}

/// Width, height and bytes of an image.
pub open spec fn pixels_value(p: RgbaPixels) -> (u32, u32, Seq<u8>) {
    (p.width, p.height, p.data@)
}

/// The byte count matches the size of an RGBA image.
pub open spec fn rgba_well_formed(v: (u32, u32, Seq<u8>)) -> bool {
    v.2.len() == 4 * v.0 * v.1
}

/// The image an encoded file decodes to, as 8-bit RGBA, if it decodes.
pub uninterp spec fn decoded_image_rgba(file: Seq<u8>) -> Option<(u32, u32, Seq<u8>)>;

/// The frames a GIF file decodes to, as 8-bit RGBA, if it decodes.
pub uninterp spec fn decoded_gif_frames(file: Seq<u8>) -> Option<Seq<(u32, u32, Seq<u8>)>>;


/// The pixels of an RGBA image resized to exactly `w` by `h`.
pub uninterp spec fn resized_exact_pixels(
    width: u32,
    height: u32,
    data: Seq<u8>,
    w: u32,
    h: u32,
    filter: ResizeFilter,
) -> Seq<u8>;


/// The `image` crate's filter for a [`ResizeFilter`], variant for variant.
#[verifier::external_body]
fn filter_type(f: ResizeFilter) -> image::imageops::FilterType {
    match f {
        ResizeFilter::Nearest => image::imageops::FilterType::Nearest,
        ResizeFilter::Triangle => image::imageops::FilterType::Triangle,
        ResizeFilter::CatmullRom => image::imageops::FilterType::CatmullRom,
        ResizeFilter::Gaussian => image::imageops::FilterType::Gaussian,
        ResizeFilter::Lanczos3 => image::imageops::FilterType::Lanczos3,
    }
}

/// Decodes an image file of any supported format to 8-bit RGBA.
///
/// Trusted: `image::ImageReader` with a guessed format, `decode` and
/// `to_rgba8`. The decoded pixels are named; an RGBA buffer holds four bytes
/// per pixel.
#[verifier::external_body]
fn decode_rgba(buf: Vec<u8>) -> (res: Result<RgbaPixels, UploadError>)
    ensures
        res is Ok <==> decoded_image_rgba(buf@) is Some,
        res matches Ok(p) ==> decoded_image_rgba(buf@) == Some(pixels_value(p)),
        res matches Ok(p) ==> rgba_well_formed(pixels_value(p)),
{
    let reader = image::ImageReader::new(std::io::Cursor::new(buf)).with_guessed_format().map_err(
        UploadError::IoError,
    )?;
    let img = reader.decode().map_err(UploadError::ImageError)?.to_rgba8();
    Ok(RgbaPixels { width: img.width(), height: img.height(), data: img.into_raw() })
}

/// The format guessed from a file's first bytes.
pub enum GuessedFormat {
    Gif,
    Other(image::ImageFormat),
}

/// The format `image` guesses from a file's first bytes, if it recognises one.
pub uninterp spec fn guessed_format(file: Seq<u8>) -> Option<GuessedFormat>;

/// Whether the format guessed from a file's first bytes is GIF, if a format is recognised.
pub open spec fn guessed_format_is_gif(file: Seq<u8>) -> Option<bool> {
    match guessed_format(file) {
        Some(f) => Some(f is Gif),
        None => None,
    }
}

/// Guesses the format of a file from its first bytes.
///
/// Trusted: `image::guess_format`, its outcome told apart as GIF, another
/// format, or the error for no format recognised.
#[verifier::external_body]
fn guess_format(buf: &Vec<u8>) -> (res: Result<GuessedFormat, image::ImageError>)
    ensures
        res is Ok <==> guessed_format(buf@) is Some,
        res matches Ok(f) ==> guessed_format(buf@) == Some(f),
{
    match image::guess_format(buf.as_slice()) {
        Ok(image::ImageFormat::Gif) => Ok(GuessedFormat::Gif),
        Ok(f) => Ok(GuessedFormat::Other(f)),
        Err(e) => Err(e),
    }
}

/// The message of an image library error.
///
/// Trusted: `ImageError`'s `Display`; what it writes depends on the error,
/// which Verus cannot see into, so nothing is stated of the text.
#[verifier::external_body]
fn image_error_text(e: &image::ImageError) -> String {
    e.to_string()
}

/// The message of an I/O error.
///
/// Trusted: `std::io::Error`'s `Display`; nothing is stated of the text.
#[verifier::external_body]
fn io_error_text(e: &std::io::Error) -> String {
    e.to_string()
}

/// The name of an image format.
///
/// Trusted: `ImageFormat`'s `Debug`; nothing is stated of the text.
#[verifier::external_body]
fn image_format_text(f: &image::ImageFormat) -> String {
    format!("{:?}", f)
}

/// The prefix of an upload error's message, by kind.
pub open spec fn upload_error_prefix(e: UploadError) -> Seq<char> {
    match e {
        UploadError::ImageError(_) => "Image error: "@,
        UploadError::IoError(_) => "I/O error?? "@,
        UploadError::UnsupportedImageType(_) => "Detected image format is not a supported type: "@,
    }
}

/// The message of an upload error: a prefix for its kind, then the outside
/// error's own text.
pub fn upload_error_message(e: &UploadError) -> (m: String)
    ensures
        exists|t: Seq<char>| m@ == upload_error_prefix(*e) + t,
{
    match e {
        UploadError::ImageError(x) => {
            let t = image_error_text(x);
            let m = crate::text::concat("Image error: ", t.as_str());
            assert(m@ == upload_error_prefix(*e) + t@);
            m
        },
        UploadError::IoError(x) => {
            let t = io_error_text(x);
            let m = crate::text::concat("I/O error?? ", t.as_str());
            assert(m@ == upload_error_prefix(*e) + t@);
            m
        },
        UploadError::UnsupportedImageType(f) => {
            let t = image_format_text(f);
            let m = crate::text::concat("Detected image format is not a supported type: ", t.as_str());
            assert(m@ == upload_error_prefix(*e) + t@);
            m
        },
    }
}

/// The values of a list of images.
pub open spec fn pixels_values(v: Seq<RgbaPixels>) -> Seq<(u32, u32, Seq<u8>)> {
    v.map_values(|p: RgbaPixels| pixels_value(p))
}

/// Decodes every frame of a GIF file to 8-bit RGBA.
///
/// Trusted: `image::codecs::gif::GifDecoder`, `into_frames().collect_frames()`
/// and each frame's buffer. The frames are named; each holds four bytes per pixel.
#[verifier::external_body]
fn decode_gif_frames(buf: Vec<u8>) -> (res: Result<Vec<RgbaPixels>, UploadError>)
    ensures
        res is Ok <==> decoded_gif_frames(buf@) is Some,
        res matches Ok(v) ==> decoded_gif_frames(buf@) == Some(pixels_values(v@)),
        res matches Ok(v) ==> forall|i: int| 0 <= i < v@.len() ==> rgba_well_formed(#[trigger] pixels_value(v@[i])),
{
    let decoder = image::codecs::gif::GifDecoder::new(std::io::Cursor::new(buf)).map_err(
        UploadError::ImageError,
    )?;
    let frames = decoder.into_frames().collect_frames().map_err(UploadError::ImageError)?;
    Ok(frames.into_iter().map(|f| f.into_buffer()).map(|b| RgbaPixels { width: b.width(), height: b.height(), data: b.into_raw() }).collect())
}

/// Resizes an RGBA image to exactly `w` by `h`.
///
/// Trusted: `DynamicImage::resize_exact` on the image, then `to_rgba8`. The
/// result has the requested size; its pixels are named.
#[verifier::external_body]
fn resize_exact_rgba(p: &RgbaPixels, w: u32, h: u32, filter: ResizeFilter) -> (r: RgbaPixels)
    requires
        rgba_well_formed(pixels_value(*p)),
    ensures
        pixels_value(r) == (w, h, resized_exact_pixels(p.width, p.height, p.data@, w, h, filter)),
        rgba_well_formed(pixels_value(r)),
{
    let img = image::RgbaImage::from_raw(p.width, p.height, p.data.clone()).unwrap();
    let out = image::DynamicImage::ImageRgba8(img).resize_exact(w, h, filter_type(filter)).to_rgba8();
    RgbaPixels { width: out.width(), height: out.height(), data: out.into_raw() }
}

/// The other side of an image scaled so that side `base` becomes `given`,
/// with the aspect ratio kept: `other * given / base`, rounded to the nearest
/// whole pixel, at least one pixel and at most `u32::MAX` (the side as it is
/// for an image with no extent along `base`).
pub open spec fn scaled_side(other: u32, given: u32, base: u32) -> u32 {
    if base == 0 {
        other
    } else {
        let q = (2 * (other * given) + base) / (2 * base);
        if q < 1 {
            1
        } else if q > u32::MAX {
            u32::MAX
        } else {
            q as u32
        }
    }
}

/// Computes [`scaled_side`].
fn scale_side(other: u32, given: u32, base: u32) -> (r: u32)
    ensures
        r == scaled_side(other, given, base),
{
    if base == 0 {
        return other;
    }
    let o = other as u128;
    let g = given as u128;
    let b = base as u128;
    assert(o * g <= 0xffff_ffffu128 * 0xffff_ffffu128) by (nonlinear_arith)
        requires
            o <= 0xffff_ffffu128,
            g <= 0xffff_ffffu128,
    ;
    let q = (2 * (o * g) + b) / (2 * b);
    assert(q == (2 * (other * given) + base) / (2 * base));
    if q < 1 {
        1
    } else if q > 0xffff_ffffu128 {
        0xffff_ffffu32
    } else {
        q as u32
    }
}

/// What a resize request makes of an image.
pub open spec fn resized_value(v: (u32, u32, Seq<u8>), opts: ResizeOptions) -> (u32, u32, Seq<u8>) {
    match (opts.width, opts.height) {
        (Some(w), Some(h)) => (w, h, resized_exact_pixels(v.0, v.1, v.2, w, h, opts.filter)),
        (Some(w), None) => {
            let h = scaled_side(v.1, w, v.0);
            (w, h, resized_exact_pixels(v.0, v.1, v.2, w, h, opts.filter))
        },
        (None, Some(h)) => {
            let w = scaled_side(v.0, h, v.1);
            (w, h, resized_exact_pixels(v.0, v.1, v.2, w, h, opts.filter))
        },
        (None, None) => v,
    }
}

/// What an optional resize request makes of an image.
pub open spec fn maybe_resized(v: (u32, u32, Seq<u8>), resize: Option<ResizeOptions>) -> (u32, u32, Seq<u8>) {
    match resize {
        Some(opts) => resized_value(v, opts),
        None => v,
    }
}

/// Resizes an image as requested: both sides given stretch it exactly; one side
/// given sets that side and scales the other to keep the aspect ratio; neither
/// leaves it unchanged.
pub fn resize_image(img: RgbaPixels, opts: &ResizeOptions) -> (r: RgbaPixels)
    requires
        rgba_well_formed(pixels_value(img)),
    ensures
        pixels_value(r) == resized_value(pixels_value(img), *opts),
        rgba_well_formed(pixels_value(r)),
{
    match (opts.width, opts.height) {
        (Some(w), Some(h)) => resize_exact_rgba(&img, w, h, opts.filter),
        (Some(w), None) => {
            let h = scale_side(img.height, w, img.width);
            resize_exact_rgba(&img, w, h, opts.filter)
        },
        (None, Some(h)) => {
            let w = scale_side(img.width, h, img.height);
            resize_exact_rgba(&img, w, h, opts.filter)
        },
        (None, None) => img,
    }
}

/// The RGB bytes of RGBA bytes: each pixel's alpha byte dropped.
pub open spec fn drop_alpha(data: Seq<u8>) -> Seq<u8> {
    Seq::new(
        (data.len() / 4 * 3) as nat,
        |i: int| data[4 * (i / 3) + i % 3],
    )
}

/// An image as width, height and RGB bytes.
pub open spec fn rgb_value(v: (u32, u32, Seq<u8>)) -> (u32, u32, Seq<u8>) {
    (v.0, v.1, drop_alpha(v.2))
}

proof fn lemma_pixel_index(p: int, k: int)
    requires
        0 <= p,
        0 <= k < 3,
    ensures
        (3 * p + k) / 3 == p,
        (3 * p + k) % 3 == k,
{
    assert((3 * p + k) / 3 == p && (3 * p + k) % 3 == k) by (nonlinear_arith)
        requires
            0 <= p,
            0 <= k < 3,
    ;
}

/// RGB bytes of RGBA bytes.
fn rgba_to_rgb(data: &Vec<u8>) -> (out: Vec<u8>)
    ensures
        out@ == drop_alpha(data@),
{
    let n = data.len() / 4;
    let mut out: Vec<u8> = Vec::new();
    let mut p: usize = 0;
    while p < n
        invariant
            n == data@.len() / 4,
            p <= n,
            out@.len() == 3 * p,
            forall|i: int| 0 <= i < out@.len() ==> #[trigger] out@[i] == data@[4 * (i / 3) + i % 3],
        decreases n - p,
    {
        assert(4 * p + 3 < data@.len()) by (nonlinear_arith)
            requires
                p < n,
                n == data@.len() / 4,
        ;
        let len = data.len();
        assert(4 * p < len);
        let base: usize = 4 * p;
        out.push(data[base]);
        out.push(data[base + 1]);
        out.push(data[base + 2]);
        proof {
            lemma_pixel_index(p as int, 0);
            lemma_pixel_index(p as int, 1);
            lemma_pixel_index(p as int, 2);
        }
        p = p + 1;
    }
    assert(out@ =~= drop_alpha(data@));
    out
}

/// A non-animated image, kept as RGB bytes.
#[derive(Debug)]
pub struct ImageBuf {
    width: u32,
    height: u32,
    rgb: Vec<u8>,
}

impl View for ImageBuf {
    type V = (u32, u32, Seq<u8>);

    closed spec fn view(&self) -> (u32, u32, Seq<u8>) {
        (self.width, self.height, self.rgb@)
    }
}

impl ImageBuf {
    /// Decodes an image file whose format is detected from its contents.
    pub fn from_encoded_buffer(buf: Vec<u8>) -> (res: Result<Self, UploadError>)
        ensures
            res is Ok <==> decoded_image_rgba(buf@) is Some,
            res matches Ok(img) ==> img@ == rgb_value(decoded_image_rgba(buf@)->0),
    {
        Self::from_encoded_buffer_resize(buf, &None)
    }

    /// Decodes an image file whose format is detected from its contents, and
    /// resizes it if asked to.
    pub fn from_encoded_buffer_resize(buf: Vec<u8>, resize: &Option<ResizeOptions>) -> (res: Result<
        Self,
        UploadError,
    >)
        ensures
            res is Ok <==> decoded_image_rgba(buf@) is Some,
            res matches Ok(img) ==> img@ == rgb_value(
                maybe_resized(decoded_image_rgba(buf@)->0, *resize),
            ),
    {
        let mut img = decode_rgba(buf)?;
        if let Some(opts) = resize {
            img = resize_image(img, opts);
        }
        let rgb = rgba_to_rgb(&img.data);
        Ok(Self { width: img.width, height: img.height, rgb })
    }

    /// Width in pixels.
    pub fn get_width(&self) -> (w: u32)
        ensures
            w == self@.0,
    {
        self.width
    }

    /// Height in pixels.
    pub fn get_height(&self) -> (h: u32)
        ensures
            h == self@.1,
    {
        self.height
    }

    /// RGB bytes, row by row.
    pub fn get_rgb_raw(&self) -> (raw: &[u8])
        ensures
            raw@ == self@.2,
    {
        self.rgb.as_slice()
    }
}

/// One frame of an animation, kept as RGB bytes.
#[derive(Debug)]
pub struct RgbFrame {
    width: u32,
    height: u32,
    rgb: Vec<u8>,
}

impl View for RgbFrame {
    type V = (u32, u32, Seq<u8>);

    closed spec fn view(&self) -> (u32, u32, Seq<u8>) {
        (self.width, self.height, self.rgb@)
    }
}

impl RgbFrame {
    /// RGB bytes, row by row.
    pub fn get_rgb_raw(&self) -> (raw: &[u8])
        ensures
            raw@ == self@.2,
    {
        self.rgb.as_slice()
    }

    /// Width in pixels.
    pub fn get_width(&self) -> (w: u32)
        ensures
            w == self@.0,
    {
        self.width
    }

    /// Height in pixels.
    pub fn get_height(&self) -> (h: u32)
        ensures
            h == self@.1,
    {
        self.height
    }

    /// A frame from a decoded RGBA frame, resized if asked to.
    pub fn from_frame(f: RgbaPixels, resize: &Option<ResizeOptions>) -> (r: Self)
        requires
            rgba_well_formed(pixels_value(f)),
        ensures
            r@ == rgb_value(maybe_resized(pixels_value(f), *resize)),
    {
        let mut img = f;
        if let Some(opts) = resize {
            img = resize_image(img, opts);
        }
        let rgb = rgba_to_rgb(&img.data);
        Self { width: img.width, height: img.height, rgb }
    }
}

/// The frames an animated upload is made of: each decoded frame resized as
/// requested and kept as RGB.
pub open spec fn animation_frames(frames: Seq<(u32, u32, Seq<u8>)>, resize: Option<ResizeOptions>) -> Seq<(u32, u32, Seq<u8>)> {
    frames.map_values(|f: (u32, u32, Seq<u8>)| rgb_value(maybe_resized(f, resize)))
}

/// All frames of an animated image.
#[derive(Debug)]
pub struct AnimatedImageBuf {
    frames: Vec<RgbFrame>,
}

/// The values of a list of frames.
pub open spec fn frame_values(frames: Seq<RgbFrame>) -> Seq<(u32, u32, Seq<u8>)> {
    frames.map_values(|f: RgbFrame| f@)
}

impl View for AnimatedImageBuf {
    type V = Seq<(u32, u32, Seq<u8>)>;

    closed spec fn view(&self) -> Seq<(u32, u32, Seq<u8>)> {
        frame_values(self.frames@)
    }
}

impl AnimatedImageBuf {
    /// Decodes an animated image file (only GIF is supported); a file whose
    /// format is not recognised is refused with the image library's error.
    pub fn from_encoded_buffer(buf: Vec<u8>) -> (res: Result<Self, UploadError>)
        ensures
            guessed_format_is_gif(buf@) is None ==> res matches Err(UploadError::ImageError(_)),
            guessed_format(buf@) matches Some(GuessedFormat::Other(f)) ==> (res matches Err(
                UploadError::UnsupportedImageType(g),
            ) && g == f),
            guessed_format_is_gif(buf@) == Some(false) ==> res matches Err(
                UploadError::UnsupportedImageType(_),
            ),
            guessed_format_is_gif(buf@) == Some(true) ==> (res is Ok <==> decoded_gif_frames(
                buf@,
            ) is Some),
            res matches Ok(a) ==> a@ == animation_frames(decoded_gif_frames(buf@)->0, None),
    {
        Self::from_encoded_buffer_resize(buf, &None)
    }

    /// Decodes an animated image file (only GIF is supported), resizing every
    /// frame if asked to; a file whose format is not recognised is refused with
    /// the image library's error.
    pub fn from_encoded_buffer_resize(buf: Vec<u8>, resize: &Option<ResizeOptions>) -> (res: Result<
        Self,
        UploadError,
    >)
        ensures
            guessed_format_is_gif(buf@) is None ==> res matches Err(UploadError::ImageError(_)),
            guessed_format(buf@) matches Some(GuessedFormat::Other(f)) ==> (res matches Err(
                UploadError::UnsupportedImageType(g),
            ) && g == f),
            guessed_format_is_gif(buf@) == Some(false) ==> res matches Err(
                UploadError::UnsupportedImageType(_),
            ),
            guessed_format_is_gif(buf@) == Some(true) ==> (res is Ok <==> decoded_gif_frames(
                buf@,
            ) is Some),
            res matches Ok(a) ==> a@ == animation_frames(decoded_gif_frames(buf@)->0, *resize),
    {
        match guess_format(&buf) {
            Err(e) => Err(UploadError::ImageError(e)),
            Ok(GuessedFormat::Other(f)) => Err(UploadError::UnsupportedImageType(f)),
            Ok(GuessedFormat::Gif) => {
                let decoded = decode_gif_frames(buf)?;
                let ghost dv = pixels_values(decoded@);
                let mut frames: Vec<RgbFrame> = Vec::new();
                let mut rest = decoded;
                let n = rest.len();
                let mut i: usize = 0;
                while i < n
                    invariant
                        n == dv.len(),
                        i <= n,
                        rest@.len() == n - i,
                        forall|j: int| 0 <= j < n - i ==> #[trigger] pixels_value(rest@[j]) == dv[i + j],
                        forall|j: int| 0 <= j < n ==> rgba_well_formed(#[trigger] dv[j]),
                        frame_values(frames@) == animation_frames(dv.take(i as int), *resize),
                    decreases n - i,
                {
                    let f = rest.remove(0);
                    assert(pixels_value(f) == dv[i as int]);
                    let frame = RgbFrame::from_frame(f, resize);
                    let ghost prev = frames@;
                    let ghost fv = frame@;
                    frames.push(frame);
                    assert(frames@ == prev.push(frame));
                    assert(frame_values(frames@) =~= frame_values(prev).push(fv));
                    assert(dv.take(i + 1) == dv.take(i as int).push(dv[i as int]));
                    assert(animation_frames(dv.take(i + 1), *resize) =~= animation_frames(
                        dv.take(i as int),
                        *resize,
                    ).push(rgb_value(maybe_resized(dv[i as int], *resize))));
                    i = i + 1;
                }
                assert(dv.take(n as int) == dv);
                Ok(Self { frames })
            },
        }
    }

    /// Width of the first frame.
    pub fn get_width(&self) -> (w: u32)
        requires
            self@.len() > 0,
        ensures
            w == self@[0].0,
    {
        self.frames[0].get_width()
    }

    /// Height of the first frame.
    pub fn get_height(&self) -> (h: u32)
        requires
            self@.len() > 0,
        ensures
            h == self@[0].1,
    {
        self.frames[0].get_height()
    }

    /// The frames, in order.
    pub fn get_frames(&self) -> (f: &[RgbFrame])
        ensures
            frame_values(f@) == self@,
    {
        self.frames.as_slice()
    }
}


/// An uploaded file, decoded.
#[derive(Debug)]
pub enum UploadedAsset {
    Image(ImageBuf),
    AnimatedImage(AnimatedImageBuf),
}

/// Another handle to a shared asset.
///
/// Trusted: `Arc::clone` gives a handle to the same value.
#[verifier::external_body]
fn share_asset(a: &Arc<UploadedAsset>) -> (r: Arc<UploadedAsset>)
    ensures
        *r == **a,
{
    Arc::clone(a)
}

/// The file names of the stored entries, in storage order.
pub open spec fn entry_keys(e: Seq<(String, Arc<UploadedAsset>)>) -> Seq<Seq<char>> {
    e.map_values(|p: (String, Arc<UploadedAsset>)| p.0@)
}

/// Names in strictly increasing order (so without repeats).
pub open spec fn strictly_sorted(k: Seq<Seq<char>>) -> bool {
    forall|i: int, j: int| 0 <= i < j < k.len() ==> lex_lt(k[i], k[j])
}

/// The position of a name among the keys.
pub open spec fn key_index(k: Seq<Seq<char>>, key: Seq<char>) -> int {
    choose|i: int| 0 <= i < k.len() && k[i] == key
}

/// The stored entries as a map from file name to asset.
pub open spec fn entries_map(e: Seq<(String, Arc<UploadedAsset>)>) -> Map<Seq<char>, UploadedAsset> {
    Map::new(
        |key: Seq<char>| entry_keys(e).contains(key),
        |key: Seq<char>| *e[key_index(entry_keys(e), key)].1,
    )
}

/// In sorted keys, a key's position is the one it is found at.
proof fn lemma_key_index(k: Seq<Seq<char>>, i: int)
    requires
        strictly_sorted(k),
        0 <= i < k.len(),
    ensures
        key_index(k, k[i]) == i,
{
    let j = key_index(k, k[i]);
    assert(0 <= j < k.len() && k[j] == k[i]);
    if j < i {
        assert(lex_lt(k[j], k[i]));
        lemma_lex_irreflexive(k[i]);
    } else if i < j {
        assert(lex_lt(k[i], k[j]));
        lemma_lex_irreflexive(k[i]);
    }
}

/// Uploaded files by name. Names are kept in increasing order, each once.
#[derive(Debug)]
pub struct UploadManager {
    assets: Vec<(String, Arc<UploadedAsset>)>,
}

impl UploadManager {
    #[verifier::type_invariant]
    spec fn names_sorted(self) -> bool {
        strictly_sorted(entry_keys(self.assets@))
    }

    /// The stored assets by file name.
    pub closed spec fn spec_assets(&self) -> Map<Seq<char>, UploadedAsset> {
        entries_map(self.assets@)
    }

    /// The stored file names, in increasing order.
    pub closed spec fn spec_names(&self) -> Seq<Seq<char>> {
        entry_keys(self.assets@)
    }

    /// An empty store.
    pub fn new() -> (m: Self)
        ensures
            m.spec_assets() == Map::<Seq<char>, UploadedAsset>::empty(),
            m.spec_names() == Seq::<Seq<char>>::empty(),
    {
        let m = Self { assets: Vec::new() };
        assert(m.spec_assets() =~= Map::<Seq<char>, UploadedAsset>::empty());
        assert(m.spec_names() =~= Seq::<Seq<char>>::empty());
        m
    }

    /// Where `name` is or would go: the first position whose name does not
    /// precede it, and whether the name found there is `name`.
    fn locate(&self, name: &Vec<char>) -> (r: (usize, bool))
        ensures
            r.0 <= self.assets@.len(),
            forall|j: int| 0 <= j < r.0 ==> lex_lt(#[trigger] entry_keys(self.assets@)[j], name@),
            r.1 ==> r.0 < self.assets@.len() && entry_keys(self.assets@)[r.0 as int] == name@,
            !r.1 ==> forall|j: int| r.0 <= j < self.assets@.len() ==> lex_lt(name@, #[trigger] entry_keys(self.assets@)[j]),
    {
        proof {
            use_type_invariant(self);
        }
        let ghost keys = entry_keys(self.assets@);
        let mut i: usize = 0;
        while i < self.assets.len()
            invariant
                keys == entry_keys(self.assets@),
                strictly_sorted(keys),
                i <= self.assets@.len(),
                forall|j: int| 0 <= j < i ==> lex_lt(#[trigger] keys[j], name@),
            decreases self.assets@.len() - i,
        {
            let k = chars_of(self.assets[i].0.as_str());
            assert(k@ == keys[i as int]);
            match compare_chars(&k, name) {
                Precedence::Before => {},
                Precedence::Same => {
                    return (i, true);
                },
                Precedence::After => {
                    proof {
                        assert forall|j: int| i <= j < self.assets@.len() implies lex_lt(name@, #[trigger] keys[j]) by {
                            if j > i {
                                lemma_lex_transitive(name@, keys[i as int], keys[j]);
                            }
                        }
                    }
                    return (i, false);
                },
            }
            i = i + 1;
        }
        (i, false)
    }

    /// Stores `asset` under `filename`, replacing and returning any asset
    /// stored there before.
    pub fn insert(&mut self, filename: String, asset: UploadedAsset) -> (r: Option<Arc<UploadedAsset>>)
        ensures
            final(self).spec_assets() == old(self).spec_assets().insert(filename@, asset),
            r is Some <==> old(self).spec_assets().contains_key(filename@),
            r matches Some(a) ==> *a == old(self).spec_assets()[filename@],
    {
        proof {
            use_type_invariant(&*self);
        }
        let name = chars_of(filename.as_str());
        let (pos, found) = self.locate(&name);
        let ghost old_e = self.assets@;
        let ghost keys = entry_keys(old_e);
        let ghost new_entry = (filename, Arc::new(asset));
        let mut entries: Vec<(String, Arc<UploadedAsset>)> = Vec::new();
        std::mem::swap(&mut entries, &mut self.assets);
        if found {
            let old_entry = entries.remove(pos);
            entries.insert(pos, (filename, Arc::new(asset)));
            proof {
                let e = entries@;
                assert(e =~= old_e.update(pos as int, new_entry));
                assert(entry_keys(e) =~= keys);
                lemma_key_index(keys, pos as int);
                assert forall|key: Seq<char>| #[trigger] entries_map(e).contains_key(key) <==> entries_map(old_e).insert(filename@, asset).contains_key(key) by {}
                assert forall|key: Seq<char>| entries_map(e).contains_key(key) implies #[trigger] entries_map(e)[key] == entries_map(old_e).insert(filename@, asset)[key] by {
                    let i = key_index(keys, key);
                    lemma_key_index(keys, i);
                }
                assert(entries_map(e) =~= entries_map(old_e).insert(filename@, asset));
                assert(keys.contains(name@));
                assert(*old_entry.1 == entries_map(old_e)[filename@]);
            }
            self.assets = entries;
            Some(old_entry.1)
        } else {
            entries.insert(pos, (filename, Arc::new(asset)));
            proof {
                let e = entries@;
                let nk = entry_keys(e);
                assert(e =~= old_e.insert(pos as int, new_entry));
                assert(nk =~= keys.insert(pos as int, name@));
                assert forall|i: int, j: int| 0 <= i < j < nk.len() implies lex_lt(nk[i], nk[j]) by {
                    if j < pos {
                    } else if j == pos {
                    } else if i < pos {
                        lemma_lex_transitive(nk[i], name@, nk[j]);
                    } else if i == pos {
                    } else {
                        assert(nk[i] == keys[i - 1] && nk[j] == keys[j - 1]);
                    }
                }
                assert(!keys.contains(name@)) by {
                    if keys.contains(name@) {
                        let j = choose|j: int| 0 <= j < keys.len() && keys[j] == name@;
                        lemma_lex_irreflexive(name@);
                        if j < pos {
                            assert(lex_lt(keys[j], name@));
                        } else {
                            assert(lex_lt(name@, keys[j]));
                        }
                    }
                }
                assert forall|key: Seq<char>| #[trigger] entries_map(e).contains_key(key) <==> entries_map(old_e).insert(filename@, asset).contains_key(key) by {
                    if key != name@ && nk.contains(key) {
                        let j = choose|j: int| 0 <= j < nk.len() && nk[j] == key;
                        if j < pos {
                            assert(keys[j] == key);
                        } else {
                            assert(keys[j - 1] == key);
                        }
                    }
                    if keys.contains(key) {
                        let j = choose|j: int| 0 <= j < keys.len() && keys[j] == key;
                        if j < pos {
                            assert(nk[j] == key);
                        } else {
                            assert(nk[j + 1] == key);
                        }
                    }
                    if key == name@ {
                        assert(nk[pos as int] == key);
                    }
                }
                assert forall|key: Seq<char>| entries_map(e).contains_key(key) implies #[trigger] entries_map(e)[key] == entries_map(old_e).insert(filename@, asset)[key] by {
                    let i = key_index(nk, key);
                    lemma_key_index(nk, i);
                    if i < pos {
                        lemma_key_index(keys, i);
                    } else if i > pos {
                        lemma_key_index(keys, i - 1);
                    }
                }
                assert(entries_map(e) =~= entries_map(old_e).insert(filename@, asset));
            }
            self.assets = entries;
            None
        }
    }

    /// The asset stored under `filename`, if any.
    pub fn retrieve(&self, filename: &str) -> (r: Option<Arc<UploadedAsset>>)
        ensures
            r is Some <==> self.spec_assets().contains_key(filename@),
            r matches Some(a) ==> *a == self.spec_assets()[filename@],
    {
        proof {
            use_type_invariant(self);
        }
        let name = chars_of(filename);
        let (pos, found) = self.locate(&name);
        if found {
            proof {
                lemma_key_index(entry_keys(self.assets@), pos as int);
            }
            Some(share_asset(&self.assets[pos].1))
        } else {
            proof {
                let keys = entry_keys(self.assets@);
                if keys.contains(name@) {
                    let j = choose|j: int| 0 <= j < keys.len() && keys[j] == name@;
                    lemma_lex_irreflexive(name@);
                    if j < pos {
                        assert(lex_lt(keys[j], name@));
                    } else {
                        assert(lex_lt(name@, keys[j]));
                    }
                }
            }
            None
        }
    }

    /// The stored file names, in increasing order.
    pub fn list_files(&self) -> (names: Vec<&str>)
        ensures
            names@.len() == self.spec_names().len(),
            forall|i: int| 0 <= i < names@.len() ==> #[trigger] names@[i]@ == self.spec_names()[i],
            strictly_sorted(self.spec_names()),
            forall|key: Seq<char>| self.spec_assets().contains_key(key) <==> self.spec_names().contains(key),
    {
        proof {
            use_type_invariant(self);
        }
        let mut names: Vec<&str> = Vec::new();
        let mut i: usize = 0;
        while i < self.assets.len()
            invariant
                i <= self.assets@.len(),
                names@.len() == i,
                forall|j: int| 0 <= j < i ==> #[trigger] names@[j]@ == entry_keys(self.assets@)[j],
            decreases self.assets@.len() - i,
        {
            names.push(self.assets[i].0.as_str());
            i = i + 1;
        }
        names
    }

    /// Removes the asset stored under `key`; an error when there is none.
    pub fn try_delete(&mut self, key: &str) -> (r: Result<(), String>)
        ensures
            r is Ok <==> old(self).spec_assets().contains_key(key@),
            final(self).spec_assets() == old(self).spec_assets().remove(key@),
            r matches Err(e) ==> e@ == "Can't delete file as it is not present"@,
    {
        proof {
            use_type_invariant(&*self);
        }
        let name = chars_of(key);
        let (pos, found) = self.locate(&name);
        let ghost old_e = self.assets@;
        let ghost keys = entry_keys(old_e);
        if found {
            let mut entries: Vec<(String, Arc<UploadedAsset>)> = Vec::new();
            std::mem::swap(&mut entries, &mut self.assets);
            entries.remove(pos);
            proof {
                let e = entries@;
                let nk = entry_keys(e);
                assert(e =~= old_e.remove(pos as int));
                assert(nk =~= keys.remove(pos as int));
                assert forall|i: int, j: int| 0 <= i < j < nk.len() implies lex_lt(nk[i], nk[j]) by {
                    if j < pos {
                    } else if i < pos {
                        assert(nk[j] == keys[j + 1]);
                    } else {
                        assert(nk[i] == keys[i + 1] && nk[j] == keys[j + 1]);
                    }
                }
                lemma_key_index(keys, pos as int);
                assert forall|k2: Seq<char>| #[trigger] entries_map(e).contains_key(k2) <==> entries_map(old_e).remove(key@).contains_key(k2) by {
                    if nk.contains(k2) {
                        let j = choose|j: int| 0 <= j < nk.len() && nk[j] == k2;
                        if j < pos {
                            assert(keys[j] == k2);
                            lemma_lex_irreflexive(k2);
                            assert(lex_lt(keys[j], keys[pos as int]));
                        } else {
                            assert(keys[j + 1] == k2);
                            lemma_lex_irreflexive(k2);
                            assert(lex_lt(keys[pos as int], keys[j + 1]));
                        }
                    }
                    if keys.contains(k2) && k2 != key@ {
                        let j = choose|j: int| 0 <= j < keys.len() && keys[j] == k2;
                        if j < pos {
                            assert(nk[j] == k2);
                        } else {
                            assert(j != pos);
                            assert(nk[j - 1] == k2);
                        }
                    }
                }
                assert forall|k2: Seq<char>| entries_map(e).contains_key(k2) implies #[trigger] entries_map(e)[k2] == entries_map(old_e).remove(key@)[k2] by {
                    let i = key_index(nk, k2);
                    lemma_key_index(nk, i);
                    if i < pos {
                        lemma_key_index(keys, i);
                    } else {
                        lemma_key_index(keys, i + 1);
                    }
                }
                assert(entries_map(e) =~= entries_map(old_e).remove(key@));
            }
            self.assets = entries;
            Ok(())
        } else {
            proof {
                if keys.contains(name@) {
                    let j = choose|j: int| 0 <= j < keys.len() && keys[j] == name@;
                    lemma_lex_irreflexive(name@);
                    if j < pos {
                        assert(lex_lt(keys[j], name@));
                    } else {
                        assert(lex_lt(name@, keys[j]));
                    }
                }
                assert(entries_map(old_e) =~= entries_map(old_e).remove(key@));
            }
            Err("Can't delete file as it is not present".to_owned())
        }
    }
}

/// A file that was stored is read back as stored, whether or not the name was
/// taken before; every other name keeps what it had.
pub proof fn lemma_retrieve_after_insert(
    before: UploadManager,
    after: UploadManager,
    name: Seq<char>,
    asset: UploadedAsset,
    other: Seq<char>,
)
    requires
        after.spec_assets() == before.spec_assets().insert(name, asset),
    ensures
        after.spec_assets().contains_key(name),
        after.spec_assets()[name] == asset,
        other != name ==> (after.spec_assets().contains_key(other) <==> before.spec_assets().contains_key(other)),
        other != name && before.spec_assets().contains_key(other) ==> after.spec_assets()[other]
            == before.spec_assets()[other],
{
}

/// After a file is deleted it is no longer found, so deleting it again
/// fails; every other name keeps what it had.
pub proof fn lemma_retrieve_after_delete(
    before: UploadManager,
    after: UploadManager,
    name: Seq<char>,
    other: Seq<char>,
)
    requires
        after.spec_assets() == before.spec_assets().remove(name),
    ensures
        !after.spec_assets().contains_key(name),
        other != name ==> (after.spec_assets().contains_key(other) <==> before.spec_assets().contains_key(other)),
        other != name && before.spec_assets().contains_key(other) ==> after.spec_assets()[other]
            == before.spec_assets()[other],
{
}

/// A resize request gives an image with the pixels of resizing with the
/// filter the request names, to the sides it gives; a side it leaves out is
/// the image's other side scaled by the same ratio, rounded to the nearest
/// pixel (and at least one, for an image with some extent). Without sides the image is unchanged.
pub proof fn lemma_resize_uses_requested_filter(v: (u32, u32, Seq<u8>), opts: ResizeOptions)
    ensures
        (opts.width is Some || opts.height is Some) ==> resized_value(v, opts).2 == resized_exact_pixels(
            v.0,
            v.1,
            v.2,
            resized_value(v, opts).0,
            resized_value(v, opts).1,
            opts.filter,
        ),
        opts.width matches Some(w) ==> resized_value(v, opts).0 == w,
        opts.height matches Some(h) ==> resized_value(v, opts).1 == h,
        opts.width is None && opts.height is None ==> resized_value(v, opts) == v,
        (opts.width is Some && opts.height is None && v.0 > 0) ==> resized_value(v, opts).1 >= 1,
        (opts.height is Some && opts.width is None && v.1 > 0) ==> resized_value(v, opts).0 >= 1,
        (opts.width matches Some(w) && opts.height is None && v.0 > 0 && resized_value(v, opts).1 > 1
            && resized_value(v, opts).1 < u32::MAX) ==> ({
            let q = resized_value(v, opts).1 as int;
            let w = opts.width->0 as int;
            &&& 2 * q * v.0 <= 2 * v.1 * w + v.0
            &&& 2 * v.1 * w + v.0 < 2 * q * v.0 + 2 * v.0
        }),
        (opts.height matches Some(h) && opts.width is None && v.1 > 0 && resized_value(v, opts).0 > 1
            && resized_value(v, opts).0 < u32::MAX) ==> ({
            let q = resized_value(v, opts).0 as int;
            let h = opts.height->0 as int;
            &&& 2 * q * v.1 <= 2 * v.0 * h + v.1
            &&& 2 * v.0 * h + v.1 < 2 * q * v.1 + 2 * v.1
        }),
{
    if opts.width is Some && opts.height is None && v.0 > 0 {
        let w = opts.width->0 as int;
        lemma_rounded_ratio(v.1 as int, w, v.0 as int);
    }
    if opts.height is Some && opts.width is None && v.1 > 0 {
        let h = opts.height->0 as int;
        lemma_rounded_ratio(v.0 as int, h, v.1 as int);
    }
}

/// The rounded quotient of [`scaled_side`] is the nearest whole number to
/// `other * given / base`.
proof fn lemma_rounded_ratio(other: int, given: int, base: int)
    requires
        base > 0,
        other >= 0,
        given >= 0,
    ensures
        ({
            let q = (2 * (other * given) + base) / (2 * base);
            &&& 2 * q * base <= 2 * other * given + base
            &&& 2 * other * given + base < 2 * q * base + 2 * base
        }),
{
    let n = 2 * (other * given) + base;
    let d = 2 * base;
    vstd::arithmetic::div_mod::lemma_fundamental_div_mod(n, d);
    vstd::arithmetic::div_mod::lemma_mod_bound(n, d);
    let q = n / d;
    assert(n == d * q + n % d);
    assert(2 * q * base == d * q) by (nonlinear_arith)
        requires
            d == 2 * base,
    ;
    assert(2 * other * given == 2 * (other * given)) by (nonlinear_arith);
}

} // verus!
