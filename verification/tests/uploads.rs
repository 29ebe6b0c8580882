use std::io::Cursor;

use image::codecs::gif::GifEncoder;
use image::{Delay, Frame, ImageFormat, Rgb, RgbImage, Rgba, RgbaImage};
use ledzilla_server::graphics_component::draw::component_drawer::ImageDrawer;
use ledzilla_server::graphics_component::Image;
use ledzilla_server::server::{store_upload, HttpReply};
use ledzilla_server::upload::{
    AnimatedImageBuf, ImageBuf, ResizeFilter, ResizeOptions, RgbFrame, UploadError, UploadManager,
    UploadedAsset,
};

const TOP: (u8, u8, u8) = (32, 128, 32);
const MID: (u8, u8, u8) = (88, 152, 106);

/// The colour of row (or column) `i` of the test gradients: `TOP` at 0, `MID` at 3.
fn gradient_color(i: u32) -> (u8, u8, u8) {
    match i {
        0 => TOP,
        3 => MID,
        _ => (32 + 18 * i as u8, 128 + 8 * i as u8, 32 + 24 * i as u8),
    }
}

/// A 10x10 image whose rows go from green at the top through the gradient.
fn vertical_gradient() -> RgbImage {
    RgbImage::from_fn(10, 10, |_, y| {
        let (r, g, b) = gradient_color(y);
        Rgb([r, g, b])
    })
}

fn vertical_gradient_png() -> Vec<u8> {
    let mut out = Cursor::new(Vec::new());
    vertical_gradient().write_to(&mut out, ImageFormat::Png).unwrap();
    out.into_inner()
}

/// A 10x10 GIF of two frames: the vertical gradient, then the same turned on its side.
fn gradient_gif() -> Vec<u8> {
    let mut out = Vec::new();
    {
        let mut enc = GifEncoder::new(&mut out);
        let f0 = RgbaImage::from_fn(10, 10, |_, y| {
            let (r, g, b) = gradient_color(y);
            Rgba([r, g, b, 255])
        });
        let f1 = RgbaImage::from_fn(10, 10, |x, _| {
            let (r, g, b) = gradient_color(x);
            Rgba([r, g, b, 255])
        });
        enc.encode_frames(vec![
            Frame::from_parts(f0, 0, 0, Delay::from_numer_denom_ms(100, 1)),
            Frame::from_parts(f1, 0, 0, Delay::from_numer_denom_ms(100, 1)),
        ])
        .unwrap();
    }
    out
}

fn get_pixel_from_raw(raw_buf: &[u8], x: u32, y: u32, width: u32) -> (u8, u8, u8) {
    let pixel_start = 3 * (y * width + x) as usize;
    (raw_buf[pixel_start], raw_buf[pixel_start + 1], raw_buf[pixel_start + 2])
}

#[test]
fn new_png() {
    const WIDTH: u32 = 10;
    const HEIGHT: u32 = 10;
    let buf = vertical_gradient_png();
    let image = ImageBuf::from_encoded_buffer(buf).unwrap();

    assert_eq!(WIDTH, image.get_width());
    assert_eq!(HEIGHT, image.get_height());

    let raw_rgb = image.get_rgb_raw();
    assert_eq!((32, 128, 32), get_pixel_from_raw(raw_rgb, 0, 0, WIDTH));
    assert_eq!((32, 128, 32), get_pixel_from_raw(raw_rgb, 1, 0, WIDTH));
    assert_eq!((88, 152, 106), get_pixel_from_raw(raw_rgb, 6, 3, WIDTH));
}

#[test]
fn new_png_resize() {
    const EXP_RESIZED_WIDTH: u32 = 6;
    const EXP_RESIZED_HEIGHT: u32 = 6;
    let buf = vertical_gradient_png();
    let resize = ResizeOptions {
        width: Some(EXP_RESIZED_WIDTH),
        height: None,
        filter: ResizeFilter::Nearest,
    };
    let image = ImageBuf::from_encoded_buffer_resize(buf, &Some(resize)).unwrap();

    assert_eq!(EXP_RESIZED_WIDTH, image.get_width());
    assert_eq!(EXP_RESIZED_HEIGHT, image.get_height());
}

#[test]
fn new_animated_gif() {
    const WIDTH: u32 = 10;
    const HEIGHT: u32 = 10;
    const FRAMES: usize = 2;

    let buf = gradient_gif();
    let image = AnimatedImageBuf::from_encoded_buffer(buf).unwrap();

    assert_eq!(WIDTH, image.get_width());
    assert_eq!(HEIGHT, image.get_height());

    let frames: &[RgbFrame] = image.get_frames();
    assert_eq!(FRAMES, frames.len());

    let frame_0 = &frames[0].get_rgb_raw();
    assert_eq!((32, 128, 32), get_pixel_from_raw(frame_0, 0, 0, WIDTH));
    assert_eq!((32, 128, 32), get_pixel_from_raw(frame_0, 1, 0, WIDTH));
    assert_eq!((88, 152, 106), get_pixel_from_raw(frame_0, 6, 3, WIDTH));

    let frame_1 = &frames[1].get_rgb_raw();
    assert_eq!((32, 128, 32), get_pixel_from_raw(frame_1, 0, 0, WIDTH));
    assert_eq!((32, 128, 32), get_pixel_from_raw(frame_1, 0, 1, WIDTH));
    assert_eq!((88, 152, 106), get_pixel_from_raw(frame_1, 3, 6, WIDTH));
}

#[test]
fn new_animated_gif_resize() {
    const EXP_RESIZED_WIDTH: u32 = 6;
    const EXP_RESIZED_HEIGHT: u32 = 6;
    const FRAMES: usize = 2;

    let resize = ResizeOptions {
        width: Some(EXP_RESIZED_WIDTH),
        height: None,
        filter: ResizeFilter::Nearest,
    };

    let buf = gradient_gif();
    let image = AnimatedImageBuf::from_encoded_buffer_resize(buf, &Some(resize)).unwrap();

    assert_eq!(EXP_RESIZED_WIDTH, image.get_width());
    assert_eq!(EXP_RESIZED_HEIGHT, image.get_height());

    let frames: &[RgbFrame] = image.get_frames();
    assert_eq!(FRAMES, frames.len());
}

#[test]
fn new_animated_gif_resize_squish() {
    const EXP_RESIZED_WIDTH: u32 = 10;
    const EXP_RESIZED_HEIGHT: u32 = 6;
    const FRAMES: usize = 2;

    let resize = ResizeOptions {
        width: Some(EXP_RESIZED_WIDTH),
        height: Some(EXP_RESIZED_HEIGHT),
        filter: ResizeFilter::Nearest,
    };

    let buf = gradient_gif();
    let image = AnimatedImageBuf::from_encoded_buffer_resize(buf, &Some(resize)).unwrap();

    assert_eq!(EXP_RESIZED_WIDTH, image.get_width());
    assert_eq!(EXP_RESIZED_HEIGHT, image.get_height());

    let frames: &[RgbFrame] = image.get_frames();
    assert_eq!(FRAMES, frames.len());
}

#[test]
fn png_is_not_an_animation() {
    let r = AnimatedImageBuf::from_encoded_buffer(vertical_gradient_png());
    assert!(matches!(r, Err(UploadError::UnsupportedImageType(ImageFormat::Png))));
}

#[test]
fn unknown_bytes_are_refused() {
    assert!(matches!(AnimatedImageBuf::from_encoded_buffer(vec![1, 2, 3, 4]), Err(UploadError::ImageError(_))));
    assert!(matches!(ImageBuf::from_encoded_buffer(vec![1, 2, 3, 4]), Err(_)));
}

#[test]
fn resize_filter_names() {
    assert_eq!(ledzilla_server::upload::resize_filter_from_str("Nearest_Neighbor"), Some(ResizeFilter::Nearest));
    assert_eq!(ledzilla_server::upload::resize_filter_from_str("bilinear"), Some(ResizeFilter::Triangle));
    assert_eq!(ledzilla_server::upload::resize_filter_from_str("BICUBIC"), Some(ResizeFilter::CatmullRom));
    assert_eq!(ledzilla_server::upload::resize_filter_from_str("lanczos"), None);
}

fn small_png_asset() -> UploadedAsset {
    UploadedAsset::Image(ImageBuf::from_encoded_buffer(vertical_gradient_png()).unwrap())
}

#[test]
fn manager_insert_retrieve_delete() {
    let mut m = UploadManager::new();
    assert!(m.list_files().is_empty());
    assert!(m.insert("b.png".to_string(), small_png_asset()).is_none());
    assert!(m.insert("a.png".to_string(), small_png_asset()).is_none());
    // Names are listed in order.
    assert_eq!(m.list_files(), vec!["a.png", "b.png"]);
    // Replacing gives back the old asset.
    assert!(m.insert("a.png".to_string(), small_png_asset()).is_some());
    assert_eq!(m.list_files(), vec!["a.png", "b.png"]);
    assert!(m.retrieve("a.png").is_some());
    assert!(m.retrieve("c.png").is_none());
    assert!(m.try_delete("a.png").is_ok());
    assert_eq!(
        m.try_delete("a.png").unwrap_err(),
        "Can't delete file as it is not present"
    );
    assert!(m.retrieve("a.png").is_none());
    assert_eq!(m.list_files(), vec!["b.png"]);
}

/// A 10x4 image whose rows are the gradient.
fn wide_png() -> Vec<u8> {
    let img = RgbImage::from_fn(10, 4, |_, y| {
        let (r, g, b) = gradient_color(y);
        Rgb([r, g, b])
    });
    let mut out = Cursor::new(Vec::new());
    img.write_to(&mut out, ImageFormat::Png).unwrap();
    out.into_inner()
}

#[test]
fn one_side_resize_keeps_aspect_ratio() {
    let by_width = ResizeOptions { width: Some(5), height: None, filter: ResizeFilter::Nearest };
    let image = ImageBuf::from_encoded_buffer_resize(wide_png(), &Some(by_width)).unwrap();
    assert_eq!((image.get_width(), image.get_height()), (5, 2));
    // Growing is allowed too: 10x4 at height 8 becomes 20x8.
    let by_height = ResizeOptions { width: None, height: Some(8), filter: ResizeFilter::Triangle };
    let image = ImageBuf::from_encoded_buffer_resize(wide_png(), &Some(by_height)).unwrap();
    assert_eq!((image.get_width(), image.get_height()), (20, 8));
    // 10x4 at width 3: 4 * 3 / 10 = 1.2, rounded to 1.
    let small = ResizeOptions { width: Some(3), height: None, filter: ResizeFilter::Nearest };
    let image = ImageBuf::from_encoded_buffer_resize(wide_png(), &Some(small)).unwrap();
    assert_eq!((image.get_width(), image.get_height()), (3, 1));
}

#[test]
fn storing_uploads() {
    let mut m = UploadManager::new();
    let r = store_upload(&mut m, "g.png".to_string(), "/api/files/g.png", vertical_gradient_png(), false, &None);
    assert_eq!(r, HttpReply::Created("Created /api/files/g.png".to_string()));
    assert!(m.retrieve("g.png").is_some());
    let r = store_upload(&mut m, "g.png".to_string(), "/api/files/g.png", vertical_gradient_png(), false, &None);
    assert_eq!(r, HttpReply::NoContent);
    // A bad file is refused and changes nothing.
    let r = store_upload(&mut m, "bad.png".to_string(), "/api/files/bad.png", vec![1, 2, 3], false, &None);
    assert!(matches!(&r, HttpReply::BadRequest(t) if t.starts_with("Image error: ")));
    assert!(m.retrieve("bad.png").is_none());
    // A PNG is no animation.
    let r = store_upload(&mut m, "p.gif".to_string(), "/api/files/p.gif", vertical_gradient_png(), true, &None);
    assert!(matches!(&r, HttpReply::BadRequest(t) if t.starts_with("Detected image format is not a supported type: ")));
    let r = store_upload(&mut m, "a.gif".to_string(), "/api/files/a.gif", gradient_gif(), true, &None);
    assert!(matches!(r, HttpReply::Created(_)));
    assert_eq!(m.list_files(), vec!["a.gif", "g.png"]);
}

#[test]
fn gif_frames_last_the_slowdown_and_loop() {
    let mut m = UploadManager::new();
    store_upload(&mut m, "a.gif".to_string(), "/api/files/a.gif", gradient_gif(), true, &None);
    let img = Image { x: 0, y: 0, source: "a.gif".to_string(), frame_slowdown: Some(2), motion_config: None };
    let mut d = ImageDrawer::try_from_component(img, &m).unwrap();
    let first = d.current_frame().0.to_vec();
    d.advance_frame();
    assert_eq!(d.current_frame().0.to_vec(), first);
    d.advance_frame();
    let second = d.current_frame().0.to_vec();
    assert_ne!(second, first);
    d.advance_frame();
    d.advance_frame();
    // Two GIF frames of two LED frames each: back to the first.
    assert_eq!(d.current_frame().0.to_vec(), first);
}
