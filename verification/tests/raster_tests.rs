use brighten::error::PipelineError;
use brighten::frame::Frame;
use brighten::pixel::brighten_pixels;
use brighten::raster::{build_image, render};
use image::ColorType;

#[test]
fn image_holds_the_dimensions_and_the_buffer() {
    let buf: Vec<u8> = (0..24u8).collect();
    let img = build_image(2, 3, buf.clone()).unwrap();
    assert_eq!(img.width(), 2);
    assert_eq!(img.height(), 3);
    assert_eq!(img.color(), ColorType::Rgba8);
    assert_eq!(img.as_bytes(), &buf[..]);
    let rgba = img.as_rgba8().unwrap();
    assert_eq!(rgba.get_pixel(1, 0).0, [4, 5, 6, 7]);
    assert_eq!(rgba.get_pixel(0, 1).0, [8, 9, 10, 11]);
}

#[test]
fn image_needs_exactly_four_bytes_per_pixel() {
    assert!(build_image(2, 3, vec![0; 24]).is_ok());
    assert_eq!(build_image(2, 3, vec![0; 23]).unwrap_err(), PipelineError::BufferSizeMismatch);
    assert_eq!(build_image(2, 3, vec![0; 25]).unwrap_err(), PipelineError::BufferSizeMismatch);
    assert_eq!(build_image(2, 3, vec![]).unwrap_err(), PipelineError::BufferSizeMismatch);
    assert_eq!(build_image(3, 2, vec![0; 6]).unwrap_err(), PipelineError::BufferSizeMismatch);
}

#[test]
fn image_of_no_pixels_is_built_from_an_empty_buffer() {
    let img = build_image(0, 0, vec![]).unwrap();
    assert_eq!((img.width(), img.height()), (0, 0));
    assert!(build_image(0, 7, vec![]).is_ok());
    assert!(build_image(7, 0, vec![]).is_ok());
    assert_eq!(build_image(0, 0, vec![1]).unwrap_err(), PipelineError::BufferSizeMismatch);
}

#[test]
fn image_dimensions_beyond_memory_are_a_mismatch() {
    assert_eq!(
        build_image(u32::MAX, u32::MAX, vec![0; 4]).unwrap_err(),
        PipelineError::BufferSizeMismatch
    );
    assert_eq!(
        build_image(1 << 31, 1 << 31, vec![]).unwrap_err(),
        PipelineError::BufferSizeMismatch
    );
    assert_eq!(build_image(1 << 16, 1 << 16, vec![]).unwrap_err(), PipelineError::BufferSizeMismatch);
}

#[test]
fn image_row_must_fit_the_machine_word() {
    let fits = |width: u32| 4 * (width as u64) <= usize::MAX as u64;
    assert_eq!(build_image(1 << 30, 0, vec![]).is_ok(), fits(1 << 30));
    assert_eq!(build_image(u32::MAX, 0, vec![]).is_ok(), fits(u32::MAX));
    assert!(build_image((1 << 30) - 1, 0, vec![]).is_ok());
    if !fits(1 << 30) {
        assert_eq!(
            build_image(1 << 30, 0, vec![]).unwrap_err(),
            PipelineError::BufferSizeMismatch
        );
    }
    let wide = build_image(1 << 30, 0, vec![]);
    if let Ok(img) = wide {
        assert_eq!((img.width(), img.height()), (1 << 30, 0));
        assert_eq!(img.as_bytes().len(), 0);
    }
}

#[test]
fn rendering_a_wide_empty_frame_goes_by_the_machine_word() {
    let fits = 4 * (1u64 << 30) <= usize::MAX as u64;
    let frame = Frame::new(1 << 30, 0, vec![]);
    assert!(frame.has_matching_size());
    assert_eq!(render(&frame).is_ok(), fits);
}

#[test]
fn rendered_frame_is_the_brightened_rgba_image() {
    let pixels = vec![0x00000000, 0x00ff8040, 0xff102030, 0x00fafafa, 0x00010203, 0x80f5f5f5];
    let frame = Frame::new(3, 2, pixels.clone());
    let img = render(&frame).unwrap();
    assert_eq!((img.width(), img.height()), (3, 2));
    assert_eq!(img.as_bytes(), &brighten_pixels(&pixels)[..]);
    let rgba = img.as_rgba8().unwrap();
    assert_eq!(rgba.get_pixel(0, 0).0, [10, 10, 10, 255]);
    assert_eq!(rgba.get_pixel(1, 0).0, [74, 138, 255, 255]);
    assert_eq!(rgba.get_pixel(2, 0).0, [58, 42, 26, 255]);
    assert_eq!(rgba.get_pixel(0, 1).0, [255, 255, 255, 255]);
    assert_eq!(rgba.get_pixel(1, 1).0, [13, 12, 11, 255]);
    assert_eq!(rgba.get_pixel(2, 1).0, [255, 255, 255, 255]);
}

#[test]
fn rendering_rejects_a_frame_whose_storage_is_off() {
    assert_eq!(render(&Frame::new(3, 2, vec![0; 5])).unwrap_err(), PipelineError::BufferSizeMismatch);
    assert_eq!(render(&Frame::new(3, 2, vec![0; 7])).unwrap_err(), PipelineError::BufferSizeMismatch);
    assert_eq!(render(&Frame::new(3, 2, vec![])).unwrap_err(), PipelineError::BufferSizeMismatch);
    assert_eq!(render(&Frame::new(0, 0, vec![0])).unwrap_err(), PipelineError::BufferSizeMismatch);
}

#[test]
fn rendering_an_empty_frame_gives_an_empty_image() {
    let img = render(&Frame::new(0, 0, vec![])).unwrap();
    assert_eq!(img.as_bytes().len(), 0);
}

#[test]
fn rendered_image_encodes_as_png() {
    let frame = Frame::new(2, 2, vec![0x000000ff, 0x0000ff00, 0x00ff0000, 0x00ffffff]);
    let img = render(&frame).unwrap();
    let mut encoded = std::io::Cursor::new(Vec::new());
    img.write_to(&mut encoded, image::ImageFormat::Png).unwrap();
    let decoded = image::load_from_memory(encoded.get_ref()).unwrap();
    assert_eq!(decoded.as_bytes(), img.as_bytes());
    assert_eq!((decoded.width(), decoded.height()), (2, 2));
}
