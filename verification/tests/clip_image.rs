use windsend::clip_image::{build_raw_pixels, clip_image_message, image_file_name, RawImage, TimeStamp};

fn instant(
    year: i32,
    month: u32,
    day: u32,
    hour: u32,
    minute: u32,
    second: u32,
) -> TimeStamp {
    TimeStamp { year, month, day, hour, minute, second }
}

#[test]
fn filename_is_the_local_time_and_a_png_suffix() {
    let name = image_file_name(&instant(2024, 1, 2, 3, 4, 5));
    assert_eq!(name, "20240102030405.png");
}

#[test]
fn filename_fields_are_zero_padded() {
    let name = image_file_name(&instant(999, 12, 31, 23, 59, 59));
    assert_eq!(name, "09991231235959.png");
    let name = image_file_name(&instant(7, 1, 1, 0, 0, 0));
    assert_eq!(name, "00070101000000.png");
}

#[test]
fn filename_of_a_year_before_zero_keeps_its_sign() {
    let name = image_file_name(&instant(-1, 1, 1, 0, 0, 0));
    assert_eq!(name, "-00010101000000.png");
}

#[test]
fn filename_of_a_far_year_keeps_every_digit() {
    let name = image_file_name(&instant(12345, 6, 7, 8, 9, 10));
    assert_eq!(name, "123450607080910.png");
}

#[test]
fn raw_pixel_stream_is_the_interleaved_buffer() {
    let img = RawImage { width: 2, height: 1, bytes: vec![1, 2, 3, 4, 5, 6, 7, 8] };
    assert_eq!(build_raw_pixels(&img), vec![1, 2, 3, 4, 5, 6, 7, 8]);
}

#[test]
fn pixel_round_trip_preserves_every_rgba_value() {
    // 3 x 2 pixels, each channel distinct, alpha varied.
    let width: usize = 3;
    let height: usize = 2;
    let mut bytes = Vec::new();
    for p in 0..(width * height) as u8 {
        bytes.push(10 + p * 4);
        bytes.push(11 + p * 4);
        bytes.push(12 + p * 4);
        bytes.push(255 - p);
    }
    let img = RawImage { width, height, bytes: bytes.clone() };
    let (name, ok, body) = clip_image_message(&img);
    assert!(ok);
    assert!(name.ends_with(".png"));
    assert!(name.len() >= "YYYYMMDDHHMMSS.png".len());
    assert!(name[..name.len() - 4].chars().all(|c| c.is_ascii_digit() || c == '-'));

    let decoded = image::load_from_memory(&body).expect("the body must decode as an image");
    let rgba = decoded.to_rgba8();
    assert_eq!(rgba.width() as usize, width);
    assert_eq!(rgba.height() as usize, height);
    for y in 0..height {
        for x in 0..width {
            let i = (y * width + x) * 4;
            let px = rgba.get_pixel(x as u32, y as u32);
            assert_eq!(px.0, [bytes[i], bytes[i + 1], bytes[i + 2], bytes[i + 3]]);
        }
    }
}

#[test]
fn encoding_an_empty_image_still_names_it() {
    let img = RawImage { width: 0, height: 0, bytes: Vec::new() };
    let (name, _ok, _body) = clip_image_message(&img);
    assert!(name.ends_with(".png"));
}
