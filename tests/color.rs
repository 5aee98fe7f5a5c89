use tiered_data::color::{average_rgb, color_from_decoded, color_of_image_bytes, get_dominant_color, get_image_color, ColorError, ImageFetch, Pixels};

fn uniform(width: u32, height: u32, px: [u8; 4]) -> Pixels {
    let mut data = Vec::new();
    for _ in 0..(width * height) {
        data.extend_from_slice(&px);
    }
    Pixels::new(width, height, data).unwrap()
}

fn png(width: u32, height: u32, px: [u8; 4]) -> Vec<u8> {
    let img = image::RgbaImage::from_pixel(width, height, image::Rgba(px));
    let mut out = std::io::Cursor::new(Vec::new());
    img.write_to(&mut out, image::ImageFormat::Png).unwrap();
    out.into_inner()
}

#[test]
fn uniform_red_is_red() {
    assert_eq!(get_dominant_color(&uniform(10, 10, [255, 0, 0, 7])), vec![255, 0, 0]);
}

#[test]
fn empty_image_is_black() {
    assert_eq!(get_dominant_color(&uniform(0, 0, [1, 2, 3, 4])), vec![0, 0, 0]);
    assert_eq!(average_rgb(&Pixels::new(0, 5, vec![]).unwrap()), vec![0, 0, 0]);
}

#[test]
fn mean_rounds_down() {
    let img = Pixels::new(2, 1, vec![10, 0, 255, 0, 11, 1, 0, 255]).unwrap();
    assert_eq!(average_rgb(&img), vec![10, 0, 127]);
}

#[test]
fn pixels_need_four_bytes_each() {
    assert!(Pixels::new(2, 2, vec![0; 15]).is_none());
    assert!(Pixels::new(2, 2, vec![0; 16]).is_some());
}

#[test]
fn large_image_is_shrunk_then_averaged() {
    assert_eq!(get_dominant_color(&uniform(300, 150, [0, 0, 255, 255])), vec![0, 0, 255]);
    let mut data = Vec::new();
    for _ in 0..200 {
        for x in 0..200 {
            if x < 100 {
                data.extend_from_slice(&[200, 0, 0, 255]);
            } else {
                data.extend_from_slice(&[0, 0, 100, 255]);
            }
        }
    }
    assert_eq!(get_dominant_color(&Pixels::new(200, 200, data).unwrap()), vec![100, 0, 50]);
}

#[test]
fn decoded_png_gives_its_color() {
    assert_eq!(color_of_image_bytes(&png(10, 10, [255, 0, 0, 255])), vec![255, 0, 0]);
    assert_eq!(color_of_image_bytes(&png(120, 40, [0, 255, 0, 255])), vec![0, 255, 0]);
}

#[test]
fn undecodable_bytes_give_neutral() {
    assert_eq!(color_of_image_bytes(b"not an image"), vec![128, 128, 128]);
    assert_eq!(color_from_decoded(None), vec![128, 128, 128]);
}

#[test]
fn timeout_gives_neutral_color() {
    assert_eq!(get_image_color(ImageFetch::TimedOut).unwrap(), vec![128, 128, 128]);
    assert_eq!(get_image_color(ImageFetch::BodyFailed).unwrap(), vec![128, 128, 128]);
    assert_eq!(get_image_color(ImageFetch::Body(png(4, 4, [9, 8, 7, 255]))).unwrap(), vec![9, 8, 7]);
    assert!(matches!(get_image_color(ImageFetch::SendFailed("dns".to_string())), Err(ColorError::Fetch(m)) if m == "dns"));
}

#[test]
fn shrinking_changes_the_mean() {
    let mut data = vec![0u8; 150 * 4];
    data[149 * 4] = 255;
    data[149 * 4 + 3] = 255;
    let img = Pixels::new(150, 1, data).unwrap();
    assert_eq!(average_rgb(&img), vec![1, 0, 0]);
    assert_eq!(get_dominant_color(&img), vec![2, 0, 0]);
}

#[test]
fn decoded_jpeg_gives_its_color() {
    let img = image::RgbImage::from_pixel(16, 16, image::Rgb([250, 10, 10]));
    let mut out = std::io::Cursor::new(Vec::new());
    img.write_to(&mut out, image::ImageFormat::Jpeg).unwrap();
    let c = color_of_image_bytes(&out.into_inner());
    assert!(c[0] > 230 && c[1] < 30 && c[2] < 30, "{:?}", c);
}
