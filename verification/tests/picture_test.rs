use std::io::Cursor;
use togen::failure::DecodeFailure;
use togen::hashes::exact_hash_of;
use togen::hashes::rolling_hash_of;
use togen::hashes::HashSource;
use togen::picture::average_hash;
use togen::picture::mean_luminance;
use togen::picture::GRID_HEIGHT;
use togen::picture::GRID_SAMPLES;
use togen::picture::GRID_WIDTH;
use togen::ToGen;

fn gray_png(width: u32, height: u32, pixels: Vec<u8>) -> Vec<u8> {
    let gray = image::GrayImage::from_raw(width, height, pixels).unwrap();
    let mut bytes: Vec<u8> = Vec::new();
    image::DynamicImage::ImageLuma8(gray)
        .write_to(&mut Cursor::new(&mut bytes), image::ImageFormat::Png)
        .unwrap();
    bytes
}

fn rgb_png(width: u32, height: u32, pixels: Vec<u8>) -> Vec<u8> {
    let rgb = image::RgbImage::from_raw(width, height, pixels).unwrap();
    let mut bytes: Vec<u8> = Vec::new();
    image::DynamicImage::ImageRgb8(rgb)
        .write_to(&mut Cursor::new(&mut bytes), image::ImageFormat::Png)
        .unwrap();
    bytes
}

#[test]
fn grid_is_eight_by_four() {
    assert_eq!(GRID_WIDTH, 8);
    assert_eq!(GRID_HEIGHT, 4);
    assert_eq!(GRID_SAMPLES, 32);
}

#[test]
fn mean_luminance_rounds_down() {
    assert_eq!(mean_luminance(&[7]), 7);
    assert_eq!(mean_luminance(&[0, 255]), 127);
    assert_eq!(mean_luminance(&[10, 20, 30]), 20);
    assert_eq!(mean_luminance(&[1, 2]), 1);
    assert_eq!(mean_luminance(&[0, 0, 1]), 0);
    assert_eq!(mean_luminance(&[255; 100]), 255);
    assert_eq!(mean_luminance(&[0; 100]), 0);
}

#[test]
fn mean_luminance_of_many_bright_pixels() {
    let pixels = vec![255u8; 20_000_000];
    assert_eq!(mean_luminance(&pixels), 255);
}

#[test]
fn average_hash_sets_bit_31_minus_i() {
    assert_eq!(average_hash(&[0, 255, 0, 255]), 0x5000_0000);
    assert_eq!(average_hash(&[255, 0]), 0x8000_0000);
    assert_eq!(average_hash(&[0, 255]), 0x4000_0000);
}

#[test]
fn average_hash_of_32_samples() {
    let mut samples = [0u8; 32];
    for sample in samples.iter_mut().take(16) {
        *sample = 200;
    }
    assert_eq!(average_hash(&samples), 0xFFFF_0000);
    let mut last = [0u8; 32];
    last[31] = 32;
    assert_eq!(average_hash(&last), 0x0000_0001);
    let alternating: Vec<u8> = (0..32).map(|i| if i % 2 == 0 { 255 } else { 0 }).collect();
    assert_eq!(average_hash(&alternating), 0xAAAA_AAAA);
}

#[test]
fn average_hash_needs_a_sample_above_the_mean() {
    assert_eq!(average_hash(&[9]), 0);
    assert_eq!(average_hash(&[100; 32]), 0);
    assert_eq!(average_hash(&[10, 10, 11]), 0x2000_0000);
    assert_eq!(average_hash(&[10, 11, 12]), 0x2000_0000);
}

#[test]
fn average_hash_reads_32_samples_but_averages_all() {
    let mut samples = vec![0u8; 40];
    for sample in samples.iter_mut().skip(32) {
        *sample = 255;
    }
    assert_eq!(average_hash(&samples), 0);
    let mut first = vec![0u8; 40];
    first[0] = 255;
    assert_eq!(average_hash(&first), 0x8000_0000);
    let mut spread = vec![100u8; 64];
    for sample in spread.iter_mut().skip(32) {
        *sample = 0;
    }
    assert_eq!(average_hash(&spread), 0xFFFF_FFFF);
}

#[test]
fn calculate_image_hash_pairs_mean_and_hash() {
    let luma = [10u8, 20, 30, 40];
    let small = [0u8, 255, 0, 255];
    assert_eq!(ToGen::calculate_image_hash(&luma, &small), (25, 0x5000_0000));
}

#[test]
fn from_image_samples_fills_the_five_fields() {
    let t = ToGen::from_image_samples(b"foto.png", &[10, 20, 30, 40], &[0, 255, 0, 255]);
    assert_eq!(t.get_header(), 0x03);
    assert_eq!(t.get_meta(), 25);
    assert_eq!(t.get_semantico() as u128, ToGen::calculate_simhash("foto.png"));
    assert_eq!(t.get_estructural(), 0x5000_0000);
    assert_eq!(t.get_exacto() as u128, ToGen::calculate_xxh3("foto.png"));
}

#[test]
fn image_of_grid_size_is_hashed_pixel_by_pixel() {
    let mut pixels = vec![0u8; 32];
    pixels[0] = 255;
    pixels[9] = 200;
    pixels[31] = 100;
    let data = gray_png(8, 4, pixels);
    let t = ToGen::new_image("dir/foto.png", &data).unwrap();
    assert_eq!(t.get_header(), 0x03);
    assert_eq!(t.get_meta(), (555 / 32) as u8);
    assert_eq!(t.get_estructural(), (1u32 << 31) | (1 << 22) | 1);
    assert_eq!(t.get_semantico() as u128, ToGen::calculate_simhash("dir/foto.png"));
    assert_eq!(t.get_exacto() as u128, ToGen::calculate_xxh3("dir/foto.png"));
}

#[test]
fn larger_image_is_sampled_down_before_hashing() {
    let mut pixels = vec![0u8; 16 * 8];
    let mut expected: u32 = 0;
    for y in 0..4u32 {
        for x in 0..8u32 {
            if (x + y) % 3 == 0 {
                for dy in 0..2u32 {
                    for dx in 0..2u32 {
                        pixels[((2 * y + dy) * 16 + 2 * x + dx) as usize] = 240;
                    }
                }
                expected |= 1 << (31 - (y * 8 + x));
            }
        }
    }
    let bright = pixels.iter().filter(|p| **p == 240).count() as u32;
    let data = gray_png(16, 8, pixels.clone());
    let t = ToGen::new_image("big.png", &data).unwrap();
    assert_eq!(t.get_meta(), (bright * 240 / 128) as u8);
    assert_eq!(t.get_estructural(), expected);

    let whole = image::DynamicImage::ImageLuma8(image::GrayImage::from_raw(16, 8, pixels).unwrap());
    let small = whole.resize_exact(8, 4, image::imageops::FilterType::Nearest).to_luma8().into_raw();
    assert_eq!(small.len(), 32);
    assert_eq!(t.get_estructural(), average_hash(&small));
    assert_ne!(t.get_estructural(), average_hash(&whole.to_luma8().into_raw()));
}

#[test]
fn square_image_is_stretched_to_the_grid() {
    let mut pixels = vec![0u8; 16];
    pixels[0] = 255;
    pixels[5] = 255;
    pixels[10] = 255;
    pixels[15] = 255;
    let data = gray_png(4, 4, pixels.clone());
    let t = ToGen::new_image("square.png", &data).unwrap();
    let whole = image::DynamicImage::ImageLuma8(image::GrayImage::from_raw(4, 4, pixels).unwrap());
    let small = whole.resize_exact(8, 4, image::imageops::FilterType::Nearest).to_luma8().into_raw();
    assert_eq!(small.len(), 32);
    assert_eq!(t.get_estructural(), average_hash(&small));
    assert_eq!(t.get_estructural(), 0xC030_0C03);
    assert_eq!(t.get_meta(), 63);
}

#[test]
fn tall_image_is_sampled_to_the_grid() {
    let mut pixels = vec![0u8; 2 * 8];
    for (i, pixel) in pixels.iter_mut().enumerate() {
        if i % 2 == 0 {
            *pixel = 200;
        }
    }
    let data = gray_png(2, 8, pixels);
    let t = ToGen::new_image("tall.png", &data).unwrap();
    assert_eq!(t.get_meta(), 100);
    assert_eq!(t.get_estructural(), 0xF0F0_F0F0);
}

#[test]
fn single_pixel_image() {
    let data = gray_png(1, 1, vec![77]);
    let t = ToGen::new_image("dot.png", &data).unwrap();
    assert_eq!(t.get_meta(), 77);
    assert_eq!(t.get_estructural(), 0);
}

#[test]
fn colour_image_is_read_as_luminance() {
    let mut pixels: Vec<u8> = Vec::new();
    for i in 0..32 {
        if i < 16 {
            pixels.extend_from_slice(&[255, 255, 255]);
        } else {
            pixels.extend_from_slice(&[0, 0, 0]);
        }
    }
    let data = rgb_png(8, 4, pixels);
    let t = ToGen::new_image("color.png", &data).unwrap();
    assert_eq!(t.get_meta(), 127);
    assert_eq!(t.get_estructural(), 0xFFFF_0000);
}

#[test]
fn colour_image_agrees_with_the_luminance_of_the_decoder() {
    let mut pixels: Vec<u8> = Vec::new();
    for i in 0..(8 * 4) {
        pixels.extend_from_slice(&[(i * 8) as u8, (255 - i * 5) as u8, ((i * 37) % 256) as u8]);
    }
    let data = rgb_png(8, 4, pixels.clone());
    let t = ToGen::new_image("color.png", &data).unwrap();
    let luma = image::DynamicImage::ImageRgb8(image::RgbImage::from_raw(8, 4, pixels).unwrap())
        .to_luma8()
        .into_raw();
    assert_eq!(t.get_meta(), mean_luminance(&luma));
    assert_eq!(t.get_estructural(), average_hash(&luma));
}

#[test]
fn jpeg_is_decoded_by_its_extension() {
    let gray = image::GrayImage::from_raw(16, 8, vec![128u8; 128]).unwrap();
    let mut data: Vec<u8> = Vec::new();
    image::DynamicImage::ImageLuma8(gray)
        .write_to(&mut Cursor::new(&mut data), image::ImageFormat::Jpeg)
        .unwrap();
    for path in ["foto.jpg", "foto.jpeg", "FOTO.JPG"] {
        let t = ToGen::new_image(path, &data).unwrap();
        assert_eq!(t.get_header(), 0x03);
        assert!(t.get_meta() >= 126 && t.get_meta() <= 130);
        assert_eq!(t.get_semantico() as u128, ToGen::calculate_simhash(path));
    }
}

#[test]
fn image_hashes_the_path_not_the_pixels() {
    let dark = gray_png(8, 4, vec![10u8; 32]);
    let light = gray_png(8, 4, vec![200u8; 32]);
    let a = ToGen::new_image("a.png", &dark).unwrap();
    let b = ToGen::new_image("a.png", &light).unwrap();
    let c = ToGen::new_image("c.png", &dark).unwrap();
    assert_eq!(a.get_semantico(), b.get_semantico());
    assert_eq!(a.get_exacto(), b.get_exacto());
    assert_eq!(a.get_meta(), 10);
    assert_eq!(b.get_meta(), 200);
    assert_ne!(a.get_semantico(), c.get_semantico());
    assert_eq!(a.get_meta(), c.get_meta());
    assert_eq!(a.get_estructural(), c.get_estructural());
}

#[test]
fn image_can_hash_its_bytes_instead() {
    let dark = gray_png(8, 4, vec![10u8; 32]);
    let light = gray_png(8, 4, vec![200u8; 32]);
    let a = ToGen::new_image_hashing("a.png", &dark, HashSource::Content).unwrap();
    let b = ToGen::new_image_hashing("a.png", &light, HashSource::Content).unwrap();
    let c = ToGen::new_image_hashing("c.png", &dark, HashSource::Content).unwrap();
    assert_eq!(a, c);
    assert_ne!(a.get_semantico(), b.get_semantico());
    assert_ne!(a.get_exacto(), b.get_exacto());
    assert_eq!(a.get_header(), 0x03);
    assert_eq!(a.get_meta(), 10);
    assert_eq!(a.get_semantico(), rolling_hash_of(&dark, 31));
    assert_eq!(a.get_exacto(), exact_hash_of(&dark));
    assert_eq!(
        ToGen::new_image_hashing("a.png", &dark, HashSource::Path),
        ToGen::new_image("a.png", &dark)
    );
    assert_eq!(
        ToGen::new_image_hashing("a.png", b"broken", HashSource::Content),
        Err(DecodeFailure::Image)
    );
}

#[test]
fn same_image_gives_the_same_fingerprint() {
    let data = gray_png(8, 4, (0..32).map(|i| (i * 7) as u8).collect());
    assert_eq!(ToGen::new_image("foto.png", &data), ToGen::new_image("foto.png", &data));
    assert_eq!(ToGen::new_image("foto.png", b"x"), ToGen::new_image("foto.png", b"x"));
}

#[test]
fn bytes_that_are_no_image_fail() {
    assert_eq!(ToGen::new_image("foto.png", b"this is no image"), Err(DecodeFailure::Image));
    assert_eq!(ToGen::new_image("foto.png", &[]), Err(DecodeFailure::Image));
    assert_eq!(ToGen::new_image("foto.jpg", &[0xFF, 0xD8, 0xFF]), Err(DecodeFailure::Image));
}

#[test]
fn truncated_image_fails() {
    let data = gray_png(8, 4, vec![9u8; 32]);
    assert_eq!(ToGen::new_image("foto.png", &data[..data.len() / 2]), Err(DecodeFailure::Image));
}

#[test]
fn image_under_another_format_name_fails() {
    let data = gray_png(8, 4, vec![9u8; 32]);
    assert!(ToGen::new_image("foto.png", &data).is_ok());
    assert_eq!(ToGen::new_image("foto.jpg", &data), Err(DecodeFailure::Image));
    assert_eq!(ToGen::new_image("foto.gif", &data), Err(DecodeFailure::Image));
    assert_eq!(ToGen::new_image("foto.txt", &data), Err(DecodeFailure::Image));
    assert_eq!(ToGen::new_image("foto", &data), Err(DecodeFailure::Image));
    assert_eq!(ToGen::new_image("", &data), Err(DecodeFailure::Image));
}
