use ffimage::color::{Bgr, Bgra, Gray, Rgb, Rgba};
use ffimage::error::Error;
use ffimage::traits::{FromPixel, Pixel};

type Rgb8 = Rgb<u8, 0, 1, 2>;
type Rgba8 = Rgba<u8, 0, 1, 2, 3>;

fn luma(r: u8, g: u8, b: u8) -> u8 {
    (0.2126 * r as f32 + 0.7152 * g as f32 + 0.0722 * b as f32).round() as u8
}

#[test]
fn gray_channels() {
    assert_eq!(Gray::<u8>::channels(), 1);
}

#[test]
fn gray_index_mut() {
    let pix: Gray<u8> = Gray { 0: [1] };

    assert_eq!(pix[0], 1);
}

#[test]
fn rgb_channels() {
    assert_eq!(Rgb::<u8, 0, 1, 2>::channels(), 3);
    assert_eq!(Rgba::<u8, 0, 1, 2, 3>::channels(), 4);
}

#[test]
fn rgb_index_mut() {
    let pix: Rgb8 = Rgb { 0: [1, 2, 3] };

    assert_eq!(pix.0[0], 1);
    assert_eq!(pix.0[1], 2);
    assert_eq!(pix.0[2], 3);
}

#[test]
fn index_mut() {
    let pix: Rgb8 = Rgb { 0: [1, 2, 3] };

    assert_eq!(pix[0], 1);
    assert_eq!(pix[1], 2);
    assert_eq!(pix[2], 3);
}

#[test]
fn bgr_channels() {
    assert_eq!(Bgr::<u8>::channels(), 3);
    assert_eq!(Bgra::<u8>::channels(), 4);
}

#[test]
fn channels() {
    assert_eq!(Bgr::<u8>::channels(), 3);
    assert_eq!(Bgra::<u8>::channels(), 4);
    assert_eq!(Gray::<u8>::channels(), 1);
    assert_eq!(Rgb8::channels(), 3);
    assert_eq!(Rgba8::channels(), 4);
}

#[test]
fn subpixels_of_plain_pixels() {
    assert_eq!(Gray::<u16>::subpixels(), 1);
    assert_eq!(Rgb8::subpixels(), 1);
    assert_eq!(Bgra::<u8>::subpixels(), 1);
}

#[test]
fn bgr_index_mut() {
    let pix: Bgr<u8> = Rgb { 0: [1, 2, 3] };

    assert_eq!(pix[0], 1);
    assert_eq!(pix[1], 2);
    assert_eq!(pix[2], 3);
}

#[test]
fn bgr_at() {
    let pix: Bgr<u8> = Rgb { 0: [255; 3] };

    assert_eq!(pix.at(0), 255);
    assert_eq!(pix.at(0), 255);
    assert_eq!(pix.at(0), 255);
}

#[test]
fn bgr_try_from() {
    let mem = vec![255; 3];
    let pix: Bgr<u8> = Pixel::try_from(&mem).unwrap();

    assert_eq!(pix.at(0), 255);
    assert_eq!(pix.at(0), 255);
    assert_eq!(pix.at(0), 255);
}

#[test]
fn gray_at() {
    let pix: Gray<u8> = Gray { 0: [255; 1] };

    assert_eq!(pix.at(0), 255);
}

#[test]
fn at() {
    let pix: Rgba8 = Rgba([1, 2, 3, 4]);

    assert_eq!(pix.at(0), 1);
    assert_eq!(pix.at(1), 2);
    assert_eq!(pix.at(2), 3);
    assert_eq!(pix.at(3), 4);
}

#[test]
fn gray_try_from() {
    let mem = vec![255; 1];
    let pix: Gray<u8> = Pixel::try_from(&mem).unwrap();

    assert_eq!(pix.at(0), 255);
}

#[test]
fn try_from() {
    let mem = vec![1u16, 2, 3];
    let pix: Rgb<u16, 0, 1, 2> = Pixel::try_from(&mem).unwrap();
    assert_eq!(pix, Rgb([1, 2, 3]));

    let short: Result<Rgb<u16, 0, 1, 2>, Error> = Pixel::try_from(&mem[..2]);
    assert_eq!(short, Err(Error::OutOfBounds));
    let long: Result<Gray<u16>, Error> = Pixel::try_from(&mem);
    assert_eq!(long, Err(Error::OutOfBounds));
    let four: Result<Rgba<u16, 0, 1, 2, 3>, Error> = Pixel::try_from(&mem);
    assert_eq!(four, Err(Error::OutOfBounds));
}

#[test]
fn gray_from_rgb() {
    let src = Rgb::<u8, 0, 1, 2>([111u8; 3]);
    let dst = Gray::<u8>::from(src);

    let y = luma(src[0], src[1], src[2]);
    assert_eq!(dst[0], y);
    assert_eq!(dst[0], 111);
}

#[test]
fn from_rgb() {
    let src_mem = vec![111; 3];
    let src: Rgb8 = Pixel::try_from(&src_mem).unwrap();
    let dst = Gray::<u8>::from(src);

    let y = luma(src[0], src[1], src[2]);
    assert_eq!(dst[0], y);
}

#[test]
fn gray_from_bgr() {
    let src_mem = vec![111; 3];
    let src: Bgr<u8> = Pixel::try_from(&src_mem).unwrap();
    let dst = Gray::<u8>::from(src);

    let y = luma(src[0], src[1], src[2]);
    assert_eq!(dst[0], y);
}

#[test]
fn from_bgr() {
    // blue comes first in storage, and weighs least
    let src: Bgr<u8> = Rgb([200, 100, 50]);
    let dst = Gray::<u8>::from(src);
    assert_eq!(dst[0], luma(50, 100, 200));
    assert_eq!(dst[0], 97);

    let same = Gray::<u8>::from(Rgb::<u8, 0, 1, 2>([50, 100, 200]));
    assert_eq!(same, dst);
}

#[test]
fn rgb_from_gray() {
    let src = Gray([111u8]);
    let dst: Rgb8 = Rgb::from(src);

    assert_eq!(dst[0], src[0]);
    assert_eq!(dst[1], src[0]);
    assert_eq!(dst[2], src[0]);
}

#[test]
fn rgb_from_bgr() {
    let src = Rgb::<u8, 2, 1, 0>([111u8; 3]);
    let dst = Rgb::<u8, 0, 1, 2>::from(src);

    assert_eq!(dst[0], src[2]);
    assert_eq!(dst[1], src[1]);
    assert_eq!(dst[2], src[0]);
}

#[test]
fn bgr_from_gray() {
    let src_mem = [111u8; 1];
    let src = Gray::<u8>::from(src_mem);
    let dst = Bgr::<u8>::from(src);

    assert_eq!(dst[0], src[0]);
    assert_eq!(dst[1], src[0]);
    assert_eq!(dst[2], src[0]);
}

#[test]
fn from_gray() {
    let src = Gray([7u16]);
    let dst = Rgba::<u16, 0, 1, 2, 3>::from(src);
    assert_eq!(dst, Rgba([7, 7, 7, 65535]));

    let dst = Bgra::<u8>::from(Gray([7u8]));
    assert_eq!(dst, Rgba([7, 7, 7, 255]));

    // alpha goes where the format has it
    let dst = Rgba::<u8, 1, 2, 3, 0>::from_pixel(Gray([7u8]));
    assert_eq!(dst, Rgba([255, 7, 7, 7]));
}

#[test]
fn bgr_from_rgb() {
    let src_mem = [111u8; 3];
    let src = Rgb::<u8, 0, 1, 2>::from(src_mem);
    let dst = Bgr::<u8>::from(src);

    assert_eq!(dst[0], src[2]);
    assert_eq!(dst[1], src[1]);
    assert_eq!(dst[2], src[0]);
}

#[test]
fn convert_convert_rgb_to_gray() {
    let rgb = vec![Rgb::<u8, 0, 1, 2>([10, 10, 10]); 10];
    let gray: Vec<Gray<u8>> = rgb
        .iter()
        .copied()
        .map(|rgb| Gray::<u8>::from(rgb))
        .collect();

    rgb.into_iter()
        .zip(gray.into_iter())
        .for_each(|(rgb, gray)| {
            // rec601 luma
            let y =
                (0.2126 * rgb[0] as f32 + 0.7152 * rgb[1] as f32 + 0.0722 * rgb[2] as f32) as u8;
            assert_eq!(gray, Gray([y]));
        });
}

#[test]
fn convert_convert_gray_to_rgb() {
    let gray = vec![Gray::<u8>([10]); 10];
    let rgb: Vec<Rgb8> = gray
        .iter()
        .copied()
        .map(|gray| Rgb::<u8, 0, 1, 2>::from(gray))
        .collect();

    gray.into_iter()
        .zip(rgb.into_iter())
        .for_each(|(gray, rgb)| {
            assert_eq!(rgb, Rgb([gray[0], gray[0], gray[0]]));
        });
}

#[test]
fn convert_convert_rgb_to_bgra() {
    let rgb = vec![Rgb::<u8, 0, 1, 2>([10, 10, 10]); 10];
    let bgra: Vec<Bgra<u8>> = rgb
        .iter()
        .copied()
        .map(|rgb| Bgra::<u8>::from(rgb))
        .collect();

    rgb.into_iter()
        .zip(bgra.into_iter())
        .for_each(|(rgb, bgra)| {
            assert_eq!(bgra, Rgba::<u8, 2, 1, 0, 3>([rgb[2], rgb[1], rgb[0], 255]));
        });
}

#[test]
fn luma_is_rounded_to_the_nearest() {
    // 0.2126 * 255 = 54.213
    assert_eq!(Gray::<u8>::from(Rgb::<u8, 0, 1, 2>([255, 0, 0])), Gray([54]));
    // 0.7152 * 255 = 182.376
    assert_eq!(Gray::<u8>::from(Rgb::<u8, 0, 1, 2>([0, 255, 0])), Gray([182]));
    // 0.0722 * 255 = 18.411
    assert_eq!(Gray::<u8>::from(Rgb::<u8, 0, 1, 2>([0, 0, 255])), Gray([18]));
    // 0.2126 * 2 + 0.7152 * 1 = 1.1404, 0.7152 * 2 + 0.0722 = 1.5026
    assert_eq!(Gray::<u8>::from(Rgb::<u8, 0, 1, 2>([2, 1, 0])), Gray([1]));
    assert_eq!(Gray::<u8>::from(Rgb::<u8, 0, 1, 2>([0, 2, 1])), Gray([2]));
    // sixteen bits: 0.2126 * 65535 = 13932.741
    assert_eq!(Gray::<u16>::from(Rgb::<u16, 0, 1, 2>([65535, 0, 0])), Gray([13933]));
    assert_eq!(Gray::<u16>::from(Rgb::<u16, 0, 1, 2>([65535; 3])), Gray([65535]));
    // alpha does not count
    assert_eq!(Gray::<u8>::from(Rgba8::new([255, 0, 0, 9])), Gray([54]));
    assert_eq!(Gray::<u8>::from(Bgra::<u8>::new([255, 0, 0, 9])), Gray([18]));
}

#[test]
fn gray_of_equal_channels_is_the_channel() {
    for c in 0..=255u8 {
        assert_eq!(Gray::<u8>::from(Rgb::<u8, 0, 1, 2>([c, c, c])), Gray([c]));
    }
}

#[test]
fn permutation_round_trip_is_exact() {
    for (b, g, r) in [(0u8, 0u8, 0u8), (1, 2, 3), (255, 0, 128), (17, 200, 99)] {
        let start: Bgr<u8> = Rgb([b, g, r]);
        let there = Rgb::<u8, 0, 1, 2>::from(start);
        assert_eq!(there, Rgb([r, g, b]));
        assert_eq!(Bgr::<u8>::from(there), start);
    }
    let start: Bgra<u16> = Rgba([1, 2, 3, 4]);
    let there = Rgba::<u16, 0, 1, 2, 3>::from(start);
    assert_eq!(there, Rgba([3, 2, 1, 4]));
    assert_eq!(Bgra::<u16>::from(there), start);
    // any two orders
    let odd = Rgb::<u8, 1, 2, 0>::from_pixel(Rgb::<u8, 0, 1, 2>([10, 20, 30]));
    assert_eq!(odd, Rgb([30, 10, 20]));
    assert_eq!(Rgb::<u8, 0, 1, 2>::from_pixel(odd), Rgb([10, 20, 30]));
}

#[test]
fn alpha_is_full_where_it_is_made_up() {
    assert_eq!(Rgba8::from(Rgb::<u8, 0, 1, 2>([1, 2, 3])), Rgba([1, 2, 3, 255]));
    assert_eq!(Bgra::<u8>::from(Rgb::<u8, 0, 1, 2>([1, 2, 3])), Rgba([3, 2, 1, 255]));
    assert_eq!(Rgba8::from(Rgb::<u8, 2, 1, 0>([1, 2, 3])), Rgba([3, 2, 1, 255]));
    assert_eq!(Bgra::<u8>::from(Rgb::<u8, 2, 1, 0>([1, 2, 3])), Rgba([1, 2, 3, 255]));
    assert_eq!(
        Rgba::<u16, 0, 1, 2, 3>::from(Rgb::<u16, 0, 1, 2>([1, 2, 3])),
        Rgba([1, 2, 3, 65535])
    );
}

#[test]
fn alpha_is_dropped_where_it_has_no_place() {
    assert_eq!(Rgb8::from(Rgba8::new([1, 2, 3, 4])), Rgb([1, 2, 3]));
    assert_eq!(Bgr::<u8>::from(Rgba8::new([1, 2, 3, 4])), Rgb([3, 2, 1]));
    assert_eq!(Rgb8::from(Bgra::<u8>::new([1, 2, 3, 4])), Rgb([3, 2, 1]));
    assert_eq!(Bgr::<u8>::from(Bgra::<u8>::new([1, 2, 3, 4])), Rgb([1, 2, 3]));
}

#[test]
fn new_pixels_hold_their_channels() {
    assert_eq!(Gray::<u8>::new([9]).0, [9]);
    assert_eq!(Rgb8::new([1, 2, 3]).0, [1, 2, 3]);
    assert_eq!(Rgba8::new([1, 2, 3, 4]).0, [1, 2, 3, 4]);
    assert_eq!(Rgb8::from_rgb(1, 2, 3), Rgb([1, 2, 3]));
    assert_eq!(Bgr::<u8>::from_rgb(1, 2, 3), Rgb([3, 2, 1]));
    assert_eq!(Bgra::<u8>::from_rgba(1, 2, 3, 4), Rgba([3, 2, 1, 4]));
    let pix: Bgra<u8> = Rgba([3, 2, 1, 4]);
    assert_eq!((pix.red(), pix.green(), pix.blue(), pix.alpha()), (1, 2, 3, 4));
    let pix: Bgr<u8> = Rgb([3, 2, 1]);
    assert_eq!((pix.red(), pix.green(), pix.blue()), (1, 2, 3));
}
