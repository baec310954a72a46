use ffimage::color::{Bgr, Gray, Rgb, Rgba};
use ffimage::iter::{BytesExt, ColorConvertExt, PixelsExt, Stream, Values};
use ffimage::iter::{Bytes, ColorConvert, Pixels};

type Rgb8 = Rgb<u8, 0, 1, 2>;

#[test]
fn pixels() {
    let buf = [1, 2, 3, 4, 5, 6, 7, 8, 9];
    let mut pixels = Values::new(&buf).pixels();

    assert_eq!(pixels.next(), Some(Rgb::<u8, 0, 1, 2>([1, 2, 3])));
    assert_eq!(pixels.next(), Some(Rgb::<u8, 0, 1, 2>([4, 5, 6])));
    assert_eq!(pixels.next(), Some(Rgb::<u8, 0, 1, 2>([7, 8, 9])));
    assert_eq!(pixels.next(), None);
}

#[test]
fn bytes() {
    let buf = [1, 2, 3, 4, 5, 6, 7, 8, 9];
    let mut out = [0; 9];
    Values::new(&buf)
        .pixels::<Rgb8>()
        .colorconvert::<Bgr<u8>>()
        .bytes()
        .write(&mut out);
    assert_eq!(out, [3, 2, 1, 6, 5, 4, 9, 8, 7]);
}

#[test]
fn values_that_make_no_pixel_are_dropped() {
    let buf = [1u8, 2, 3, 4, 5];
    let mut pixels: Pixels<_, Rgb8> = Pixels::new(Values::new(&buf));
    assert_eq!(pixels.next(), Some(Rgb([1, 2, 3])));
    assert_eq!(pixels.next(), None);
    assert_eq!(pixels.next(), None);

    let mut none: Pixels<_, Rgb8> = Pixels::new(Values::new(&buf[..2]));
    assert_eq!(none.next(), None);
}

#[test]
fn streams_of_converted_pixels() {
    let buf = [1u8, 2, 3, 4, 5, 6];
    let mut gray: ColorConvert<_, Gray<u8>> = ColorConvert::new(Values::new(&buf).pixels::<Rgb8>());
    assert_eq!(gray.next(), Some(Gray([2])));
    assert_eq!(gray.next(), Some(Gray([5])));
    assert_eq!(gray.next(), None);

    let mut chunks = Bytes::new(Values::new(&buf).pixels::<Rgb8>());
    assert_eq!(chunks.next(), Some(vec![1, 2, 3]));
    assert_eq!(chunks.next(), Some(vec![4, 5, 6]));
    assert_eq!(chunks.next(), None);
}

#[test]
fn written_values_leave_the_rest_alone() {
    let buf = [1u8, 2, 3, 4, 5, 6];
    let mut out = [9u8; 10];
    Values::new(&buf)
        .pixels::<Rgb8>()
        .colorconvert::<Rgba<u8, 0, 1, 2, 3>>()
        .bytes()
        .write(&mut out);
    assert_eq!(out, [1, 2, 3, 255, 4, 5, 6, 255, 9, 9]);
}
