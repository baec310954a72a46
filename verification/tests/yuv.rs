use ffimage::color::{Bgr, Rgb};
use ffimage::traits::{FromPixel, Macropixel, MapPixels, Pixel};
use ffimage::yuv::{Uyvy, Yuv, Yuv422, Yuyv};
use std::ops::RangeInclusive;

type Rgb8 = Rgb<u8, 0, 1, 2>;
type Yuv8 = Yuv<u8, 0, 1, 2>;

fn make_range(val: u8, delta: u8) -> RangeInclusive<u8> {
    let lower = if val <= delta { 0 } else { val - delta };
    let upper = if val >= 255 - delta { 255 } else { val + delta };

    lower..=upper
}

#[test]
fn yuv_channels() {
    assert_eq!(Yuv::<u8, 0, 1, 2>::channels(), 3);
    assert_eq!(Yuv::<u8, 0, 1, 2>::subpixels(), 1);
}

#[test]
fn yuv422_channels() {
    assert_eq!(Yuv422::<u8, 0, 2, 1, 3>::channels(), 4);
    assert_eq!(Yuv422::<u8, 0, 2, 1, 3>::subpixels(), 2);
}

#[test]
fn yuyv_channels() {
    assert_eq!(Yuyv::<u8>::channels(), 4);
    assert_eq!(Uyvy::<u8>::channels(), 4);
}

#[test]
fn convert_convert_yuy_to_yuyv() {
    let yuv = vec![Yuv::<u8, 0, 1, 2>([10, 10, 10]); 10];
    let yuyv: Vec<Yuyv<u8>> = yuv
        .iter()
        .copied()
        .zip(yuv.iter().copied().skip(1))
        .map(|(yuv1, yuv2)| Yuyv::<u8>::from([yuv1, yuv2]))
        .collect();

    (yuv.iter().copied().zip(yuv.iter().copied().skip(1)))
        .zip(yuyv.into_iter())
        .for_each(|((yuv1, yuv2), yuyv)| {
            // one macropixel is two image pixels
            assert_eq!(yuyv[0], yuv1[0]);
            assert_eq!(yuyv[1], yuv1[1]);
            assert_eq!(yuyv[2], yuv2[1]);
            assert_eq!(yuyv[3], yuv1[2]);
        });
}

#[test]
fn convert_convert_yuyv_to_yuv() {
    let yuyv = vec![Yuv422::<u8, 0, 2, 1, 3>([10, 10, 10, 10]); 10];
    let yuv: Vec<Yuv8> = yuyv
        .iter()
        .copied()
        .map(|yuyv| <[Yuv<u8, 0, 1, 2>; 2]>::from(yuyv))
        .flatten()
        .collect();

    yuyv.iter()
        .copied()
        .zip(yuv.iter().copied().zip(yuv.iter().copied().skip(1)))
        .for_each(|(yuyv, (yuv1, yuv2))| {
            // one macropixel is two image pixels
            assert_eq!(yuv1[0], yuyv[0]);
            assert_eq!(yuv1[1], yuyv[1]);
            assert_eq!(yuv2[0], yuyv[2]);
            assert_eq!(yuv1[2], yuyv[3]);
        });
}

#[test]
fn convert_rgb_to_yuv_to_rgb() {
    let rgb_in = vec![Rgb::<u8, 0, 1, 2>([10, 10, 10]); 10];
    let yuv: Vec<Yuv8> = rgb_in
        .iter()
        .copied()
        .map(|rgb| Yuv::<u8, 0, 1, 2>::from(rgb))
        .collect();
    let rgb_out: Vec<Rgb8> = yuv
        .iter()
        .copied()
        .map(|yuv| Rgb::<u8, 0, 1, 2>::from(yuv))
        .collect();

    rgb_in
        .into_iter()
        .zip(rgb_out.into_iter())
        .for_each(|(rgb_in, rgb_out)| {
            let r_range = make_range(rgb_in[0], 1);
            let g_range = make_range(rgb_in[1], 1);
            let b_range = make_range(rgb_in[2], 1);
            assert!(r_range.contains(&rgb_out[0]));
            assert!(g_range.contains(&rgb_out[1]));
            assert!(b_range.contains(&rgb_out[2]));
        });
}

#[test]
fn yuv_of_known_colours() {
    // black, white, and the three primaries
    assert_eq!(Yuv8::from(Rgb::<u8, 0, 1, 2>([0, 0, 0])), Yuv([16, 128, 128]));
    assert_eq!(Yuv8::from(Rgb::<u8, 0, 1, 2>([255, 255, 255])), Yuv([235, 128, 128]));
    assert_eq!(Yuv8::from(Rgb::<u8, 0, 1, 2>([255, 0, 0])), Yuv([82, 90, 240]));
    assert_eq!(Yuv8::from(Rgb::<u8, 0, 1, 2>([0, 255, 0])), Yuv([144, 54, 34]));
    assert_eq!(Yuv8::from(Rgb::<u8, 0, 1, 2>([0, 0, 255])), Yuv([41, 240, 110]));
    assert_eq!(Yuv8::from(Rgb::<u8, 0, 1, 2>([10, 10, 10])), Yuv([25, 128, 128]));
    // the same colour in another order
    assert_eq!(Yuv8::from(Bgr::<u8>::new([0, 0, 255])), Yuv([82, 90, 240]));
    // another order of the channels of the result
    assert_eq!(
        Yuv::<u8, 2, 1, 0>::from_pixel(Rgb::<u8, 0, 1, 2>([255, 0, 0])),
        Yuv([240, 90, 82])
    );
}

#[test]
fn rgb_of_known_yuv() {
    assert_eq!(Rgb8::from(Yuv::<u8, 0, 1, 2>([16, 128, 128])), Rgb([0, 0, 0]));
    assert_eq!(Rgb8::from(Yuv::<u8, 0, 1, 2>([235, 128, 128])), Rgb([255, 255, 255]));
    assert_eq!(Rgb8::from(Yuv::<u8, 0, 1, 2>([25, 128, 128])), Rgb([10, 10, 10]));
    assert_eq!(Rgb8::from(Yuv::<u8, 0, 1, 2>([82, 90, 240])), Rgb([255, 1, 0]));
    // results are cut to eight bits at both ends
    assert_eq!(Rgb8::from(Yuv::<u8, 0, 1, 2>([0, 0, 0])), Rgb([0, 135, 0]));
    assert_eq!(Rgb8::from(Yuv::<u8, 0, 1, 2>([255, 255, 255])), Rgb([255, 125, 255]));
    assert_eq!(Bgr::<u8>::from(Yuv::<u8, 0, 1, 2>([82, 90, 240])), Rgb([0, 1, 255]));
    // sixteen bits in, eight bits out
    assert_eq!(
        Rgb::<u16, 0, 1, 2>::from(Yuv::<u16, 0, 1, 2>([65535, 128, 128])),
        Rgb([255, 255, 255])
    );
}

#[test]
fn round_trip_stays_close() {
    // the colour that comes back furthest from where it was
    let there = Yuv8::from(Rgb::<u8, 0, 1, 2>([0, 0, 65]));
    assert_eq!(there, Yuv([22, 156, 123]));
    assert_eq!(Rgb8::from(there), Rgb([0, 0, 63]));

    for r in (0..=255u8).step_by(5) {
        for g in (0..=255u8).step_by(3) {
            for b in (0..=255u8).step_by(15) {
                let back = Rgb8::from(Yuv8::from(Rgb::<u8, 0, 1, 2>([r, g, b])));
                assert!(make_range(r, 2).contains(&back[0]));
                assert!(make_range(g, 2).contains(&back[1]));
                assert!(make_range(b, 3).contains(&back[2]));
            }
        }
    }
    for c in 0..=255u8 {
        let back = Rgb8::from(Yuv8::from(Rgb::<u8, 0, 1, 2>([c, c, c])));
        assert!(make_range(c, 1).contains(&back[0]));
        assert!(make_range(c, 1).contains(&back[1]));
        assert!(make_range(c, 1).contains(&back[2]));
    }
}

#[test]
fn macropixel_round_trip_keeps_the_first_chroma() {
    let first = Yuv::<u8, 0, 1, 2>([11, 22, 33]);
    let second = Yuv::<u8, 0, 1, 2>([44, 22, 33]);
    let packed = Yuyv::<u8>::from([first, second]);
    assert_eq!(packed, Yuv422([11, 22, 44, 33]));
    let [a, b] = <[Yuv<u8, 0, 1, 2>; 2]>::from(packed);
    assert_eq!(a, Yuv([11, 22, 33]));
    assert_eq!(b, Yuv([44, 22, 33]));

    // the chroma of the second pixel is lost
    let second = Yuv::<u8, 0, 1, 2>([44, 55, 66]);
    let packed = Yuyv::<u8>::from([first, second]);
    assert_eq!(packed, Yuv422([11, 22, 44, 33]));
    let [a, b] = <[Yuv<u8, 0, 1, 2>; 2]>::from(packed);
    assert_eq!(a, first);
    assert_eq!(b, Yuv([44, 22, 33]));

    let packed = Uyvy::<u8>::from([first, second]);
    assert_eq!(packed, Yuv422([22, 11, 33, 44]));
    let [a, b] = <[Yuv<u8, 0, 1, 2>; 2]>::from(packed);
    assert_eq!(a, first);
    assert_eq!(b, Yuv([44, 22, 33]));
}

#[test]
fn macropixels_and_their_subpixels() {
    let pair = [Yuv::<u16, 0, 1, 2>([1, 2, 3]), Yuv::<u16, 0, 1, 2>([4, 5, 6])];
    let packed = Yuyv::<u16>::from_subpixels(&pair);
    assert_eq!(packed, Yuv422([1, 2, 4, 3]));
    assert_eq!(packed, Yuyv::<u16>::merge(pair));
    assert_eq!(
        packed.to_subpixels(),
        vec![Yuv::<u16, 0, 1, 2>([1, 2, 3]), Yuv::<u16, 0, 1, 2>([4, 2, 3])]
    );
    assert_eq!(packed.unmerge(), [Yuv([1, 2, 3]), Yuv([4, 2, 3])]);
    assert_eq!((packed.y0(), packed.y1(), packed.u(), packed.v()), (1, 4, 2, 3));
    assert_eq!(Uyvy::<u16>::from_yyuv(1, 4, 2, 3), Yuv422([2, 1, 3, 4]));
}

#[test]
fn rows_of_macropixels() {
    let row = [Yuyv::<u8>::new([1, 2, 3, 4]), Yuyv::<u8>::new([5, 6, 7, 8])];
    let mut out = [Yuv::<u8, 0, 1, 2>([0, 0, 0]); 5];
    <Yuyv<u8> as MapPixels<Yuyv<u8>, Yuv8>>::map_pixels(&row, &mut out);
    assert_eq!(
        out,
        [Yuv([1, 2, 4]), Yuv([3, 2, 4]), Yuv([5, 6, 8]), Yuv([7, 6, 8]), Yuv([0, 0, 0])]
    );

    // a destination with room for one pixel of a pair gets none of it
    let mut out = [Yuv::<u8, 0, 1, 2>([9, 9, 9]); 3];
    <Yuyv<u8> as MapPixels<Yuyv<u8>, Yuv8>>::map_pixels(&row, &mut out);
    assert_eq!(out, [Yuv([1, 2, 4]), Yuv([3, 2, 4]), Yuv([9, 9, 9])]);

    let row = [Yuv::<u8, 0, 1, 2>([1, 2, 3]), Yuv([4, 5, 6]), Yuv([7, 8, 9])];
    let mut out = [Yuyv::<u8>::new([0; 4]); 2];
    <Yuv8 as MapPixels<Yuv8, Yuyv<u8>>>::map_pixels(&row, &mut out);
    assert_eq!(out, [Yuv422([1, 2, 4, 3]), Yuv422([0, 0, 0, 0])]);
}

#[test]
fn rows_of_plain_pixels() {
    let row = [Rgb::<u8, 0, 1, 2>([1, 2, 3]), Rgb([4, 5, 6])];
    let mut out = [Bgr::<u8>::new([0; 3]); 3];
    <Rgb8 as MapPixels<Rgb8, Bgr<u8>>>::map_pixels(&row, &mut out);
    assert_eq!(out, [Rgb([3, 2, 1]), Rgb([6, 5, 4]), Rgb([0, 0, 0])]);

    let mut out = [Bgr::<u8>::new([0; 3]); 1];
    <Rgb8 as MapPixels<Rgb8, Bgr<u8>>>::map_pixels(&row, &mut out);
    assert_eq!(out, [Rgb([3, 2, 1])]);
}
