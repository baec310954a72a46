use ffimage::color::{Gray, Rgb};
use ffimage::iter::{BytesExt, ColorConvertExt, PixelsExt, Stream, Values};
use ffimage::packed::iter::{PixelIter, RowIter};
use ffimage::packed::{Image, SubImageView};
use ffimage::traits::GenericImageView;
use ffimage::yuv::Yuyv;

type Rgb8 = Rgb<u8, 0, 1, 2>;

#[test]
fn pixels_come_row_by_row() {
    let mem: Vec<u8> = (0..10).collect();
    let image = Image::<Gray<u8>, _>::from_buf_with_stride(&mem, 3, 2, 5).unwrap();
    let mut pixels = PixelIter::new(&image);
    let mut seen = Vec::new();
    while let Some(pix) = pixels.next() {
        seen.push(pix[0]);
    }
    assert_eq!(seen, [0, 1, 2, 5, 6, 7]);
    assert_eq!(pixels.next(), None);

    let mut pixels = PixelIter::with_offset(&image, 2, 0);
    assert_eq!(pixels.next(), Some(Gray([2])));
    assert_eq!(pixels.next(), Some(Gray([5])));

    // an offset behind the end of a row is the start of the next row
    let mut pixels = PixelIter::with_offset(&image, 3, 0);
    assert_eq!(pixels.next(), Some(Gray([5])));
    let mut pixels = PixelIter::with_offset(&image, 7, 0);
    assert_eq!(pixels.next(), Some(Gray([5])));
    let mut pixels = PixelIter::with_offset(&image, 0, 2);
    assert_eq!(pixels.next(), None);
    let mut pixels = PixelIter::with_offset(&image, 3, 1);
    assert_eq!(pixels.next(), None);
    let mut pixels = PixelIter::with_offset(&image, 0, u32::MAX);
    assert_eq!(pixels.next(), None);

    let empty = Image::<Gray<u8>, _>::new(0, 3, 0);
    assert_eq!(PixelIter::new(&empty).next(), None);

    let mem = [1u8, 2, 3, 4, 5, 6, 7, 8];
    let image = Image::<Yuyv<u8>, _>::from_buf(&mem, 2, 2).unwrap();
    let mut pixels = PixelIter::new(&image);
    assert_eq!(pixels.next(), Some(Yuyv::<u8>::new([1, 2, 3, 4])));
    assert_eq!(pixels.next(), Some(Yuyv::<u8>::new([5, 6, 7, 8])));
    assert_eq!(pixels.next(), None);
}

#[test]
fn rows_come_from_the_top() {
    let mem: Vec<u8> = (0..10).collect();
    let image = Image::<Gray<u8>, _>::from_buf_with_stride(&mem, 3, 2, 5).unwrap();
    let mut rows = RowIter::new(&image);
    assert_eq!(rows.next(), Some(vec![Gray([0]), Gray([1]), Gray([2])]));
    assert_eq!(rows.next(), Some(vec![Gray([5]), Gray([6]), Gray([7])]));
    assert_eq!(rows.next(), None);
    assert_eq!(rows.next(), None);

    let mut rows = RowIter::with_offset(&image, 1);
    assert_eq!(rows.next(), Some(vec![Gray([5]), Gray([6]), Gray([7])]));
    assert_eq!(rows.next(), None);
    assert_eq!(RowIter::with_offset(&image, 2).next(), None);
}

#[test]
fn sub_images_show_a_rectangle_of_their_parent() {
    let mem: Vec<u8> = (0..12).collect();
    let image = Image::<Gray<u8>, _>::from_buf(&mem, 4, 3).unwrap();
    let sub = SubImageView::new(&image, 1, 1, 2, 2).unwrap();
    assert_eq!(sub.width(), 2);
    assert_eq!(sub.height(), 2);
    assert_eq!(sub.pixel(0, 0), Some(Gray([5])));
    assert_eq!(sub.pixel(1, 0), Some(Gray([6])));
    assert_eq!(sub.pixel(0, 1), Some(Gray([9])));
    assert_eq!(sub.pixel(1, 1), Some(Gray([10])));
    // the parent has pixels there, the view has none
    assert_eq!(sub.pixel(2, 0), None);
    assert_eq!(sub.pixel(0, 2), None);
    assert_eq!(sub.pixel(u32::MAX, 0), None);

    let inner = SubImageView::new(&sub, 1, 0, 1, 2).unwrap();
    assert_eq!(inner.pixel(0, 0), Some(Gray([6])));
    assert_eq!(inner.pixel(0, 1), Some(Gray([10])));
    assert_eq!(inner.pixel(1, 0), None);

    assert!(SubImageView::new(&image, 0, 0, 4, 3).is_some());
    assert!(SubImageView::new(&image, 4, 3, 0, 0).is_some());
    assert!(SubImageView::new(&image, 1, 0, 4, 1).is_none());
    assert!(SubImageView::new(&image, 0, 1, 1, 3).is_none());
    assert!(SubImageView::new(&image, u32::MAX, 0, 2, 1).is_none());
    assert!(SubImageView::new(&image, 0, 2, 1, u32::MAX).is_none());
}

#[test]
fn copies_own_their_memory() {
    let mut mem: Vec<u8> = (0..10).collect();
    let copy = {
        let image = Image::<Gray<u8>, _>::from_buf_with_stride(&mut mem[..], 3, 2, 5).unwrap();
        image.to_buffer()
    };
    mem[0] = 99;
    assert_eq!(copy.width(), 3);
    assert_eq!(copy.height(), 2);
    assert_eq!(copy.stride(), 5);
    assert_eq!(copy.pixel(0, 0), Some(Gray([0])));
    assert_eq!(copy.into_buf(), (0..10).collect::<Vec<u8>>());
}

#[test]
fn collected_values() {
    let buf = [1u8, 2, 3, 4, 5, 6, 7];
    let values = Values::new(&buf).pixels::<Rgb8>().colorconvert::<Rgb<u8, 2, 1, 0>>().bytes().collect();
    assert_eq!(values, [3, 2, 1, 6, 5, 4]);
    let none = Values::new(&buf[..2]).pixels::<Rgb8>().bytes().collect();
    assert!(none.is_empty());
}
