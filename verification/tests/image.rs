use ffimage::color::{Gray, Rgb};
use ffimage::error::Error;
use ffimage::packed::generic::{GenericBuffer, GenericFlatBuffer, GenericView};
use ffimage::packed::{Image, ImageBuffer, ImageView, ImageViewMut, Matrix};
use ffimage::traits::{GenericImage, GenericImageView};
use ffimage::yuv::Yuyv;

type Rgb8 = Rgb<u8, 0, 1, 2>;
type Rgb16 = Rgb<u16, 0, 1, 2>;

#[test]
fn generic_new() {
    let matrix = Matrix::new(3, 3, 0u8);
    assert_eq!(matrix.rows(), 3);
    assert_eq!(matrix.cols(), 3);
    assert_eq!(matrix.as_slice().len(), 3 * 3);

    let image = Image::<Rgb8, _>::new(3, 3, 0u8);
    assert_eq!(image.width(), 3);
    assert_eq!(image.height(), 3);
    assert_eq!(image.as_slice().len(), 3 * 3 * 3);
}

#[test]
fn image_new() {
    let image = Image::<Rgb8, _>::new(3, 3, 0u8);
    assert_eq!(image.width(), 3);
    assert_eq!(image.height(), 3);
    assert_eq!(image.as_slice().len(), 3 * 3 * 3);
}

#[test]
fn image_from_buf() {
    let mem = [3u16; 24];
    let image = Image::<Rgb16, _>::from_buf(&mem, 2, 2).expect("This is a valid image");
    assert_eq!(image.width(), 2);
    assert_eq!(image.height(), 2);
    assert_eq!(image.stride(), 2 * 3);
    assert_eq!(image.as_slice().len(), 2 * 2 * 3 * std::mem::size_of::<u16>());
}

#[test]
fn from_buf() {
    // a buffer that is shorter than the rows is refused, with or without a stride
    let mem = [0u8; 27];
    assert!(Image::<Rgb8, _>::from_buf(&mem, 3, 3).is_some());
    assert!(Image::<Rgb8, _>::from_buf(&mem[..26], 3, 3).is_none());
    assert!(Image::<Rgb8, _>::from_buf(&mem, 3, 4).is_none());
    assert!(Image::<Rgb8, _>::from_buf(&mem, 4, 3).is_none());
    assert!(Image::<Rgb8, _>::from_buf(&mem, 9, 1).is_some());
    assert!(Image::<Rgb8, _>::from_buf(&mem[..0], 0, 0).is_some());
    assert!(Image::<Rgb8, _>::from_buf(&mem[..0], 7, 0).is_some());
    assert!(Image::<Rgb8, _>::from_buf(&mem[..0], 1, 1).is_none());

    assert!(Image::<Rgb8, _>::from_buf_with_stride(&mem, 2, 3, 9).is_some());
    assert!(Image::<Rgb8, _>::from_buf_with_stride(&mem, 2, 3, 10).is_none());
    assert!(Image::<Rgb8, _>::from_buf_with_stride(&mem, 2, 4, 6).is_some());
    assert!(Image::<Rgb8, _>::from_buf_with_stride(&mem, 2, 5, 6).is_none());
    // the stride must cover the pixels of a row
    assert!(Image::<Rgb8, _>::from_buf_with_stride(&mem, 2, 3, 5).is_none());

    // a macropixel stands for two image pixels
    assert!(Image::<Yuyv<u8>, _>::from_buf(&mem[..8], 4, 1).is_some());
    assert!(Image::<Yuyv<u8>, _>::from_buf(&mem[..7], 4, 1).is_none());
    let image = Image::<Yuyv<u8>, _>::from_buf(&mem[..4], 3, 1).unwrap();
    assert_eq!(image.stride(), 4);

    let image = Image::<Rgb8, _>::from_buf(vec![1u8, 2, 3], 1, 1).unwrap();
    assert_eq!(image.into_buf(), vec![1, 2, 3]);
}

#[test]
fn image_index() {
    let mut mem = vec![0; 27];
    mem[18] = 10;
    mem[19] = 20;
    mem[20] = 30;
    let image = Image::<Rgb8, _>::from_buf(&mem, 3, 3).expect("This is a valid image");
    let pix = image.row(2)[0];
    assert_eq!(pix[0], 10);
    assert_eq!(pix[1], 20);
    assert_eq!(pix[2], 30);

    let mut mem = vec![0; 30];
    mem[20] = 10;
    mem[21] = 20;
    mem[22] = 30;
    let image =
        Image::<Rgb8, _>::from_buf_with_stride(&mem, 3, 3, 10).expect("This is a valid image");
    let pix = image.row(2)[0];
    assert_eq!(pix[0], 10);
    assert_eq!(pix[1], 20);
    assert_eq!(pix[2], 30);
}

#[test]
fn generic_index() {
    let matrix = Matrix::new(2, 2, 2u8);
    assert_eq!(matrix[1], [2, 2]);

    let mem: Vec<u8> = (0..20).collect();
    let image = Image::<Rgb8, _>::from_buf_with_stride(&mem, 2, 2, 10).unwrap();
    assert_eq!(image.row(0), vec![Rgb([0, 1, 2]), Rgb([3, 4, 5])]);
    assert_eq!(image.row(1), vec![Rgb([10, 11, 12]), Rgb([13, 14, 15])]);
}

#[test]
fn index() {
    let mut mem: Vec<u8> = (0..20).collect();
    {
        let mut image = Image::<Rgb8, _>::from_buf_with_stride(&mut mem[..], 2, 2, 10).unwrap();
        image.set_row(1, &[Rgb([100, 101, 102]), Rgb([103, 104, 105])]);
        // a row takes no more pixels than it has, and keeps those it does not get
        image.set_row(0, &[Rgb([200, 201, 202])]);
        assert_eq!(image.row(0), vec![Rgb([200, 201, 202]), Rgb([3, 4, 5])]);
    }
    assert_eq!(
        mem,
        [200, 201, 202, 3, 4, 5, 6, 7, 8, 9, 100, 101, 102, 103, 104, 105, 16, 17, 18, 19]
    );
}

#[test]
fn image_pixel() {
    let mut mem = vec![0; 27];
    mem[18] = 10;
    mem[19] = 20;
    mem[20] = 30;
    let image = Image::<Rgb8, _>::from_buf(&mem, 3, 3).expect("This is a valid image");
    let pix = image.pixel(0, 2).unwrap();
    assert_eq!(pix[0], 10);
    assert_eq!(pix[1], 20);
    assert_eq!(pix[2], 30);

    let mut mem = vec![0; 30];
    mem[20] = 10;
    mem[21] = 20;
    mem[22] = 30;
    let image =
        Image::<Rgb8, _>::from_buf_with_stride(&mem, 3, 3, 10).expect("This is a valid image");
    let pix = image.pixel(0, 2).unwrap();
    assert_eq!(pix[0], 10);
    assert_eq!(pix[1], 20);
    assert_eq!(pix[2], 30);
}

#[test]
fn generic_pixel() {
    // beyond the width and the height there is no pixel, for every kind of image
    let mem = vec![7u8; 30];
    let view: ImageView<Rgb8> = Image::from_buf_with_stride(&mem[..], 3, 3, 10).unwrap();
    assert_eq!(view.pixel(2, 2), Some(Rgb([7, 7, 7])));
    assert_eq!(view.pixel(3, 0), None);
    assert_eq!(view.pixel(0, 3), None);
    assert_eq!(view.pixel(3, 3), None);
    assert_eq!(view.pixel(u32::MAX, 0), None);
    assert_eq!(view.pixel(0, u32::MAX), None);

    let mut mem = vec![7u8; 27];
    let view: ImageViewMut<Rgb8> = Image::from_buf(&mut mem[..], 3, 3).unwrap();
    assert_eq!(view.pixel(2, 2), Some(Rgb([7, 7, 7])));
    assert_eq!(view.pixel(3, 0), None);
    assert_eq!(view.pixel(0, 3), None);

    let buffer: ImageBuffer<Rgb8> = Image::new(3, 3, 7);
    assert_eq!(buffer.pixel(2, 2), Some(Rgb([7, 7, 7])));
    assert_eq!(buffer.pixel(3, 0), None);
    assert_eq!(buffer.pixel(0, 3), None);

    let empty: ImageBuffer<Rgb8> = Image::new(0, 0, 7);
    assert_eq!(empty.pixel(0, 0), None);

    // both image pixels of a macropixel give the macropixel; a last odd pixel has none
    let mem = [1u8, 2, 3, 4, 5, 6, 7, 8];
    let image = Image::<Yuyv<u8>, _>::from_buf(&mem, 5, 1).unwrap();
    assert_eq!(image.pixel(0, 0), Some(Yuyv::<u8>::new([1, 2, 3, 4])));
    assert_eq!(image.pixel(1, 0), Some(Yuyv::<u8>::new([1, 2, 3, 4])));
    assert_eq!(image.pixel(2, 0), Some(Yuyv::<u8>::new([5, 6, 7, 8])));
    assert_eq!(image.pixel(3, 0), Some(Yuyv::<u8>::new([5, 6, 7, 8])));
    assert_eq!(image.pixel(4, 0), None);
    assert_eq!(image.pixel(5, 0), None);
}

#[test]
fn image_set_pixel() {
    let mut mem = vec![0; 27];
    let mut image = Image::<Rgb8, _>::from_buf(&mut mem, 3, 3).unwrap();
    image.set_pixel(0, 2, &Rgb::<u8, 0, 1, 2>([10, 20, 30])).unwrap();
    let pix = image.pixel(0, 2).unwrap();
    assert_eq!(pix[0], 10);
    assert_eq!(pix[1], 20);
    assert_eq!(pix[2], 30);

    image.set_pixel(0, 2, &Rgb::<u8, 0, 1, 2>([10, 20, 30])).unwrap();
    let pix = image.pixel(0, 2).unwrap();
    assert_eq!(pix[0], 10);
    assert_eq!(pix[1], 20);
    assert_eq!(pix[2], 30);
}

#[test]
fn generic_set_pixel() {
    let mut mem = vec![0u8; 20];
    {
        let mut image = Image::<Rgb8, _>::from_buf_with_stride(&mut mem[..], 2, 2, 10).unwrap();
        assert_eq!(image.set_pixel(1, 1, &Rgb([1, 2, 3])), Ok(()));
        // outside of the image nothing is written
        assert_eq!(image.set_pixel(2, 0, &Rgb([4, 5, 6])), Err(Error::OutOfBounds));
        assert_eq!(image.set_pixel(0, 2, &Rgb([4, 5, 6])), Err(Error::OutOfBounds));
        assert_eq!(image.pixel(1, 1), Some(Rgb([1, 2, 3])));
        assert_eq!(image.pixel(0, 1), Some(Rgb([0, 0, 0])));
    }
    let mut expected = vec![0u8; 20];
    expected[13] = 1;
    expected[14] = 2;
    expected[15] = 3;
    assert_eq!(mem, expected);

    let mut buffer: ImageBuffer<Gray<u16>> = Image::new(2, 1, 0);
    buffer.set_pixel(1, 0, &Gray([500])).unwrap();
    assert_eq!(buffer.into_buf(), vec![0, 500]);
}

#[test]
fn image_width() {
    let mem = vec![0; 27];
    let view = GenericView::<Rgb8>::new(&mem, 3, 3).unwrap();
    assert_eq!(view.width(), 3);
}

#[test]
fn width() {
    let mut mem = vec![0; 27];
    let buf = GenericFlatBuffer::<Rgb8>::new(&mut mem, 3, 3).unwrap();
    assert_eq!(buf.width(), 3);

    let buf = GenericBuffer::<Rgb8>::new(3, 3);
    assert_eq!(buf.width(), 3);
}

#[test]
fn image_height() {
    let mem = vec![0; 27];
    let view = GenericView::<Rgb8>::new(&mem, 3, 3).unwrap();
    assert_eq!(view.height(), 3);
}

#[test]
fn height() {
    let mut mem = vec![0; 27];
    let buf = GenericFlatBuffer::<Rgb8>::new(&mut mem, 3, 3).unwrap();
    assert_eq!(buf.height(), 3);

    let buf = GenericBuffer::<Rgb8>::new(3, 3);
    assert_eq!(buf.height(), 3);
}

#[test]
fn image_stride() {
    let mem = vec![0; 27];
    let view = GenericView::<Rgb8>::new(&mem, 3, 3).unwrap();
    assert_eq!(view.stride(), 3 * 3);

    let mem = vec![0; 30];
    let view = GenericView::<Rgb8>::with_stride(&mem, 3, 3, 10).unwrap();
    assert_eq!(view.stride(), 3 * 3 + 1);
}

#[test]
fn stride() {
    let mut mem = vec![0; 27];
    let buf = GenericFlatBuffer::<Rgb8>::new(&mut mem, 3, 3).unwrap();
    assert_eq!(buf.stride(), 3 * 3);

    let mut mem = vec![0; 30];
    let buf = GenericFlatBuffer::<Rgb8>::with_stride(&mut mem, 3, 3, 10).unwrap();
    assert_eq!(buf.stride(), 3 * 3 + 1);

    let buf = GenericBuffer::<Rgb8>::new(3, 3);
    assert_eq!(buf.stride(), 3 * 3);
}

#[test]
fn strides_in_bytes() {
    // a stride that is no whole number of channel values is refused
    let mem = vec![0u16; 30];
    assert!(GenericView::<Rgb16>::with_stride(&mem, 3, 3, 19).is_none());
    let view = GenericView::<Rgb16>::with_stride(&mem, 3, 3, 20).unwrap();
    assert_eq!(view.stride(), 20);
    assert_eq!(view.as_image().stride(), 10);
    // one that does not cover the pixels of a row is refused
    assert!(GenericView::<Rgb16>::with_stride(&mem, 3, 3, 16).is_none());
    assert!(GenericView::<Rgb16>::with_stride(&mem, 3, 3, 18).is_some());
    // memory that is shorter than the rows is refused
    assert!(GenericView::<Rgb16>::with_stride(&mem, 3, 3, 22).is_none());
    assert!(GenericView::<Rgb16>::with_stride(&mem, 3, 4, 18).is_none());
    assert!(GenericView::<Rgb16>::new(&mem, 3, 4).is_none());
    assert!(GenericView::<Rgb16>::new(&mem, 4, 3).is_none());
    assert!(GenericView::<Rgb16>::new(&mem, 5, 2).is_some());
    let view = GenericView::<Rgb16>::new(&mem, 3, 3).unwrap();
    assert_eq!(view.stride(), 18);
    assert_eq!(view.raw().len(), 30);

    let mut mem = vec![0u8; 29];
    assert!(GenericFlatBuffer::<Rgb8>::with_stride(&mut mem, 3, 3, 10).is_none());
    assert!(GenericFlatBuffer::<Rgb8>::with_stride(&mut mem, 3, 3, 8).is_none());
    assert!(GenericFlatBuffer::<Rgb8>::new(&mut mem, 3, 4).is_none());
    assert!(GenericFlatBuffer::<Rgb8>::new(&mut mem, 3, 3).is_some());

    assert!(GenericBuffer::<Rgb8>::with_raw(3, 3, &mem[..26]).is_none());
    assert!(GenericBuffer::<Rgb8>::with_raw(3, 3, &mem[..27]).is_some());
}

#[test]
fn image_get_pixel() {
    let mut mem = vec![0; 27];
    mem[18] = 10;
    mem[19] = 20;
    mem[20] = 30;
    let view = GenericView::<Rgb8>::new(&mem, 3, 3).unwrap();
    let pix = view.pixel(0, 2).unwrap();
    assert_eq!(pix[0], 10);
    assert_eq!(pix[1], 20);
    assert_eq!(pix[2], 30);

    let mut mem = vec![0; 30];
    mem[20] = 10;
    mem[21] = 20;
    mem[22] = 30;
    let view = GenericView::<Rgb8>::with_stride(&mem, 3, 3, 10).unwrap();
    let pix = view.pixel(0, 2).unwrap();
    assert_eq!(pix[0], 10);
    assert_eq!(pix[1], 20);
    assert_eq!(pix[2], 30);
}

#[test]
fn get_pixel() {
    let mut mem = vec![0; 27];
    mem[18] = 10;
    mem[19] = 20;
    mem[20] = 30;
    let buf = GenericFlatBuffer::<Rgb8>::new(&mut mem, 3, 3).unwrap();
    let pix = buf.pixel(0, 2).unwrap();
    assert_eq!(pix[0], 10);
    assert_eq!(pix[1], 20);
    assert_eq!(pix[2], 30);

    let mut mem = vec![0; 30];
    mem[20] = 10;
    mem[21] = 20;
    mem[22] = 30;
    let buf = GenericFlatBuffer::<Rgb8>::with_stride(&mut mem, 3, 3, 10).unwrap();
    let pix = buf.pixel(0, 2).unwrap();
    assert_eq!(pix[0], 10);
    assert_eq!(pix[1], 20);
    assert_eq!(pix[2], 30);

    let mut mem = vec![0; 27];
    mem[18] = 10;
    mem[19] = 20;
    mem[20] = 30;
    let buf = GenericBuffer::<Rgb8>::with_raw(3, 3, &mem).unwrap();
    let pix = buf.pixel(0, 2).unwrap();
    assert_eq!(pix[0], 10);
    assert_eq!(pix[1], 20);
    assert_eq!(pix[2], 30);
}

#[test]
fn pixel() {
    let mut mem = vec![0; 27];
    mem[18] = 10;
    mem[19] = 20;
    mem[20] = 30;
    let view = GenericView::<Rgb8>::new(&mem, 3, 3).unwrap();
    let pix = view.pixel(0, 2).unwrap();
    assert_eq!(pix[0], 10);
    assert_eq!(pix[1], 20);
    assert_eq!(pix[2], 30);
    assert_eq!(view.pixel(3, 0), None);
    assert_eq!(view.pixel(0, 3), None);

    let mut mem = vec![0; 30];
    mem[20] = 10;
    mem[21] = 20;
    mem[22] = 30;
    let view = GenericView::<Rgb8>::with_stride(&mem, 3, 3, 10).unwrap();
    let pix = view.pixel(0, 2).unwrap();
    assert_eq!(pix[0], 10);
    assert_eq!(pix[1], 20);
    assert_eq!(pix[2], 30);

    let buf = GenericFlatBuffer::<Rgb8>::with_stride(&mut mem, 3, 3, 10).unwrap();
    let pix = buf.pixel(0, 2).unwrap();
    assert_eq!(pix[0], 10);
    assert_eq!(pix[1], 20);
    assert_eq!(pix[2], 30);
    assert_eq!(buf.pixel(3, 0), None);
    assert_eq!(buf.pixel(0, 3), None);

    let mut buf = GenericBuffer::<Rgb8>::new(3, 3);
    buf.set_pixel(0, 2, &Rgb::<u8, 0, 1, 2>::new([10, 20, 30])).unwrap();
    let pix = buf.pixel(0, 2).unwrap();
    assert_eq!(pix[0], 10);
    assert_eq!(pix[1], 20);
    assert_eq!(pix[2], 30);
    assert_eq!(buf.pixel(3, 0), None);
    assert_eq!(buf.pixel(0, 3), None);
}

#[test]
fn set_pixel() {
    let mut mem = vec![0; 27];
    let mut buf = GenericFlatBuffer::<Rgb8>::new(&mut mem, 3, 3).unwrap();
    buf.set_pixel(0, 2, &Rgb::<u8, 0, 1, 2>::new([10, 20, 30])).unwrap();
    let pix = buf.pixel(0, 2).unwrap();
    assert_eq!(pix[0], 10);
    assert_eq!(pix[1], 20);
    assert_eq!(pix[2], 30);

    let mut mem = vec![0; 30];
    let mut buf = GenericFlatBuffer::<Rgb8>::with_stride(&mut mem, 3, 3, 10).unwrap();
    buf.set_pixel(0, 2, &Rgb::<u8, 0, 1, 2>::new([10, 20, 30])).unwrap();
    let pix = buf.pixel(0, 2).unwrap();
    assert_eq!(pix[0], 10);
    assert_eq!(pix[1], 20);
    assert_eq!(pix[2], 30);
    assert_eq!(buf.set_pixel(3, 0, &Rgb([1, 1, 1])), Err(Error::OutOfBounds));
    assert_eq!(buf.raw()[20..23], [10, 20, 30]);

    let mut buf = GenericBuffer::<Rgb8>::new(3, 3);
    buf.set_pixel(0, 2, &Rgb::<u8, 0, 1, 2>::new([10, 20, 30])).unwrap();
    let pix = buf.pixel(0, 2).unwrap();
    assert_eq!(pix[0], 10);
    assert_eq!(pix[1], 20);
    assert_eq!(pix[2], 30);
}

#[test]
fn image_pixel_mut() {
    let mut mem = vec![0; 27];
    let mut buf = GenericFlatBuffer::<Rgb8>::new(&mut mem, 3, 3).unwrap();
    let mut pix = buf.pixel(0, 2).unwrap();
    pix.0[0] = 11;
    pix.0[1] = 22;
    pix.0[2] = 33;
    buf.set_pixel(0, 2, &pix).unwrap();
    let pix = buf.pixel(0, 2).unwrap();
    assert_eq!(pix[0], 11);
    assert_eq!(pix[1], 22);
    assert_eq!(pix[2], 33);

    let mut mem = vec![0; 30];
    let mut buf = GenericFlatBuffer::<Rgb8>::with_stride(&mut mem, 3, 3, 10).unwrap();
    let mut pix = buf.pixel(0, 2).unwrap();
    pix.0[0] = 11;
    pix.0[1] = 22;
    pix.0[2] = 33;
    buf.set_pixel(0, 2, &pix).unwrap();
    let pix = buf.pixel(0, 2).unwrap();
    assert_eq!(pix[0], 11);
    assert_eq!(pix[1], 22);
    assert_eq!(pix[2], 33);
}

#[test]
fn pixel_mut() {
    let mut buf = GenericBuffer::<Rgb8>::new(3, 3);
    let mut pix = buf.pixel(0, 2).unwrap();
    pix.0[0] = 11;
    pix.0[1] = 22;
    pix.0[2] = 33;
    buf.set_pixel(0, 2, &pix).unwrap();
    let pix = buf.pixel(0, 2).unwrap();
    assert_eq!(pix[0], 11);
    assert_eq!(pix[1], 22);
    assert_eq!(pix[2], 33);
}

#[test]
fn image_resize() {
    let mut buf = GenericBuffer::<Rgb8>::new(0, 0);
    assert_eq!(buf.width(), 0);
    assert_eq!(buf.height(), 0);
    buf.resize(3, 3);
    assert_eq!(buf.width(), 3);
    assert_eq!(buf.height(), 3);
    assert_eq!(buf.stride(), 3 * 3);
    assert_eq!(buf.raw(), [0u8; 27]);
}

#[test]
fn resized_images_keep_their_buffer() {
    let mut image: ImageBuffer<Gray<u8>> = Image::new(2, 2, 1);
    image.resize(3, 2, 0);
    assert_eq!(image.width(), 3);
    assert_eq!(image.height(), 2);
    assert_eq!(image.stride(), 3);
    assert_eq!(image.as_slice(), [1, 1, 1, 1, 0, 0]);
    image.resize(1, 1, 0);
    assert_eq!(image.as_slice(), [1]);
}
