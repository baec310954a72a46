use ffimage::color::{Gray, Rgb};
use ffimage::error::Error;
use ffimage::packed::dynamic::{
    DynamicBuffer, DynamicView, MemoryBuffer, MemoryView, StorageType,
};
use ffimage::traits::GenericImageView;

#[test]
fn as_slice() {
    let mem: Vec<u8> = vec![1, 2, 3];
    let view = DynamicView::new(MemoryView::U8(&mem), 1, 1).unwrap();
    let slice = view.raw().as_u8().unwrap();
    assert_eq!(slice[0], 1);
    assert_eq!(slice[1], 2);
    assert_eq!(slice[2], 3);
    assert!(view.raw().as_u16().is_none());
}

#[test]
fn dynamic_new() {
    let mem: Vec<u8> = vec![0; 27];
    let view = DynamicView::new(MemoryView::U8(&mem), 3, 3).unwrap();
    assert_eq!(view.raw().len(), 3 * 3 * 3);
    assert_eq!(view.width(), 3);
    assert_eq!(view.height(), 3);
    assert_eq!(view.stride(), 3 * 3);

    let mem: Vec<u16> = vec![0; 30];
    let view = DynamicView::new(MemoryView::U16(&mem), 3, 3).unwrap();
    assert_eq!(view.raw().len(), 3 * 3 * 3 + 3);
    assert_eq!(view.width(), 3);
    assert_eq!(view.height(), 3);
    assert_eq!(view.stride(), 3 * 3 + 1);
}

#[test]
fn new() {
    let buf = DynamicBuffer::new(3, 3, 3 /* channels */, StorageType::U8);
    assert_eq!(buf.raw().len(), 3 * 3 * 3);
    assert_eq!(buf.width(), 3);
    assert_eq!(buf.height(), 3);
    assert_eq!(buf.stride(), 3 * 3);
    assert_eq!(buf.raw().as_u8().unwrap(), [0u8; 27]);

    // rows that do not share the memory in equal parts are refused
    let mem: Vec<u8> = vec![0; 28];
    assert!(DynamicView::new(MemoryView::U8(&mem), 3, 3).is_none());
    // and so are rows that are shorter than the width
    assert!(DynamicView::new(MemoryView::U8(&mem), 15, 2).is_none());
    assert!(DynamicView::new(MemoryView::U8(&mem), 14, 2).is_some());
    let wide: Vec<u16> = vec![0; 28];
    assert!(DynamicView::new(MemoryView::U16(&wide), 8, 2).is_none());
    assert!(DynamicView::new(MemoryView::U16(&wide), 7, 2).is_some());
    // and a height of zero
    assert!(DynamicView::new(MemoryView::U8(&mem), 0, 0).is_none());
}

#[test]
fn dynamic_with_stride() {
    let mem: Vec<u8> = vec![0; 30];
    let view =
        DynamicView::with_stride(MemoryView::U8(&mem), 3, 3, 3 * 3 + 1 /* stride */).unwrap();
    assert_eq!(view.raw().len(), 3 * 3 * 3 + 3);
    assert_eq!(view.width(), 3);
    assert_eq!(view.height(), 3);
    assert_eq!(view.stride(), 3 * 3 + 1);
}

#[test]
fn with_stride() {
    let mem: Vec<u8> = vec![0; 30];
    assert!(DynamicView::with_stride(MemoryView::U8(&mem), 3, 3, 9).is_none());
    assert!(DynamicView::with_stride(MemoryView::U8(&mem), 3, 3, 11).is_none());
    assert!(DynamicView::with_stride(MemoryView::U8(&mem), 3, 2, 15).is_some());
    let view = DynamicView::with_stride(MemoryView::U8(&mem), 3, 3, 0).unwrap();
    assert_eq!(view.stride(), 0);
}

#[test]
fn into_vec() {
    let mut buf = DynamicBuffer::new(1, 1, 3 /* channels */, StorageType::U8);
    {
        let slice = buf.raw_mut().as_mut_u8().unwrap();
        slice[0] = 1;
        slice[1] = 2;
        slice[2] = 3;
    }

    let vec = buf.into_buf().into_u8().unwrap();
    assert_eq!(vec[0], 1);
    assert_eq!(vec[1], 2);
    assert_eq!(vec[2], 3);
}

#[test]
fn from() {
    let mem: Vec<u8> = vec![0; 27];
    let view = DynamicView::new(MemoryView::U8(&mem), 3, 3).unwrap();
    let buf = DynamicBuffer::from_view(&view);
    assert_eq!(buf.raw().len(), 3 * 3 * 3);
    assert_eq!(buf.width(), 3);
    assert_eq!(buf.height(), 3);
    assert_eq!(buf.stride(), 3 * 3);
}

#[test]
fn dynamic_from_raw() {
    let mem: Vec<u8> = vec![0; 27];
    let buf = DynamicBuffer::from_raw(3, 3, MemoryBuffer::U8(mem)).unwrap();
    assert_eq!(buf.raw().len(), 3 * 3 * 3);
    assert_eq!(buf.width(), 3);
    assert_eq!(buf.height(), 3);
    assert_eq!(buf.stride(), 3 * 3);
}

#[test]
fn from_raw() {
    assert!(DynamicBuffer::from_raw(3, 3, MemoryBuffer::U8(vec![0; 28])).is_none());
    assert!(DynamicBuffer::from_raw(3, 0, MemoryBuffer::U8(vec![0; 28])).is_none());
    assert!(DynamicBuffer::from_raw(8, 2, MemoryBuffer::U16(vec![0; 28])).is_none());
    let buf = DynamicBuffer::from_raw(7, 2, MemoryBuffer::U16(vec![5; 28])).unwrap();
    assert_eq!(buf.stride(), 14);
    assert_eq!(buf.raw().storage(), StorageType::U16);
    assert_eq!(buf.into_buf().into_u16().unwrap(), vec![5; 28]);
}

#[test]
fn dynamic_resize() {
    let mut buf = DynamicBuffer::empty(StorageType::U8);
    buf.resize(3, 3, 3);
    assert_eq!(buf.width(), 3);
    assert_eq!(buf.height(), 3);
    assert_eq!(buf.stride(), 3 * 3);
    assert_eq!(buf.raw().len(), 3 * 3 * 3);
}

#[test]
fn resize() {
    let mut buf = DynamicBuffer::new(0, 0, 3 /* channels */, StorageType::U8);
    buf.resize(3, 3, 3);
    assert_eq!(buf.width(), 3);
    assert_eq!(buf.height(), 3);
    assert_eq!(buf.stride(), 3 * 3);

    // values of sixteen bits count twice in the stride
    let mut buf = DynamicBuffer::empty(StorageType::U16);
    assert!(buf.raw().is_empty());
    buf.resize(2, 1, 3);
    assert_eq!(buf.stride(), 12);
    assert_eq!(buf.raw().len(), 12);
    assert_eq!(buf.raw().storage(), StorageType::U16);
    assert_eq!(StorageType::U16.size(), 2);
    assert_eq!(StorageType::U8.size(), 1);
}

#[test]
fn with_raw() {
    let mem = vec![0; 27];
    let buf = DynamicBuffer::with_raw(3, 3, 3, &mem);
    assert_eq!(buf.raw().len(), 3 * 3 * 3);
    assert_eq!(buf.width(), 3);
    assert_eq!(buf.height(), 3);
    assert_eq!(buf.stride(), 3 * 3);
}

#[test]
fn views_of_buffers() {
    let mem = vec![1u8, 2, 3, 4, 5, 6];
    let buf = DynamicBuffer::with_raw(1, 2, 3, &mem);
    let view = buf.as_view();
    assert_eq!(view.width(), 1);
    assert_eq!(view.height(), 2);
    assert_eq!(view.stride(), 3);
    assert_eq!(view.raw().as_u8().unwrap(), [1, 2, 3, 4, 5, 6]);
    assert!(!view.raw().is_empty());
    assert_eq!(view.raw().storage(), StorageType::U8);
    let copy = MemoryBuffer::from_view(&view.raw());
    assert_eq!(copy.as_u8().unwrap(), [1, 2, 3, 4, 5, 6]);
    assert!(copy.as_u16().is_none());
}

#[test]
fn typed_views_check_the_tag_and_the_layout() {
    let mem: Vec<u8> = (0..12).collect();
    let view = DynamicView::new(MemoryView::U8(&mem), 2, 2).unwrap();
    let typed = view.typed_u8::<Rgb<u8, 0, 1, 2>>().unwrap();
    assert_eq!(typed.width(), 2);
    assert_eq!(typed.height(), 2);
    assert_eq!(typed.stride(), 6);
    assert_eq!(typed.pixel(1, 1), Some(Rgb([9, 10, 11])));
    // the wrong storage type
    assert_eq!(view.typed_u16::<Gray<u16>>().err(), Some(Error::StorageMismatch));
    // a format that does not fit in the rows
    let view = DynamicView::new(MemoryView::U8(&mem), 3, 2).unwrap();
    assert_eq!(view.typed_u8::<Rgb<u8, 0, 1, 2>>().err(), Some(Error::OutOfBounds));
    assert!(view.typed_u8::<Gray<u8>>().is_ok());

    let wide: Vec<u16> = (0..12).collect();
    let view = DynamicView::new(MemoryView::U16(&wide), 2, 2).unwrap();
    let typed = view.typed_u16::<Rgb<u16, 0, 1, 2>>().unwrap();
    assert_eq!(typed.pixel(0, 1), Some(Rgb([6, 7, 8])));
    assert_eq!(view.typed_u8::<Gray<u8>>().err(), Some(Error::StorageMismatch));
}
