//! Adapters between streams of channel values and streams of pixels.
//!
//! A [`Stream`] hands out its items one after the other. [`Pixels`] turns a stream of channel
//! values into a stream of pixels, [`ColorConvert`] a stream of pixels of one format into a
//! stream of pixels of another, and [`Bytes`] a stream of pixels back into channel values.

use crate::packed::matrix::lemma_product_bounds;
use crate::traits::{FromPixel, Pixel};
use std::marker::PhantomData;
use vstd::prelude::*;

verus! {

/// Items that are handed out one after the other.
pub trait Stream {
    /// The type of the items
    type Item;

    /// What the stream needs to hand out its items.
    spec fn ready(&self) -> bool;

    /// The items that the stream has not handed out yet.
    spec fn rest(&self) -> Seq<Self::Item>;

    /// Hands out the next item, where there is one.
    fn next(&mut self) -> (item: Option<Self::Item>)
        requires
            old(self).ready(),
        ensures
            final(self).ready(),
            old(self).rest().len() == 0 ==> item is None && final(self).rest().len() == 0,
            old(self).rest().len() > 0 ==> item == Some(old(self).rest()[0]) && final(self).rest()
                == old(self).rest().skip(1),
    ;
}

/// The stream of the values of a slice.
#[derive(Debug)]
pub struct Values<'a, T> {
    values: &'a [T],
    pos: usize,
}

impl<'a, T: Copy> Values<'a, T> {
    /// Returns the stream of the values of a slice, from the first to the last.
    pub fn new(values: &'a [T]) -> (stream: Self)
        ensures
            stream.ready(),
            stream.rest() == values@,
    {
        let stream = Values { values, pos: 0 };
        stream
    }
}

impl<'a, T: Copy> Stream for Values<'a, T> {
    type Item = T;

    open spec fn ready(&self) -> bool {
        true
    }

    closed spec fn rest(&self) -> Seq<T> {
        if self.pos <= self.values@.len() {
            self.values@.skip(self.pos as int)
        } else {
            Seq::empty()
        }
    }

    fn next(&mut self) -> (item: Option<T>) {
        if self.pos < self.values.len() {
            let value = self.values[self.pos];
            self.pos += 1;
            Some(value)
        } else {
            None
        }
    }
}

/// The pixels of format `P` that a sequence of channel values makes: one for each full run of
/// as many values as the format has channels.
pub open spec fn pixels_of<P: Pixel>(values: Seq<P::T>) -> Seq<P> {
    Seq::new(
        (values.len() / (P::spec_channels() as nat)) as nat,
        |k: int| P::from_values(values.subrange(k * P::spec_channels(), (k + 1) * P::spec_channels())),
    )
}

/// The channel values of a sequence of pixels, pixel by pixel.
pub open spec fn values_of<P: Pixel>(pixels: Seq<P>) -> Seq<P::T> {
    Seq::new(
        pixels.len() * (P::spec_channels() as nat),
        |k: int| pixels[k / (P::spec_channels() as int)].values()[k % (P::spec_channels() as int)],
    )
}

/// The pixels that a sequence of channel values makes are the first of them and those that
/// the values behind it make.
pub proof fn lemma_pixels_of_skip<P: Pixel>(values: Seq<P::T>)
    requires
        values.len() >= P::spec_channels(),
    ensures
        pixels_of::<P>(values).len() > 0,
        pixels_of::<P>(values)[0] == P::from_values(values.take(P::spec_channels() as int)),
        pixels_of::<P>(values.skip(P::spec_channels() as int)) == pixels_of::<P>(values).skip(1),
{
    P::lemma_shape();
    let c = P::spec_channels() as int;
    let tail = values.skip(c);
    assert(values.len() / (c as nat) >= 1 && (values.len() - c) / c == values.len() as int / c - 1)
        by (nonlinear_arith)
        requires
            c >= 1,
            values.len() >= c,
    ;
    assert(0 * c == 0 && (0 + 1) * c == c) by (nonlinear_arith);
    assert forall|k: int| 0 <= k < pixels_of::<P>(tail).len() implies pixels_of::<P>(tail)[k]
        == pixels_of::<P>(values).skip(1)[k] by {
        assert((k + 1) * c == k * c + c && (k + 2) * c == (k + 1) * c + c && 0 <= k * c && (k + 2)
            * c <= values.len()) by (nonlinear_arith)
            requires
                0 <= k,
                k + 2 <= values.len() as int / c,
                c >= 1,
        ;
        assert(tail.subrange(k * c, (k + 1) * c) =~= values.subrange((k + 1) * c, (k + 2) * c));
    }
}

/// Fewer channel values than the format has channels make no pixel.
pub proof fn lemma_pixels_of_few<P: Pixel>(values: Seq<P::T>)
    requires
        values.len() < P::spec_channels(),
    ensures
        pixels_of::<P>(values).len() == 0,
{
    P::lemma_shape();
    let c = P::spec_channels() as int;
    assert(values.len() as int / c == 0) by (nonlinear_arith)
        requires
            0 <= values.len() < c,
    ;
}

/// Adapter which converts a stream of channel values into a typed pixel stream.
///
/// Each pixel takes as many values as its format has channels. Values at the end of the stream
/// that do not make a pixel are dropped.
pub struct Pixels<I, P> {
    _marker: PhantomData<P>,
    iter: I,
}

impl<I: Stream, P: Pixel<T = I::Item>> Pixels<I, P> {
    /// The stream of channel values.
    pub closed spec fn inner(&self) -> I {
        self.iter
    }

    /// Returns the stream of the pixels that the channel values of `iter` make.
    pub fn new(iter: I) -> (pixels: Self)
        ensures
            pixels.inner() == iter,
    {
        Pixels { _marker: PhantomData, iter }
    }
}

impl<I: Stream, P: Pixel<T = I::Item>> Stream for Pixels<I, P> {
    type Item = P;

    open spec fn ready(&self) -> bool {
        self.inner().ready()
    }

    open spec fn rest(&self) -> Seq<P> {
        pixels_of::<P>(self.inner().rest())
    }

    fn next(&mut self) -> (item: Option<P>) {
        proof {
            P::lemma_shape();
        }
        let channels = P::channels() as usize;
        let mut chunk: Vec<P::T> = Vec::new();
        let ghost values = self.iter.rest();
        while chunk.len() < channels
            invariant
                self.iter.ready(),
                values == old(self).iter.rest(),
                channels == P::spec_channels(),
                chunk@.len() <= channels,
                chunk@.len() <= values.len(),
                chunk@ == values.take(chunk@.len() as int),
                self.iter.rest() == values.skip(chunk@.len() as int),
            decreases channels - chunk@.len(),
        {
            match self.iter.next() {
                None => {
                    proof {
                        lemma_pixels_of_few::<P>(values);
                        lemma_pixels_of_few::<P>(self.iter.rest());
                    }
                    return None;
                },
                Some(value) => {
                    chunk.push(value);
                },
            }
        }
        proof {
            lemma_pixels_of_skip::<P>(values);
        }
        Some(<P as Pixel>::try_from(chunk.as_slice()).unwrap())
    }
}

/// Adapter which converts between color formats.
pub struct ColorConvert<I, D> {
    _marker: PhantomData<D>,
    iter: I,
}

impl<I: Stream, D: FromPixel<I::Item>> ColorConvert<I, D> {
    /// The stream of the pixels that are converted.
    pub closed spec fn inner(&self) -> I {
        self.iter
    }

    /// Returns the stream of the pixels of `iter`, each of them converted to the format `D`.
    pub fn new(iter: I) -> (converted: Self)
        ensures
            converted.inner() == iter,
    {
        ColorConvert { _marker: PhantomData, iter }
    }
}

impl<I: Stream, D: FromPixel<I::Item>> Stream for ColorConvert<I, D> {
    type Item = D;

    open spec fn ready(&self) -> bool {
        &&& self.inner().ready()
        &&& forall|k: int|
            0 <= k < self.inner().rest().len() ==> D::convertible(#[trigger] self.inner().rest()[k])
    }

    open spec fn rest(&self) -> Seq<D> {
        Seq::new(self.inner().rest().len(), |k: int| D::converted(self.inner().rest()[k]))
    }

    fn next(&mut self) -> (item: Option<D>) {
        match self.iter.next() {
            None => None,
            Some(pix) => Some(D::from_pixel(pix)),
        }
    }
}

/// Adapter which converts a typed pixel stream into a stream of channel values.
pub struct Bytes<I> {
    iter: I,
}

impl<I: Stream> Bytes<I> where I::Item: Pixel {
    /// The stream of the pixels.
    pub closed spec fn inner(&self) -> I {
        self.iter
    }

    /// Returns the adapter for the pixels of `iter`.
    pub fn new(iter: I) -> (bytes: Self)
        ensures
            bytes.inner() == iter,
    {
        Bytes { iter }
    }

    /// Hands out the channel values of the next pixel, where there is one.
    pub fn next(&mut self) -> (chunk: Option<Vec<<I::Item as Pixel>::T>>)
        requires
            old(self).inner().ready(),
        ensures
            final(self).inner().ready(),
            old(self).inner().rest().len() == 0 ==> chunk is None && final(self).inner().rest().len()
                == 0,
            old(self).inner().rest().len() > 0 ==> chunk is Some && chunk->0@ == old(
                self,
            ).inner().rest()[0].values() && final(self).inner().rest() == old(
                self,
            ).inner().rest().skip(1),
    {
        match self.iter.next() {
            None => None,
            Some(pix) => {
                proof {
                    pix.lemma_values();
                }
                let channels = <I::Item as Pixel>::channels() as usize;
                let mut chunk: Vec<<I::Item as Pixel>::T> = Vec::new();
                while chunk.len() < channels
                    invariant
                        channels == <I::Item as Pixel>::spec_channels(),
                        pix.values().len() == channels,
                        chunk@.len() <= channels,
                        chunk@ == pix.values().take(chunk@.len() as int),
                    decreases channels - chunk@.len(),
                {
                    chunk.push(pix.at(chunk.len()));
                }
                Some(chunk)
            },
        }
    }

    /// Returns the channel values of all pixels, pixel by pixel.
    pub fn collect(self) -> (values: Vec<<I::Item as Pixel>::T>)
        requires
            self.inner().ready(),
        ensures
            values@ == values_of(self.inner().rest()),
    {
        proof {
            <I::Item as Pixel>::lemma_shape();
        }
        let mut iter = self.iter;
        let channels = <I::Item as Pixel>::channels() as usize;
        let ghost pixels = iter.rest();
        let ghost mut done: int = 0;
        let mut values: Vec<<I::Item as Pixel>::T> = Vec::new();
        loop
            invariant
                iter.ready(),
                channels == <I::Item as Pixel>::spec_channels(),
                channels >= 1,
                0 <= done <= pixels.len(),
                values@.len() == done * channels,
                iter.rest() == pixels.skip(done),
                forall|k: int| 0 <= k < values@.len() ==> values@[k] == values_of(pixels)[k],
            ensures
                done == pixels.len(),
            decreases pixels.len() - done,
        {
            let pix = match iter.next() {
                None => {
                    break ;
                },
                Some(pix) => pix,
            };
            proof {
                pix.lemma_values();
                lemma_product_bounds(done + 1, pixels.len() as int, channels as int);
                lemma_product_bounds(done, done, channels as int);
            }
            let mut c: usize = 0;
            while c < channels
                invariant
                    channels == <I::Item as Pixel>::spec_channels(),
                    channels >= 1,
                    pix.values().len() == channels,
                    pix == pixels[done],
                    0 <= done < pixels.len(),
                    c <= channels,
                    values@.len() == done * channels + c,
                    (done + 1) * channels <= pixels.len() * channels,
                    done * channels + channels == (done + 1) * channels,
                    forall|k: int| 0 <= k < values@.len() ==> values@[k] == values_of(pixels)[k],
                decreases channels - c,
            {
                proof {
                    let k = values@.len() as int;
                    assert(k / (channels as int) == done && k % (channels as int) == c)
                        by (nonlinear_arith)
                        requires
                            k == done * channels + c,
                            0 <= c < channels,
                            0 <= done,
                    ;
                }
                values.push(pix.at(c));
                c += 1;
            }
            proof {
                done = done + 1;
            }
        }
        values
    }

    /// Writes the channel values of all pixels to the front of `out`, pixel by pixel. What lies
    /// behind them in `out` stays as it is.
    pub fn write(self, out: &mut [<I::Item as Pixel>::T])
        requires
            self.inner().ready(),
            self.inner().rest().len() * <I::Item as Pixel>::spec_channels() <= old(out)@.len(),
        ensures
            final(out)@.len() == old(out)@.len(),
            forall|k: int|
                0 <= k < old(out)@.len() ==> #[trigger] final(out)@[k] == if k < values_of(
                    self.inner().rest(),
                ).len() {
                    values_of(self.inner().rest())[k]
                } else {
                    old(out)@[k]
                },
    {
        proof {
            <I::Item as Pixel>::lemma_shape();
        }
        let mut iter = self.iter;
        let channels = <I::Item as Pixel>::channels() as usize;
        let len = out.len();
        let ghost pixels = iter.rest();
        let ghost mut done: int = 0;
        let mut pos: usize = 0;
        loop
            invariant
                iter.ready(),
                channels == <I::Item as Pixel>::spec_channels(),
                channels >= 1,
                out@.len() == len,
                len == old(out)@.len(),
                0 <= done <= pixels.len(),
                pixels.len() * channels <= len,
                pos == done * channels,
                iter.rest() == pixels.skip(done),
                forall|k: int|
                    0 <= k < len ==> #[trigger] out@[k] == if k < pos {
                        values_of(pixels)[k]
                    } else {
                        old(out)@[k]
                    },
            ensures
                done == pixels.len(),
            decreases pixels.len() - done,
        {
            let pix = match iter.next() {
                None => {
                    break ;
                },
                Some(pix) => pix,
            };
            proof {
                pix.lemma_values();
                lemma_product_bounds(done + 1, pixels.len() as int, channels as int);
                lemma_product_bounds(done, done, channels as int);
            }
            let mut c: usize = 0;
            while c < channels
                invariant
                    channels == <I::Item as Pixel>::spec_channels(),
                    channels >= 1,
                    pix.values().len() == channels,
                    pix == pixels[done],
                    0 <= done < pixels.len(),
                    out@.len() == len,
                    c <= channels,
                    pos == done * channels + c,
                    (done + 1) * channels <= len,
                    done * channels + channels == (done + 1) * channels,
                    forall|k: int|
                        0 <= k < len ==> #[trigger] out@[k] == if k < pos {
                            values_of(pixels)[k]
                        } else {
                            old(out)@[k]
                        },
                decreases channels - c,
            {
                proof {
                    let k = pos as int;
                    assert(k / (channels as int) == done && k % (channels as int) == c)
                        by (nonlinear_arith)
                        requires
                            k == done * channels + c,
                            0 <= c < channels,
                            0 <= done,
                    ;
                    assert(k < pixels.len() * channels) by (nonlinear_arith)
                        requires
                            k < (done + 1) * channels,
                            done + 1 <= pixels.len(),
                            channels >= 1,
                    ;
                }
                out[pos] = pix.at(c);
                pos += 1;
                c += 1;
            }
            proof {
                done = done + 1;
            }
        }
    }
}

/// Adapter which converts a stream of channel values into a typed pixel stream.
pub trait PixelsExt: Stream + Sized {
    /// Returns the stream of the pixels that the channel values of the stream make.
    fn pixels<P: Pixel<T = Self::Item>>(self) -> (pixels: Pixels<Self, P>)
        ensures
            pixels.inner() == self,
    {
        Pixels::new(self)
    }
}

impl<I: Stream> PixelsExt for I {
}

/// Adapter which converts between color formats.
pub trait ColorConvertExt: Stream + Sized {
    /// Returns the stream of the pixels of the stream, each of them converted to the format
    /// `D`.
    fn colorconvert<D: FromPixel<Self::Item>>(self) -> (converted: ColorConvert<Self, D>)
        ensures
            converted.inner() == self,
    {
        ColorConvert::new(self)
    }
}

impl<I: Stream> ColorConvertExt for I {
}

/// Adapter which converts a typed pixel stream into a stream of channel values.
pub trait BytesExt: Stream + Sized where Self::Item: Pixel {
    /// Returns the adapter for the pixels of the stream.
    fn bytes(self) -> (bytes: Bytes<Self>)
        ensures
            bytes.inner() == self,
    {
        Bytes::new(self)
    }
}

impl<I: Stream> BytesExt for I where I::Item: Pixel {
}

} // verus!
