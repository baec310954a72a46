//! The scanner that the readers share.

use vstd::prelude::*;

verus! {

/// Bytes that are read from the front, one after the other.
pub struct ByteStream<'a> {
    bytes: &'a [u8],
    pos: usize,
}

impl<'a> ByteStream<'a> {
    /// The bytes that have not been read yet.
    pub closed spec fn rest(&self) -> Seq<u8> {
        if self.pos <= self.bytes@.len() {
            self.bytes@.skip(self.pos as int)
        } else {
            Seq::empty()
        }
    }

    /// Returns a stream of the given bytes.
    pub fn new(bytes: &'a [u8]) -> (stream: Self)
        ensures
            stream.rest() == bytes@,
    {
        let stream = ByteStream { bytes, pos: 0 };
        stream
    }

    /// Returns the number of bytes that have not been read yet.
    pub fn remaining(&self) -> (n: usize)
        ensures
            n == self.rest().len(),
    {
        if self.pos <= self.bytes.len() {
            self.bytes.len() - self.pos
        } else {
            0
        }
    }

    /// Reads the next byte, where there is one.
    pub fn next(&mut self) -> (byte: Option<u8>)
        ensures
            old(self).rest().len() == 0 ==> byte is None && final(self).rest() == old(self).rest(),
            old(self).rest().len() > 0 ==> byte == Some(old(self).rest()[0]) && final(self).rest()
                == old(self).rest().skip(1),
    {
        if self.pos < self.bytes.len() {
            let byte = self.bytes[self.pos];
            self.pos += 1;
            Some(byte)
        } else {
            None
        }
    }

    /// Reads the next `count` bytes, or all that are left where they are fewer.
    pub fn take(&mut self, count: usize) -> (bytes: Vec<u8>)
        ensures
            count <= old(self).rest().len() ==> bytes@ == old(self).rest().take(count as int)
                && final(self).rest() == old(self).rest().skip(count as int),
            count > old(self).rest().len() ==> bytes@ == old(self).rest() && final(self).rest().len()
                == 0,
    {
        let len = self.bytes.len();
        if self.pos >= len {
            return Vec::new();
        }
        let left = len - self.pos;
        let count = if count < left {
            count
        } else {
            left
        };
        let taken = vstd::slice::slice_subrange(self.bytes, self.pos, self.pos + count);
        let bytes = vstd::slice::slice_to_vec(taken);
        self.pos += count;
        bytes
    }
}

/// The kinds of bytes that a run is made of.
#[derive(Debug, Clone, Copy, PartialEq, Eq, Structural)]
pub enum Class {
    /// The letters of the alphabet, small and capital
    Letter,
    /// The ten digits
    Digit,
    /// Everything but the space and the line feed
    Word,
}

/// Whether the byte is a letter of the alphabet.
pub open spec fn is_letter(byte: u8) -> bool {
    0x41 <= byte <= 0x5a || 0x61 <= byte <= 0x7a
}

/// Whether the byte is a digit.
pub open spec fn is_digit(byte: u8) -> bool {
    0x30 <= byte <= 0x39
}

/// Whether the byte is a space or a line feed.
pub open spec fn is_blank(byte: u8) -> bool {
    byte == 0x20 || byte == 0x0a
}

impl Class {
    /// Whether a byte belongs to the class.
    pub open spec fn spec_holds(self, byte: u8) -> bool {
        match self {
            Class::Letter => is_letter(byte),
            Class::Digit => is_digit(byte),
            Class::Word => !is_blank(byte),
        }
    }

    /// Returns whether a byte belongs to the class.
    #[verifier::when_used_as_spec(spec_holds)]
    pub fn holds(self, byte: u8) -> (held: bool)
        ensures
            held == self.spec_holds(byte),
    {
        match self {
            Class::Letter => (0x41 <= byte && byte <= 0x5a) || (0x61 <= byte && byte <= 0x7a),
            Class::Digit => 0x30 <= byte && byte <= 0x39,
            Class::Word => !(byte == 0x20 || byte == 0x0a),
        }
    }
}

/// The length of the run at the front of `bytes`: the number of bytes before the first one
/// that does not belong to the class.
pub open spec fn run_len(class: Class, bytes: Seq<u8>) -> nat
    decreases bytes.len(),
{
    if bytes.len() > 0 && class.holds(bytes[0]) {
        1 + run_len(class, bytes.skip(1))
    } else {
        0
    }
}

/// The characters that the bytes stand for, each byte one character.
pub open spec fn text_of(bytes: Seq<u8>) -> Seq<char> {
    Seq::new(bytes.len(), |k: int| bytes[k] as char)
}

/// The run at the front of a sequence lies within it, is made of bytes of the class, and ends
/// before a byte that is not of the class or at the end.
pub proof fn lemma_run_len(class: Class, bytes: Seq<u8>)
    ensures
        run_len(class, bytes) <= bytes.len(),
        forall|k: int| 0 <= k < run_len(class, bytes) ==> class.holds(#[trigger] bytes[k]),
        run_len(class, bytes) < bytes.len() ==> !class.holds(bytes[run_len(class, bytes) as int]),
    decreases bytes.len(),
{
    if bytes.len() > 0 && class.holds(bytes[0]) {
        let tail = bytes.skip(1);
        lemma_run_len(class, tail);
        assert forall|k: int| 0 <= k < run_len(class, bytes) implies class.holds(
            #[trigger] bytes[k],
        ) by {
            if k > 0 {
                assert(bytes[k] == tail[k - 1]);
            }
        }
    }
}

/// A stretch of bytes of the class at the front of a sequence that ends before a byte that is
/// not of the class, or at the end, is the run at the front.
pub proof fn lemma_run_found(class: Class, bytes: Seq<u8>, n: nat)
    requires
        n <= bytes.len(),
        forall|k: int| 0 <= k < n ==> class.holds(#[trigger] bytes[k]),
        n < bytes.len() ==> !class.holds(bytes[n as int]),
    ensures
        run_len(class, bytes) == n,
    decreases n,
{
    if n > 0 {
        lemma_run_found(class, bytes.skip(1), (n - 1) as nat);
    }
}

/// `String::push`: appends one character to the end of the string.
#[verifier::external_body]
fn push_char(text: &mut String, c: char)
    ensures
        final(text)@ == old(text)@.push(c),
{
    text.push(c)
}

/// Reads one byte and tells whether it is a letter.
///
/// Returns None at the end of the stream, the letter as a character, or the byte that is no
/// letter.
pub fn parse_char(bytes: &mut ByteStream) -> (found: Option<Result<char, u8>>)
    ensures
        old(bytes).rest().len() == 0 ==> found is None && final(bytes).rest() == old(bytes).rest(),
        old(bytes).rest().len() > 0 ==> {
            let byte = old(bytes).rest()[0];
            &&& final(bytes).rest() == old(bytes).rest().skip(1)
            &&& found == Some(
                if is_letter(byte) {
                    Ok::<char, u8>(byte as char)
                } else {
                    Err::<char, u8>(byte)
                },
            )
        },
{
    match bytes.next() {
        None => None,
        Some(byte) => if Class::Letter.holds(byte) {
            Some(Ok(byte as char))
        } else {
            Some(Err(byte))
        },
    }
}

/// Reads one byte and tells whether it is a digit.
///
/// Returns None at the end of the stream, the digit as a character, or the byte that is no
/// digit.
pub fn parse_digit(bytes: &mut ByteStream) -> (found: Option<Result<char, u8>>)
    ensures
        old(bytes).rest().len() == 0 ==> found is None && final(bytes).rest() == old(bytes).rest(),
        old(bytes).rest().len() > 0 ==> {
            let byte = old(bytes).rest()[0];
            &&& final(bytes).rest() == old(bytes).rest().skip(1)
            &&& found == Some(
                if is_digit(byte) {
                    Ok::<char, u8>(byte as char)
                } else {
                    Err::<char, u8>(byte)
                },
            )
        },
{
    match bytes.next() {
        None => None,
        Some(byte) => if Class::Digit.holds(byte) {
            Some(Ok(byte as char))
        } else {
            Some(Err(byte))
        },
    }
}

/// Reads the run of bytes of a class at the front of the stream, and the byte that ends it.
///
/// Returns the run as text and the byte behind it. Where the stream ends before a byte that
/// is not of the class, the stream is read to its end and None is returned.
pub fn parse_seq(bytes: &mut ByteStream, class: Class) -> (found: Option<(String, u8)>)
    ensures
        ({
            let rest = old(bytes).rest();
            let n = run_len(class, rest);
            &&& n == rest.len() ==> found is None && final(bytes).rest().len() == 0
            &&& n < rest.len() ==> {
                &&& found matches Some((text, byte)) && text@ == text_of(rest.take(n as int))
                    && byte == rest[n as int]
                &&& final(bytes).rest() == rest.skip(n + 1 as int)
            }
        }),
{
    let mut seq = String::new();
    let ghost rest = bytes.rest();
    let ghost mut n: nat = 0;
    loop
        invariant
            rest == old(bytes).rest(),
            n <= rest.len(),
            bytes.rest() == rest.skip(n as int),
            seq@ == text_of(rest.take(n as int)),
            forall|k: int| 0 <= k < n ==> class.holds(#[trigger] rest[k]),
        decreases rest.len() - n,
    {
        match bytes.next() {
            None => {
                proof {
                    lemma_run_found(class, rest, n);
                }
                return None;
            },
            Some(byte) => {
                if class.holds(byte) {
                    push_char(&mut seq, byte as char);
                    proof {
                        n = n + 1;
                    }
                } else {
                    proof {
                        lemma_run_found(class, rest, n);
                    }
                    return Some((seq, byte));
                }
            },
        }
    }
}

/// Reads a word, a run of bytes that are neither space nor line feed, and the blank behind
/// it.
///
/// Returns the word as text and the blank. Where the stream ends before a blank, the stream
/// is read to its end and None is returned.
pub fn parse_ascii(bytes: &mut ByteStream) -> (found: Option<(String, u8)>)
    ensures
        match word_at(old(bytes).rest()) {
            None => found is None && final(bytes).rest().len() == 0,
            Some((word, blank, rest)) => found matches Some((text, byte)) && text@ == word && byte
                == blank && final(bytes).rest() == rest,
        },
{
    proof {
        lemma_run_len(Class::Word, bytes.rest());
    }
    parse_seq(bytes, Class::Word)
}

/// Why a run of digits is no number of 32 bits.
#[derive(Debug, Clone, Copy, PartialEq, Eq, Structural)]
pub enum NumberError {
    /// There is no digit.
    Empty,
    /// The number is larger than 32 bits hold.
    Overflow,
}

/// The number that a sequence of digits stands for in base ten.
pub open spec fn decimal(digits: Seq<u8>) -> nat
    decreases digits.len(),
{
    if digits.len() == 0 {
        0
    } else {
        decimal(digits.drop_last()) * 10 + (digits.last() - 0x30) as nat
    }
}

/// The number of 32 bits that a sequence of digits stands for, or why it stands for none.
pub open spec fn number_of(digits: Seq<u8>) -> Result<u32, NumberError> {
    if digits.len() == 0 {
        Err(NumberError::Empty)
    } else if decimal(digits) > u32::MAX {
        Err(NumberError::Overflow)
    } else {
        Ok(decimal(digits) as u32)
    }
}

/// The number at the front of `bytes`, the byte that ends it, and what follows that byte.
/// None where the digits reach the end of the bytes.
pub open spec fn number_at(bytes: Seq<u8>) -> Option<(Result<u32, NumberError>, u8, Seq<u8>)> {
    let n = run_len(Class::Digit, bytes);
    if n < bytes.len() {
        Some((number_of(bytes.take(n as int)), bytes[n as int], bytes.skip(n + 1 as int)))
    } else {
        None
    }
}

/// The word at the front of `bytes`, the blank that ends it, and what follows the blank. None
/// where the word reaches the end of the bytes.
pub open spec fn word_at(bytes: Seq<u8>) -> Option<(Seq<char>, u8, Seq<u8>)> {
    let n = run_len(Class::Word, bytes);
    if n < bytes.len() {
        Some((text_of(bytes.take(n as int)), bytes[n as int], bytes.skip(n + 1 as int)))
    } else {
        None
    }
}

/// Reads a number in base ten, a run of digits, and the byte that ends it.
///
/// Returns the number, or why the digits are none, and the byte behind them. Where the stream
/// ends before a byte that is no digit, the stream is read to its end and None is returned.
pub fn parse_u32(bytes: &mut ByteStream) -> (found: Option<(Result<u32, NumberError>, u8)>)
    ensures
        match number_at(old(bytes).rest()) {
            None => found is None && final(bytes).rest().len() == 0,
            Some((number, byte, rest)) => found == Some((number, byte)) && final(bytes).rest()
                == rest,
        },
{
    let mut value: u32 = 0;
    let mut overflow = false;
    let mut empty = true;
    let ghost rest = bytes.rest();
    let ghost mut n: nat = 0;
    loop
        invariant
            rest == old(bytes).rest(),
            n <= rest.len(),
            bytes.rest() == rest.skip(n as int),
            forall|k: int| 0 <= k < n ==> is_digit(#[trigger] rest[k]),
            empty <==> n == 0,
            !overflow ==> value == decimal(rest.take(n as int)),
            overflow ==> decimal(rest.take(n as int)) > u32::MAX,
        decreases rest.len() - n,
    {
        match bytes.next() {
            None => {
                proof {
                    lemma_run_found(Class::Digit, rest, n);
                }
                return None;
            },
            Some(byte) => {
                if Class::Digit.holds(byte) {
                    proof {
                        assert(rest.take(n + 1 as int).drop_last() =~= rest.take(n as int));
                    }
                    if !overflow {
                        let next = value as u64 * 10 + (byte - 0x30) as u64;
                        if next > u32::MAX as u64 {
                            overflow = true;
                        } else {
                            value = next as u32;
                        }
                    }
                    empty = false;
                    proof {
                        n = n + 1;
                    }
                } else {
                    proof {
                        lemma_run_found(Class::Digit, rest, n);
                    }
                    let number = if empty {
                        Err(NumberError::Empty)
                    } else if overflow {
                        Err(NumberError::Overflow)
                    } else {
                        Ok(value)
                    };
                    return Some((number, byte));
                }
            },
        }
    }
}

} // verus!
