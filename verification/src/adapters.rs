use crate::decoded::DecodedChar;
use crate::source::CharSource;
use crate::source::FallibleCharSource;
use crate::source::VecCharSource;
use vstd::prelude::*;

verus! {

/// The element a fallible UTF-8 adapter yields for a pulled element: a
/// success gains its UTF-8 unit length, an error passes through unchanged.
pub open spec fn utf8_annotated<E>(x: Result<char, E>) -> Result<DecodedChar, E> {
    match x {
        Ok(c) => Ok(DecodedChar::spec_from_utf8(c)),
        Err(e) => Err(e),
    }
}

/// The element a fallible UTF-16 adapter yields for a pulled element: a
/// success gains its UTF-16 unit length, an error passes through unchanged.
pub open spec fn utf16_annotated<E>(x: Result<char, E>) -> Result<DecodedChar, E> {
    match x {
        Ok(c) => Ok(DecodedChar::spec_from_utf16(c)),
        Err(e) => Err(e),
    }
}

/// Adapter wrapping a character source decoded from a UTF-8 encoded source:
/// each pulled character is annotated with its UTF-8 unit length.
pub struct Utf8Decoded<C>(pub C);

impl<C: CharSource> Utf8Decoded<C> {
    /// The characters the wrapped source will still yield, in order.
    pub open spec fn remaining(&self) -> Seq<char> {
        self.0.remaining()
    }

    /// Wraps a character source.
    pub fn new(chars: C) -> (r: Self)
        ensures
            r.remaining() == chars.remaining(),
    {
        Utf8Decoded(chars)
    }

    /// Pulls one character from the wrapped source and annotates it with its
    /// UTF-8 unit length; end of sequence propagates unchanged.
    pub fn next(&mut self) -> (r: Option<DecodedChar>)
        ensures
            old(self).remaining().len() == 0 ==> r is None && final(self).remaining()
                == old(self).remaining(),
            old(self).remaining().len() > 0 ==> r == Some(
                DecodedChar::spec_from_utf8(old(self).remaining()[0]),
            ) && final(self).remaining() == old(self).remaining().drop_first(),
    {
        match self.0.next_char() {
            Some(c) => Some(DecodedChar::from_utf8(c)),
            None => None,
        }
    }

    /// Pulls the adapter to its end: yields every remaining character,
    /// annotated with its UTF-8 unit length, in the order and number of the
    /// wrapped sequence.
    pub fn decode_all(&mut self) -> (r: Vec<DecodedChar>)
        ensures
            r@.len() == old(self).remaining().len(),
            forall|i: int|
                0 <= i < r@.len() ==> r@[i] == DecodedChar::spec_from_utf8(
                    old(self).remaining()[i],
                ),
            final(self).remaining().len() == 0,
    {
        let ghost orig: Seq<char> = self.remaining();
        let mut out: Vec<DecodedChar> = Vec::new();
        loop
            invariant
                out@.len() <= orig.len(),
                self.remaining() =~= orig.subrange(out@.len() as int, orig.len() as int),
                forall|i: int|
                    0 <= i < out@.len() ==> out@[i] == DecodedChar::spec_from_utf8(orig[i]),
            ensures
                out@.len() == orig.len(),
                forall|i: int|
                    0 <= i < out@.len() ==> out@[i] == DecodedChar::spec_from_utf8(orig[i]),
                self.remaining().len() == 0,
            decreases self.remaining().len(),
        {
            match self.next() {
                Some(dc) => {
                    out.push(dc);
                },
                None => {
                    break;
                },
            }
        }
        out
    }
}

/// Adapter wrapping a character source decoded from a UTF-16 encoded source:
/// each pulled character is annotated with its UTF-16 unit length.
pub struct Utf16Decoded<C>(pub C);

impl<C: CharSource> Utf16Decoded<C> {
    /// The characters the wrapped source will still yield, in order.
    pub open spec fn remaining(&self) -> Seq<char> {
        self.0.remaining()
    }

    /// Wraps a character source.
    pub fn new(chars: C) -> (r: Self)
        ensures
            r.remaining() == chars.remaining(),
    {
        Utf16Decoded(chars)
    }

    /// Pulls one character from the wrapped source and annotates it with its
    /// UTF-16 unit length; end of sequence propagates unchanged.
    pub fn next(&mut self) -> (r: Option<DecodedChar>)
        ensures
            old(self).remaining().len() == 0 ==> r is None && final(self).remaining()
                == old(self).remaining(),
            old(self).remaining().len() > 0 ==> r == Some(
                DecodedChar::spec_from_utf16(old(self).remaining()[0]),
            ) && final(self).remaining() == old(self).remaining().drop_first(),
    {
        match self.0.next_char() {
            Some(c) => Some(DecodedChar::from_utf16(c)),
            None => None,
        }
    }

    /// Pulls the adapter to its end: yields every remaining character,
    /// annotated with its UTF-16 unit length, in the order and number of the
    /// wrapped sequence.
    pub fn decode_all(&mut self) -> (r: Vec<DecodedChar>)
        ensures
            r@.len() == old(self).remaining().len(),
            forall|i: int|
                0 <= i < r@.len() ==> r@[i] == DecodedChar::spec_from_utf16(
                    old(self).remaining()[i],
                ),
            final(self).remaining().len() == 0,
    {
        let ghost orig: Seq<char> = self.remaining();
        let mut out: Vec<DecodedChar> = Vec::new();
        loop
            invariant
                out@.len() <= orig.len(),
                self.remaining() =~= orig.subrange(out@.len() as int, orig.len() as int),
                forall|i: int|
                    0 <= i < out@.len() ==> out@[i] == DecodedChar::spec_from_utf16(orig[i]),
            ensures
                out@.len() == orig.len(),
                forall|i: int|
                    0 <= i < out@.len() ==> out@[i] == DecodedChar::spec_from_utf16(orig[i]),
                self.remaining().len() == 0,
            decreases self.remaining().len(),
        {
            match self.next() {
                Some(dc) => {
                    out.push(dc);
                },
                None => {
                    break;
                },
            }
        }
        out
    }
}

/// Adapter wrapping a fallible character source decoded from a UTF-8 encoded
/// source: each pulled success is annotated with its UTF-8 unit length, each
/// pulled error passes through unchanged.
pub struct FallibleUtf8Decoded<C>(pub C);

impl<C: FallibleCharSource> FallibleUtf8Decoded<C> {
    /// The elements the wrapped source will still yield, in order.
    pub open spec fn remaining(&self) -> Seq<Result<char, C::Error>> {
        self.0.remaining()
    }

    /// Wraps a fallible character source.
    pub fn new(chars: C) -> (r: Self)
        ensures
            r.remaining() == chars.remaining(),
    {
        FallibleUtf8Decoded(chars)
    }

    /// Pulls one element from the wrapped source; a success is annotated
    /// with its UTF-8 unit length, an error is yielded unchanged, and end of
    /// sequence propagates unchanged.
    pub fn next(&mut self) -> (r: Option<Result<DecodedChar, C::Error>>)
        ensures
            old(self).remaining().len() == 0 ==> r is None && final(self).remaining()
                == old(self).remaining(),
            old(self).remaining().len() > 0 ==> r == Some(
                utf8_annotated(old(self).remaining()[0]),
            ) && final(self).remaining() == old(self).remaining().drop_first(),
    {
        match self.0.next_result() {
            Some(res) => match res {
                Ok(c) => Some(Ok(DecodedChar::from_utf8(c))),
                Err(e) => Some(Err(e)),
            },
            None => None,
        }
    }

    /// Pulls the adapter to its end: yields every remaining element, each
    /// success annotated with its UTF-8 unit length and each error unchanged,
    /// in the order and number of the wrapped sequence.
    pub fn decode_all(&mut self) -> (r: Vec<Result<DecodedChar, C::Error>>)
        ensures
            r@.len() == old(self).remaining().len(),
            forall|i: int|
                0 <= i < r@.len() ==> r@[i] == utf8_annotated(old(self).remaining()[i]),
            final(self).remaining().len() == 0,
    {
        let ghost orig: Seq<Result<char, C::Error>> = self.remaining();
        let mut out: Vec<Result<DecodedChar, C::Error>> = Vec::new();
        loop
            invariant
                out@.len() <= orig.len(),
                self.remaining() =~= orig.subrange(out@.len() as int, orig.len() as int),
                forall|i: int| 0 <= i < out@.len() ==> out@[i] == utf8_annotated(orig[i]),
            ensures
                out@.len() == orig.len(),
                forall|i: int| 0 <= i < out@.len() ==> out@[i] == utf8_annotated(orig[i]),
                self.remaining().len() == 0,
            decreases self.remaining().len(),
        {
            match self.next() {
                Some(x) => {
                    out.push(x);
                },
                None => {
                    break;
                },
            }
        }
        out
    }
}

/// Adapter wrapping a fallible character source decoded from a UTF-16
/// encoded source: each pulled success is annotated with its UTF-16 unit
/// length, each pulled error passes through unchanged.
pub struct FallibleUtf16Decoded<C>(pub C);

impl<C: FallibleCharSource> FallibleUtf16Decoded<C> {
    /// The elements the wrapped source will still yield, in order.
    pub open spec fn remaining(&self) -> Seq<Result<char, C::Error>> {
        self.0.remaining()
    }

    /// Wraps a fallible character source.
    pub fn new(chars: C) -> (r: Self)
        ensures
            r.remaining() == chars.remaining(),
    {
        FallibleUtf16Decoded(chars)
    }

    /// Pulls one element from the wrapped source; a success is annotated
    /// with its UTF-16 unit length, an error is yielded unchanged, and end of
    /// sequence propagates unchanged.
    pub fn next(&mut self) -> (r: Option<Result<DecodedChar, C::Error>>)
        ensures
            old(self).remaining().len() == 0 ==> r is None && final(self).remaining()
                == old(self).remaining(),
            old(self).remaining().len() > 0 ==> r == Some(
                utf16_annotated(old(self).remaining()[0]),
            ) && final(self).remaining() == old(self).remaining().drop_first(),
    {
        match self.0.next_result() {
            Some(res) => match res {
                Ok(c) => Some(Ok(DecodedChar::from_utf16(c))),
                Err(e) => Some(Err(e)),
            },
            None => None,
        }
    }

    /// Pulls the adapter to its end: yields every remaining element, each
    /// success annotated with its UTF-16 unit length and each error
    /// unchanged, in the order and number of the wrapped sequence.
    pub fn decode_all(&mut self) -> (r: Vec<Result<DecodedChar, C::Error>>)
        ensures
            r@.len() == old(self).remaining().len(),
            forall|i: int|
                0 <= i < r@.len() ==> r@[i] == utf16_annotated(old(self).remaining()[i]),
            final(self).remaining().len() == 0,
    {
        let ghost orig: Seq<Result<char, C::Error>> = self.remaining();
        let mut out: Vec<Result<DecodedChar, C::Error>> = Vec::new();
        loop
            invariant
                out@.len() <= orig.len(),
                self.remaining() =~= orig.subrange(out@.len() as int, orig.len() as int),
                forall|i: int| 0 <= i < out@.len() ==> out@[i] == utf16_annotated(orig[i]),
            ensures
                out@.len() == orig.len(),
                forall|i: int| 0 <= i < out@.len() ==> out@[i] == utf16_annotated(orig[i]),
                self.remaining().len() == 0,
            decreases self.remaining().len(),
        {
            match self.next() {
                Some(x) => {
                    out.push(x);
                },
                None => {
                    break;
                },
            }
        }
        out
    }
}

/// Extension for `str` providing the `decoded_chars` method.
pub trait DecodedChars: View<V = Seq<char>> {
    /// Returns an adapter over the UTF-8 decoded characters of the string,
    /// each wrapped inside a `DecodedChar`.
    fn decoded_chars(&self) -> (r: Utf8Decoded<VecCharSource>)
        ensures
            r.remaining() == self@,
    ;
}

impl DecodedChars for str {
    fn decoded_chars(&self) -> (r: Utf8Decoded<VecCharSource>) {
        Utf8Decoded(VecCharSource::from_str(self))
    }
}

} // verus!
