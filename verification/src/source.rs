use vstd::prelude::*;
use vstd::string::StrSliceExecFns;

verus! {

/// A pull-based producer of characters: the model of the plain sequences the
/// decoding adapters wrap.
pub trait CharSource {
    /// The characters the source will still yield, in order.
    spec fn remaining(&self) -> Seq<char>;

    /// Yields the next character, or `None` once the source is exhausted.
    fn next_char(&mut self) -> (r: Option<char>)
        ensures
            old(self).remaining().len() == 0 ==> r is None && final(self).remaining()
                == old(self).remaining(),
            old(self).remaining().len() > 0 ==> r == Some(old(self).remaining()[0])
                && final(self).remaining() == old(self).remaining().drop_first(),
    ;
}

/// A pull-based producer whose elements are each either a character or a
/// caller-defined error: the model of the fallible sequences the fallible
/// decoding adapters wrap.
pub trait FallibleCharSource {
    /// The caller-defined error type carried by failed elements.
    type Error;

    /// The elements the source will still yield, in order.
    spec fn remaining(&self) -> Seq<Result<char, Self::Error>>;

    /// Yields the next element, or `None` once the source is exhausted.
    fn next_result(&mut self) -> (r: Option<Result<char, Self::Error>>)
        ensures
            old(self).remaining().len() == 0 ==> r is None && final(self).remaining()
                == old(self).remaining(),
            old(self).remaining().len() > 0 ==> r == Some(old(self).remaining()[0])
                && final(self).remaining() == old(self).remaining().drop_first(),
    ;
}

/// A source over a vector of characters, yielded front to back.
pub struct VecCharSource {
    items: Vec<char>,
}

impl VecCharSource {
    /// Wraps a vector of characters as a source yielding them in order.
    pub fn new(items: Vec<char>) -> (r: Self)
        ensures
            r.remaining() == items@,
    {
        VecCharSource { items }
    }

    /// Builds a source over the characters of a string, in order.
    pub fn from_str(s: &str) -> (r: Self)
        ensures
            r.remaining() == s@,
    {
        let n = s.unicode_len();
        let mut items: Vec<char> = Vec::new();
        let mut i: usize = 0;
        while i < n
            invariant
                i <= n,
                n == s@.len(),
                items@ =~= s@.subrange(0, i as int),
            decreases n - i,
        {
            items.push(s.get_char(i));
            i = i + 1;
        }
        proof {
            assert(items@ =~= s@);
        }
        VecCharSource { items }
    }
}

impl CharSource for VecCharSource {
    closed spec fn remaining(&self) -> Seq<char> {
        self.items@
    }

    fn next_char(&mut self) -> (r: Option<char>) {
        if self.items.len() == 0 {
            None
        } else {
            let c = self.items.remove(0);
            proof {
                assert(self.items@ =~= old(self).remaining().drop_first());
            }
            Some(c)
        }
    }
}

/// A source over a vector of character-or-error elements, yielded front to
/// back.
pub struct VecResultSource<E> {
    items: Vec<Result<char, E>>,
}

impl<E> VecResultSource<E> {
    /// Wraps a vector of elements as a fallible source yielding them in
    /// order.
    pub fn new(items: Vec<Result<char, E>>) -> (r: Self)
        ensures
            r.remaining() == items@,
    {
        VecResultSource { items }
    }
}

impl<E> FallibleCharSource for VecResultSource<E> {
    type Error = E;

    closed spec fn remaining(&self) -> Seq<Result<char, E>> {
        self.items@
    }

    fn next_result(&mut self) -> (r: Option<Result<char, E>>) {
        if self.items.len() == 0 {
            None
        } else {
            let x = self.items.remove(0);
            proof {
                assert(self.items@ =~= old(self).remaining().drop_first());
            }
            Some(x)
        }
    }
}

} // verus!
