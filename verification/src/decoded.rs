use vstd::prelude::*;
use vstd::utf8::char_is_scalar;
use vstd::utf8::encode_scalar;

verus! {

/// Number of bytes the character occupies when encoded as UTF-8 (1 to 4).
pub open spec fn utf8_unit_len(c: char) -> usize {
    if (c as u32) < 0x80 {
        1
    } else if (c as u32) < 0x800 {
        2
    } else if (c as u32) < 0x10000 {
        3
    } else {
        4
    }
}

/// Number of 16-bit code units the character occupies when encoded as
/// UTF-16: 1 for scalar values up to 0xFFFF, 2 above.
pub open spec fn utf16_unit_len(c: char) -> usize {
    if (c as u32) < 0x10000 {
        1
    } else {
        2
    }
}

/// Decoded character.
///
/// A character and its original length, in encoding units, in the encoded
/// source.
#[derive(Debug, Clone, Copy)]
pub struct DecodedChar {
    /// Character.
    c: char,
    /// Length in encoding units in the encoded source.
    len: usize,
}

impl DecodedChar {
    /// The held character.
    pub closed spec fn character(&self) -> char {
        self.c
    }

    /// The held unit length.
    pub closed spec fn unit_length(&self) -> usize {
        self.len
    }

    /// The value `new` constructs from a character and a length.
    pub closed spec fn spec_new(c: char, len: usize) -> Self {
        DecodedChar { c, len }
    }

    /// The value `from_utf8` constructs from a character.
    pub closed spec fn spec_from_utf8(c: char) -> Self {
        DecodedChar { c, len: utf8_unit_len(c) }
    }

    /// The value `from_utf16` constructs from a character.
    pub closed spec fn spec_from_utf16(c: char) -> Self {
        DecodedChar { c, len: utf16_unit_len(c) }
    }

    /// Creates a new decoded character from its value, `c`, and its original
    /// length `len`, in encoding units, in the encoded source. The length is
    /// taken on the caller's word: no check relates it to `c`.
    pub fn new(c: char, len: usize) -> (r: Self)
        ensures
            r == Self::spec_new(c, len),
            r.character() == c,
            r.unit_length() == len,
    {
        DecodedChar { c, len }
    }

    /// Creates a new decoded character, decoded from a UTF-8 encoded source.
    pub fn from_utf8(c: char) -> (r: Self)
        ensures
            r == Self::spec_from_utf8(c),
            r.character() == c,
            r.unit_length() == utf8_unit_len(c),
    {
        let u = c as u32;
        let len: usize = if u < 0x80 {
            1
        } else if u < 0x800 {
            2
        } else if u < 0x10000 {
            3
        } else {
            4
        };
        DecodedChar { c, len }
    }

    /// Creates a new decoded character, decoded from a UTF-16 encoded source.
    pub fn from_utf16(c: char) -> (r: Self)
        ensures
            r == Self::spec_from_utf16(c),
            r.character() == c,
            r.unit_length() == utf16_unit_len(c),
    {
        let u = c as u32;
        let len: usize = if u < 0x10000 {
            1
        } else {
            2
        };
        DecodedChar { c, len }
    }

    /// Returns the character.
    pub fn chr(&self) -> (r: char)
        ensures
            r == self.character(),
    {
        self.c
    }

    /// Returns the original length, in encoding units, of the character in
    /// the encoded source.
    pub fn len(&self) -> (r: usize)
        ensures
            r == self.unit_length(),
    {
        self.len
    }

    /// Turns this `DecodedChar` into the underlying `char`.
    pub fn into_char(self) -> (r: char)
        ensures
            r == self.character(),
    {
        self.c
    }

    /// Turns this `DecodedChar` into the original length, in encoding units,
    /// in the encoded source.
    pub fn into_len(self) -> (r: usize)
        ensures
            r == self.unit_length(),
    {
        self.len
    }

    /// Turns this `DecodedChar` into the scalar value of the underlying
    /// `char`.
    pub fn into_u32(self) -> (r: u32)
        ensures
            r == self.character() as u32,
    {
        self.c as u32
    }

    /// Compares the underlying character against a plain character. The
    /// stored length plays no part: a decoded character compares as the
    /// character it wraps.
    pub fn eq_char(&self, other: char) -> (r: bool)
        ensures
            r == (self.character() == other),
    {
        self.c == other
    }
}

/// `spec_new` pairs exactly the character and the length it is given.
pub broadcast proof fn lemma_spec_new_views(c: char, len: usize)
    ensures
        (#[trigger] DecodedChar::spec_new(c, len)).character() == c,
        DecodedChar::spec_new(c, len).unit_length() == len,
{
}

/// `spec_from_utf8` pairs the character with its UTF-8 unit length.
pub broadcast proof fn lemma_spec_from_utf8_views(c: char)
    ensures
        (#[trigger] DecodedChar::spec_from_utf8(c)).character() == c,
        DecodedChar::spec_from_utf8(c).unit_length() == utf8_unit_len(c),
{
}

/// `spec_from_utf16` pairs the character with its UTF-16 unit length.
pub broadcast proof fn lemma_spec_from_utf16_views(c: char)
    ensures
        (#[trigger] DecodedChar::spec_from_utf16(c)).character() == c,
        DecodedChar::spec_from_utf16(c).unit_length() == utf16_unit_len(c),
{
}

/// A character annotated through `from_utf8` keeps its value: unwrapping
/// gives back exactly the character it was constructed from.
pub proof fn lemma_utf8_round_trip(c: char)
    ensures
        DecodedChar::spec_from_utf8(c).character() == c,
{
}

/// A character annotated through `from_utf16` keeps its value: unwrapping
/// gives back exactly the character it was constructed from.
pub proof fn lemma_utf16_round_trip(c: char)
    ensures
        DecodedChar::spec_from_utf16(c).character() == c,
{
}

/// The UTF-8 unit length is the length of the character's actual UTF-8
/// encoding, and lies between 1 and 4.
pub proof fn lemma_utf8_unit_len_matches_encoding(c: char)
    ensures
        utf8_unit_len(c) == encode_scalar(c as u32).len(),
        1 <= utf8_unit_len(c) <= 4,
{
    char_is_scalar(c);
}

/// The UTF-16 unit length is 1 for scalar values up to 0xFFFF and 2 above,
/// so it lies between 1 and 2.
pub proof fn lemma_utf16_unit_len_range(c: char)
    ensures
        utf16_unit_len(c) == if (c as u32) <= 0xFFFF {
            1usize
        } else {
            2usize
        },
        1 <= utf16_unit_len(c) <= 2,
{
}

/// Whether a decoded character equals a plain character depends only on the
/// character it was constructed from, never on the stored length.
pub proof fn lemma_eq_ignores_length(c: char, len: usize, other: char)
    ensures
        (DecodedChar::spec_new(c, len).character() == other) <==> (c == other),
{
}

} // verus!
