//! Field elements: the 252-bit values that serve as addresses, storage keys,
//! class hashes, nonces and stored values.
//!
//! An element is held as four 64-bit words, most significant first, and
//! stands for the number those words spell in base 2^64. Two elements are
//! equal when their words are, so equality and hashing are bitwise.

use vstd::prelude::*;

verus! {

/// A field element as four 64-bit words, `w3` the most significant.
#[derive(Debug, Clone, Copy, PartialEq, Eq, Hash, Structural)]
pub struct Felt {
    pub w3: u64,
    pub w2: u64,
    pub w1: u64,
    pub w0: u64,
}

/// The most significant word of the field's modulus less one. The modulus is
/// `2^251 + 17 * 2^192 + 1`, so the largest element has this word on top and
/// zeros below.
pub const TOP_WORD_MAX: u64 = 0x0800_0000_0000_0011;

/// The modulus of the field, `2^251 + 17 * 2^192 + 1`.
pub open spec fn field_modulus() -> nat {
    0x0800_0000_0000_0011_0000_0000_0000_0000_0000_0000_0000_0000_0000_0000_0000_0001nat
}

/// The number that four words spell in base 2^64, most significant first.
pub open spec fn words_value(w3: u64, w2: u64, w1: u64, w0: u64) -> nat {
    (w3 as nat) * 0x1_0000_0000_0000_0000_0000_0000_0000_0000_0000_0000_0000_0000nat
        + (w2 as nat) * 0x1_0000_0000_0000_0000_0000_0000_0000_0000nat
        + (w1 as nat) * 0x1_0000_0000_0000_0000nat
        + (w0 as nat)
}

/// The element that spells `value`, for a value below 2^256: its words are
/// the digits of the value in base 2^64.
pub open spec fn felt_of(value: nat) -> Felt {
    let base = 0x1_0000_0000_0000_0000nat;
    Felt {
        w3: (value / base / base / base) as u64,
        w2: (value / base / base % base) as u64,
        w1: (value / base % base) as u64,
        w0: (value % base) as u64,
    }
}

/// The number that the eight bytes from `start` on spell, most significant
/// first.
pub open spec fn be_word(bytes: Seq<u8>, start: int) -> nat {
    (bytes[start] as nat) * 0x0100_0000_0000_0000nat
        + (bytes[start + 1] as nat) * 0x0001_0000_0000_0000nat
        + (bytes[start + 2] as nat) * 0x0000_0100_0000_0000nat
        + (bytes[start + 3] as nat) * 0x0000_0001_0000_0000nat
        + (bytes[start + 4] as nat) * 0x0000_0000_0100_0000nat
        + (bytes[start + 5] as nat) * 0x0000_0000_0001_0000nat
        + (bytes[start + 6] as nat) * 0x0000_0000_0000_0100nat
        + (bytes[start + 7] as nat)
}

/// The element that thirty-two bytes spell, most significant first.
pub open spec fn felt_of_bytes(bytes: Seq<u8>) -> Felt {
    Felt {
        w3: be_word(bytes, 0) as u64,
        w2: be_word(bytes, 8) as u64,
        w1: be_word(bytes, 16) as u64,
        w0: be_word(bytes, 24) as u64,
    }
}

impl View for Felt {
    type V = nat;

    open spec fn view(&self) -> nat {
        words_value(self.w3, self.w2, self.w1, self.w0)
    }
}

impl Felt {
    /// Whether the words spell a number below the modulus.
    pub open spec fn in_field(&self) -> bool {
        self@ < field_modulus()
    }

    /// The words as a tuple, most significant first.
    pub open spec fn spec_words(&self) -> (u64, u64, u64, u64) {
        (self.w3, self.w2, self.w1, self.w0)
    }

    pub fn words(&self) -> (w: (u64, u64, u64, u64))
        ensures
            w == self.spec_words(),
    {
        (self.w3, self.w2, self.w1, self.w0)
    }

    pub fn zero() -> (z: Felt)
        ensures
            z@ == 0,
            z == (Felt { w3: 0, w2: 0, w1: 0, w0: 0 }),
    {
        Felt { w3: 0, w2: 0, w1: 0, w0: 0 }
    }

    pub fn one() -> (o: Felt)
        ensures
            o@ == 1,
            o == (Felt { w3: 0, w2: 0, w1: 0, w0: 1 }),
    {
        Felt { w3: 0, w2: 0, w1: 0, w0: 1 }
    }

    pub fn from_u64(value: u64) -> (f: Felt)
        ensures
            f@ == value,
            f == (Felt { w3: 0, w2: 0, w1: 0, w0: value }),
            f.in_field(),
    {
        Felt { w3: 0, w2: 0, w1: 0, w0: value }
    }

    /// The element as a 64-bit number, when it is small enough to be one.
    pub fn to_u64(&self) -> (n: Option<u64>)
        ensures
            match n {
                Some(small) => self@ == small,
                None => self@ > u64::MAX,
            },
    {
        if self.w3 == 0 && self.w2 == 0 && self.w1 == 0 {
            Some(self.w0)
        } else {
            None
        }
    }

    /// The element that thirty-two bytes spell, most significant first.
    pub fn from_bytes_be(bytes: &[u8; 32]) -> (f: Felt)
        ensures
            f == felt_of_bytes(bytes@),
    {
        Felt {
            w3: word_from_bytes(bytes, 0),
            w2: word_from_bytes(bytes, 8),
            w1: word_from_bytes(bytes, 16),
            w0: word_from_bytes(bytes, 24),
        }
    }

    /// The thirty-two bytes that spell the element, most significant first.
    pub fn to_bytes_be(&self) -> (bytes: [u8; 32])
        ensures
            felt_of_bytes(bytes@) == *self,
    {
        let a = word_to_bytes(self.w3);
        let b = word_to_bytes(self.w2);
        let c = word_to_bytes(self.w1);
        let d = word_to_bytes(self.w0);
        [
            a[0], a[1], a[2], a[3], a[4], a[5], a[6], a[7],
            b[0], b[1], b[2], b[3], b[4], b[5], b[6], b[7],
            c[0], c[1], c[2], c[3], c[4], c[5], c[6], c[7],
            d[0], d[1], d[2], d[3], d[4], d[5], d[6], d[7],
        ]
    }

    /// Whether the element lies in the field, computed.
    pub fn is_in_field(&self) -> (b: bool)
        ensures
            b == self.in_field(),
    {
        self.w3 < TOP_WORD_MAX || (self.w3 == TOP_WORD_MAX && self.w2 == 0 && self.w1 == 0
            && self.w0 == 0)
    }

    /// The next element, or `None` where adding one would reach or pass the
    /// modulus.
    pub open spec fn spec_try_increment(&self) -> Option<Felt> {
        if self@ + 1 < field_modulus() {
            Some(felt_of(self@ + 1))
        } else {
            None
        }
    }

    pub fn try_increment(&self) -> (next: Option<Felt>)
        ensures
            next == self.spec_try_increment(),
            next matches Some(n) ==> n@ == self@ + 1,
    {
        if self.w3 >= TOP_WORD_MAX {
            return None;
        }
        let next = if self.w0 < u64::MAX {
            Felt { w3: self.w3, w2: self.w2, w1: self.w1, w0: self.w0 + 1 }
        } else if self.w1 < u64::MAX {
            Felt { w3: self.w3, w2: self.w2, w1: self.w1 + 1, w0: 0 }
        } else if self.w2 < u64::MAX {
            Felt { w3: self.w3, w2: self.w2 + 1, w1: 0, w0: 0 }
        } else {
            Felt { w3: self.w3 + 1, w2: 0, w1: 0, w0: 0 }
        };
        proof {
            lemma_felt_of_value(next);
        }
        Some(next)
    }
}

/// The word that the eight bytes from `start` on spell.
fn word_from_bytes(bytes: &[u8; 32], start: usize) -> (word: u64)
    requires
        start + 8 <= 32,
    ensures
        word == be_word(bytes@, start as int),
{
    (bytes[start] as u64) * 0x0100_0000_0000_0000
        + (bytes[start + 1] as u64) * 0x0001_0000_0000_0000
        + (bytes[start + 2] as u64) * 0x0000_0100_0000_0000
        + (bytes[start + 3] as u64) * 0x0000_0001_0000_0000
        + (bytes[start + 4] as u64) * 0x0000_0000_0100_0000
        + (bytes[start + 5] as u64) * 0x0000_0000_0001_0000
        + (bytes[start + 6] as u64) * 0x0000_0000_0000_0100
        + (bytes[start + 7] as u64)
}

/// The eight bytes that spell a word, most significant first.
fn word_to_bytes(word: u64) -> (bytes: [u8; 8])
    ensures
        be_word(bytes@, 0) == word,
{
    let b7 = (word % 256) as u8;
    let rest = word / 256;
    let b6 = (rest % 256) as u8;
    let rest = rest / 256;
    let b5 = (rest % 256) as u8;
    let rest = rest / 256;
    let b4 = (rest % 256) as u8;
    let rest = rest / 256;
    let b3 = (rest % 256) as u8;
    let rest = rest / 256;
    let b2 = (rest % 256) as u8;
    let rest = rest / 256;
    let b1 = (rest % 256) as u8;
    let rest = rest / 256;
    let b0 = (rest % 256) as u8;
    [b0, b1, b2, b3, b4, b5, b6, b7]
}

/// An element is the one that spells its own value.
pub proof fn lemma_felt_of_value(f: Felt)
    ensures
        felt_of(f@) == f,
{
    let base = 0x1_0000_0000_0000_0000nat;
    let top = f.w3 as nat;
    let upper = top * base + f.w2 as nat;
    let middle = upper * base + f.w1 as nat;
    assert(f@ == middle * base + f.w0 as nat);
    assert(f@ / base == middle && f@ % base == f.w0);
    assert(middle / base == upper && middle % base == f.w1);
    assert(upper / base == top && upper % base == f.w2);
}

/// Two elements that spell the same number have the same words.
pub proof fn lemma_value_determines_words(a: Felt, b: Felt)
    requires
        a@ == b@,
    ensures
        a == b,
{
    lemma_felt_of_value(a);
    lemma_felt_of_value(b);
}

} // verus!
