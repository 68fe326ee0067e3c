//! Join codes: fixed-length tokens drawn from a restricted alphabet.
//!
//! A join code is exactly five uppercase ASCII letters, none of which is a
//! vowel (A, E, I, O, U) or the letter Y. That leaves a 20-letter alphabet,
//! chosen to avoid accidental words and ambiguous spelling. The module also
//! numbers the code space: every valid code is `spec_code_of_index(n)` for
//! exactly one `n` below `CODE_SPACE`, which lets the generator sweep the
//! whole space when random drawing keeps colliding.

use vstd::prelude::*;
use vstd::arithmetic::div_mod::lemma_fundamental_div_mod_converse;

verus! {

/// Length of every join code, in bytes.
pub const CODE_LEN: usize = 5;

/// Number of distinct join codes: 20 letters in each of 5 positions.
pub const CODE_SPACE: usize = 3200000;

/// A byte that may appear in a join code: an uppercase ASCII letter that is
/// neither a vowel nor `Y`.
pub open spec fn spec_is_code_byte(b: u8) -> bool {
    &&& ('A' as u8) <= b <= ('Z' as u8)
    &&& b != ('A' as u8)
    &&& b != ('E' as u8)
    &&& b != ('I' as u8)
    &&& b != ('O' as u8)
    &&& b != ('U' as u8)
    &&& b != ('Y' as u8)
}

/// A well-formed join code: exactly `CODE_LEN` bytes, all from the alphabet.
pub open spec fn spec_valid_code(s: Seq<u8>) -> bool {
    &&& s.len() == CODE_LEN
    &&& forall|i: int| 0 <= i < s.len() ==> spec_is_code_byte(#[trigger] s[i])
}

/// Runtime test for a single code byte.
pub fn is_code_byte(b: u8) -> (r: bool)
    ensures
        r == spec_is_code_byte(b),
{
    b >= ('A' as u8) && b <= ('Z' as u8) && b != ('A' as u8) && b != ('E' as u8) && b != ('I' as u8) && b != ('O' as u8) && b != ('U' as u8)
        && b != ('Y' as u8)
}

/// A join code as handed out to peers and used as a registry key.
pub struct JoinCode {
    pub bytes: Vec<u8>,
}

impl View for JoinCode {
    type V = Seq<u8>;

    open spec fn view(&self) -> Seq<u8> {
        self.bytes@
    }
}

impl JoinCode {
    /// The code is exactly five bytes of the restricted alphabet.
    pub open spec fn wf(&self) -> bool {
        spec_valid_code(self@)
    }
}

/// The restricted alphabet, in order: the 20 uppercase consonants other
/// than `Y`.
pub open spec fn spec_alphabet(i: int) -> u8 {
    if i == 0 {
        ('B' as u8)
    } else if i == 1 {
        ('C' as u8)
    } else if i == 2 {
        ('D' as u8)
    } else if i == 3 {
        ('F' as u8)
    } else if i == 4 {
        ('G' as u8)
    } else if i == 5 {
        ('H' as u8)
    } else if i == 6 {
        ('J' as u8)
    } else if i == 7 {
        ('K' as u8)
    } else if i == 8 {
        ('L' as u8)
    } else if i == 9 {
        ('M' as u8)
    } else if i == 10 {
        ('N' as u8)
    } else if i == 11 {
        ('P' as u8)
    } else if i == 12 {
        ('Q' as u8)
    } else if i == 13 {
        ('R' as u8)
    } else if i == 14 {
        ('S' as u8)
    } else if i == 15 {
        ('T' as u8)
    } else if i == 16 {
        ('V' as u8)
    } else if i == 17 {
        ('W' as u8)
    } else if i == 18 {
        ('X' as u8)
    } else {
        ('Z' as u8)
    }
}

/// Position of a code byte in the alphabet; bytes outside the alphabet
/// map to 0, so the result always lies below 20.
pub open spec fn spec_alphabet_index(b: u8) -> int {
    if b == ('B' as u8) {
        0
    } else if b == ('C' as u8) {
        1
    } else if b == ('D' as u8) {
        2
    } else if b == ('F' as u8) {
        3
    } else if b == ('G' as u8) {
        4
    } else if b == ('H' as u8) {
        5
    } else if b == ('J' as u8) {
        6
    } else if b == ('K' as u8) {
        7
    } else if b == ('L' as u8) {
        8
    } else if b == ('M' as u8) {
        9
    } else if b == ('N' as u8) {
        10
    } else if b == ('P' as u8) {
        11
    } else if b == ('Q' as u8) {
        12
    } else if b == ('R' as u8) {
        13
    } else if b == ('S' as u8) {
        14
    } else if b == ('T' as u8) {
        15
    } else if b == ('V' as u8) {
        16
    } else if b == ('W' as u8) {
        17
    } else if b == ('X' as u8) {
        18
    } else if b == ('Z' as u8) {
        19
    } else {
        0
    }
}

/// Runtime table lookup into the restricted alphabet.
pub fn alphabet_letter(i: usize) -> (b: u8)
    requires
        i < 20,
    ensures
        b == spec_alphabet(i as int),
        spec_is_code_byte(b),
{
    if i == 0 {
        ('B' as u8)
    } else if i == 1 {
        ('C' as u8)
    } else if i == 2 {
        ('D' as u8)
    } else if i == 3 {
        ('F' as u8)
    } else if i == 4 {
        ('G' as u8)
    } else if i == 5 {
        ('H' as u8)
    } else if i == 6 {
        ('J' as u8)
    } else if i == 7 {
        ('K' as u8)
    } else if i == 8 {
        ('L' as u8)
    } else if i == 9 {
        ('M' as u8)
    } else if i == 10 {
        ('N' as u8)
    } else if i == 11 {
        ('P' as u8)
    } else if i == 12 {
        ('Q' as u8)
    } else if i == 13 {
        ('R' as u8)
    } else if i == 14 {
        ('S' as u8)
    } else if i == 15 {
        ('T' as u8)
    } else if i == 16 {
        ('V' as u8)
    } else if i == 17 {
        ('W' as u8)
    } else if i == 18 {
        ('X' as u8)
    } else {
        ('Z' as u8)
    }
}

/// The code numbered `n`: base-20 digits of `n`, least significant first,
/// each rendered through the alphabet.
pub open spec fn spec_code_of_index(n: int) -> Seq<u8> {
    seq![
        spec_alphabet(n % 20),
        spec_alphabet((n / 20) % 20),
        spec_alphabet(((n / 20) / 20) % 20),
        spec_alphabet((((n / 20) / 20) / 20) % 20),
        spec_alphabet(((((n / 20) / 20) / 20) / 20) % 20),
    ]
}

/// The number of a code: its digits read back out of the alphabet.
pub open spec fn spec_index_of_code(s: Seq<u8>) -> int {
    spec_alphabet_index(s[0]) + 20 * spec_alphabet_index(s[1]) + 400 * spec_alphabet_index(s[2])
        + 8000 * spec_alphabet_index(s[3]) + 160000 * spec_alphabet_index(s[4])
}

/// Reading a byte's alphabet position and rendering it again gives the
/// byte back, for every byte of the alphabet.
pub proof fn lemma_alphabet_roundtrip(b: u8)
    requires
        spec_is_code_byte(b),
    ensures
        0 <= spec_alphabet_index(b) < 20,
        spec_alphabet(spec_alphabet_index(b)) == b,
{
}

/// Every valid code is reachable by numbering: its number lies below
/// `CODE_SPACE` and renders back to the code itself. So a sweep over all
/// numbers visits every valid code.
pub proof fn lemma_code_numbering_covers(s: Seq<u8>)
    requires
        spec_valid_code(s),
    ensures
        0 <= spec_index_of_code(s) < CODE_SPACE,
        spec_code_of_index(spec_index_of_code(s)) == s,
{
    let i0 = spec_alphabet_index(s[0]);
    let i1 = spec_alphabet_index(s[1]);
    let i2 = spec_alphabet_index(s[2]);
    let i3 = spec_alphabet_index(s[3]);
    let i4 = spec_alphabet_index(s[4]);
    lemma_alphabet_roundtrip(s[0]);
    lemma_alphabet_roundtrip(s[1]);
    lemma_alphabet_roundtrip(s[2]);
    lemma_alphabet_roundtrip(s[3]);
    lemma_alphabet_roundtrip(s[4]);
    let n = spec_index_of_code(s);
    let q1 = i1 + 20 * i2 + 400 * i3 + 8000 * i4;
    let q2 = i2 + 20 * i3 + 400 * i4;
    let q3 = i3 + 20 * i4;
    let q4 = i4;
    lemma_fundamental_div_mod_converse(n, 20, q1, i0);
    lemma_fundamental_div_mod_converse(q1, 20, q2, i1);
    lemma_fundamental_div_mod_converse(q2, 20, q3, i2);
    lemma_fundamental_div_mod_converse(q3, 20, q4, i3);
    lemma_fundamental_div_mod_converse(q4, 20, 0, i4);
    assert(spec_code_of_index(n) =~= s);
}

} // verus!
