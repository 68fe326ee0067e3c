//! The join-code generator.
//!
//! Each letter of a candidate code is drawn uniformly from the 20-letter
//! alphabet. A candidate already present in the registry is discarded whole
//! and generation restarts. Random drawing is given a bounded number of
//! restarts so that the generator provably terminates; if every random
//! candidate collides, a sweep over the numbered code space finds a free
//! code whenever one exists at all. The generator returns `None` only when
//! literally every valid code is registered.

use vstd::prelude::*;
use rand::Rng;
use crate::code::{
    alphabet_letter, lemma_code_numbering_covers, spec_code_of_index, spec_valid_code, JoinCode,
    CODE_LEN, CODE_SPACE,
};
use crate::registry::Registry;

verus! {

/// How many random candidates are tried before the deterministic sweep.
/// Collisions are rare while the registry is small against the code space,
/// so the sweep is practically never reached.
pub const RANDOM_ATTEMPTS: usize = 64;

/// Relies on `rand::Rng::gen_range` (through `rand::thread_rng`): it returns
/// a value uniformly drawn from the given range, here `0..20`, and panics
/// only on an empty range.
#[verifier::external_body]
fn random_alphabet_index() -> (r: usize)
    ensures
        r < 20,
{
    rand::thread_rng().gen_range(0..20)
}

/// Draw one candidate code: five letters, each uniform over the alphabet.
fn random_code() -> (c: JoinCode)
    ensures
        c.wf(),
{
    let mut bytes: Vec<u8> = Vec::new();
    let mut k: usize = 0;
    while k < CODE_LEN
        invariant
            k <= CODE_LEN,
            bytes@.len() == k,
            forall|i: int|
                0 <= i < k ==> crate::code::spec_is_code_byte(#[trigger] bytes@[i]),
        decreases CODE_LEN - k,
    {
        let d = random_alphabet_index();
        bytes.push(alphabet_letter(d));
        k = k + 1;
    }
    JoinCode { bytes }
}

/// The code numbered `n`, built digit by digit.
fn code_from_index(n: usize) -> (c: JoinCode)
    requires
        n < CODE_SPACE,
    ensures
        c.wf(),
        c@ == spec_code_of_index(n as int),
{
    let d0 = n % 20;
    let r1 = n / 20;
    let d1 = r1 % 20;
    let r2 = r1 / 20;
    let d2 = r2 % 20;
    let r3 = r2 / 20;
    let d3 = r3 % 20;
    let r4 = r3 / 20;
    let d4 = r4 % 20;
    let mut bytes: Vec<u8> = Vec::new();
    bytes.push(alphabet_letter(d0));
    bytes.push(alphabet_letter(d1));
    bytes.push(alphabet_letter(d2));
    bytes.push(alphabet_letter(d3));
    bytes.push(alphabet_letter(d4));
    proof {
        assert(bytes@ =~= spec_code_of_index(n as int));
    }
    JoinCode { bytes }
}

/// Generate a join code that no pending host currently uses.
///
/// `Some(c)` carries a valid code absent from the registry — so a code
/// returned here never repeats a key the registry already holds. `None`
/// can only mean that every one of the `CODE_SPACE` valid codes is
/// registered at once.
pub fn generate_code<H>(registry: &Registry<H>) -> (r: Option<JoinCode>)
    ensures
        match r {
            Some(c) => c.wf() && !registry@.contains_key(c@),
            None => forall|c: Seq<u8>|
                spec_valid_code(c) ==> registry@.contains_key(c),
        },
{
    let mut attempt: usize = 0;
    while attempt < RANDOM_ATTEMPTS
        invariant
            attempt <= RANDOM_ATTEMPTS,
        decreases RANDOM_ATTEMPTS - attempt,
    {
        let candidate = random_code();
        if !registry.contains(&candidate) {
            return Some(candidate);
        }
        attempt = attempt + 1;
    }
    let mut n: usize = 0;
    while n < CODE_SPACE
        invariant
            n <= CODE_SPACE,
            forall|k: int| 0 <= k < n ==> registry@.contains_key(#[trigger] spec_code_of_index(k)),
        decreases CODE_SPACE - n,
    {
        let candidate = code_from_index(n);
        if !registry.contains(&candidate) {
            return Some(candidate);
        }
        n = n + 1;
    }
    proof {
        assert forall|c: Seq<u8>| spec_valid_code(c) implies registry@.contains_key(c) by {
            lemma_code_numbering_covers(c);
            let k = crate::code::spec_index_of_code(c);
            assert(registry@.contains_key(spec_code_of_index(k)));
        }
    }
    None
}

} // verus!
