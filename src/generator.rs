//! Seeded row generation.
//!
//! A [`DataGenerator`] owns one `StdRng`, seeded from the configuration, and
//! draws each row's fields from it in order: first the vector, then the scalar.
//! The vector's floats are drawn by the caller from [`DataGenerator::rng`]
//! and packed with [`vector_bytes`]; the scalar is drawn here.

use rand::distributions::{Alphanumeric, Distribution};
use rand::rngs::StdRng;
use rand::SeedableRng;
use vstd::prelude::*;

use crate::config::Config;
use crate::naming::push_char;

verus! {

#[verifier::external_type_specification]
#[verifier::external_body]
pub struct ExStdRng(StdRng);

/// Relies on rand's `SeedableRng::seed_from_u64` for `StdRng`: a generator
/// whose whole output stream is fixed by `seed`.
#[verifier::external_body]
fn seeded_rng(seed: u64) -> StdRng {
    StdRng::seed_from_u64(seed)
}

/// Relies on rand's `Alphanumeric` distribution: one draw from `rng` is a
/// byte of `A-Z`, `a-z` or `0-9`, here as a `char`.
#[verifier::external_body]
fn draw_alphanumeric(rng: &mut StdRng) -> (r: char)
    ensures
        is_alphanumeric(r),
{
    char::from(Alphanumeric.sample(rng))
}

/// An ASCII letter or digit.
pub open spec fn is_alphanumeric(c: char) -> bool {
    ('0' <= c && c <= '9') || ('A' <= c && c <= 'Z') || ('a' <= c && c <= 'z')
}

/// The four little-endian bytes of a 32-bit word.
pub open spec fn le_bytes(w: u32) -> Seq<u8> {
    seq![
        (w & 0xff) as u8,
        ((w >> 8u32) & 0xff) as u8,
        ((w >> 16u32) & 0xff) as u8,
        ((w >> 24u32) & 0xff) as u8,
    ]
}

/// The words' little-endian bytes, concatenated in order.
pub open spec fn encode_words(ws: Seq<u32>) -> Seq<u8>
    decreases ws.len(),
{
    if ws.len() == 0 {
        Seq::empty()
    } else {
        encode_words(ws.drop_last()) + le_bytes(ws.last())
    }
}

/// Packs the bit patterns of a vector's floats as little-endian bytes, four
/// per element, in element order.
pub fn vector_bytes(bits: &Vec<u32>) -> (r: Vec<u8>)
    requires
        bits.len() * 4 <= usize::MAX,
    ensures
        r@ == encode_words(bits@),
        r.len() == 4 * bits.len(),
{
    let mut out: Vec<u8> = Vec::with_capacity(bits.len() * 4);
    let mut i: usize = 0;
    while i < bits.len()
        invariant
            i <= bits.len(),
            out@ == encode_words(bits@.take(i as int)),
            out.len() == 4 * i,
        decreases bits.len() - i,
    {
        let w: u32 = bits[i];
        proof {
            assert(bits@.take(i as int + 1).drop_last() =~= bits@.take(i as int));
        }
        out.push((w & 0xff) as u8);
        out.push(((w >> 8u32) & 0xff) as u8);
        out.push(((w >> 16u32) & 0xff) as u8);
        out.push(((w >> 24u32) & 0xff) as u8);
        assert(out@ =~= encode_words(bits@.take(i as int + 1)));
        i = i + 1;
    }
    assert(bits@.take(i as int) =~= bits@);
    out
}

/// Row generator for one configuration: a `StdRng` seeded with `config.seed`.
pub struct DataGenerator {
    pub config: Config,
    pub rng: StdRng,
}

impl DataGenerator {
    /// A generator whose stream of rows is fixed by `config.seed`.
    pub fn new(config: Config) -> (r: Self)
        ensures
            r.config == config,
    {
        let rng = seeded_rng(config.seed);
        DataGenerator { config, rng }
    }

    /// Draws one scalar: `scalar_len` alphanumeric characters, in draw order.
    pub fn generate_scalar(&mut self) -> (r: String)
        ensures
            final(self).config == old(self).config,
            r@.len() == old(self).config.scalar_len,
            forall|i: int| 0 <= i < r@.len() ==> is_alphanumeric(#[trigger] r@[i]),
    {
        let mut s = String::new();
        let mut i: usize = 0;
        while i < self.config.scalar_len
            invariant
                self.config == old(self).config,
                i <= self.config.scalar_len,
                s@.len() == i,
                forall|j: int| 0 <= j < s@.len() ==> is_alphanumeric(#[trigger] s@[j]),
            decreases self.config.scalar_len - i,
        {
            let c = draw_alphanumeric(&mut self.rng);
            push_char(&mut s, c);
            i = i + 1;
        }
        s
    }

    /// Estimated rows per file for this generator's configuration.
    pub fn estimate_rows_per_file(&self) -> (r: usize)
        requires
            self.config.row_cost_fits(),
        ensures
            r as nat == crate::config::rows_per_file(self.config),
            r >= 1,
    {
        self.config.estimate_rows_per_file()
    }
}

} // verus!
