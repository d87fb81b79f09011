//! The seeded stream of random draws behind every procedural choice.
//!
//! A ChaCha stream with eight rounds is fully described by its seed and by
//! the number of 32-bit words already taken from it. The game keeps exactly
//! these two plain values, so that the state of the stream can be compared,
//! stored and replayed.
use rand::Rng;
use rand::SeedableRng;
use rand_chacha::ChaCha8Rng;
use vstd::prelude::*;

verus! {

/// What `Rng::gen_range(low..high)` returns for `u8` bounds on a
/// `ChaCha8Rng` made from `seed` and moved to `word_pos`, together with the
/// word position of the stream after the draw.
pub uninterp spec fn chacha8_range_u8(seed: Seq<u8>, word_pos: u128, low: u8, high: u8) -> (
    u8,
    u128,
);

/// What `Rng::gen_range(low..high)` returns for `u32` bounds on a
/// `ChaCha8Rng` made from `seed` and moved to `word_pos`, together with the
/// word position of the stream after the draw.
pub uninterp spec fn chacha8_range_u32(seed: Seq<u8>, word_pos: u128, low: u32, high: u32) -> (
    u32,
    u128,
);

/// What `Rng::gen::<bool>()` returns on a `ChaCha8Rng` made from `seed` and
/// moved to `word_pos`, together with the word position after the draw.
pub uninterp spec fn chacha8_bool(seed: Seq<u8>, word_pos: u128) -> (bool, u128);

/// What `Rng::gen_ratio(numerator, denominator)` returns on a `ChaCha8Rng`
/// made from `seed` and moved to `word_pos`, together with the word position
/// after the draw.
pub uninterp spec fn chacha8_ratio(
    seed: Seq<u8>,
    word_pos: u128,
    numerator: u32,
    denominator: u32,
) -> (bool, u128);

/// What `Rng::gen::<u32>()` returns on a `ChaCha8Rng` made from `seed` and
/// moved to `word_pos`, together with the word position after the draw.
pub uninterp spec fn chacha8_u32(seed: Seq<u8>, word_pos: u128) -> (u32, u128);

/// Calls `rand::Rng::gen_range` with the range `low..high` on a
/// `rand_chacha::ChaCha8Rng` built by `SeedableRng::from_seed` and
/// `set_word_pos`, and reads the position back with `get_word_pos`.
/// Trusted: the pair is the named result for these arguments, and the value
/// lies in the half-open range, as the sampler adds an offset below
/// `high - low` to `low`.
#[verifier::external_body]
fn draw_range_u8(seed: &[u8; 32], word_pos: u128, low: u8, high: u8) -> (r: (u8, u128))
    requires
        low < high,
    ensures
        r == chacha8_range_u8(seed@, word_pos, low, high),
        low <= r.0 < high,
{
    let mut rng = ChaCha8Rng::from_seed(*seed);
    rng.set_word_pos(word_pos);
    let value: u8 = rng.gen_range(low..high);
    (value, rng.get_word_pos())
}

/// Calls `rand::Rng::gen_range` with the range `low..high` on a
/// `rand_chacha::ChaCha8Rng` built by `SeedableRng::from_seed` and
/// `set_word_pos`, and reads the position back with `get_word_pos`.
/// Trusted: the pair is the named result for these arguments, and the value
/// lies in the half-open range.
#[verifier::external_body]
fn draw_range_u32(seed: &[u8; 32], word_pos: u128, low: u32, high: u32) -> (r: (u32, u128))
    requires
        low < high,
    ensures
        r == chacha8_range_u32(seed@, word_pos, low, high),
        low <= r.0 < high,
{
    let mut rng = ChaCha8Rng::from_seed(*seed);
    rng.set_word_pos(word_pos);
    let value: u32 = rng.gen_range(low..high);
    (value, rng.get_word_pos())
}

/// Calls `rand::Rng::gen::<bool>` on a `rand_chacha::ChaCha8Rng` built by
/// `SeedableRng::from_seed` and `set_word_pos`. Trusted: the pair is the
/// named result for these arguments.
#[verifier::external_body]
fn draw_bool(seed: &[u8; 32], word_pos: u128) -> (r: (bool, u128))
    ensures
        r == chacha8_bool(seed@, word_pos),
{
    let mut rng = ChaCha8Rng::from_seed(*seed);
    rng.set_word_pos(word_pos);
    let value: bool = rng.gen();
    (value, rng.get_word_pos())
}

/// Calls `rand::Rng::gen_ratio` on a `rand_chacha::ChaCha8Rng` built by
/// `SeedableRng::from_seed` and `set_word_pos`. Trusted: the pair is the
/// named result for these arguments. The call panics on a zero denominator
/// and on a numerator above the denominator, which `requires` leaves out.
#[verifier::external_body]
fn draw_ratio(seed: &[u8; 32], word_pos: u128, numerator: u32, denominator: u32) -> (r: (
    bool,
    u128,
))
    requires
        denominator > 0,
        numerator <= denominator,
    ensures
        r == chacha8_ratio(seed@, word_pos, numerator, denominator),
{
    let mut rng = ChaCha8Rng::from_seed(*seed);
    rng.set_word_pos(word_pos);
    let value: bool = rng.gen_ratio(numerator, denominator);
    (value, rng.get_word_pos())
}

/// Calls `rand::Rng::gen::<u32>` on a `rand_chacha::ChaCha8Rng` built by
/// `SeedableRng::from_seed` and `set_word_pos`. Trusted: the pair is the
/// named result for these arguments.
#[verifier::external_body]
fn draw_u32(seed: &[u8; 32], word_pos: u128) -> (r: (u32, u128))
    ensures
        r == chacha8_u32(seed@, word_pos),
{
    let mut rng = ChaCha8Rng::from_seed(*seed);
    rng.set_word_pos(word_pos);
    let value: u32 = rng.gen();
    (value, rng.get_word_pos())
}

/// The game's stream of random draws: the seed it was started from and
/// the number of words drawn so far.
#[derive(Clone, Copy, Debug)]
pub struct GameRng {
    pub seed: [u8; 32],
    pub word_pos: u128,
}

/// The seed that stands for a short 32-bit seed: its four bytes, lowest
/// first, followed by zeros.
pub open spec fn widen_seed(seed: u32) -> [u8; 32] {
    [
        (seed % 256) as u8,
        ((seed / 256) % 256) as u8,
        ((seed / 65536) % 256) as u8,
        (seed / 16777216) as u8,
        0u8, 0u8, 0u8, 0u8, 0u8, 0u8, 0u8, 0u8, 0u8, 0u8, 0u8, 0u8,
        0u8, 0u8, 0u8, 0u8, 0u8, 0u8, 0u8, 0u8, 0u8, 0u8, 0u8, 0u8, 0u8, 0u8, 0u8, 0u8,
    ]
}

/// Spreads a short seed over a whole one.
pub fn widened_seed(seed: u32) -> (bytes: [u8; 32])
    ensures
        bytes == widen_seed(seed),
{
    [
        (seed % 256) as u8,
        ((seed / 256) % 256) as u8,
        ((seed / 65536) % 256) as u8,
        (seed / 16777216) as u8,
        0u8, 0u8, 0u8, 0u8, 0u8, 0u8, 0u8, 0u8, 0u8, 0u8, 0u8, 0u8,
        0u8, 0u8, 0u8, 0u8, 0u8, 0u8, 0u8, 0u8, 0u8, 0u8, 0u8, 0u8, 0u8, 0u8, 0u8, 0u8,
    ]
}

impl GameRng {
    /// A stream at its start.
    pub fn from_seed(seed: [u8; 32]) -> (rng: GameRng)
        ensures
            rng == (GameRng { seed, word_pos: 0 }),
    {
        GameRng { seed, word_pos: 0 }
    }

    /// A stream at its start, from a short seed.
    pub fn from_u32(seed: u32) -> (rng: GameRng)
        ensures
            rng == (GameRng { seed: widen_seed(seed), word_pos: 0 }),
    {
        GameRng { seed: widened_seed(seed), word_pos: 0 }
    }

    /// The stream moved to another word position.
    pub open spec fn at(self, word_pos: u128) -> GameRng {
        GameRng { seed: self.seed, word_pos }
    }

    /// The next draw from `low..high`, as `gen_range_u8` returns it.
    pub open spec fn next_range_u8(self, low: u8, high: u8) -> u8 {
        chacha8_range_u8(self.seed@, self.word_pos, low, high).0
    }

    /// The stream after that draw.
    pub open spec fn after_range_u8(self, low: u8, high: u8) -> GameRng {
        self.at(chacha8_range_u8(self.seed@, self.word_pos, low, high).1)
    }

    /// The next draw from `low..high`, as `gen_range_u32` returns it.
    pub open spec fn next_range_u32(self, low: u32, high: u32) -> u32 {
        chacha8_range_u32(self.seed@, self.word_pos, low, high).0
    }

    /// The stream after that draw.
    pub open spec fn after_range_u32(self, low: u32, high: u32) -> GameRng {
        self.at(chacha8_range_u32(self.seed@, self.word_pos, low, high).1)
    }

    /// The next fair coin, as `gen_bool` returns it.
    pub open spec fn next_bool(self) -> bool {
        chacha8_bool(self.seed@, self.word_pos).0
    }

    /// The stream after that coin.
    pub open spec fn after_bool(self) -> GameRng {
        self.at(chacha8_bool(self.seed@, self.word_pos).1)
    }

    /// The next weighted coin, as `gen_percent` returns it.
    pub open spec fn next_percent(self, percent: u8) -> bool {
        chacha8_ratio(self.seed@, self.word_pos, capped_percent(percent), 100).0
    }

    /// The stream after that coin.
    pub open spec fn after_percent(self, percent: u8) -> GameRng {
        self.at(chacha8_ratio(self.seed@, self.word_pos, capped_percent(percent), 100).1)
    }

    /// The next 32 bits, as `gen_u32` returns them.
    pub open spec fn next_u32(self) -> u32 {
        chacha8_u32(self.seed@, self.word_pos).0
    }

    /// The stream after those bits.
    pub open spec fn after_u32(self) -> GameRng {
        self.at(chacha8_u32(self.seed@, self.word_pos).1)
    }

    /// Draws a value of `low..high`.
    pub fn gen_range_u8(&mut self, low: u8, high: u8) -> (value: u8)
        requires
            low < high,
        ensures
            value == old(self).next_range_u8(low, high),
            *final(self) == old(self).after_range_u8(low, high),
            low <= value < high,
    {
        let r: (u8, u128) = draw_range_u8(&self.seed, self.word_pos, low, high);
        self.word_pos = r.1;
        r.0
    }

    /// Draws a value of `low..high`.
    pub fn gen_range_u32(&mut self, low: u32, high: u32) -> (value: u32)
        requires
            low < high,
        ensures
            value == old(self).next_range_u32(low, high),
            *final(self) == old(self).after_range_u32(low, high),
            low <= value < high,
    {
        let r: (u32, u128) = draw_range_u32(&self.seed, self.word_pos, low, high);
        self.word_pos = r.1;
        r.0
    }

    /// Draws a fair coin.
    pub fn gen_bool(&mut self) -> (value: bool)
        ensures
            value == old(self).next_bool(),
            *final(self) == old(self).after_bool(),
    {
        let r: (bool, u128) = draw_bool(&self.seed, self.word_pos);
        self.word_pos = r.1;
        r.0
    }

    /// Draws a coin that shows `true` with the chance `percent` in a hundred.
    /// A percentage above a hundred counts as a hundred.
    pub fn gen_percent(&mut self, percent: u8) -> (value: bool)
        ensures
            value == old(self).next_percent(percent),
            *final(self) == old(self).after_percent(percent),
    {
        let numerator: u32 = if percent > 100 {
            100
        } else {
            percent as u32
        };
        let r: (bool, u128) = draw_ratio(&self.seed, self.word_pos, numerator, 100);
        self.word_pos = r.1;
        r.0
    }

    /// Draws 32 bits.
    pub fn gen_u32(&mut self) -> (value: u32)
        ensures
            value == old(self).next_u32(),
            *final(self) == old(self).after_u32(),
    {
        let r: (u32, u128) = draw_u32(&self.seed, self.word_pos);
        self.word_pos = r.1;
        r.0
    }
}

/// Starts the stream anew from a fresh seed, as a restart does.
pub fn reset_rng_on_restart(rng: &mut GameRng, seed: [u8; 32])
    ensures
        *final(rng) == (GameRng { seed, word_pos: 0 }),
{
    rng.seed = seed;
    rng.word_pos = 0;
}

/// A percentage as the numerator of a ratio over a hundred.
pub open spec fn capped_percent(percent: u8) -> u32 {
    if percent > 100 {
        100
    } else {
        percent as u32
    }
}

} // verus!
