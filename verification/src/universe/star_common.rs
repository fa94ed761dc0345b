//! Stateless hashing that decides where stars are and what they look like.
use vstd::prelude::*;

verus! {

/// The modulus of 32-bit wrapping arithmetic.
pub open spec fn two_pow_32() -> nat {
    0x1_0000_0000nat
}

/// The PCG "RXS-M-XS" output hash on a 32-bit input, in plain arithmetic:
/// an LCG step, a data-dependent xorshift, a multiplication and a final
/// xorshift, all modulo 2^32.
pub open spec fn pcg_hash_spec(input: u32) -> u32 {
    let state = ((input as nat * 747796405nat + 2891336453nat) % two_pow_32()) as u32;
    let shifted = state >> (((state >> 28u32) + 4u32) as u32);
    let word = (((shifted ^ state) as nat * 277803737nat) % two_pow_32()) as u32;
    (word >> 22u32) ^ word
}

/// PCG hash for stateless random numbers.
pub fn pcg_hash(input: u32) -> (result: u32)
    ensures
        result == pcg_hash_spec(input),
{
    let state = input.wrapping_mul(747796405).wrapping_add(2891336453);
    proof {
        let p = input as nat * 747796405nat;
        vstd::arithmetic::div_mod::lemma_add_mod_noop(p as int, 2891336453int, two_pow_32() as int);
        vstd::arithmetic::div_mod::lemma_small_mod(2891336453nat, two_pow_32());
        vstd::arithmetic::div_mod::lemma_mod_twice(p as int, two_pow_32() as int);
    }
    assert((state >> 28u32) <= 15u32) by (bit_vector);
    let word = ((state >> ((state >> 28).wrapping_add(4))) ^ state).wrapping_mul(277803737);
    (word >> 22) ^ word
}


/// The modulus of 64-bit wrapping arithmetic.
pub open spec fn two_pow_64() -> nat {
    0x1_0000_0000_0000_0000nat
}

/// Multiplication modulo 2^64.
pub open spec fn mul64(a: u64, b: u64) -> u64 {
    ((a as nat * b as nat) % two_pow_64()) as u64
}

/// The 32-bit seed of a cell: the universe seed offset by the golden-ratio
/// constant, then each coordinate (as its 64-bit two's complement) mixed
/// in with an xor and a multiplication, and the result folded to 32 bits.
pub open spec fn cell_seed_spec(x: i64, y: i64, z: i64, uni_seed: u64) -> u32 {
    let h0 = ((uni_seed as nat + 0x9E3779B97F4A7C15nat) % two_pow_64()) as u64;
    let h1 = mul64(h0 ^ (x as u64), 0xBF58476D1CE4E5B9u64);
    let h2 = mul64(h1 ^ (y as u64), 0x94D049BB133111EBu64);
    let h3 = mul64(h2 ^ (z as u64), 0xBF58476D1CE4E5B9u64);
    ((h3 ^ (h3 >> 32u64)) as nat % two_pow_32()) as u32
}

/// The 32-bit seed from which everything about the star of a cell derives.
pub fn cell_seed(x: i64, y: i64, z: i64, uni_seed: u64) -> (result: u32)
    ensures
        result == cell_seed_spec(x, y, z, uni_seed),
{
    let mut h: u64 = uni_seed.wrapping_add(0x9E3779B97F4A7C15);
    h = h ^ (x as u64);
    h = h.wrapping_mul(0xBF58476D1CE4E5B9);
    h = h ^ (y as u64);
    h = h.wrapping_mul(0x94D049BB133111EB);
    h = h ^ (z as u64);
    h = h.wrapping_mul(0xBF58476D1CE4E5B9);
    let folded: u64 = h ^ (h >> 32);
    assert(folded as u32 == (folded as nat % two_pow_32()) as u32) by (bit_vector);
    folded as u32
}

/// The hashed draws that decide the star of a cell. Each is a fraction of
/// `u32::MAX`: `presence` is compared against the density threshold (a star
/// exists where it is at most one in a thousand of the range, and always at
/// the origin), and the other four give the red, green and blue components
/// and the size.
#[derive(Clone, Copy, Debug, PartialEq, Eq, Structural)]
pub struct StarDraw {
    pub presence: u32,
    pub red: u32,
    pub green: u32,
    pub blue: u32,
    pub size: u32,
    pub at_origin: bool,
}

/// The draw of the `k`-th property of a star from its cell seed: the seed
/// offset by `k`, hashed, and hashed once more to give the fraction.
pub open spec fn property_draw(seed: u32, k: nat) -> u32 {
    pcg_hash_spec(pcg_hash_spec(((seed as nat + k) % two_pow_32()) as u32))
}

/// The hashed draws for the star of cell (x, y, z) in the universe with the
/// given seed.
pub open spec fn star_draw_spec(x: i64, y: i64, z: i64, uni_seed: u64) -> StarDraw {
    let seed = cell_seed_spec(x, y, z, uni_seed);
    StarDraw {
        presence: pcg_hash_spec(seed),
        red: property_draw(seed, 1),
        green: property_draw(seed, 2),
        blue: property_draw(seed, 3),
        size: property_draw(seed, 4),
        at_origin: x == 0 && y == 0 && z == 0,
    }
}

fn property(seed: u32, k: u32) -> (result: u32)
    requires
        1 <= k <= 4,
    ensures
        result == property_draw(seed, k as nat),
{
    let shifted = seed.wrapping_add(k);
    proof {
        if seed as nat + k as nat >= two_pow_32() {
            vstd::arithmetic::div_mod::lemma_fundamental_div_mod_converse(
                (seed as nat + k as nat) as int, two_pow_32() as int, 1, seed as nat + k as nat - two_pow_32());
        } else {
            vstd::arithmetic::div_mod::lemma_small_mod(seed as nat + k as nat, two_pow_32());
        }
    }
    pcg_hash(pcg_hash(shifted))
}

/// Computes the hashed draws for the star of a cell.
pub fn star_draw(x: i64, y: i64, z: i64, uni_seed: u64) -> (result: StarDraw)
    ensures
        result == star_draw_spec(x, y, z, uni_seed),
        result.at_origin <==> (x == 0 && y == 0 && z == 0),
{
    let seed = cell_seed(x, y, z, uni_seed);
    StarDraw {
        presence: pcg_hash(seed),
        red: property(seed, 1),
        green: property(seed, 2),
        blue: property(seed, 3),
        size: property(seed, 4),
        at_origin: x == 0 && y == 0 && z == 0,
    }
}

/// The largest presence draw at which a star exists away from the origin.
/// A star exists where the draw, as a single-precision fraction of
/// `u32::MAX`, is at most one in a thousand (`0.001f32`). `u32::MAX` in
/// single precision is 2^32 and `0.001f32` is 4294967.5 / 2^32; a draw below
/// 2^24 converts exactly and every larger draw converts to at least 2^24, so
/// the test holds exactly for draws up to 4294967.
pub const PRESENCE_LIMIT: u32 = 4294967;

/// Whether the spawner places a star in cell (x, y, z) of the universe with
/// the given seed: always at the origin, elsewhere where the presence draw
/// is within `PRESENCE_LIMIT`.
pub open spec fn star_exists_spec(x: i64, y: i64, z: i64, uni_seed: u64) -> bool {
    let d = star_draw_spec(x, y, z, uni_seed);
    d.at_origin || d.presence <= PRESENCE_LIMIT
}

/// Whether the spawner places a star in cell (x, y, z).
pub fn star_exists(x: i64, y: i64, z: i64, uni_seed: u64) -> (result: bool)
    ensures
        result == star_exists_spec(x, y, z, uni_seed),
        x == 0 && y == 0 && z == 0 ==> result,
        !(x == 0 && y == 0 && z == 0) ==> (result <==> star_draw_spec(x, y, z, uni_seed).presence
            <= PRESENCE_LIMIT),
{
    let d = star_draw(x, y, z, uni_seed);
    d.at_origin || d.presence <= PRESENCE_LIMIT
}

/// Only the origin is given a star whatever its draw: the draw of a cell is
/// marked as the origin's exactly when the cell is (0, 0, 0); the origin
/// always holds a star, and any other cell holds one exactly when its
/// presence draw is within `PRESENCE_LIMIT`.
pub proof fn lemma_star_forced_only_at_origin(x: i64, y: i64, z: i64, uni_seed: u64)
    ensures
        star_draw_spec(x, y, z, uni_seed).at_origin <==> (x == 0 && y == 0 && z == 0),
        star_exists_spec(0, 0, 0, uni_seed),
        !(x == 0 && y == 0 && z == 0) ==> (star_exists_spec(x, y, z, uni_seed) <==> star_draw_spec(
            x,
            y,
            z,
            uni_seed,
        ).presence <= PRESENCE_LIMIT),
{
}

} // verus!
