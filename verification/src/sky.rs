use vstd::prelude::*;

verus! {

/// One xor-shift round: `x ^ (x >> k)`.
pub open spec fn xorshift(x: u32, k: u32) -> u32 {
    x ^ (x >> k)
}

/// The integer mixing function used to scatter stars over the sky.
pub open spec fn spec_hash_u32(x: u32) -> u32 {
    let a = xorshift(x, 16);
    let b = a.wrapping_mul(0x7feb352d);
    let c = xorshift(b, 15);
    let d = c.wrapping_mul(0x846ca68b);
    xorshift(d, 16)
}

/// Mixes the bits of `x` (xor-shift / multiply rounds, all arithmetic modulo 2^32).
pub fn hash_u32(x: u32) -> (res: u32)
    ensures
        res == spec_hash_u32(x),
        res == mix_by_steps(x),
{
    proof {
        lemma_hash_is_the_fixed_mix(x);
    }
    let mut x = x;
    x ^= x >> 16;
    x = x.wrapping_mul(0x7feb352d);
    x ^= x >> 15;
    x = x.wrapping_mul(0x846ca68b);
    x ^= x >> 16;
    x
}

/// The seed of the star cell in column `iu`, row `iv` of the sky grid.
pub open spec fn spec_star_seed(iu: i32, iv: i32) -> u32 {
    (iu as u32).wrapping_mul(0x9e3779b9) ^ (iv as u32).wrapping_mul(0x85ebca6b)
}

/// Mixes the two cell coordinates into one seed (each scaled by an odd
/// constant modulo 2^32, the coordinates taken as their two's-complement bits).
pub fn star_seed(iu: i32, iv: i32) -> (res: u32)
    ensures
        res == spec_star_seed(iu, iv),
        res == (((iu as u32) as nat * 0x9e3779b9) % 0x1_0000_0000) as u32 ^ (((iv as u32) as nat
            * 0x85ebca6b) % 0x1_0000_0000) as u32,
{
    proof {
        lemma_star_seed_formula(iu, iv);
    }
    (iu as u32).wrapping_mul(0x9e3779b9) ^ (iv as u32).wrapping_mul(0x85ebca6b)
}

/// The bytes a star cell's hash decides: three color channels and the
/// brightness class (the top byte); cells whose class is below 3 hold a star.
#[derive(Clone, Copy, Debug, PartialEq, Eq, Structural)]
pub struct StarSample {
    pub warm: u8,
    pub green: u8,
    pub cool: u8,
    pub class: u8,
}

impl StarSample {
    /// Whether the cell holds a star.
    pub open spec fn spec_is_star(self) -> bool {
        self.class < 3
    }

    /// Whether the cell holds a star: its brightness class is 0, 1 or 2.
    pub fn is_star(&self) -> (res: bool)
        ensures
            res == self.spec_is_star(),
            res <==> self.class < 3,
    {
        self.class < 3
    }
}

/// The star sample that a hash value decides: its four bytes, lowest first.
pub open spec fn star_sample_of_hash(h: u32) -> StarSample {
    StarSample {
        warm: (h % 256) as u8,
        green: ((h / 256) % 256) as u8,
        cool: ((h / 65536) % 256) as u8,
        class: (h / 16777216) as u8,
    }
}

/// The star sample of the sky cell in column `iu`, row `iv`.
pub fn star_sample(iu: i32, iv: i32) -> (res: StarSample)
    ensures
        res == star_sample_of_hash(spec_hash_u32(spec_star_seed(iu, iv))),
        res.class as int * 16777216 + res.cool as int * 65536 + res.green as int * 256 + res.warm as int
            == spec_hash_u32(spec_star_seed(iu, iv)),
{
    proof {
        lemma_star_bytes_recompose_hash(spec_hash_u32(spec_star_seed(iu, iv)));
    }
    let h = hash_u32(star_seed(iu, iv));
    let warm = (h & 0xff) as u8;
    let green = ((h >> 8) & 0xff) as u8;
    let cool = ((h >> 16) & 0xff) as u8;
    let class = ((h >> 24) & 0xff) as u8;
    assert(h & 0xff == h % 256) by (bit_vector);
    assert((h >> 8) & 0xff == (h / 256) % 256) by (bit_vector);
    assert((h >> 16) & 0xff == (h / 65536) % 256) by (bit_vector);
    assert((h >> 24) & 0xff == h / 16777216) by (bit_vector);
    StarSample { warm, green, cool, class }
}

/// Whether the checkerboard cell (`su`, `sv`) is a light one: the cells
/// whose coordinates have an even sum.
pub open spec fn checker_is_light(su: int, sv: int) -> bool {
    (su + sv) % 2 == 0
}

/// The color of checkerboard cell (`su`, `sv`): light grey-white on cells
/// with an even coordinate sum, dark grey on the others.
pub fn checker_color(su: i32, sv: i32) -> (c: [u8; 3])
    ensures
        checker_is_light(su as int, sv as int) ==> c == [255u8, 255u8, 255u8],
        !checker_is_light(su as int, sv as int) ==> c == [40u8, 40u8, 40u8],
{
    let parity = (su & 1) ^ (sv & 1);
    assert(parity == 0 <==> (su + sv) % 2 == 0) by (bit_vector)
        requires
            parity == (su & 1) ^ (sv & 1),
    ;
    if parity == 0 {
        [255, 255, 255]
    } else {
        [40, 40, 40]
    }
}

/// Neighbouring checkerboard cells, along either axis, have different shades.
pub proof fn lemma_checker_neighbours_differ(su: int, sv: int)
    ensures
        checker_is_light(su, sv) != checker_is_light(su + 1, sv),
        checker_is_light(su, sv) != checker_is_light(su, sv + 1),
{
}

/// The mixer written out step by step, each multiplication reduced modulo 2^32.
pub open spec fn mix_by_steps(x: u32) -> u32 {
    let x1 = x ^ (x >> 16u32);
    let x2 = ((x1 as nat * 0x7feb352d) % 0x1_0000_0000) as u32;
    let x3 = x2 ^ (x2 >> 15u32);
    let x4 = ((x3 as nat * 0x846ca68b) % 0x1_0000_0000) as u32;
    x4 ^ (x4 >> 16u32)
}

/// For every input the hash is the fixed mix: xor with the input shifted
/// right by 16, multiply by 0x7feb352d, xor with the shift by 15, multiply by
/// 0x846ca68b, xor with the shift by 16, all modulo 2^32.
pub proof fn lemma_hash_is_the_fixed_mix(x: u32)
    ensures
        spec_hash_u32(x) == mix_by_steps(x),
{
}

/// The inverse of the mixer: each xor-shift and each odd multiplication undone in turn.
pub open spec fn unmix(y: u32) -> u32 {
    let a = y ^ (y >> 16u32);
    let b = ((a as nat * 0x43021123) % 0x1_0000_0000) as u32;
    let c = b ^ (b >> 15u32) ^ (b >> 30u32);
    let d = ((c as nat * 0x1d69e2a5) % 0x1_0000_0000) as u32;
    d ^ (d >> 16u32)
}

/// The mixer is a permutation of the 32-bit values: undoing it gives the
/// input back, so distinct seeds hash to distinct values.
pub proof fn lemma_hash_is_invertible(x: u32, y: u32)
    ensures
        unmix(spec_hash_u32(x)) == x,
        spec_hash_u32(x) == spec_hash_u32(y) ==> x == y,
{
    lemma_unmix_inverts(x);
    lemma_unmix_inverts(y);
}

proof fn lemma_unmix_inverts(x: u32)
    ensures
        unmix(spec_hash_u32(x)) == x,
{
    let x1 = x ^ (x >> 16u32);
    let x2 = ((x1 as nat * 0x7feb352d) % 0x1_0000_0000) as u32;
    let x3 = x2 ^ (x2 >> 15u32);
    let x4 = ((x3 as nat * 0x846ca68b) % 0x1_0000_0000) as u32;
    let y = x4 ^ (x4 >> 16u32);
    lemma_hash_is_the_fixed_mix(x);
    assert(spec_hash_u32(x) == y);
    let a = y ^ (y >> 16u32);
    assert(a == x4) by (bit_vector)
        requires
            y == x4 ^ (x4 >> 16u32),
            a == y ^ (y >> 16u32),
    ;
    let b = ((a as nat * 0x43021123) % 0x1_0000_0000) as u32;
    lemma_mul_undone(x3, 0x846ca68b, 0x43021123);
    assert(b == x3);
    let c = b ^ (b >> 15u32) ^ (b >> 30u32);
    assert(c == x2) by (bit_vector)
        requires
            b == x2 ^ (x2 >> 15u32),
            c == b ^ (b >> 15u32) ^ (b >> 30u32),
    ;
    let d = ((c as nat * 0x1d69e2a5) % 0x1_0000_0000) as u32;
    lemma_mul_undone(x1, 0x7feb352d, 0x1d69e2a5);
    assert(d == x1);
    assert(d ^ (d >> 16u32) == x) by (bit_vector)
        requires
            d == x ^ (x >> 16u32),
    ;
}

/// Multiplying by `c` and then by its inverse `ci` modulo 2^32 gives `v` back.
proof fn lemma_mul_undone(v: u32, c: u32, ci: u32)
    requires
        (c as nat * ci as nat) % 0x1_0000_0000 == 1,
    ensures
        ((((v as nat * c) % 0x1_0000_0000) as u32) as nat * ci) % 0x1_0000_0000 == v,
{
    let m: int = 0x1_0000_0000;
    let p = (v as nat * c) % 0x1_0000_0000;
    assert(((p as u32) as nat) == p);
    vstd::arithmetic::div_mod::lemma_mul_mod_noop_left(v as int * c as int, ci as int, m);
    vstd::arithmetic::mul::lemma_mul_is_associative(v as int, c as int, ci as int);
    vstd::arithmetic::div_mod::lemma_mul_mod_noop_right(v as int, c as int * ci as int, m);
    vstd::arithmetic::div_mod::lemma_small_mod(v as nat, m as nat);
}

/// For every cell, the seed is the column's bits times 0x9e3779b9 xor the
/// row's bits times 0x85ebca6b, both modulo 2^32, for every row and column.
pub proof fn lemma_star_seed_formula(iu: i32, iv: i32)
    ensures
        spec_star_seed(iu, iv) == (((iu as u32) as nat * 0x9e3779b9) % 0x1_0000_0000) as u32 ^ (((
        iv as u32) as nat * 0x85ebca6b) % 0x1_0000_0000) as u32,
        spec_star_seed(iu, iv) ^ spec_star_seed(iu, 0) == (((iv as u32) as nat * 0x85ebca6b)
            % 0x1_0000_0000) as u32,
{
    let a = (((iu as u32) as nat * 0x9e3779b9) % 0x1_0000_0000) as u32;
    let b = (((iv as u32) as nat * 0x85ebca6b) % 0x1_0000_0000) as u32;
    let z = (((0i32 as u32) as nat * 0x85ebca6b) % 0x1_0000_0000) as u32;
    assert(z == 0);
    assert((a ^ b) ^ (a ^ 0u32) == b) by (bit_vector);
}

/// In a fixed column, distinct rows (as 32-bit patterns) get distinct seeds,
/// and likewise distinct columns in a fixed row.
pub proof fn lemma_star_seed_rows_distinct(iu: i32, iv: i32, iw: i32)
    ensures
        spec_star_seed(iu, iv) == spec_star_seed(iu, iw) ==> iv == iw,
        spec_star_seed(iv, iu) == spec_star_seed(iw, iu) ==> iv == iw,
{
    lemma_star_seed_formula(iu, iv);
    lemma_star_seed_formula(iu, iw);
    lemma_star_seed_formula(iv, iu);
    lemma_star_seed_formula(iw, iu);
    let a = (((iu as u32) as nat * 0x9e3779b9) % 0x1_0000_0000) as u32;
    let b = (((iv as u32) as nat * 0x85ebca6b) % 0x1_0000_0000) as u32;
    let c = (((iw as u32) as nat * 0x85ebca6b) % 0x1_0000_0000) as u32;
    assert((a ^ b) == (a ^ c) ==> b == c) by (bit_vector);
    lemma_mul_undone(iv as u32, 0x85ebca6b, 0xa5cb9243);
    lemma_mul_undone(iw as u32, 0x85ebca6b, 0xa5cb9243);
    let d = (((iu as u32) as nat * 0x85ebca6b) % 0x1_0000_0000) as u32;
    let e = (((iv as u32) as nat * 0x9e3779b9) % 0x1_0000_0000) as u32;
    let f = (((iw as u32) as nat * 0x9e3779b9) % 0x1_0000_0000) as u32;
    assert((e ^ d) == (f ^ d) ==> e == f) by (bit_vector);
    lemma_mul_undone(iv as u32, 0x9e3779b9, 0x144cbc89);
    lemma_mul_undone(iw as u32, 0x9e3779b9, 0x144cbc89);
    assert((iv as u32) == (iw as u32) ==> iv == iw) by (bit_vector);
}

/// A cell holds a star exactly when its class byte is below 3.
pub proof fn lemma_star_iff_class_below_three(s: StarSample)
    ensures
        s.spec_is_star() <==> s.class < 3,
{
}

/// The four bytes of a star sample are the whole hash, lowest first: they
/// recompose it, so the class is the entire top byte (at least 128 exactly
/// when the hash is at least 2^31).
pub proof fn lemma_star_bytes_recompose_hash(h: u32)
    ensures
        star_sample_of_hash(h).class as int * 16777216 + star_sample_of_hash(h).cool as int * 65536
            + star_sample_of_hash(h).green as int * 256 + star_sample_of_hash(h).warm as int == h,
        star_sample_of_hash(h).class as int == h as int / 16777216,
        (star_sample_of_hash(h).class >= 128) <==> (h >= 0x8000_0000),
{
    let s = star_sample_of_hash(h);
    assert(s.warm as int == h as int % 256);
    assert(s.green as int == (h as int / 256) % 256);
    assert(s.cool as int == (h as int / 65536) % 256);
    assert(s.class as int == h as int / 16777216);
}

} // verus!
