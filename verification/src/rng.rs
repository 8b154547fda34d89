use vstd::prelude::*;

verus! {

/// A 16-byte seed for the generator.
pub type Seed = [u8; 16];

/// The four 32-bit words of xorshift128 state.
#[derive(Clone, Copy, Debug, PartialEq, Eq, Structural)]
pub struct Xs {
    pub x0: u32,
    pub x1: u32,
    pub x2: u32,
    pub x3: u32,
}

impl Default for Xs {
    /// The resting state before any seed was applied: all words zero.
    fn default() -> (r: Xs)
        ensures
            r == (Xs { x0: 0, x1: 0, x2: 0, x3: 0 }),
    {
        Xs { x0: 0, x1: 0, x2: 0, x3: 0 }
    }
}

/// The xorshift128 recurrence: the state after one draw.
pub open spec fn spec_xorshift_state(xs: Xs) -> Xs {
    let t1 = xs.x3 ^ (xs.x3 << 11);
    let t2 = t1 ^ (t1 >> 8);
    Xs {
        x0: t2 ^ xs.x0 ^ (xs.x0 >> 19),
        x1: xs.x0,
        x2: xs.x1,
        x3: xs.x2,
    }
}

/// The 32-bit value one draw yields: the new first word.
pub open spec fn spec_xorshift_output(xs: Xs) -> u32 {
    spec_xorshift_state(xs).x0
}

/// Advances the generator by one draw and returns the drawn 32-bit value.
pub fn xorshift(xs: &mut Xs) -> (r: u32)
    ensures
        *final(xs) == spec_xorshift_state(*old(xs)),
        r == spec_xorshift_output(*old(xs)),
{
    let mut t = xs.x3;

    xs.x3 = xs.x2;
    xs.x2 = xs.x1;
    xs.x1 = xs.x0;

    t = t ^ (t << 11);
    t = t ^ (t >> 8);
    xs.x0 = t ^ xs.x0 ^ (xs.x0 >> 19);

    xs.x0
}

/// One draw mapped into [min, one_past_max): min plus the output modulo the
/// width. The modulo bias for small widths is accepted by design.
pub open spec fn spec_xs_u32(xs: Xs, min: u32, one_past_max: u32) -> int
    recommends
        min < one_past_max,
{
    min + spec_xorshift_output(xs) as int % (one_past_max - min)
}

/// Advances the generator by one draw and returns a value in [min, one_past_max).
pub fn xs_u32(xs: &mut Xs, min: u32, one_past_max: u32) -> (r: u32)
    requires
        min < one_past_max,
    ensures
        *final(xs) == spec_xorshift_state(*old(xs)),
        r == spec_xs_u32(*old(xs), min, one_past_max),
        min <= r < one_past_max,
{
    (xorshift(xs) % (one_past_max - min)) + min
}

/// A 32-bit word read from four bytes, least significant first.
pub open spec fn spec_word_from_bytes(b0: u8, b1: u8, b2: u8, b3: u8) -> u32 {
    (b0 as u32) | (b1 as u32) << 8 | (b2 as u32) << 16 | (b3 as u32) << 24
}

fn word_from_bytes(b0: u8, b1: u8, b2: u8, b3: u8) -> (r: u32)
    ensures
        r == spec_word_from_bytes(b0, b1, b2, b3),
{
    (b0 as u32) | (b1 as u32) << 8 | (b2 as u32) << 16 | (b3 as u32) << 24
}

/// The four bytes of a 32-bit word, least significant first.
pub open spec fn spec_word_to_bytes(w: u32) -> Seq<u8> {
    seq![
        (w & 0xff) as u8,
        ((w >> 8) & 0xff) as u8,
        ((w >> 16) & 0xff) as u8,
        ((w >> 24) & 0xff) as u8,
    ]
}

/// A seed is all zero when every one of its 16 bytes is zero.
pub open spec fn spec_is_zero_seed(s: Seq<u8>) -> bool {
    s.len() == 16 && forall|i: int| 0 <= i < 16 ==> s[i] == 0u8
}

/// The fixed non-zero seed that stands in for the all-zero seed.
pub open spec fn spec_substitute_seed() -> Seq<u8> {
    seq![0xedu8, 0x5eu8, 0xadu8, 0x0bu8, 0u8, 0u8, 0u8, 0u8, 0u8, 0u8, 0u8, 0u8, 0u8, 0u8, 0u8, 0u8]
}

/// The generator state read from a 16-byte seed: four little-endian words.
pub open spec fn spec_seed_words(s: Seq<u8>) -> Xs
    recommends
        s.len() == 16,
{
    Xs {
        x0: spec_word_from_bytes(s[0], s[1], s[2], s[3]),
        x1: spec_word_from_bytes(s[4], s[5], s[6], s[7]),
        x2: spec_word_from_bytes(s[8], s[9], s[10], s[11]),
        x3: spec_word_from_bytes(s[12], s[13], s[14], s[15]),
    }
}

/// The generator state a seed yields: the all-zero seed is first replaced by
/// the fixed substitute, every other seed is split into four words directly.
pub open spec fn spec_xs_from_seed(s: Seq<u8>) -> Xs
    recommends
        s.len() == 16,
{
    if spec_is_zero_seed(s) {
        spec_seed_words(spec_substitute_seed())
    } else {
        spec_seed_words(s)
    }
}

/// The all-zero seed.
pub open spec fn spec_zero_seed() -> Seq<u8> {
    Seq::new(16, |i: int| 0u8)
}

/// The all-zero seed and the fixed substitute seed start the generator in the
/// same state, so they yield the same draws.
pub proof fn lemma_zero_seed_equivalence()
    ensures
        spec_xs_from_seed(spec_zero_seed()) == spec_xs_from_seed(spec_substitute_seed()),
{
    assert(spec_is_zero_seed(spec_zero_seed()));
    assert(!spec_is_zero_seed(spec_substitute_seed()));
}

/// Derives the initial generator state from a seed.
pub fn xs_from_seed(seed: Seed) -> (r: Xs)
    ensures
        r == spec_xs_from_seed(seed@),
{
    let mut is_zero = true;
    for i in 0..16
        invariant
            is_zero <==> forall|j: int| 0 <= j < i ==> seed@[j] == 0u8,
    {
        if seed[i] != 0 {
            is_zero = false;
        }
    }
    let s: Seed = if is_zero {
        let sub: Seed = [
            0xed, 0x5e, 0xad, 0x0b, 0, 0, 0, 0, 0, 0, 0, 0, 0, 0, 0, 0,
        ];
        proof {
            assert(sub@ =~= spec_substitute_seed());
        }
        sub
    } else {
        seed
    };
    Xs {
        x0: word_from_bytes(s[0], s[1], s[2], s[3]),
        x1: word_from_bytes(s[4], s[5], s[6], s[7]),
        x2: word_from_bytes(s[8], s[9], s[10], s[11]),
        x3: word_from_bytes(s[12], s[13], s[14], s[15]),
    }
}

/// A sequence with the entries at two places exchanged.
pub open spec fn spec_swapped<A>(s: Seq<A>, i: int, r: int) -> Seq<A>
    recommends
        0 <= i < s.len(),
        0 <= r < s.len(),
{
    s.update(i, s[r]).update(r, s[i])
}

/// The Fisher-Yates walk from place i on: each step exchanges place i with a
/// drawn place at or below it.
pub open spec fn spec_shuffle_from<A>(xs: Xs, s: Seq<A>, i: nat) -> (Seq<A>, Xs)
    decreases s.len() - i,
{
    if i < s.len() {
        let r = spec_xorshift_output(xs) as int % (i + 1) as int;
        spec_shuffle_from(spec_xorshift_state(xs), spec_swapped(s, i as int, r), i + 1)
    } else {
        (s, xs)
    }
}

fn vec_swap<A>(v: &mut Vec<A>, i: usize, r: usize)
    requires
        r <= i < old(v)@.len(),
    ensures
        final(v)@ == spec_swapped(old(v)@, i as int, r as int),
{
    let ghost s = v@;
    if r < i {
        let a = v.remove(i);
        let b = v.remove(r);
        v.insert(r, a);
        v.insert(i, b);
        proof {
            assert(v@ =~= spec_swapped(s, i as int, r as int));
        }
    } else {
        proof {
            assert(v@ =~= spec_swapped(s, i as int, r as int));
        }
    }
}

/// Exchanges each place, from the second on, with a drawn place at or below
/// it. This only correctly shuffles sequences shorter than 2^32 entries;
/// longer ones are left out by the bound on the length.
pub fn xs_shuffle<A>(rng: &mut Xs, slice: &mut Vec<A>)
    requires
        old(slice)@.len() < 0x1_0000_0000,
    ensures
        (final(slice)@, *final(rng)) == spec_shuffle_from(*old(rng), old(slice)@, 1),
        final(slice)@.len() == old(slice)@.len(),
{
    let ghost xs0 = *rng;
    let ghost s0 = slice@;
    let len = slice.len();
    if len == 0 {
        return ;
    }
    for i in 1..len
        invariant
            slice@.len() == len,
            1 <= i <= len < 0x1_0000_0000,
            spec_shuffle_from(xs0, s0, 1) == spec_shuffle_from(*rng, slice@, i as nat),
    {
        let r = xs_u32(rng, 0, (i + 1) as u32) as usize;
        vec_swap(slice, i, r);
    }
}

/// The 16 bytes that four successive draws yield, each split least
/// significant byte first.
pub open spec fn spec_new_seed(xs: Xs) -> Seq<u8> {
    let s1 = spec_xorshift_state(xs);
    let s2 = spec_xorshift_state(s1);
    let s3 = spec_xorshift_state(s2);
    let s4 = spec_xorshift_state(s3);
    spec_word_to_bytes(s1.x0) + spec_word_to_bytes(s2.x0) + spec_word_to_bytes(s3.x0)
        + spec_word_to_bytes(s4.x0)
}

fn word_to_bytes(w: u32) -> (r: (u8, u8, u8, u8))
    ensures
        seq![r.0, r.1, r.2, r.3] == spec_word_to_bytes(w),
{
    ((w & 0xff) as u8, ((w >> 8) & 0xff) as u8, ((w >> 16) & 0xff) as u8, ((w >> 24) & 0xff) as u8)
}

/// Draws a fresh seed: four draws, written out little-endian.
pub fn new_seed(xs: &mut Xs) -> (r: Seed)
    ensures
        r@ == spec_new_seed(*old(xs)),
        *final(xs) == spec_xorshift_state(
            spec_xorshift_state(spec_xorshift_state(spec_xorshift_state(*old(xs)))),
        ),
{
    let s0 = word_to_bytes(xorshift(xs));
    let s1 = word_to_bytes(xorshift(xs));
    let s2 = word_to_bytes(xorshift(xs));
    let s3 = word_to_bytes(xorshift(xs));

    let r: Seed = [
        s0.0, s0.1, s0.2, s0.3,
        s1.0, s1.1, s1.2, s1.3,
        s2.0, s2.1, s2.2, s2.3,
        s3.0, s3.1, s3.2, s3.3,
    ];
    proof {
        assert(r@ =~= spec_new_seed(*old(xs)));
    }
    r
}

} // verus!
