//! The xorshift32 generator that drives the serve angles.
use vstd::prelude::*;

verus! {

/// One step of Marsaglia's xorshift32 generator (shifts 13, 17, 5).
pub open spec fn xorshift32_spec(x: u32) -> u32 {
    let a = x ^ (x << 13u32);
    let b = a ^ (a >> 17u32);
    b ^ (b << 5u32)
}

/// Advances a generator state by one xorshift32 step.
pub fn xorshift32(x: u32) -> (r: u32)
    ensures
        r == xorshift32_spec(x),
{
    let mut s: u32 = x;
    s = s ^ (s << 13u32);
    s = s ^ (s >> 17u32);
    s = s ^ (s << 5u32);
    s
}

/// A non-zero state never steps to zero, so a generator seeded with a
/// non-zero value never gets stuck on the all-zero fixed point.
pub proof fn lemma_xorshift32_nonzero(x: u32)
    requires
        x != 0,
    ensures
        xorshift32_spec(x) != 0,
{
    let a = x ^ (x << 13u32);
    let b = a ^ (a >> 17u32);
    assert(x != 0 ==> x ^ (x << 13u32) != 0) by (bit_vector);
    assert(a != 0 ==> a ^ (a >> 17u32) != 0) by (bit_vector);
    assert(b != 0 ==> b ^ (b << 5u32) != 0) by (bit_vector);
}

/// A xorshift32 generator. Its state is never zero: zero is a fixed point
/// of the step, so a generator there would only ever yield zero.
pub struct XorShift32 {
    state: u32,
}

impl XorShift32 {
    #[verifier::type_invariant]
    spec fn inv(self) -> bool {
        self.state != 0
    }

    /// Current state of the generator.
    pub closed spec fn state(self) -> u32 {
        self.state
    }

    /// A generator started at `seed`.
    pub fn new(seed: u32) -> (g: XorShift32)
        requires
            seed != 0,
        ensures
            g.state() == seed,
    {
        XorShift32 { state: seed }
    }

    /// Steps the generator and returns its new state, which is never zero.
    pub fn next(&mut self) -> (x: u32)
        ensures
            final(self).state() == xorshift32_spec(old(self).state()),
            x == final(self).state(),
            x != 0,
    {
        proof {
            use_type_invariant(&*self);
            lemma_xorshift32_nonzero(self.state);
        }
        let x = xorshift32(self.state);
        self.state = x;
        x
    }
}

/// The step is linear over XOR: stepping `x ^ y` gives the XOR of stepping
/// `x` and stepping `y`. With `lemma_xorshift32_basis` this pins the step
/// down on every state.
pub proof fn lemma_xorshift32_linear(x: u32, y: u32)
    ensures
        xorshift32_spec(x ^ y) == xorshift32_spec(x) ^ xorshift32_spec(y),
{
    assert(xorshift32_spec(x ^ y) == xorshift32_spec(x) ^ xorshift32_spec(y)) by (bit_vector);
}

/// The step on each single-bit state: the images of the 32 basis vectors,
/// which, by linearity, fix the image of every state.
pub proof fn lemma_xorshift32_basis()
    ensures
        xorshift32_spec(1u32 << 0u32) == 0x42021u32,
        xorshift32_spec(1u32 << 1u32) == 0x84042u32,
        xorshift32_spec(1u32 << 2u32) == 0x108084u32,
        xorshift32_spec(1u32 << 3u32) == 0x210108u32,
        xorshift32_spec(1u32 << 4u32) == 0x420231u32,
        xorshift32_spec(1u32 << 5u32) == 0x840462u32,
        xorshift32_spec(1u32 << 6u32) == 0x10808c4u32,
        xorshift32_spec(1u32 << 7u32) == 0x2101188u32,
        xorshift32_spec(1u32 << 8u32) == 0x4202310u32,
        xorshift32_spec(1u32 << 9u32) == 0x8404620u32,
        xorshift32_spec(1u32 << 10u32) == 0x10808c40u32,
        xorshift32_spec(1u32 << 11u32) == 0x21011880u32,
        xorshift32_spec(1u32 << 12u32) == 0x42023100u32,
        xorshift32_spec(1u32 << 13u32) == 0x84046200u32,
        xorshift32_spec(1u32 << 14u32) == 0x808c400u32,
        xorshift32_spec(1u32 << 15u32) == 0x10118800u32,
        xorshift32_spec(1u32 << 16u32) == 0x20231000u32,
        xorshift32_spec(1u32 << 17u32) == 0x40462021u32,
        xorshift32_spec(1u32 << 18u32) == 0x808c4042u32,
        xorshift32_spec(1u32 << 19u32) == 0x1080084u32,
        xorshift32_spec(1u32 << 20u32) == 0x2100108u32,
        xorshift32_spec(1u32 << 21u32) == 0x4200210u32,
        xorshift32_spec(1u32 << 22u32) == 0x8400420u32,
        xorshift32_spec(1u32 << 23u32) == 0x10800840u32,
        xorshift32_spec(1u32 << 24u32) == 0x21001080u32,
        xorshift32_spec(1u32 << 25u32) == 0x42002100u32,
        xorshift32_spec(1u32 << 26u32) == 0x84004200u32,
        xorshift32_spec(1u32 << 27u32) == 0x8008400u32,
        xorshift32_spec(1u32 << 28u32) == 0x10010800u32,
        xorshift32_spec(1u32 << 29u32) == 0x20021000u32,
        xorshift32_spec(1u32 << 30u32) == 0x40042000u32,
        xorshift32_spec(1u32 << 31u32) == 0x80084000u32,
{
    assert(
        xorshift32_spec(1u32 << 0u32) == 0x42021u32 &&
        xorshift32_spec(1u32 << 1u32) == 0x84042u32 &&
        xorshift32_spec(1u32 << 2u32) == 0x108084u32 &&
        xorshift32_spec(1u32 << 3u32) == 0x210108u32 &&
        xorshift32_spec(1u32 << 4u32) == 0x420231u32 &&
        xorshift32_spec(1u32 << 5u32) == 0x840462u32 &&
        xorshift32_spec(1u32 << 6u32) == 0x10808c4u32 &&
        xorshift32_spec(1u32 << 7u32) == 0x2101188u32 &&
        xorshift32_spec(1u32 << 8u32) == 0x4202310u32 &&
        xorshift32_spec(1u32 << 9u32) == 0x8404620u32 &&
        xorshift32_spec(1u32 << 10u32) == 0x10808c40u32 &&
        xorshift32_spec(1u32 << 11u32) == 0x21011880u32 &&
        xorshift32_spec(1u32 << 12u32) == 0x42023100u32 &&
        xorshift32_spec(1u32 << 13u32) == 0x84046200u32 &&
        xorshift32_spec(1u32 << 14u32) == 0x808c400u32 &&
        xorshift32_spec(1u32 << 15u32) == 0x10118800u32 &&
        xorshift32_spec(1u32 << 16u32) == 0x20231000u32 &&
        xorshift32_spec(1u32 << 17u32) == 0x40462021u32 &&
        xorshift32_spec(1u32 << 18u32) == 0x808c4042u32 &&
        xorshift32_spec(1u32 << 19u32) == 0x1080084u32 &&
        xorshift32_spec(1u32 << 20u32) == 0x2100108u32 &&
        xorshift32_spec(1u32 << 21u32) == 0x4200210u32 &&
        xorshift32_spec(1u32 << 22u32) == 0x8400420u32 &&
        xorshift32_spec(1u32 << 23u32) == 0x10800840u32 &&
        xorshift32_spec(1u32 << 24u32) == 0x21001080u32 &&
        xorshift32_spec(1u32 << 25u32) == 0x42002100u32 &&
        xorshift32_spec(1u32 << 26u32) == 0x84004200u32 &&
        xorshift32_spec(1u32 << 27u32) == 0x8008400u32 &&
        xorshift32_spec(1u32 << 28u32) == 0x10010800u32 &&
        xorshift32_spec(1u32 << 29u32) == 0x20021000u32 &&
        xorshift32_spec(1u32 << 30u32) == 0x40042000u32 &&
        xorshift32_spec(1u32 << 31u32) == 0x80084000u32
    ) by (bit_vector);
}

/// The step maps zero, and only zero, to zero.
pub proof fn lemma_xorshift32_zero_iff(x: u32)
    ensures
        xorshift32_spec(x) == 0 <==> x == 0,
{
    if x != 0 {
        lemma_xorshift32_nonzero(x);
    } else {
        assert(xorshift32_spec(0) == 0) by (bit_vector);
    }
}

} // verus!
