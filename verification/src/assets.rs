//! Stable asset identifiers.
//!
//! An identifier is 36 bytes: fixed assets carry the ASCII form of a UUID,
//! while procedurally loaded assets get an identifier derived from a
//! counter, zero except for the counter's four big-endian bytes at the
//! tail.  The two shapes never collide: a fixed identifier's first byte is
//! ASCII, never zero.

use vstd::prelude::*;

verus! {

use vstd::arithmetic::div_mod::lemma_fundamental_div_mod;
use vstd::arithmetic::div_mod::lemma_fundamental_div_mod_converse_div;
use vstd::arithmetic::div_mod::lemma_div_denominator;
use vstd::arithmetic::div_mod::lemma_div_is_ordered;
use vstd::arithmetic::div_mod::lemma_div_pos_is_pos;

/// A stable identifier for a texture or other asset.
#[derive(Debug, Copy, Clone, Eq, Hash)]
pub struct AssetsId(pub [u8; 36]);

impl View for AssetsId {
    type V = Seq<u8>;

    open spec fn view(&self) -> Seq<u8> {
        self.0@
    }
}

impl AssetsId {
    /// Wraps the 36 identifier bytes as given.
    pub fn new(input: &[u8; 36]) -> (id: AssetsId)
        ensures
            id@ == input@,
    {
        AssetsId(*input)
    }

    /// The reserved all-zero identifier.
    pub fn invalid() -> (id: AssetsId)
        ensures
            id@ == Seq::new(36, |i: int| 0u8),
    {
        let id = AssetsId([0u8; 36]);
        proof {
            assert(id@ =~= Seq::new(36, |i: int| 0u8));
        }
        id
    }

    /// The identifier assigned to the counter value `num`: zero bytes with
    /// the counter's four big-endian bytes at positions 32 to 35.
    pub fn from_u32(num: u32) -> (id: AssetsId)
        ensures
            id@ == from_u32_spec(num),
    {
        let mut result = [0u8; 36];
        result[32] = (num / 0x1000000) as u8;
        result[33] = ((num / 0x10000) % 0x100) as u8;
        result[34] = ((num / 0x100) % 0x100) as u8;
        result[35] = (num % 0x100) as u8;
        let id = AssetsId(result);
        proof {
            assert(id@ =~= from_u32_spec(num));
        }
        id
    }

    /// Compares two identifiers byte for byte.
    pub fn bytes_eq(&self, other: &AssetsId) -> (r: bool)
        ensures
            r == (self@ == other@),
    {
        let mut i: usize = 0;
        while i < 36
            invariant
                0 <= i <= 36,
                forall|j: int| 0 <= j < i ==> self.0@[j] == other.0@[j],
            decreases 36 - i,
        {
            if self.0[i] != other.0[i] {
                return false;
            }
            i = i + 1;
        }
        proof {
            assert(self@ =~= other@);
        }
        true
    }
}

/// The identifier bytes assigned to a counter value: zero bytes with the
/// counter's four big-endian bytes at the tail.
pub open spec fn from_u32_spec(num: u32) -> Seq<u8> {
    Seq::new(36, |i: int|
        if i == 32 {
            (num / 0x1000000) as u8
        } else if i == 33 {
            ((num / 0x10000) % 0x100) as u8
        } else if i == 34 {
            ((num / 0x100) % 0x100) as u8
        } else if i == 35 {
            (num % 0x100) as u8
        } else {
            0u8
        })
}

/// A counter identifier holds zero everywhere but its four tail bytes, so
/// it can never collide with a fixed identifier, whose first byte is a
/// nonzero ASCII character.
pub proof fn lemma_from_u32_leading_zeros(num: u32)
    ensures
        forall|i: int| 0 <= i < 32 ==> from_u32_spec(num)[i] == 0,
{
    assert forall|i: int| 0 <= i < 32 implies from_u32_spec(num)[i] == 0 by {
        assert(from_u32_spec(num)[i] == 0u8);
    }
}

/// Distinct counter values give distinct identifiers: the four tail bytes
/// together hold the whole counter.
pub proof fn lemma_from_u32_injective(a: u32, b: u32)
    requires
        from_u32_spec(a) == from_u32_spec(b),
    ensures
        a == b,
{
    assert(from_u32_spec(a)[32] == from_u32_spec(b)[32]);
    assert(from_u32_spec(a)[33] == from_u32_spec(b)[33]);
    assert(from_u32_spec(a)[34] == from_u32_spec(b)[34]);
    assert(from_u32_spec(a)[35] == from_u32_spec(b)[35]);
    lemma_u32_bytes_determine(a);
    lemma_u32_bytes_determine(b);
    assert(from_u32_spec(a)[32] == (a / 0x1000000) as u8);
    assert(from_u32_spec(b)[32] == (b / 0x1000000) as u8);
    assert((a / 0x1000000) as u8 == (b / 0x1000000) as u8);
    assert(a / 0x1000000 < 0x100 && b / 0x1000000 < 0x100);
    assert(a / 0x1000000 == b / 0x1000000);
    assert(from_u32_spec(a)[33] == ((a / 0x10000) % 0x100) as u8);
    assert(from_u32_spec(b)[33] == ((b / 0x10000) % 0x100) as u8);
    assert(((a / 0x10000) % 0x100) as u8 == ((b / 0x10000) % 0x100) as u8);
    assert((a / 0x10000) % 0x100 == (b / 0x10000) % 0x100);
    assert(from_u32_spec(a)[34] == ((a / 0x100) % 0x100) as u8);
    assert(from_u32_spec(b)[34] == ((b / 0x100) % 0x100) as u8);
    assert(((a / 0x100) % 0x100) as u8 == ((b / 0x100) % 0x100) as u8);
    assert((a / 0x100) % 0x100 == (b / 0x100) % 0x100);
    assert(from_u32_spec(a)[35] == (a % 0x100) as u8);
    assert(from_u32_spec(b)[35] == (b % 0x100) as u8);
    assert((a % 0x100) as u8 == (b % 0x100) as u8);
    assert(a % 0x100 == b % 0x100);
}

/// A 32-bit value is the sum of its four big-endian byte digits.
proof fn lemma_u32_bytes_determine(a: u32)
    ensures
        a == (a / 0x1000000) * 0x1000000 + ((a / 0x10000) % 0x100) * 0x10000 + ((a / 0x100)
            % 0x100) * 0x100 + a % 0x100,
        a / 0x1000000 < 0x100,
{
    let q1 = a as int / 0x100;
    let q2 = a as int / 0x10000;
    let q3 = a as int / 0x1000000;
    lemma_div_denominator(a as int, 0x100, 0x100);
    assert(q1 / 0x100 == q2);
    lemma_div_denominator(a as int, 0x10000, 0x100);
    assert(q2 / 0x100 == q3);
    lemma_fundamental_div_mod(a as int, 0x100);
    lemma_fundamental_div_mod(q1, 0x100);
    lemma_fundamental_div_mod(q2, 0x100);
    lemma_div_is_ordered(a as int, 0xFFFFFFFF, 0x1000000);
    assert(0xFFFFFFFFint / 0x1000000 == 0xFF) by {
        lemma_fundamental_div_mod_converse_div(0xFFFFFFFF, 0x1000000, 0xFF, 0xFFFFFF);
    };
    lemma_div_pos_is_pos(a as int, 0x1000000);
}

impl PartialEq for AssetsId {
    /// Two identifiers are equal when their bytes are.
    fn eq(&self, other: &AssetsId) -> (r: bool) {
        self.bytes_eq(other)
    }
}

impl vstd::std_specs::cmp::PartialEqSpecImpl for AssetsId {
    open spec fn obeys_eq_spec() -> bool {
        true
    }

    open spec fn eq_spec(&self, other: &AssetsId) -> bool {
        self@ == other@
    }
}

impl Default for AssetsId {
    /// The reserved all-zero identifier.
    fn default() -> (id: Self)
        ensures
            id@ == Seq::new(36, |i: int| 0u8),
    {
        AssetsId::invalid()
    }
}

} // verus!
