//! The pure bit arithmetic behind every register access: extracting a single
//! bit and replacing a masked field inside a 32-bit register value.

use vstd::prelude::*;

verus! {

/// The single bit of `v` at position `b`, as `0` or `1`: `(v >> b) & 1`.
pub open spec fn spec_extract_bit(v: u32, b: u32) -> u32 {
    (v >> b) & 1
}

/// `v` with the bits outside the keep-mask `m` cleared and the payload `p`
/// ORed in at bit offset `b`: `(v & m) | (p << b)`.
pub open spec fn spec_apply_field(v: u32, m: u32, p: u32, b: u32) -> u32 {
    (v & m) | (p << b)
}

/// Read the single bit of `v` at position `b`.
pub fn extract_bit(v: u32, b: u32) -> (r: u32)
    requires
        b < 32,
    ensures
        r == spec_extract_bit(v, b),
        r == 0 || r == 1,
{
    proof {
        assert(((v >> b) & 1) == 0 || ((v >> b) & 1) == 1) by (bit_vector);
    }
    (v >> b) & 1
}

/// Replace the field of `v` that the keep-mask `m` zeroes out: clear those
/// bits, then OR in the payload `p` shifted to bit offset `b`.
pub fn apply_field(v: u32, m: u32, p: u32, b: u32) -> (r: u32)
    requires
        b < 32,
    ensures
        r == spec_apply_field(v, m, p, b),
{
    (v & m) | (p << b)
}

/// Replacing a field touches nothing outside it: when the shifted payload
/// lies inside the zero-region of the keep-mask `m`, every bit that `m`
/// keeps is unchanged, and the zero-region of `m` holds exactly the shifted
/// payload afterwards.
pub proof fn lemma_apply_field_exact(v: u32, m: u32, p: u32, b: u32)
    by (bit_vector)
    requires
        b < 32,
        ((p << b) & m) == 0,
    ensures
        (spec_apply_field(v, m, p, b) & m) == (v & m),
        (spec_apply_field(v, m, p, b) & !m) == (p << b),
        forall|i: u32|
            i < 32 && #[trigger] spec_extract_bit(m, i) == 1 ==> spec_extract_bit(
                spec_apply_field(v, m, p, b),
                i,
            ) == spec_extract_bit(v, i),
        forall|i: u32|
            i < 32 && #[trigger] spec_extract_bit(m, i) == 0 ==> spec_extract_bit(
                spec_apply_field(v, m, p, b),
                i,
            ) == spec_extract_bit(p << b, i),
{
}

/// Extracting a bit is idempotent: the result is already a pure bit, so
/// reading bit 0 of the result gives the result back.
pub proof fn lemma_extract_bit_idempotent(v: u32, b: u32)
    by (bit_vector)
    requires
        b < 32,
    ensures
        spec_extract_bit(v, b) == 0 || spec_extract_bit(v, b) == 1,
        spec_extract_bit(spec_extract_bit(v, b), 0) == spec_extract_bit(v, b),
{
}

/// Extracting a bit depends on that bit alone: flipping any set `d` of
/// other bits of `v` leaves the extracted bit unchanged.
pub proof fn lemma_extract_bit_independent(v: u32, d: u32, b: u32)
    by (bit_vector)
    requires
        b < 32,
        spec_extract_bit(d, b) == 0,
    ensures
        spec_extract_bit(v ^ d, b) == spec_extract_bit(v, b),
{
}

} // verus!
