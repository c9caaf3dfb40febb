use vstd::arithmetic::power2::{lemma2_to64, pow2};
use vstd::bits::{
    lemma_u32_low_bits_mask_is_mod, lemma_u32_pow2_no_overflow, lemma_u32_shl_is_mul,
    lemma_u32_shr_is_div, low_bits_mask,
};
use vstd::prelude::*;

verus! {

/// The unsigned bit field of `len` bits starting at bit `start` of `val`.
pub open spec fn field(val: u32, start: nat, len: nat) -> nat {
    (val as nat / pow2(start)) % pow2(len)
}

/// The bit field of `len` bits starting at bit `start` of `val`, read as a
/// two's-complement signed number.
pub open spec fn sfield(val: u32, start: nat, len: nat) -> int {
    if field(val, start, len) >= pow2((len - 1) as nat) {
        field(val, start, len) - pow2(len)
    } else {
        field(val, start, len) as int
    }
}

/// Extract the unsigned bit field `val[start + len - 1 : start]`.
pub fn extract(val: u32, start: u32, len: u32) -> (r: u32)
    requires
        0 < len < 32,
        start + len <= 32,
    ensures
        r == field(val, start as nat, len as nat),
        r < pow2(len as nat),
{
    proof {
        lemma_u32_pow2_no_overflow(len as nat);
        lemma_u32_pow2_no_overflow(start as nat);
        lemma_u32_shl_is_mul(1, len);
        lemma_u32_shr_is_div(val, start);
        vstd::bits::lemma_low_bits_mask_unfold(len as nat);
    }
    let mask: u32 = (1u32 << len) - 1;
    let shifted: u32 = val >> start;
    proof {
        assert(mask == low_bits_mask(len as nat) as u32) by {
            vstd::bits::lemma_low_bits_mask_values();
            assert(low_bits_mask(len as nat) == (pow2(len as nat) - 1) as nat);
        }
        lemma_u32_low_bits_mask_is_mod(shifted, len as nat);
        vstd::arithmetic::div_mod::lemma_mod_bound(shifted as int, pow2(len as nat) as int);
    }
    shifted & mask
}

/// Extract the bit field `val[start + len - 1 : start]` and sign-extend it.
pub fn sextract(val: u32, start: u32, len: u32) -> (r: i64)
    requires
        0 < len < 32,
        start + len <= 32,
    ensures
        r == sfield(val, start as nat, len as nat),
        -pow2((len - 1) as nat) <= r < pow2((len - 1) as nat),
{
    let f = extract(val, start, len);
    proof {
        vstd::arithmetic::power2::lemma_pow2_unfold(len as nat);
        lemma_u32_pow2_no_overflow(len as nat);
    }
    let full: i64 = (1u32 << len) as i64;
    let half: i64 = (1u32 << (len - 1)) as i64;
    proof {
        lemma_u32_shl_is_mul(1, len);
        lemma_u32_shl_is_mul(1, (len - 1) as u32);
        lemma_u32_pow2_no_overflow((len - 1) as nat);
    }
    if f as i64 >= half {
        f as i64 - full
    } else {
        f as i64
    }
}

/// Facts about small powers of two used when bounding decoded fields.
pub proof fn lemma_small_pow2()
    ensures
        pow2(1) == 2,
        pow2(2) == 4,
        pow2(3) == 8,
        pow2(4) == 16,
        pow2(5) == 32,
        pow2(6) == 64,
        pow2(7) == 128,
        pow2(8) == 256,
        pow2(9) == 512,
        pow2(12) == 4096,
        pow2(16) == 65536,
        pow2(18) == 0x40000,
        pow2(19) == 0x80000,
        pow2(25) == 0x2000000,
        pow2(26) == 0x4000000,
{
    lemma2_to64();
}

} // verus!
