//! Facts about the low-bit masks the address decoders use: masking with
//! `2^k - 1` is reduction modulo `2^k`.

use vstd::prelude::*;

verus! {

pub broadcast proof fn lemma_u16_mask_7(a: u16)
    by (bit_vector)
    ensures
        #[trigger] (a & 0x7) == a % 0x8,
{
}

pub broadcast proof fn lemma_u16_mask_f(a: u16)
    by (bit_vector)
    ensures
        #[trigger] (a & 0xF) == a % 0x10,
{
}

pub broadcast proof fn lemma_u16_mask_1f(a: u16)
    by (bit_vector)
    ensures
        #[trigger] (a & 0x1F) == a % 0x20,
{
}

pub broadcast proof fn lemma_u16_mask_ff(a: u16)
    by (bit_vector)
    ensures
        #[trigger] (a & 0xFF) == a % 0x100,
{
}

pub broadcast proof fn lemma_u16_mask_3ff(a: u16)
    by (bit_vector)
    ensures
        #[trigger] (a & 0x3FF) == a % 0x400,
{
}

pub broadcast proof fn lemma_u16_mask_7ff(a: u16)
    by (bit_vector)
    ensures
        #[trigger] (a & 0x7FF) == a % 0x800,
{
}

pub broadcast proof fn lemma_u16_mask_fff(a: u16)
    by (bit_vector)
    ensures
        #[trigger] (a & 0xFFF) == a % 0x1000,
{
}

pub broadcast proof fn lemma_u16_mask_1fff(a: u16)
    by (bit_vector)
    ensures
        #[trigger] (a & 0x1FFF) == a % 0x2000,
{
}

pub broadcast proof fn lemma_u16_mask_3fff(a: u16)
    by (bit_vector)
    ensures
        #[trigger] (a & 0x3FFF) == a % 0x4000,
{
}

pub broadcast proof fn lemma_u16_mask_7fff(a: u16)
    by (bit_vector)
    ensures
        #[trigger] (a & 0x7FFF) == a % 0x8000,
{
}

pub broadcast proof fn lemma_u8_mask_3(a: u8)
    by (bit_vector)
    ensures
        #[trigger] (a & 0x3) == a % 0x4,
{
}

pub broadcast proof fn lemma_u8_mask_7(a: u8)
    by (bit_vector)
    ensures
        #[trigger] (a & 0x7) == a % 0x8,
{
}

pub broadcast proof fn lemma_u8_mask_3f(a: u8)
    by (bit_vector)
    ensures
        #[trigger] (a & 0x3F) == a % 0x40,
{
}

} // verus!
