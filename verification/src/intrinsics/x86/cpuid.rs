//! Decoding of the CPUID leaves and the XCR0 register into x86 features.
//!
//! A feature bit alone is not always enough to execute an instruction set:
//! AVX-family instructions also need the operating system to save the wider
//! register state, which XCR0 reports once OSXSAVE is set.
use vstd::prelude::*;

verus! {

/// The CPUID and XCR0 words that the x86 capability decisions read.
#[derive(Clone, Copy, Debug, PartialEq, Eq)]
pub struct Cpuid {
    /// Highest standard leaf, `CPUID.0:EAX`.
    pub max_leaf: u32,
    /// `CPUID.1:ECX`.
    pub leaf1_ecx: u32,
    /// `CPUID.1:EDX`.
    pub leaf1_edx: u32,
    /// `CPUID.(EAX=7,ECX=0):EBX`.
    pub leaf7_ebx: u32,
    /// `CPUID.(EAX=7,ECX=0):ECX`.
    pub leaf7_ecx: u32,
    /// `XCR0` as `XGETBV(0)` reports it.
    pub xcr0: u64,
}

/// Bit `bit` of `word` is set.
pub open spec fn bit_set(word: u32, bit: u32) -> bool {
    (word >> bit) & 1 == 1
}

/// Leaf 1 is implemented.
pub open spec fn has_leaf1(c: Cpuid) -> bool {
    c.max_leaf >= 1
}

/// Leaf 7 is implemented.
pub open spec fn has_leaf7(c: Cpuid) -> bool {
    c.max_leaf >= 7
}

/// A feature flag of leaf 1's ECX.
pub open spec fn leaf1_ecx_flag(c: Cpuid, bit: u32) -> bool {
    has_leaf1(c) && bit_set(c.leaf1_ecx, bit)
}

/// A feature flag of leaf 7's EBX.
pub open spec fn leaf7_ebx_flag(c: Cpuid, bit: u32) -> bool {
    has_leaf7(c) && bit_set(c.leaf7_ebx, bit)
}

/// The operating system has enabled XSAVE (`CPUID.1:ECX.OSXSAVE`, bit 27),
/// so XCR0 can be read.
pub open spec fn os_xsave(c: Cpuid) -> bool {
    leaf1_ecx_flag(c, 27)
}

/// AVX is usable: the CPU reports AVX (`CPUID.1:ECX` bit 28) and the
/// operating system saves the XMM and YMM state (XCR0 bits 1 and 2).
pub open spec fn avx_state(c: Cpuid) -> bool {
    leaf1_ecx_flag(c, 28) && os_xsave(c) && c.xcr0 & 6 == 6
}

/// The operating system saves the XMM, YMM and ZMM state (XCR0 bits 1, 2,
/// 5, 6 and 7).
pub open spec fn zmm_state(c: Cpuid) -> bool {
    os_xsave(c) && c.xcr0 & 0xe6 == 0xe6
}

/// AES-NI: `CPUID.1:ECX` bit 25.
pub open spec fn has_aes(c: Cpuid) -> bool {
    leaf1_ecx_flag(c, 25)
}

/// PCLMULQDQ: `CPUID.1:ECX` bit 1.
pub open spec fn has_pclmulqdq(c: Cpuid) -> bool {
    leaf1_ecx_flag(c, 1)
}

/// SSSE3: `CPUID.1:ECX` bit 9.
pub open spec fn has_ssse3(c: Cpuid) -> bool {
    leaf1_ecx_flag(c, 9)
}

/// SSE4.1: `CPUID.1:ECX` bit 19.
pub open spec fn has_sse41(c: Cpuid) -> bool {
    leaf1_ecx_flag(c, 19)
}

/// SSE2: `CPUID.1:EDX` bit 26.
pub open spec fn has_sse2(c: Cpuid) -> bool {
    has_leaf1(c) && bit_set(c.leaf1_edx, 26)
}

/// AVX2: `CPUID.7:EBX` bit 5, with AVX usable.
pub open spec fn has_avx2(c: Cpuid) -> bool {
    leaf7_ebx_flag(c, 5) && avx_state(c)
}

/// BMI1: `CPUID.7:EBX` bit 3.
pub open spec fn has_bmi1(c: Cpuid) -> bool {
    leaf7_ebx_flag(c, 3)
}

/// BMI2: `CPUID.7:EBX` bit 8.
pub open spec fn has_bmi2(c: Cpuid) -> bool {
    leaf7_ebx_flag(c, 8)
}

/// VPCLMULQDQ: `CPUID.7:ECX` bit 10.
pub open spec fn has_vpclmulqdq(c: Cpuid) -> bool {
    has_leaf7(c) && bit_set(c.leaf7_ecx, 10)
}

/// 256-bit carry-less multiplication: PCLMULQDQ and VPCLMULQDQ, with AVX
/// usable.
pub open spec fn has_pclmulqdq_v256(c: Cpuid) -> bool {
    has_pclmulqdq(c) && has_vpclmulqdq(c) && avx_state(c)
}

/// 512-bit carry-less multiplication: PCLMULQDQ, VPCLMULQDQ and AVX-512F
/// (`CPUID.7:EBX` bit 16), with the ZMM state saved.
pub open spec fn has_pclmulqdq_v512(c: Cpuid) -> bool {
    has_pclmulqdq(c) && has_vpclmulqdq(c) && leaf7_ebx_flag(c, 16) && zmm_state(c)
}

/// Whether bit `bit` of `word` is set.
pub fn test_bit(word: u32, bit: u32) -> (set: bool)
    requires
        bit < 32,
    ensures
        set == bit_set(word, bit),
{
    assert((word & (1u32 << bit) != 0) == ((word >> bit) & 1 == 1)) by (bit_vector)
        requires
            bit < 32,
    ;
    word & (1u32 << bit) != 0
}

fn leaf1_ecx_bit(c: &Cpuid, bit: u32) -> (set: bool)
    requires
        bit < 32,
    ensures
        set == leaf1_ecx_flag(*c, bit),
{
    c.max_leaf >= 1 && test_bit(c.leaf1_ecx, bit)
}

fn leaf7_ebx_bit(c: &Cpuid, bit: u32) -> (set: bool)
    requires
        bit < 32,
    ensures
        set == leaf7_ebx_flag(*c, bit),
{
    c.max_leaf >= 7 && test_bit(c.leaf7_ebx, bit)
}

/// Whether AVX is usable.
pub fn avx_state_enabled(c: &Cpuid) -> (enabled: bool)
    ensures
        enabled == avx_state(*c),
{
    leaf1_ecx_bit(c, 28) && leaf1_ecx_bit(c, 27) && c.xcr0 & 6 == 6
}

/// Whether the ZMM state is saved.
pub fn zmm_state_enabled(c: &Cpuid) -> (enabled: bool)
    ensures
        enabled == zmm_state(*c),
{
    leaf1_ecx_bit(c, 27) && c.xcr0 & 0xe6 == 0xe6
}

/// Whether the CPU reports AES-NI.
pub fn aes(c: &Cpuid) -> (available: bool)
    ensures
        available == has_aes(*c),
{
    leaf1_ecx_bit(c, 25)
}

/// Whether the CPU reports PCLMULQDQ.
pub fn pclmulqdq(c: &Cpuid) -> (available: bool)
    ensures
        available == has_pclmulqdq(*c),
{
    leaf1_ecx_bit(c, 1)
}

/// Whether the CPU reports SSSE3.
pub fn ssse3(c: &Cpuid) -> (available: bool)
    ensures
        available == has_ssse3(*c),
{
    leaf1_ecx_bit(c, 9)
}

/// Whether the CPU reports SSE4.1.
pub fn sse41(c: &Cpuid) -> (available: bool)
    ensures
        available == has_sse41(*c),
{
    leaf1_ecx_bit(c, 19)
}

/// Whether the CPU reports SSE2.
pub fn sse2(c: &Cpuid) -> (available: bool)
    ensures
        available == has_sse2(*c),
{
    c.max_leaf >= 1 && test_bit(c.leaf1_edx, 26)
}

/// Whether AVX2 is usable.
pub fn avx2(c: &Cpuid) -> (available: bool)
    ensures
        available == has_avx2(*c),
{
    leaf7_ebx_bit(c, 5) && avx_state_enabled(c)
}

/// Whether the CPU reports BMI1.
pub fn bmi1(c: &Cpuid) -> (available: bool)
    ensures
        available == has_bmi1(*c),
{
    leaf7_ebx_bit(c, 3)
}

/// Whether the CPU reports BMI2.
pub fn bmi2(c: &Cpuid) -> (available: bool)
    ensures
        available == has_bmi2(*c),
{
    leaf7_ebx_bit(c, 8)
}

/// Whether the CPU reports VPCLMULQDQ.
pub fn vpclmulqdq(c: &Cpuid) -> (available: bool)
    ensures
        available == has_vpclmulqdq(*c),
{
    c.max_leaf >= 7 && test_bit(c.leaf7_ecx, 10)
}

/// Whether 256-bit carry-less multiplication is usable.
pub fn pclmulqdq_v256(c: &Cpuid) -> (available: bool)
    ensures
        available == has_pclmulqdq_v256(*c),
{
    pclmulqdq(c) && vpclmulqdq(c) && avx_state_enabled(c)
}

/// Whether 512-bit carry-less multiplication is usable.
pub fn pclmulqdq_v512(c: &Cpuid) -> (available: bool)
    ensures
        available == has_pclmulqdq_v512(*c),
{
    pclmulqdq(c) && vpclmulqdq(c) && leaf7_ebx_bit(c, 16) && zmm_state_enabled(c)
}

/// Reading bit `k` by shifting agrees with testing it against its mask,
/// for every bit position that the features above read.
proof fn lemma_flag_masks(w: u32)
    ensures
        bit_set(w, 1) == (w & 0x0000_0002 != 0),
        bit_set(w, 3) == (w & 0x0000_0008 != 0),
        bit_set(w, 5) == (w & 0x0000_0020 != 0),
        bit_set(w, 8) == (w & 0x0000_0100 != 0),
        bit_set(w, 9) == (w & 0x0000_0200 != 0),
        bit_set(w, 10) == (w & 0x0000_0400 != 0),
        bit_set(w, 16) == (w & 0x0001_0000 != 0),
        bit_set(w, 19) == (w & 0x0008_0000 != 0),
        bit_set(w, 25) == (w & 0x0200_0000 != 0),
        bit_set(w, 26) == (w & 0x0400_0000 != 0),
        bit_set(w, 27) == (w & 0x0800_0000 != 0),
        bit_set(w, 28) == (w & 0x1000_0000 != 0),
{
    assert(((w >> 1u32) & 1 == 1) == (w & 0x0000_0002 != 0)) by (bit_vector);
    assert(((w >> 3u32) & 1 == 1) == (w & 0x0000_0008 != 0)) by (bit_vector);
    assert(((w >> 5u32) & 1 == 1) == (w & 0x0000_0020 != 0)) by (bit_vector);
    assert(((w >> 8u32) & 1 == 1) == (w & 0x0000_0100 != 0)) by (bit_vector);
    assert(((w >> 9u32) & 1 == 1) == (w & 0x0000_0200 != 0)) by (bit_vector);
    assert(((w >> 10u32) & 1 == 1) == (w & 0x0000_0400 != 0)) by (bit_vector);
    assert(((w >> 16u32) & 1 == 1) == (w & 0x0001_0000 != 0)) by (bit_vector);
    assert(((w >> 19u32) & 1 == 1) == (w & 0x0008_0000 != 0)) by (bit_vector);
    assert(((w >> 25u32) & 1 == 1) == (w & 0x0200_0000 != 0)) by (bit_vector);
    assert(((w >> 26u32) & 1 == 1) == (w & 0x0400_0000 != 0)) by (bit_vector);
    assert(((w >> 27u32) & 1 == 1) == (w & 0x0800_0000 != 0)) by (bit_vector);
    assert(((w >> 28u32) & 1 == 1) == (w & 0x1000_0000 != 0)) by (bit_vector);
}

/// Which CPUID word and bit each feature reads, written with the masks of
/// the Intel and AMD manuals: leaf 1 ECX (PCLMULQDQ bit 1, SSSE3 bit 9,
/// SSE4.1 bit 19, AES bit 25, OSXSAVE bit 27, AVX bit 28), leaf 1 EDX
/// (SSE2 bit 26), leaf 7 EBX (BMI1 bit 3, AVX2 bit 5, BMI2 bit 8, AVX-512F
/// bit 16), leaf 7 ECX (VPCLMULQDQ bit 10); a leaf counts only where CPUID.0
/// reports it, and AVX-family features need XCR0 to save XMM and YMM (mask
/// 0x6), and the ZMM state too (mask 0xe6) for AVX-512.
pub proof fn lemma_features_from_cpuid_words(c: Cpuid)
    ensures
        has_aes(c) == (c.max_leaf >= 1 && c.leaf1_ecx & 0x0200_0000 != 0),
        has_pclmulqdq(c) == (c.max_leaf >= 1 && c.leaf1_ecx & 0x0000_0002 != 0),
        has_ssse3(c) == (c.max_leaf >= 1 && c.leaf1_ecx & 0x0000_0200 != 0),
        has_sse41(c) == (c.max_leaf >= 1 && c.leaf1_ecx & 0x0008_0000 != 0),
        has_sse2(c) == (c.max_leaf >= 1 && c.leaf1_edx & 0x0400_0000 != 0),
        has_bmi1(c) == (c.max_leaf >= 7 && c.leaf7_ebx & 0x0000_0008 != 0),
        has_bmi2(c) == (c.max_leaf >= 7 && c.leaf7_ebx & 0x0000_0100 != 0),
        has_vpclmulqdq(c) == (c.max_leaf >= 7 && c.leaf7_ecx & 0x0000_0400 != 0),
        avx_state(c) == (c.max_leaf >= 1 && c.leaf1_ecx & 0x1000_0000 != 0 && c.leaf1_ecx
            & 0x0800_0000 != 0 && c.xcr0 & 0x6 == 0x6),
        zmm_state(c) == (c.max_leaf >= 1 && c.leaf1_ecx & 0x0800_0000 != 0 && c.xcr0 & 0xe6
            == 0xe6),
        has_avx2(c) == (c.max_leaf >= 7 && c.leaf7_ebx & 0x0000_0020 != 0 && c.leaf1_ecx
            & 0x1000_0000 != 0 && c.leaf1_ecx & 0x0800_0000 != 0 && c.xcr0 & 0x6 == 0x6),
        has_pclmulqdq_v256(c) == (c.max_leaf >= 7 && c.leaf1_ecx & 0x0000_0002 != 0
            && c.leaf7_ecx & 0x0000_0400 != 0 && c.leaf1_ecx & 0x1000_0000 != 0 && c.leaf1_ecx
            & 0x0800_0000 != 0 && c.xcr0 & 0x6 == 0x6),
        has_pclmulqdq_v512(c) == (c.max_leaf >= 7 && c.leaf1_ecx & 0x0000_0002 != 0
            && c.leaf7_ecx & 0x0000_0400 != 0 && c.leaf7_ebx & 0x0001_0000 != 0 && c.leaf1_ecx
            & 0x0800_0000 != 0 && c.xcr0 & 0xe6 == 0xe6),
{
    lemma_flag_masks(c.leaf1_ecx);
    lemma_flag_masks(c.leaf1_edx);
    lemma_flag_masks(c.leaf7_ebx);
    lemma_flag_masks(c.leaf7_ecx);
}

} // verus!
