use tc_runtime::intrinsics::detect::{disabled_by_env, Cache};
use tc_runtime::intrinsics::x86::cpuid::{self, Cpuid};
use tc_runtime::intrinsics::x86::{
    Aes, Avx2, Bmi1X64, Bmi2, Bmi2X64, Pclmulqdq, PclmulqdqV256, PclmulqdqV512, Sse2, Sse41,
    Ssse3, X86Host, X86Switches,
};

fn full_cpuid() -> Cpuid {
    Cpuid {
        max_leaf: 0x16,
        leaf1_ecx: 0x1a08_0202,
        leaf1_edx: 0x0400_0000,
        leaf7_ebx: 0x0001_0128,
        leaf7_ecx: 0x0000_0400,
        xcr0: 0xe7,
    }
}

fn host_with(cpuid: Cpuid) -> X86Host {
    X86Host {
        target_arch: true,
        is_64bit: true,
        build_disabled: X86Switches::none(),
        env_disabled: X86Switches::none(),
        cpuid,
    }
}

#[test]
fn test_bit_reads_single_bits() {
    assert!(cpuid::test_bit(0x8000_0000, 31));
    assert!(!cpuid::test_bit(0x8000_0000, 30));
    assert!(cpuid::test_bit(1, 0));
    assert!(!cpuid::test_bit(0xffff_fffe, 0));
}

#[test]
fn every_feature_of_a_full_processor_decodes() {
    let c = full_cpuid();
    assert!(cpuid::aes(&c));
    assert!(cpuid::pclmulqdq(&c));
    assert!(cpuid::ssse3(&c));
    assert!(cpuid::sse41(&c));
    assert!(cpuid::sse2(&c));
    assert!(cpuid::avx2(&c));
    assert!(cpuid::bmi1(&c));
    assert!(cpuid::bmi2(&c));
    assert!(cpuid::vpclmulqdq(&c));
    assert!(cpuid::pclmulqdq_v256(&c));
    assert!(cpuid::pclmulqdq_v512(&c));
    assert!(cpuid::avx_state_enabled(&c));
    assert!(cpuid::zmm_state_enabled(&c));
}

#[test]
fn each_feature_reads_its_own_bit() {
    let c = Cpuid { leaf1_ecx: 1 << 25, leaf1_edx: 0, leaf7_ebx: 1 << 8, leaf7_ecx: 0, ..full_cpuid() };
    assert!(cpuid::aes(&c));
    assert!(!cpuid::pclmulqdq(&c));
    assert!(!cpuid::ssse3(&c));
    assert!(!cpuid::sse41(&c));
    assert!(!cpuid::sse2(&c));
    assert!(cpuid::bmi2(&c));
    assert!(!cpuid::bmi1(&c));
    assert!(!cpuid::avx2(&c));
}

#[test]
fn avx_family_needs_the_operating_system_state() {
    // The CPU reports everything, but the OS saves only the x87 and XMM state.
    let c = Cpuid { xcr0: 0x3, ..full_cpuid() };
    assert!(!cpuid::avx_state_enabled(&c));
    assert!(!cpuid::avx2(&c));
    assert!(!cpuid::pclmulqdq_v256(&c));
    assert!(!cpuid::pclmulqdq_v512(&c));
    assert!(cpuid::pclmulqdq(&c));
    // YMM saved but not ZMM: 256-bit works, 512-bit does not.
    let c = Cpuid { xcr0: 0x7, ..full_cpuid() };
    assert!(cpuid::avx2(&c));
    assert!(cpuid::pclmulqdq_v256(&c));
    assert!(!cpuid::pclmulqdq_v512(&c));
    // Without OSXSAVE, XCR0 is not trusted.
    let c = Cpuid { leaf1_ecx: 0x1a08_0202 & !(1 << 27), ..full_cpuid() };
    assert!(!cpuid::avx_state_enabled(&c));
    assert!(!cpuid::zmm_state_enabled(&c));
}

#[test]
fn leaves_beyond_the_maximum_are_ignored() {
    let c = Cpuid { max_leaf: 1, ..full_cpuid() };
    assert!(!cpuid::avx2(&c));
    assert!(!cpuid::bmi1(&c));
    assert!(!cpuid::bmi2(&c));
    assert!(!cpuid::vpclmulqdq(&c));
    assert!(cpuid::aes(&c));
    let c = Cpuid { max_leaf: 0, ..full_cpuid() };
    assert!(!cpuid::aes(&c));
    assert!(!cpuid::sse2(&c));
}

#[test]
fn full_processor_enables_every_capability() {
    let host = host_with(full_cpuid());
    assert!(Aes::enabled_on(&host));
    assert!(Avx2::enabled_on(&host));
    assert!(Bmi1X64::enabled_on(&host));
    assert!(Bmi2::enabled_on(&host));
    assert!(Bmi2X64::enabled_on(&host));
    assert!(Pclmulqdq::enabled_on(&host));
    assert!(PclmulqdqV256::enabled_on(&host));
    assert!(PclmulqdqV512::enabled_on(&host));
    assert!(Sse2::enabled_on(&host));
    assert!(Sse41::enabled_on(&host));
    assert!(Ssse3::enabled_on(&host));
}

#[test]
fn general_pclmulqdq_switch_disables_every_width() {
    let host = X86Host {
        build_disabled: X86Switches { pclmulqdq: true, ..X86Switches::none() },
        ..host_with(full_cpuid())
    };
    assert!(!Pclmulqdq::enabled_on(&host));
    assert!(!PclmulqdqV256::enabled_on(&host));
    assert!(!PclmulqdqV512::enabled_on(&host));
    assert!(Aes::enabled_on(&host));
}

#[test]
fn width_switches_disable_only_their_width() {
    let host = X86Host {
        env_disabled: X86Switches { pclmulqdq_v256: disabled_by_env(Some("0")), ..X86Switches::none() },
        ..host_with(full_cpuid())
    };
    assert!(Pclmulqdq::enabled_on(&host));
    assert!(!PclmulqdqV256::enabled_on(&host));
    assert!(PclmulqdqV512::enabled_on(&host));
}

#[test]
fn every_switch_disables_its_capability() {
    let host = X86Host { build_disabled: X86Switches::all(), ..host_with(full_cpuid()) };
    assert!(!Aes::enabled_on(&host));
    assert!(!Avx2::enabled_on(&host));
    assert!(!Bmi1X64::enabled_on(&host));
    assert!(!Bmi2::enabled_on(&host));
    assert!(!Bmi2X64::enabled_on(&host));
    assert!(!Pclmulqdq::enabled_on(&host));
    assert!(!PclmulqdqV256::enabled_on(&host));
    assert!(!PclmulqdqV512::enabled_on(&host));
    assert!(!Sse2::enabled_on(&host));
    assert!(!Sse41::enabled_on(&host));
    assert!(!Ssse3::enabled_on(&host));
}

#[test]
fn bmi2_switch_covers_its_64_bit_form() {
    let host = X86Host {
        env_disabled: X86Switches { bmi2: disabled_by_env(Some("yes")), ..X86Switches::none() },
        ..host_with(full_cpuid())
    };
    assert!(!Bmi2::enabled_on(&host));
    assert!(!Bmi2X64::enabled_on(&host));
    assert!(Bmi1X64::enabled_on(&host));
}

#[test]
fn sse2_is_baseline_on_x86_64() {
    let bare = Cpuid { leaf1_edx: 0, ..full_cpuid() };
    assert!(Sse2::enabled_on(&host_with(bare)));
    let x86 = X86Host { is_64bit: false, ..host_with(bare) };
    assert!(!Sse2::enabled_on(&x86));
}

#[test]
fn x86_capability_is_cached_after_first_detection() {
    let mut cache = Cache::new();
    assert!(Avx2::is_enabled(&mut cache, || host_with(full_cpuid())));
    let without_avx = Cpuid { xcr0: 0x3, ..full_cpuid() };
    assert!(Avx2::is_enabled(&mut cache, || host_with(without_avx)));
    let mut fresh = Cache::new();
    assert!(!Avx2::is_enabled(&mut fresh, || host_with(without_avx)));
    assert_eq!(Avx2::detect(&mut fresh, || host_with(full_cpuid())), None);
}
