use tc_runtime::intrinsics::aarch64::{
    Aarch64Host, Aarch64Probes, Aarch64Switches, Aes as ArmAes, Dit, Neon, Sha2, Sha3, Sm4,
};
use tc_runtime::intrinsics::detect::Cache;
use tc_runtime::intrinsics::x86::cpuid::Cpuid;
use tc_runtime::intrinsics::x86::{
    bmi1, bmi2, pclmulqdq, Aes, AesNi, Avx2, Bmi1X64, Bmi2, Bmi2X64, Pclmulqdq, PclmulqdqV256,
    PclmulqdqV512, Sse2, Sse41, Ssse3, X86Host, X86Switches,
};

/// Fails to compile unless the capability keeps every derived trait.
fn assert_traits<T: Copy + Clone + core::fmt::Debug + PartialEq + Eq>() {}

/// CPUID of a processor with every feature these capabilities read, and an
/// operating system that saves the XMM, YMM and ZMM state.
fn full_cpuid() -> Cpuid {
    Cpuid {
        max_leaf: 0x16,
        leaf1_ecx: 0x1a08_0202,
        leaf1_edx: 0x0400_0000,
        leaf7_ebx: 0x0001_0128,
        leaf7_ecx: 0x0000_0400,
        xcr0: 0xe7,
    }
}

fn x86_64_host() -> X86Host {
    X86Host {
        target_arch: true,
        is_64bit: true,
        build_disabled: X86Switches::none(),
        env_disabled: X86Switches::none(),
        cpuid: full_cpuid(),
    }
}

fn x86_32_host() -> X86Host {
    X86Host { is_64bit: false, ..x86_64_host() }
}

fn aarch64_host() -> Aarch64Host {
    let all = Aarch64Probes { aes: true, dit: true, sha2: true, sha3: true, sm4: true };
    Aarch64Host {
        target_arch: true,
        build_disabled: Aarch64Switches::none(),
        env_disabled: Aarch64Switches::none(),
        target_features: all,
        runtime: all,
    }
}

fn off_x86_host() -> X86Host {
    X86Host { target_arch: false, ..x86_64_host() }
}

fn off_aarch64_host() -> Aarch64Host {
    Aarch64Host { target_arch: false, ..aarch64_host() }
}

#[test]
fn every_x86_capability_keeps_its_signatures() {
    let _: fn(&mut Cache, fn() -> X86Host) -> Option<Aes> = Aes::detect::<fn() -> X86Host>;
    let _: fn(&mut Cache, fn() -> X86Host) -> bool = Aes::is_enabled::<fn() -> X86Host>;
    let _: fn(&X86Host) -> bool = Aes::enabled_on;
    assert_traits::<Aes>();
    let _: fn(&mut Cache, fn() -> X86Host) -> Option<Avx2> = Avx2::detect::<fn() -> X86Host>;
    let _: fn(&mut Cache, fn() -> X86Host) -> bool = Avx2::is_enabled::<fn() -> X86Host>;
    let _: fn(&X86Host) -> bool = Avx2::enabled_on;
    assert_traits::<Avx2>();
    let _: fn(&mut Cache, fn() -> X86Host) -> Option<Bmi1X64> = Bmi1X64::detect::<fn() -> X86Host>;
    let _: fn(&mut Cache, fn() -> X86Host) -> bool = Bmi1X64::is_enabled::<fn() -> X86Host>;
    let _: fn(&X86Host) -> bool = Bmi1X64::enabled_on;
    assert_traits::<Bmi1X64>();
    let _: fn(&mut Cache, fn() -> X86Host) -> Option<Bmi2> = Bmi2::detect::<fn() -> X86Host>;
    let _: fn(&mut Cache, fn() -> X86Host) -> bool = Bmi2::is_enabled::<fn() -> X86Host>;
    let _: fn(&X86Host) -> bool = Bmi2::enabled_on;
    assert_traits::<Bmi2>();
    let _: fn(&mut Cache, fn() -> X86Host) -> Option<Bmi2X64> = Bmi2X64::detect::<fn() -> X86Host>;
    let _: fn(&mut Cache, fn() -> X86Host) -> bool = Bmi2X64::is_enabled::<fn() -> X86Host>;
    let _: fn(&X86Host) -> bool = Bmi2X64::enabled_on;
    assert_traits::<Bmi2X64>();
    let _: fn(&mut Cache, fn() -> X86Host) -> Option<Pclmulqdq> = Pclmulqdq::detect::<fn() -> X86Host>;
    let _: fn(&mut Cache, fn() -> X86Host) -> bool = Pclmulqdq::is_enabled::<fn() -> X86Host>;
    let _: fn(&X86Host) -> bool = Pclmulqdq::enabled_on;
    assert_traits::<Pclmulqdq>();
    let _: fn(&mut Cache, fn() -> X86Host) -> Option<PclmulqdqV256> = PclmulqdqV256::detect::<fn() -> X86Host>;
    let _: fn(&mut Cache, fn() -> X86Host) -> bool = PclmulqdqV256::is_enabled::<fn() -> X86Host>;
    let _: fn(&X86Host) -> bool = PclmulqdqV256::enabled_on;
    assert_traits::<PclmulqdqV256>();
    let _: fn(&mut Cache, fn() -> X86Host) -> Option<PclmulqdqV512> = PclmulqdqV512::detect::<fn() -> X86Host>;
    let _: fn(&mut Cache, fn() -> X86Host) -> bool = PclmulqdqV512::is_enabled::<fn() -> X86Host>;
    let _: fn(&X86Host) -> bool = PclmulqdqV512::enabled_on;
    assert_traits::<PclmulqdqV512>();
    let _: fn(&mut Cache, fn() -> X86Host) -> Option<Sse2> = Sse2::detect::<fn() -> X86Host>;
    let _: fn(&mut Cache, fn() -> X86Host) -> bool = Sse2::is_enabled::<fn() -> X86Host>;
    let _: fn(&X86Host) -> bool = Sse2::enabled_on;
    assert_traits::<Sse2>();
    let _: fn(&mut Cache, fn() -> X86Host) -> Option<Sse41> = Sse41::detect::<fn() -> X86Host>;
    let _: fn(&mut Cache, fn() -> X86Host) -> bool = Sse41::is_enabled::<fn() -> X86Host>;
    let _: fn(&X86Host) -> bool = Sse41::enabled_on;
    assert_traits::<Sse41>();
    let _: fn(&mut Cache, fn() -> X86Host) -> Option<Ssse3> = Ssse3::detect::<fn() -> X86Host>;
    let _: fn(&mut Cache, fn() -> X86Host) -> bool = Ssse3::is_enabled::<fn() -> X86Host>;
    let _: fn(&X86Host) -> bool = Ssse3::enabled_on;
    assert_traits::<Ssse3>();
}

#[test]
fn compatibility_aliases_stay_bound_to_the_same_types() {
    let _: fn(&mut Cache, fn() -> X86Host) -> Option<Aes> = AesNi::detect::<fn() -> X86Host>;
    let _: fn(&mut Cache, fn() -> X86Host) -> Option<Bmi1X64> =
        bmi1::X64::detect::<fn() -> X86Host>;
    let _: fn(&mut Cache, fn() -> X86Host) -> Option<Bmi2X64> =
        bmi2::X64::detect::<fn() -> X86Host>;
    let _: fn(&mut Cache, fn() -> X86Host) -> Option<PclmulqdqV256> =
        pclmulqdq::V256::detect::<fn() -> X86Host>;
    let _: fn(&mut Cache, fn() -> X86Host) -> Option<PclmulqdqV512> =
        pclmulqdq::V512::detect::<fn() -> X86Host>;
}

fn assert_x86_detect_matches(host: X86Host) {
    let mut c = Cache::new();
    assert_eq!(Aes::detect(&mut c, || host).is_some(), Aes::is_enabled(&mut c, || host));
    let mut c = Cache::new();
    assert_eq!(Avx2::detect(&mut c, || host).is_some(), Avx2::is_enabled(&mut c, || host));
    let mut c = Cache::new();
    assert_eq!(Bmi1X64::detect(&mut c, || host).is_some(), Bmi1X64::is_enabled(&mut c, || host));
    let mut c = Cache::new();
    assert_eq!(Bmi2::detect(&mut c, || host).is_some(), Bmi2::is_enabled(&mut c, || host));
    let mut c = Cache::new();
    assert_eq!(Bmi2X64::detect(&mut c, || host).is_some(), Bmi2X64::is_enabled(&mut c, || host));
    let mut c = Cache::new();
    assert_eq!(
        Pclmulqdq::detect(&mut c, || host).is_some(),
        Pclmulqdq::is_enabled(&mut c, || host)
    );
    let mut c = Cache::new();
    assert_eq!(
        PclmulqdqV256::detect(&mut c, || host).is_some(),
        PclmulqdqV256::is_enabled(&mut c, || host)
    );
    let mut c = Cache::new();
    assert_eq!(
        PclmulqdqV512::detect(&mut c, || host).is_some(),
        PclmulqdqV512::is_enabled(&mut c, || host)
    );
    let mut c = Cache::new();
    assert_eq!(Sse2::detect(&mut c, || host).is_some(), Sse2::is_enabled(&mut c, || host));
    let mut c = Cache::new();
    assert_eq!(Sse41::detect(&mut c, || host).is_some(), Sse41::is_enabled(&mut c, || host));
    let mut c = Cache::new();
    assert_eq!(Ssse3::detect(&mut c, || host).is_some(), Ssse3::is_enabled(&mut c, || host));
}

#[test]
fn detect_agrees_with_is_enabled() {
    assert_x86_detect_matches(x86_64_host());
    assert_x86_detect_matches(x86_32_host());
    assert_x86_detect_matches(off_x86_host());
}

#[test]
fn x64_only_tokens_are_unavailable_in_a_32_bit_process() {
    let host = x86_32_host();
    assert!(!host.is_64bit);
    let mut c = Cache::new();
    assert!(!Bmi1X64::is_enabled(&mut c, || host));
    let mut c = Cache::new();
    assert!(!Bmi2X64::is_enabled(&mut c, || host));
    let mut c = Cache::new();
    assert_eq!(Bmi1X64::detect(&mut c, || host), None);
    let mut c = Cache::new();
    assert_eq!(Bmi2X64::detect(&mut c, || host), None);
}

#[test]
fn x86_sse2_matches_standard_library_detection() {
    // On 32-bit x86 the answer is the CPUID SSE2 flag that std's detector reads.
    let with_sse2 = x86_32_host();
    assert_eq!(Sse2::enabled_on(&with_sse2), with_sse2.cpuid.leaf1_edx & (1 << 26) != 0);
    assert!(Sse2::enabled_on(&with_sse2));
    let without = X86Host { cpuid: Cpuid { leaf1_edx: 0, ..full_cpuid() }, ..x86_32_host() };
    assert_eq!(Sse2::enabled_on(&without), without.cpuid.leaf1_edx & (1 << 26) != 0);
    assert!(!Sse2::enabled_on(&without));
}

#[test]
fn non_x86_capabilities_fold_away_at_compile_time() {
    let host = off_x86_host();
    assert!(!Sse2::enabled_on(&host));
    assert!(!Aes::enabled_on(&host));
}

#[test]
fn every_aarch64_capability_keeps_its_signatures() {
    let host = aarch64_host();
    let _: fn(&mut Cache, fn() -> Aarch64Host) -> Option<ArmAes> =
        ArmAes::detect::<fn() -> Aarch64Host>;
    let _: fn(&mut Cache, fn() -> Aarch64Host) -> bool = ArmAes::is_enabled::<fn() -> Aarch64Host>;
    let _: fn(&Aarch64Host) -> bool = ArmAes::enabled_on;
    assert_traits::<ArmAes>();
    let mut c = Cache::new();
    assert_eq!(ArmAes::detect(&mut c, || host).is_some(), ArmAes::is_enabled(&mut c, || host));
    let _: fn(&mut Cache, fn() -> Aarch64Host) -> Option<Dit> =
        Dit::detect::<fn() -> Aarch64Host>;
    let _: fn(&mut Cache, fn() -> Aarch64Host) -> bool = Dit::is_enabled::<fn() -> Aarch64Host>;
    let _: fn(&Aarch64Host) -> bool = Dit::enabled_on;
    assert_traits::<Dit>();
    let mut c = Cache::new();
    assert_eq!(Dit::detect(&mut c, || host).is_some(), Dit::is_enabled(&mut c, || host));
    let _: fn(&mut Cache, fn() -> Aarch64Host) -> Option<Neon> =
        Neon::detect::<fn() -> Aarch64Host>;
    let _: fn(&mut Cache, fn() -> Aarch64Host) -> bool = Neon::is_enabled::<fn() -> Aarch64Host>;
    let _: fn(&Aarch64Host) -> bool = Neon::enabled_on;
    assert_traits::<Neon>();
    let mut c = Cache::new();
    assert_eq!(Neon::detect(&mut c, || host).is_some(), Neon::is_enabled(&mut c, || host));
    let _: fn(&mut Cache, fn() -> Aarch64Host) -> Option<Sha2> =
        Sha2::detect::<fn() -> Aarch64Host>;
    let _: fn(&mut Cache, fn() -> Aarch64Host) -> bool = Sha2::is_enabled::<fn() -> Aarch64Host>;
    let _: fn(&Aarch64Host) -> bool = Sha2::enabled_on;
    assert_traits::<Sha2>();
    let mut c = Cache::new();
    assert_eq!(Sha2::detect(&mut c, || host).is_some(), Sha2::is_enabled(&mut c, || host));
    let _: fn(&mut Cache, fn() -> Aarch64Host) -> Option<Sha3> =
        Sha3::detect::<fn() -> Aarch64Host>;
    let _: fn(&mut Cache, fn() -> Aarch64Host) -> bool = Sha3::is_enabled::<fn() -> Aarch64Host>;
    let _: fn(&Aarch64Host) -> bool = Sha3::enabled_on;
    assert_traits::<Sha3>();
    let mut c = Cache::new();
    assert_eq!(Sha3::detect(&mut c, || host).is_some(), Sha3::is_enabled(&mut c, || host));
    let _: fn(&mut Cache, fn() -> Aarch64Host) -> Option<Sm4> =
        Sm4::detect::<fn() -> Aarch64Host>;
    let _: fn(&mut Cache, fn() -> Aarch64Host) -> bool = Sm4::is_enabled::<fn() -> Aarch64Host>;
    let _: fn(&Aarch64Host) -> bool = Sm4::enabled_on;
    assert_traits::<Sm4>();
    let mut c = Cache::new();
    assert_eq!(Sm4::detect(&mut c, || host).is_some(), Sm4::is_enabled(&mut c, || host));
}

fn only_x86(_: fn(&mut Cache, fn() -> X86Host) -> Option<Aes>) {}

fn only_aarch64(_: fn(&mut Cache, fn() -> Aarch64Host) -> Option<ArmAes>) {}

#[test]
fn architecture_modules_do_not_share_capability_types() {
    only_x86(Aes::detect::<fn() -> X86Host>);
    only_aarch64(ArmAes::detect::<fn() -> Aarch64Host>);
}

#[test]
fn non_aarch64_capabilities_fold_away_at_compile_time() {
    let host = off_aarch64_host();
    assert!(!Neon::enabled_on(&host));
    assert!(!ArmAes::enabled_on(&host));
}
