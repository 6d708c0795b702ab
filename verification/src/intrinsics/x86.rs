//! x86 and x86_64 CPU-feature detection.
//!
//! The capability types are available whatever the architecture, so callers
//! can select portable backends without architecture checks of their own:
//! the rule of each capability (`enabled_on`) never enables it for a host
//! that is not x86. A successful [`Aes::detect`] returns a proof token that
//! can be passed to code whose safety contract requires the corresponding
//! feature; tokens are handed out by `detect` alone.
//!
//! `is_enabled` and `detect` answer through a [`Cache`]: an answer recorded
//! there is returned as it is, whatever the host. A token therefore vouches
//! for the processor only when its cache is used for that one capability
//! and starts from [`Cache::new`] (or from a state byte that lookups of that
//! capability recorded), and when the host described is the running
//! process. A cache rebuilt from an arbitrary state byte, or shared between
//! capabilities, returns what it holds.
//!
//! The capabilities mirror those of Bouncy Castle's x86 intrinsics: the
//! compatibility names [`AesNi`], [`bmi1::X64`], [`bmi2::X64`],
//! [`pclmulqdq::V256`] and [`pclmulqdq::V512`] stand for the same types.
//! AVX2 and the vector-width PCLMULQDQ capabilities include the operating
//! system's extended-state support, since a CPU feature bit alone is not
//! enough to execute those instructions safely.
use vstd::prelude::*;
use super::detect::{lookup_step, Cache};
use cpuid::Cpuid;

pub mod bmi1;
pub mod bmi2;
pub mod cpuid;
pub mod pclmulqdq;

verus! {

/// One flag per x86 disable switch; in [`X86Host`] a set flag switches the
/// matching capabilities off. The general `pclmulqdq` switch covers every
/// width of carry-less multiplication.
#[derive(Clone, Copy, Debug, PartialEq, Eq)]
pub struct X86Switches {
    pub aes_ni: bool,
    pub avx2: bool,
    pub bmi1: bool,
    pub bmi2: bool,
    pub pclmulqdq: bool,
    pub pclmulqdq_v256: bool,
    pub pclmulqdq_v512: bool,
    pub sse2: bool,
    pub sse41: bool,
    pub ssse3: bool,
}

impl X86Switches {
    /// No switch set.
    pub fn none() -> (switches: X86Switches)
        ensures
            !switches.aes_ni && !switches.avx2 && !switches.bmi1 && !switches.bmi2
                && !switches.pclmulqdq && !switches.pclmulqdq_v256 && !switches.pclmulqdq_v512
                && !switches.sse2 && !switches.sse41 && !switches.ssse3,
    {
        X86Switches {
            aes_ni: false,
            avx2: false,
            bmi1: false,
            bmi2: false,
            pclmulqdq: false,
            pclmulqdq_v256: false,
            pclmulqdq_v512: false,
            sse2: false,
            sse41: false,
            ssse3: false,
        }
    }

    /// Every switch set.
    pub fn all() -> (switches: X86Switches)
        ensures
            switches.aes_ni && switches.avx2 && switches.bmi1 && switches.bmi2
                && switches.pclmulqdq && switches.pclmulqdq_v256 && switches.pclmulqdq_v512
                && switches.sse2 && switches.sse41 && switches.ssse3,
    {
        X86Switches {
            aes_ni: true,
            avx2: true,
            bmi1: true,
            bmi2: true,
            pclmulqdq: true,
            pclmulqdq_v256: true,
            pclmulqdq_v512: true,
            sse2: true,
            sse41: true,
            ssse3: true,
        }
    }
}

/// Everything an x86 capability decision reads.
#[derive(Clone, Copy, Debug, PartialEq, Eq)]
pub struct X86Host {
    /// The build targets `x86` or `x86_64`.
    pub target_arch: bool,
    /// The build targets `x86_64`, a 64-bit process.
    pub is_64bit: bool,
    /// Switches set by the build's `disable-x86-*` features.
    pub build_disabled: X86Switches,
    /// Switches set by `TC_DISABLE_X86_*` variables present in the process
    /// environment.
    pub env_disabled: X86Switches,
    /// What the processor reports.
    pub cpuid: Cpuid,
}

/// A capability may be reported only on x86, and only when neither the
/// build nor the environment switches it off.
pub open spec fn permits(host: X86Host, build_disabled: bool, env_disabled: bool) -> bool {
    host.target_arch && !build_disabled && !env_disabled
}

/// [`Aes`] is enabled on a host that is x86, is not switched off,
/// and on which the CPU reports AES-NI.
pub open spec fn aes_enabled(host: X86Host) -> bool {
    permits(host, host.build_disabled.aes_ni, host.env_disabled.aes_ni) && (cpuid::has_aes(host.cpuid))
}

/// `enabled` is the answer of the rule above for a host that `host` may
/// return.
pub open spec fn aes_answer<F: FnOnce() -> X86Host>(host: F, enabled: bool) -> bool {
    exists|h: X86Host| #[trigger] host.ensures((), h) && enabled == aes_enabled(h)
}

/// Proof that the processor can execute AES-NI instructions.
///
/// Obtain this token with [`Self::detect`]. It is `Copy`, so it can be passed
/// to several backend calls. It does not enable compiler target features.
#[derive(Clone, Copy, Debug, PartialEq, Eq)]
pub struct Aes(());

impl Aes {
    /// Whether the capability is enabled on `host`.
    pub fn enabled_on(host: &X86Host) -> (enabled: bool)
        ensures
            enabled == aes_enabled(*host),
    {
        host.target_arch && !host.build_disabled.aes_ni && !host.env_disabled.aes_ni && (cpuid::aes(&host.cpuid))
    }

    /// Reports whether the capability is enabled, through `cache`: the
    /// answer recorded there, or else the answer for the host that `host`
    /// describes, which is then recorded.
    pub fn is_enabled<F: FnOnce() -> X86Host>(cache: &mut Cache, host: F) -> (enabled: bool)
        requires
            old(cache)@ is None ==> host.requires(()),
        ensures
            lookup_step(old(cache)@, enabled, final(cache)@),
            old(cache)@ is None ==> aes_answer(host, enabled),
    {
        let probe = move || -> (enabled: bool)
            requires
                host.requires(()),
            ensures
                aes_answer(host, enabled),
        {
            let h = host();
            Self::enabled_on(&h)
        };
        cache.get_or_init(probe)
    }

    /// Detects the capability and returns a proof token when it is enabled:
    /// `Some` exactly when [`Self::is_enabled`] reports `true` for the same
    /// cache and host.
    pub fn detect<F: FnOnce() -> X86Host>(cache: &mut Cache, host: F) -> (token: Option<Self>)
        requires
            old(cache)@ is None ==> host.requires(()),
        ensures
            lookup_step(old(cache)@, token.is_some(), final(cache)@),
            old(cache)@ is None ==> aes_answer(host, token.is_some()),
    {
        if Self::is_enabled(cache, host) {
            Some(Aes(()))
        } else {
            None
        }
    }
}

/// [`Avx2`] is enabled on a host that is x86, is not switched off,
/// and on which AVX2 is usable.
pub open spec fn avx2_enabled(host: X86Host) -> bool {
    permits(host, host.build_disabled.avx2, host.env_disabled.avx2) && (cpuid::has_avx2(host.cpuid))
}

/// `enabled` is the answer of the rule above for a host that `host` may
/// return.
pub open spec fn avx2_answer<F: FnOnce() -> X86Host>(host: F, enabled: bool) -> bool {
    exists|h: X86Host| #[trigger] host.ensures((), h) && enabled == avx2_enabled(h)
}

/// Proof that the processor can execute AVX2 instructions and the operating
/// system saves the XMM and YMM state.
///
/// Obtain this token with [`Self::detect`]. It is `Copy`, so it can be passed
/// to several backend calls. It does not enable compiler target features.
#[derive(Clone, Copy, Debug, PartialEq, Eq)]
pub struct Avx2(());

impl Avx2 {
    /// Whether the capability is enabled on `host`.
    pub fn enabled_on(host: &X86Host) -> (enabled: bool)
        ensures
            enabled == avx2_enabled(*host),
    {
        host.target_arch && !host.build_disabled.avx2 && !host.env_disabled.avx2 && (cpuid::avx2(&host.cpuid))
    }

    /// Reports whether the capability is enabled, through `cache`: the
    /// answer recorded there, or else the answer for the host that `host`
    /// describes, which is then recorded.
    pub fn is_enabled<F: FnOnce() -> X86Host>(cache: &mut Cache, host: F) -> (enabled: bool)
        requires
            old(cache)@ is None ==> host.requires(()),
        ensures
            lookup_step(old(cache)@, enabled, final(cache)@),
            old(cache)@ is None ==> avx2_answer(host, enabled),
    {
        let probe = move || -> (enabled: bool)
            requires
                host.requires(()),
            ensures
                avx2_answer(host, enabled),
        {
            let h = host();
            Self::enabled_on(&h)
        };
        cache.get_or_init(probe)
    }

    /// Detects the capability and returns a proof token when it is enabled:
    /// `Some` exactly when [`Self::is_enabled`] reports `true` for the same
    /// cache and host.
    pub fn detect<F: FnOnce() -> X86Host>(cache: &mut Cache, host: F) -> (token: Option<Self>)
        requires
            old(cache)@ is None ==> host.requires(()),
        ensures
            lookup_step(old(cache)@, token.is_some(), final(cache)@),
            old(cache)@ is None ==> avx2_answer(host, token.is_some()),
    {
        if Self::is_enabled(cache, host) {
            Some(Avx2(()))
        } else {
            None
        }
    }
}

/// [`Bmi1X64`] is enabled on a host that is x86, is not switched off,
/// and on which the process is 64-bit and the CPU reports BMI1.
pub open spec fn bmi1_x64_enabled(host: X86Host) -> bool {
    permits(host, host.build_disabled.bmi1, host.env_disabled.bmi1) && (host.is_64bit && cpuid::has_bmi1(host.cpuid))
}

/// `enabled` is the answer of the rule above for a host that `host` may
/// return.
pub open spec fn bmi1_x64_answer<F: FnOnce() -> X86Host>(host: F, enabled: bool) -> bool {
    exists|h: X86Host| #[trigger] host.ensures((), h) && enabled == bmi1_x64_enabled(h)
}

/// Proof that the process is 64-bit and the processor can execute BMI1
/// instructions.
///
/// Obtain this token with [`Self::detect`]. It is `Copy`, so it can be passed
/// to several backend calls. It does not enable compiler target features.
#[derive(Clone, Copy, Debug, PartialEq, Eq)]
pub struct Bmi1X64(());

impl Bmi1X64 {
    /// Whether the capability is enabled on `host`.
    pub fn enabled_on(host: &X86Host) -> (enabled: bool)
        ensures
            enabled == bmi1_x64_enabled(*host),
    {
        host.target_arch && !host.build_disabled.bmi1 && !host.env_disabled.bmi1 && (host.is_64bit && cpuid::bmi1(&host.cpuid))
    }

    /// Reports whether the capability is enabled, through `cache`: the
    /// answer recorded there, or else the answer for the host that `host`
    /// describes, which is then recorded.
    pub fn is_enabled<F: FnOnce() -> X86Host>(cache: &mut Cache, host: F) -> (enabled: bool)
        requires
            old(cache)@ is None ==> host.requires(()),
        ensures
            lookup_step(old(cache)@, enabled, final(cache)@),
            old(cache)@ is None ==> bmi1_x64_answer(host, enabled),
    {
        let probe = move || -> (enabled: bool)
            requires
                host.requires(()),
            ensures
                bmi1_x64_answer(host, enabled),
        {
            let h = host();
            Self::enabled_on(&h)
        };
        cache.get_or_init(probe)
    }

    /// Detects the capability and returns a proof token when it is enabled:
    /// `Some` exactly when [`Self::is_enabled`] reports `true` for the same
    /// cache and host.
    pub fn detect<F: FnOnce() -> X86Host>(cache: &mut Cache, host: F) -> (token: Option<Self>)
        requires
            old(cache)@ is None ==> host.requires(()),
        ensures
            lookup_step(old(cache)@, token.is_some(), final(cache)@),
            old(cache)@ is None ==> bmi1_x64_answer(host, token.is_some()),
    {
        if Self::is_enabled(cache, host) {
            Some(Bmi1X64(()))
        } else {
            None
        }
    }
}

/// [`Bmi2`] is enabled on a host that is x86, is not switched off,
/// and on which the CPU reports BMI2.
pub open spec fn bmi2_enabled(host: X86Host) -> bool {
    permits(host, host.build_disabled.bmi2, host.env_disabled.bmi2) && (cpuid::has_bmi2(host.cpuid))
}

/// `enabled` is the answer of the rule above for a host that `host` may
/// return.
pub open spec fn bmi2_answer<F: FnOnce() -> X86Host>(host: F, enabled: bool) -> bool {
    exists|h: X86Host| #[trigger] host.ensures((), h) && enabled == bmi2_enabled(h)
}

/// Proof that the processor can execute BMI2 instructions.
///
/// Obtain this token with [`Self::detect`]. It is `Copy`, so it can be passed
/// to several backend calls. It does not enable compiler target features.
#[derive(Clone, Copy, Debug, PartialEq, Eq)]
pub struct Bmi2(());

impl Bmi2 {
    /// Whether the capability is enabled on `host`.
    pub fn enabled_on(host: &X86Host) -> (enabled: bool)
        ensures
            enabled == bmi2_enabled(*host),
    {
        host.target_arch && !host.build_disabled.bmi2 && !host.env_disabled.bmi2 && (cpuid::bmi2(&host.cpuid))
    }

    /// Reports whether the capability is enabled, through `cache`: the
    /// answer recorded there, or else the answer for the host that `host`
    /// describes, which is then recorded.
    pub fn is_enabled<F: FnOnce() -> X86Host>(cache: &mut Cache, host: F) -> (enabled: bool)
        requires
            old(cache)@ is None ==> host.requires(()),
        ensures
            lookup_step(old(cache)@, enabled, final(cache)@),
            old(cache)@ is None ==> bmi2_answer(host, enabled),
    {
        let probe = move || -> (enabled: bool)
            requires
                host.requires(()),
            ensures
                bmi2_answer(host, enabled),
        {
            let h = host();
            Self::enabled_on(&h)
        };
        cache.get_or_init(probe)
    }

    /// Detects the capability and returns a proof token when it is enabled:
    /// `Some` exactly when [`Self::is_enabled`] reports `true` for the same
    /// cache and host.
    pub fn detect<F: FnOnce() -> X86Host>(cache: &mut Cache, host: F) -> (token: Option<Self>)
        requires
            old(cache)@ is None ==> host.requires(()),
        ensures
            lookup_step(old(cache)@, token.is_some(), final(cache)@),
            old(cache)@ is None ==> bmi2_answer(host, token.is_some()),
    {
        if Self::is_enabled(cache, host) {
            Some(Bmi2(()))
        } else {
            None
        }
    }
}

/// [`Bmi2X64`] is enabled on a host that is x86, is not switched off,
/// and on which the process is 64-bit and the CPU reports BMI2.
pub open spec fn bmi2_x64_enabled(host: X86Host) -> bool {
    permits(host, host.build_disabled.bmi2, host.env_disabled.bmi2) && (host.is_64bit && cpuid::has_bmi2(host.cpuid))
}

/// `enabled` is the answer of the rule above for a host that `host` may
/// return.
pub open spec fn bmi2_x64_answer<F: FnOnce() -> X86Host>(host: F, enabled: bool) -> bool {
    exists|h: X86Host| #[trigger] host.ensures((), h) && enabled == bmi2_x64_enabled(h)
}

/// Proof that the process is 64-bit and the processor can execute BMI2
/// instructions.
///
/// Obtain this token with [`Self::detect`]. It is `Copy`, so it can be passed
/// to several backend calls. It does not enable compiler target features.
#[derive(Clone, Copy, Debug, PartialEq, Eq)]
pub struct Bmi2X64(());

impl Bmi2X64 {
    /// Whether the capability is enabled on `host`.
    pub fn enabled_on(host: &X86Host) -> (enabled: bool)
        ensures
            enabled == bmi2_x64_enabled(*host),
    {
        host.target_arch && !host.build_disabled.bmi2 && !host.env_disabled.bmi2 && (host.is_64bit && cpuid::bmi2(&host.cpuid))
    }

    /// Reports whether the capability is enabled, through `cache`: the
    /// answer recorded there, or else the answer for the host that `host`
    /// describes, which is then recorded.
    pub fn is_enabled<F: FnOnce() -> X86Host>(cache: &mut Cache, host: F) -> (enabled: bool)
        requires
            old(cache)@ is None ==> host.requires(()),
        ensures
            lookup_step(old(cache)@, enabled, final(cache)@),
            old(cache)@ is None ==> bmi2_x64_answer(host, enabled),
    {
        let probe = move || -> (enabled: bool)
            requires
                host.requires(()),
            ensures
                bmi2_x64_answer(host, enabled),
        {
            let h = host();
            Self::enabled_on(&h)
        };
        cache.get_or_init(probe)
    }

    /// Detects the capability and returns a proof token when it is enabled:
    /// `Some` exactly when [`Self::is_enabled`] reports `true` for the same
    /// cache and host.
    pub fn detect<F: FnOnce() -> X86Host>(cache: &mut Cache, host: F) -> (token: Option<Self>)
        requires
            old(cache)@ is None ==> host.requires(()),
        ensures
            lookup_step(old(cache)@, token.is_some(), final(cache)@),
            old(cache)@ is None ==> bmi2_x64_answer(host, token.is_some()),
    {
        if Self::is_enabled(cache, host) {
            Some(Bmi2X64(()))
        } else {
            None
        }
    }
}

/// [`Pclmulqdq`] is enabled on a host that is x86, is not switched off,
/// and on which the CPU reports PCLMULQDQ.
pub open spec fn pclmulqdq_enabled(host: X86Host) -> bool {
    permits(host, host.build_disabled.pclmulqdq, host.env_disabled.pclmulqdq) && (cpuid::has_pclmulqdq(host.cpuid))
}

/// `enabled` is the answer of the rule above for a host that `host` may
/// return.
pub open spec fn pclmulqdq_answer<F: FnOnce() -> X86Host>(host: F, enabled: bool) -> bool {
    exists|h: X86Host| #[trigger] host.ensures((), h) && enabled == pclmulqdq_enabled(h)
}

/// Proof that the processor can execute 128-bit carry-less multiplication.
///
/// Obtain this token with [`Self::detect`]. It is `Copy`, so it can be passed
/// to several backend calls. It does not enable compiler target features.
#[derive(Clone, Copy, Debug, PartialEq, Eq)]
pub struct Pclmulqdq(());

impl Pclmulqdq {
    /// Whether the capability is enabled on `host`.
    pub fn enabled_on(host: &X86Host) -> (enabled: bool)
        ensures
            enabled == pclmulqdq_enabled(*host),
    {
        host.target_arch && !host.build_disabled.pclmulqdq && !host.env_disabled.pclmulqdq && (cpuid::pclmulqdq(&host.cpuid))
    }

    /// Reports whether the capability is enabled, through `cache`: the
    /// answer recorded there, or else the answer for the host that `host`
    /// describes, which is then recorded.
    pub fn is_enabled<F: FnOnce() -> X86Host>(cache: &mut Cache, host: F) -> (enabled: bool)
        requires
            old(cache)@ is None ==> host.requires(()),
        ensures
            lookup_step(old(cache)@, enabled, final(cache)@),
            old(cache)@ is None ==> pclmulqdq_answer(host, enabled),
    {
        let probe = move || -> (enabled: bool)
            requires
                host.requires(()),
            ensures
                pclmulqdq_answer(host, enabled),
        {
            let h = host();
            Self::enabled_on(&h)
        };
        cache.get_or_init(probe)
    }

    /// Detects the capability and returns a proof token when it is enabled:
    /// `Some` exactly when [`Self::is_enabled`] reports `true` for the same
    /// cache and host.
    pub fn detect<F: FnOnce() -> X86Host>(cache: &mut Cache, host: F) -> (token: Option<Self>)
        requires
            old(cache)@ is None ==> host.requires(()),
        ensures
            lookup_step(old(cache)@, token.is_some(), final(cache)@),
            old(cache)@ is None ==> pclmulqdq_answer(host, token.is_some()),
    {
        if Self::is_enabled(cache, host) {
            Some(Pclmulqdq(()))
        } else {
            None
        }
    }
}

/// [`PclmulqdqV256`] is enabled on a host that is x86, is not switched off by its own switch or the general PCLMULQDQ switch,
/// and on which 256-bit carry-less multiplication is usable.
pub open spec fn pclmulqdq_v256_enabled(host: X86Host) -> bool {
    permits(host, host.build_disabled.pclmulqdq || host.build_disabled.pclmulqdq_v256, host.env_disabled.pclmulqdq || host.env_disabled.pclmulqdq_v256) && (cpuid::has_pclmulqdq_v256(host.cpuid))
}

/// `enabled` is the answer of the rule above for a host that `host` may
/// return.
pub open spec fn pclmulqdq_v256_answer<F: FnOnce() -> X86Host>(host: F, enabled: bool) -> bool {
    exists|h: X86Host| #[trigger] host.ensures((), h) && enabled == pclmulqdq_v256_enabled(h)
}

/// Proof that the processor can execute 256-bit carry-less multiplication:
/// PCLMULQDQ and VPCLMULQDQ, with the XMM and YMM state saved.
///
/// Obtain this token with [`Self::detect`]. It is `Copy`, so it can be passed
/// to several backend calls. It does not enable compiler target features.
#[derive(Clone, Copy, Debug, PartialEq, Eq)]
pub struct PclmulqdqV256(());

impl PclmulqdqV256 {
    /// Whether the capability is enabled on `host`.
    pub fn enabled_on(host: &X86Host) -> (enabled: bool)
        ensures
            enabled == pclmulqdq_v256_enabled(*host),
    {
        host.target_arch && !host.build_disabled.pclmulqdq && !host.build_disabled.pclmulqdq_v256 && !host.env_disabled.pclmulqdq && !host.env_disabled.pclmulqdq_v256 && (cpuid::pclmulqdq_v256(&host.cpuid))
    }

    /// Reports whether the capability is enabled, through `cache`: the
    /// answer recorded there, or else the answer for the host that `host`
    /// describes, which is then recorded.
    pub fn is_enabled<F: FnOnce() -> X86Host>(cache: &mut Cache, host: F) -> (enabled: bool)
        requires
            old(cache)@ is None ==> host.requires(()),
        ensures
            lookup_step(old(cache)@, enabled, final(cache)@),
            old(cache)@ is None ==> pclmulqdq_v256_answer(host, enabled),
    {
        let probe = move || -> (enabled: bool)
            requires
                host.requires(()),
            ensures
                pclmulqdq_v256_answer(host, enabled),
        {
            let h = host();
            Self::enabled_on(&h)
        };
        cache.get_or_init(probe)
    }

    /// Detects the capability and returns a proof token when it is enabled:
    /// `Some` exactly when [`Self::is_enabled`] reports `true` for the same
    /// cache and host.
    pub fn detect<F: FnOnce() -> X86Host>(cache: &mut Cache, host: F) -> (token: Option<Self>)
        requires
            old(cache)@ is None ==> host.requires(()),
        ensures
            lookup_step(old(cache)@, token.is_some(), final(cache)@),
            old(cache)@ is None ==> pclmulqdq_v256_answer(host, token.is_some()),
    {
        if Self::is_enabled(cache, host) {
            Some(PclmulqdqV256(()))
        } else {
            None
        }
    }
}

/// [`PclmulqdqV512`] is enabled on a host that is x86, is not switched off by its own switch or the general PCLMULQDQ switch,
/// and on which 512-bit carry-less multiplication is usable.
pub open spec fn pclmulqdq_v512_enabled(host: X86Host) -> bool {
    permits(host, host.build_disabled.pclmulqdq || host.build_disabled.pclmulqdq_v512, host.env_disabled.pclmulqdq || host.env_disabled.pclmulqdq_v512) && (cpuid::has_pclmulqdq_v512(host.cpuid))
}

/// `enabled` is the answer of the rule above for a host that `host` may
/// return.
pub open spec fn pclmulqdq_v512_answer<F: FnOnce() -> X86Host>(host: F, enabled: bool) -> bool {
    exists|h: X86Host| #[trigger] host.ensures((), h) && enabled == pclmulqdq_v512_enabled(h)
}

/// Proof that the processor can execute 512-bit carry-less multiplication:
/// PCLMULQDQ, VPCLMULQDQ and AVX-512F, with the ZMM state saved.
///
/// Obtain this token with [`Self::detect`]. It is `Copy`, so it can be passed
/// to several backend calls. It does not enable compiler target features.
#[derive(Clone, Copy, Debug, PartialEq, Eq)]
pub struct PclmulqdqV512(());

impl PclmulqdqV512 {
    /// Whether the capability is enabled on `host`.
    pub fn enabled_on(host: &X86Host) -> (enabled: bool)
        ensures
            enabled == pclmulqdq_v512_enabled(*host),
    {
        host.target_arch && !host.build_disabled.pclmulqdq && !host.build_disabled.pclmulqdq_v512 && !host.env_disabled.pclmulqdq && !host.env_disabled.pclmulqdq_v512 && (cpuid::pclmulqdq_v512(&host.cpuid))
    }

    /// Reports whether the capability is enabled, through `cache`: the
    /// answer recorded there, or else the answer for the host that `host`
    /// describes, which is then recorded.
    pub fn is_enabled<F: FnOnce() -> X86Host>(cache: &mut Cache, host: F) -> (enabled: bool)
        requires
            old(cache)@ is None ==> host.requires(()),
        ensures
            lookup_step(old(cache)@, enabled, final(cache)@),
            old(cache)@ is None ==> pclmulqdq_v512_answer(host, enabled),
    {
        let probe = move || -> (enabled: bool)
            requires
                host.requires(()),
            ensures
                pclmulqdq_v512_answer(host, enabled),
        {
            let h = host();
            Self::enabled_on(&h)
        };
        cache.get_or_init(probe)
    }

    /// Detects the capability and returns a proof token when it is enabled:
    /// `Some` exactly when [`Self::is_enabled`] reports `true` for the same
    /// cache and host.
    pub fn detect<F: FnOnce() -> X86Host>(cache: &mut Cache, host: F) -> (token: Option<Self>)
        requires
            old(cache)@ is None ==> host.requires(()),
        ensures
            lookup_step(old(cache)@, token.is_some(), final(cache)@),
            old(cache)@ is None ==> pclmulqdq_v512_answer(host, token.is_some()),
    {
        if Self::is_enabled(cache, host) {
            Some(PclmulqdqV512(()))
        } else {
            None
        }
    }
}

/// [`Sse2`] is enabled on a host that is x86, is not switched off,
/// and on which the process is 64-bit or the CPU reports SSE2.
pub open spec fn sse2_enabled(host: X86Host) -> bool {
    permits(host, host.build_disabled.sse2, host.env_disabled.sse2) && (host.is_64bit || cpuid::has_sse2(host.cpuid))
}

/// `enabled` is the answer of the rule above for a host that `host` may
/// return.
pub open spec fn sse2_answer<F: FnOnce() -> X86Host>(host: F, enabled: bool) -> bool {
    exists|h: X86Host| #[trigger] host.ensures((), h) && enabled == sse2_enabled(h)
}

/// Proof that the processor can execute SSE2 instructions: part of the x86_64
/// baseline, and reported by CPUID on 32-bit x86.
///
/// Obtain this token with [`Self::detect`]. It is `Copy`, so it can be passed
/// to several backend calls. It does not enable compiler target features.
#[derive(Clone, Copy, Debug, PartialEq, Eq)]
pub struct Sse2(());

impl Sse2 {
    /// Whether the capability is enabled on `host`.
    pub fn enabled_on(host: &X86Host) -> (enabled: bool)
        ensures
            enabled == sse2_enabled(*host),
    {
        host.target_arch && !host.build_disabled.sse2 && !host.env_disabled.sse2 && (host.is_64bit || cpuid::sse2(&host.cpuid))
    }

    /// Reports whether the capability is enabled, through `cache`: the
    /// answer recorded there, or else the answer for the host that `host`
    /// describes, which is then recorded.
    pub fn is_enabled<F: FnOnce() -> X86Host>(cache: &mut Cache, host: F) -> (enabled: bool)
        requires
            old(cache)@ is None ==> host.requires(()),
        ensures
            lookup_step(old(cache)@, enabled, final(cache)@),
            old(cache)@ is None ==> sse2_answer(host, enabled),
    {
        let probe = move || -> (enabled: bool)
            requires
                host.requires(()),
            ensures
                sse2_answer(host, enabled),
        {
            let h = host();
            Self::enabled_on(&h)
        };
        cache.get_or_init(probe)
    }

    /// Detects the capability and returns a proof token when it is enabled:
    /// `Some` exactly when [`Self::is_enabled`] reports `true` for the same
    /// cache and host.
    pub fn detect<F: FnOnce() -> X86Host>(cache: &mut Cache, host: F) -> (token: Option<Self>)
        requires
            old(cache)@ is None ==> host.requires(()),
        ensures
            lookup_step(old(cache)@, token.is_some(), final(cache)@),
            old(cache)@ is None ==> sse2_answer(host, token.is_some()),
    {
        if Self::is_enabled(cache, host) {
            Some(Sse2(()))
        } else {
            None
        }
    }
}

/// [`Sse41`] is enabled on a host that is x86, is not switched off,
/// and on which the CPU reports SSE4.1.
pub open spec fn sse41_enabled(host: X86Host) -> bool {
    permits(host, host.build_disabled.sse41, host.env_disabled.sse41) && (cpuid::has_sse41(host.cpuid))
}

/// `enabled` is the answer of the rule above for a host that `host` may
/// return.
pub open spec fn sse41_answer<F: FnOnce() -> X86Host>(host: F, enabled: bool) -> bool {
    exists|h: X86Host| #[trigger] host.ensures((), h) && enabled == sse41_enabled(h)
}

/// Proof that the processor can execute SSE4.1 instructions.
///
/// Obtain this token with [`Self::detect`]. It is `Copy`, so it can be passed
/// to several backend calls. It does not enable compiler target features.
#[derive(Clone, Copy, Debug, PartialEq, Eq)]
pub struct Sse41(());

impl Sse41 {
    /// Whether the capability is enabled on `host`.
    pub fn enabled_on(host: &X86Host) -> (enabled: bool)
        ensures
            enabled == sse41_enabled(*host),
    {
        host.target_arch && !host.build_disabled.sse41 && !host.env_disabled.sse41 && (cpuid::sse41(&host.cpuid))
    }

    /// Reports whether the capability is enabled, through `cache`: the
    /// answer recorded there, or else the answer for the host that `host`
    /// describes, which is then recorded.
    pub fn is_enabled<F: FnOnce() -> X86Host>(cache: &mut Cache, host: F) -> (enabled: bool)
        requires
            old(cache)@ is None ==> host.requires(()),
        ensures
            lookup_step(old(cache)@, enabled, final(cache)@),
            old(cache)@ is None ==> sse41_answer(host, enabled),
    {
        let probe = move || -> (enabled: bool)
            requires
                host.requires(()),
            ensures
                sse41_answer(host, enabled),
        {
            let h = host();
            Self::enabled_on(&h)
        };
        cache.get_or_init(probe)
    }

    /// Detects the capability and returns a proof token when it is enabled:
    /// `Some` exactly when [`Self::is_enabled`] reports `true` for the same
    /// cache and host.
    pub fn detect<F: FnOnce() -> X86Host>(cache: &mut Cache, host: F) -> (token: Option<Self>)
        requires
            old(cache)@ is None ==> host.requires(()),
        ensures
            lookup_step(old(cache)@, token.is_some(), final(cache)@),
            old(cache)@ is None ==> sse41_answer(host, token.is_some()),
    {
        if Self::is_enabled(cache, host) {
            Some(Sse41(()))
        } else {
            None
        }
    }
}

/// [`Ssse3`] is enabled on a host that is x86, is not switched off,
/// and on which the CPU reports SSSE3.
pub open spec fn ssse3_enabled(host: X86Host) -> bool {
    permits(host, host.build_disabled.ssse3, host.env_disabled.ssse3) && (cpuid::has_ssse3(host.cpuid))
}

/// `enabled` is the answer of the rule above for a host that `host` may
/// return.
pub open spec fn ssse3_answer<F: FnOnce() -> X86Host>(host: F, enabled: bool) -> bool {
    exists|h: X86Host| #[trigger] host.ensures((), h) && enabled == ssse3_enabled(h)
}

/// Proof that the processor can execute SSSE3 instructions.
///
/// Obtain this token with [`Self::detect`]. It is `Copy`, so it can be passed
/// to several backend calls. It does not enable compiler target features.
#[derive(Clone, Copy, Debug, PartialEq, Eq)]
pub struct Ssse3(());

impl Ssse3 {
    /// Whether the capability is enabled on `host`.
    pub fn enabled_on(host: &X86Host) -> (enabled: bool)
        ensures
            enabled == ssse3_enabled(*host),
    {
        host.target_arch && !host.build_disabled.ssse3 && !host.env_disabled.ssse3 && (cpuid::ssse3(&host.cpuid))
    }

    /// Reports whether the capability is enabled, through `cache`: the
    /// answer recorded there, or else the answer for the host that `host`
    /// describes, which is then recorded.
    pub fn is_enabled<F: FnOnce() -> X86Host>(cache: &mut Cache, host: F) -> (enabled: bool)
        requires
            old(cache)@ is None ==> host.requires(()),
        ensures
            lookup_step(old(cache)@, enabled, final(cache)@),
            old(cache)@ is None ==> ssse3_answer(host, enabled),
    {
        let probe = move || -> (enabled: bool)
            requires
                host.requires(()),
            ensures
                ssse3_answer(host, enabled),
        {
            let h = host();
            Self::enabled_on(&h)
        };
        cache.get_or_init(probe)
    }

    /// Detects the capability and returns a proof token when it is enabled:
    /// `Some` exactly when [`Self::is_enabled`] reports `true` for the same
    /// cache and host.
    pub fn detect<F: FnOnce() -> X86Host>(cache: &mut Cache, host: F) -> (token: Option<Self>)
        requires
            old(cache)@ is None ==> host.requires(()),
        ensures
            lookup_step(old(cache)@, token.is_some(), final(cache)@),
            old(cache)@ is None ==> ssse3_answer(host, token.is_some()),
    {
        if Self::is_enabled(cache, host) {
            Some(Ssse3(()))
        } else {
            None
        }
    }
}

/// The Bouncy Castle name of [`Aes`].
pub type AesNi = Aes;

/// Off x86, no x86 capability is ever enabled.
pub proof fn lemma_off_target_nothing_enabled(host: X86Host)
    requires
        !host.target_arch,
    ensures
        !aes_enabled(host),
        !avx2_enabled(host),
        !bmi1_x64_enabled(host),
        !bmi2_enabled(host),
        !bmi2_x64_enabled(host),
        !pclmulqdq_enabled(host),
        !pclmulqdq_v256_enabled(host),
        !pclmulqdq_v512_enabled(host),
        !sse2_enabled(host),
        !sse41_enabled(host),
        !ssse3_enabled(host),
{
}

/// A capability whose switch is set by the build or by the environment is
/// never enabled, whatever the processor reports.
pub proof fn lemma_switches_disable(host: X86Host)
    ensures
        host.build_disabled.aes_ni || host.env_disabled.aes_ni ==> !aes_enabled(host),
        host.build_disabled.avx2 || host.env_disabled.avx2 ==> !avx2_enabled(host),
        host.build_disabled.bmi1 || host.env_disabled.bmi1 ==> !bmi1_x64_enabled(host),
        host.build_disabled.bmi2 || host.env_disabled.bmi2 ==> !bmi2_enabled(host),
        host.build_disabled.bmi2 || host.env_disabled.bmi2 ==> !bmi2_x64_enabled(host),
        host.build_disabled.pclmulqdq || host.env_disabled.pclmulqdq ==> !pclmulqdq_enabled(host),
        host.build_disabled.pclmulqdq_v256 || host.env_disabled.pclmulqdq_v256 ==> !pclmulqdq_v256_enabled(host),
        host.build_disabled.pclmulqdq_v512 || host.env_disabled.pclmulqdq_v512 ==> !pclmulqdq_v512_enabled(host),
        host.build_disabled.sse2 || host.env_disabled.sse2 ==> !sse2_enabled(host),
        host.build_disabled.sse41 || host.env_disabled.sse41 ==> !sse41_enabled(host),
        host.build_disabled.ssse3 || host.env_disabled.ssse3 ==> !ssse3_enabled(host),
{
}

/// The general PCLMULQDQ switch also disables the 256-bit and 512-bit
/// capabilities, and neither wider capability is enabled without the
/// 128-bit one.
pub proof fn lemma_pclmulqdq_widths(host: X86Host)
    ensures
        host.build_disabled.pclmulqdq || host.env_disabled.pclmulqdq ==> !pclmulqdq_v256_enabled(
            host,
        ) && !pclmulqdq_v512_enabled(host),
        pclmulqdq_v256_enabled(host) ==> pclmulqdq_enabled(host),
        pclmulqdq_v512_enabled(host) ==> pclmulqdq_enabled(host),
{
}

/// The 64-bit BMI capabilities need a 64-bit process; in one, BMI2 and its
/// 64-bit form agree.
pub proof fn lemma_x64_capabilities(host: X86Host)
    ensures
        bmi1_x64_enabled(host) ==> host.is_64bit,
        bmi2_x64_enabled(host) ==> host.is_64bit && bmi2_enabled(host),
        host.is_64bit ==> bmi2_x64_enabled(host) == bmi2_enabled(host),
{
}

/// A CPU feature bit alone is not enough for the AVX-family capabilities:
/// each needs the operating system to save the wider register state.
pub proof fn lemma_avx_family_needs_os_state(host: X86Host)
    ensures
        avx2_enabled(host) ==> cpuid::avx_state(host.cpuid),
        pclmulqdq_v256_enabled(host) ==> cpuid::avx_state(host.cpuid),
        pclmulqdq_v512_enabled(host) ==> cpuid::zmm_state(host.cpuid),
        cpuid::avx_state(host.cpuid) ==> host.cpuid.xcr0 & 6 == 6,
        cpuid::zmm_state(host.cpuid) ==> host.cpuid.xcr0 & 0xe6 == 0xe6,
{
}

/// SSE2 is part of the x86_64 baseline: in a 64-bit x86 process it is
/// enabled unless switched off, whatever CPUID reports.
pub proof fn lemma_sse2_is_baseline_on_x86_64(host: X86Host)
    requires
        host.target_arch,
        host.is_64bit,
        !host.build_disabled.sse2,
        !host.env_disabled.sse2,
    ensures
        sse2_enabled(host),
{
}

/// What each x86 capability reads, in the host's own words: the
/// architecture, the switches that cover it (the general PCLMULQDQ switch
/// covers both wider widths), the process width, and the CPUID and XCR0
/// bits that the README lists for it, written as masks.
pub proof fn lemma_capabilities_from_cpuid_words(h: X86Host)
    ensures
        aes_enabled(h) == (h.target_arch && !h.build_disabled.aes_ni && !h.env_disabled.aes_ni && h.cpuid.max_leaf >= 1 && h.cpuid.leaf1_ecx & 0x0200_0000 != 0),
        avx2_enabled(h) == (h.target_arch && !h.build_disabled.avx2 && !h.env_disabled.avx2 && h.cpuid.max_leaf >= 7 && h.cpuid.leaf7_ebx & 0x0000_0020 != 0 && h.cpuid.leaf1_ecx & 0x1000_0000 != 0 && h.cpuid.leaf1_ecx & 0x0800_0000 != 0 && h.cpuid.xcr0 & 0x6 == 0x6),
        bmi1_x64_enabled(h) == (h.target_arch && !h.build_disabled.bmi1 && !h.env_disabled.bmi1 && h.is_64bit && h.cpuid.max_leaf >= 7 && h.cpuid.leaf7_ebx & 0x0000_0008 != 0),
        bmi2_enabled(h) == (h.target_arch && !h.build_disabled.bmi2 && !h.env_disabled.bmi2 && h.cpuid.max_leaf >= 7 && h.cpuid.leaf7_ebx & 0x0000_0100 != 0),
        bmi2_x64_enabled(h) == (h.target_arch && !h.build_disabled.bmi2 && !h.env_disabled.bmi2 && h.is_64bit && h.cpuid.max_leaf >= 7 && h.cpuid.leaf7_ebx & 0x0000_0100 != 0),
        pclmulqdq_enabled(h) == (h.target_arch && !h.build_disabled.pclmulqdq && !h.env_disabled.pclmulqdq && h.cpuid.max_leaf >= 1 && h.cpuid.leaf1_ecx & 0x0000_0002 != 0),
        pclmulqdq_v256_enabled(h) == (h.target_arch && !h.build_disabled.pclmulqdq && !h.env_disabled.pclmulqdq && !h.build_disabled.pclmulqdq_v256 && !h.env_disabled.pclmulqdq_v256 && h.cpuid.max_leaf >= 7 && h.cpuid.leaf1_ecx & 0x0000_0002 != 0 && h.cpuid.leaf7_ecx & 0x0000_0400 != 0 && h.cpuid.leaf1_ecx & 0x1000_0000 != 0 && h.cpuid.leaf1_ecx & 0x0800_0000 != 0 && h.cpuid.xcr0 & 0x6 == 0x6),
        pclmulqdq_v512_enabled(h) == (h.target_arch && !h.build_disabled.pclmulqdq && !h.env_disabled.pclmulqdq && !h.build_disabled.pclmulqdq_v512 && !h.env_disabled.pclmulqdq_v512 && h.cpuid.max_leaf >= 7 && h.cpuid.leaf1_ecx & 0x0000_0002 != 0 && h.cpuid.leaf7_ecx & 0x0000_0400 != 0 && h.cpuid.leaf7_ebx & 0x0001_0000 != 0 && h.cpuid.leaf1_ecx & 0x0800_0000 != 0 && h.cpuid.xcr0 & 0xe6 == 0xe6),
        sse2_enabled(h) == (h.target_arch && !h.build_disabled.sse2 && !h.env_disabled.sse2 && (h.is_64bit || (h.cpuid.max_leaf >= 1 && h.cpuid.leaf1_edx & 0x0400_0000 != 0))),
        sse41_enabled(h) == (h.target_arch && !h.build_disabled.sse41 && !h.env_disabled.sse41 && h.cpuid.max_leaf >= 1 && h.cpuid.leaf1_ecx & 0x0008_0000 != 0),
        ssse3_enabled(h) == (h.target_arch && !h.build_disabled.ssse3 && !h.env_disabled.ssse3 && h.cpuid.max_leaf >= 1 && h.cpuid.leaf1_ecx & 0x0000_0200 != 0),
{
    cpuid::lemma_features_from_cpuid_words(h.cpuid);
}

} // verus!
