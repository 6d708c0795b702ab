//! AArch64 CPU-feature detection.
//!
//! The capability types are available whatever the architecture, so callers
//! can select portable backends without architecture checks of their own:
//! the rule of each capability (`enabled_on`) never enables it for a host
//! that is not `aarch64`. A successful [`Aes::detect`] returns a proof token that
//! can be passed to code whose safety contract requires the corresponding
//! feature; tokens are handed out by `detect` alone.
//!
//! `is_enabled` and `detect` answer through a [`Cache`]: an answer recorded
//! there is returned as it is, whatever the host. A token therefore vouches
//! for the processor only when its cache is used for that one capability
//! and starts from [`Cache::new`] (or from a state byte that lookups of that
//! capability recorded), and when the host described is the running
//! process. A cache rebuilt from an arbitrary state byte, or shared between
//! capabilities, returns what it holds.
//!
//! AArch64 exposes no unprivileged feature-query instruction, so detection
//! goes through the operating system; [`Aarch64Host::runtime`] holds what it
//! reported. LLVM models AArch64 target features more coarsely than the
//! individual Arm architectural features, so one probe can cover several of
//! them.
use vstd::prelude::*;
use super::detect::{lookup_step, Cache};

pub mod backend;

verus! {

/// One flag per AArch64 capability; in [`Aarch64Host`] a set flag switches
/// the capability off.
#[derive(Clone, Copy, Debug, PartialEq, Eq)]
pub struct Aarch64Switches {
    pub aes: bool,
    pub dit: bool,
    pub neon: bool,
    pub sha2: bool,
    pub sha3: bool,
    pub sm4: bool,
}

impl Aarch64Switches {
    /// No capability switched off.
    pub fn none() -> (switches: Aarch64Switches)
        ensures
            !switches.aes && !switches.dit && !switches.neon && !switches.sha2 && !switches.sha3
                && !switches.sm4,
    {
        Aarch64Switches { aes: false, dit: false, neon: false, sha2: false, sha3: false, sm4: false }
    }

    /// Every capability switched off.
    pub fn all() -> (switches: Aarch64Switches)
        ensures
            switches.aes && switches.dit && switches.neon && switches.sha2 && switches.sha3
                && switches.sm4,
    {
        Aarch64Switches { aes: true, dit: true, neon: true, sha2: true, sha3: true, sm4: true }
    }
}

/// One answer per probed AArch64 target feature (NEON needs no probe).
#[derive(Clone, Copy, Debug, PartialEq, Eq)]
pub struct Aarch64Probes {
    pub aes: bool,
    pub dit: bool,
    pub sha2: bool,
    pub sha3: bool,
    pub sm4: bool,
}

/// Everything an AArch64 capability decision reads.
#[derive(Clone, Copy, Debug, PartialEq, Eq)]
pub struct Aarch64Host {
    /// The build targets `aarch64`.
    pub target_arch: bool,
    /// Capabilities switched off by the build's `disable-aarch64-*` features.
    pub build_disabled: Aarch64Switches,
    /// Capabilities switched off by `TC_DISABLE_AARCH64_*` variables present
    /// in the process environment.
    pub env_disabled: Aarch64Switches,
    /// Target features the build enables.
    pub target_features: Aarch64Probes,
    /// What the runtime detection backend reports.
    pub runtime: Aarch64Probes,
}

/// A capability may be reported only on `aarch64`, and only when neither the
/// build nor the environment switches it off.
pub open spec fn permits(host: Aarch64Host, build_disabled: bool, env_disabled: bool) -> bool {
    host.target_arch && !build_disabled && !env_disabled
}

/// [`Aes`] is enabled on a host that is on `aarch64`, is not switched off,
/// and whose probe reports the feature.
pub open spec fn aes_enabled(host: Aarch64Host) -> bool {
    permits(host, host.build_disabled.aes, host.env_disabled.aes)
        && backend::with_floor(host.target_features.aes, host.runtime.aes)
}

/// `enabled` is the answer of the rule above for a host that `host` may
/// return.
pub open spec fn aes_answer<F: FnOnce() -> Aarch64Host>(host: F, enabled: bool) -> bool {
    exists|h: Aarch64Host| #[trigger] host.ensures((), h) && enabled == aes_enabled(h)
}

/// Proof that the processor can execute AES and polynomial-multiply
/// instructions.
///
/// This covers `FEAT_AES` together with `FEAT_PMULL`, because Linux requires
/// both HWCAP bits and the `aes` target feature implies both. There is no
/// separate PMULL capability, so a GHASH backend takes this token.
///
/// Obtain this token with [`Self::detect`]. It is `Copy`, so it can be passed
/// to several backend calls. It does not enable compiler target features.
#[derive(Clone, Copy, Debug, PartialEq, Eq)]
pub struct Aes(());

impl Aes {
    /// Whether the capability is enabled on `host`.
    pub fn enabled_on(host: &Aarch64Host) -> (enabled: bool)
        ensures
            enabled == aes_enabled(*host),
    {
        host.target_arch && !host.build_disabled.aes && !host.env_disabled.aes && backend::aes(host)
    }

    /// Reports whether the capability is enabled, through `cache`: the
    /// answer recorded there, or else the answer for the host that `host`
    /// describes, which is then recorded.
    pub fn is_enabled<F: FnOnce() -> Aarch64Host>(cache: &mut Cache, host: F) -> (enabled: bool)
        requires
            old(cache)@ is None ==> host.requires(()),
        ensures
            lookup_step(old(cache)@, enabled, final(cache)@),
            old(cache)@ is None ==> aes_answer(host, enabled),
    {
        let probe = move || -> (enabled: bool)
            requires
                host.requires(()),
            ensures
                aes_answer(host, enabled),
        {
            let h = host();
            Self::enabled_on(&h)
        };
        cache.get_or_init(probe)
    }

    /// Detects the capability and returns a proof token when it is enabled:
    /// `Some` exactly when [`Self::is_enabled`] reports `true` for the same
    /// cache and host.
    pub fn detect<F: FnOnce() -> Aarch64Host>(cache: &mut Cache, host: F) -> (token: Option<Self>)
        requires
            old(cache)@ is None ==> host.requires(()),
        ensures
            lookup_step(old(cache)@, token.is_some(), final(cache)@),
            old(cache)@ is None ==> aes_answer(host, token.is_some()),
    {
        if Self::is_enabled(cache, host) {
            Some(Aes(()))
        } else {
            None
        }
    }
}

/// [`Dit`] is enabled on a host that is on `aarch64`, is not switched off,
/// and whose probe reports the feature.
pub open spec fn dit_enabled(host: Aarch64Host) -> bool {
    permits(host, host.build_disabled.dit, host.env_disabled.dit)
        && backend::with_floor(host.target_features.dit, host.runtime.dit)
}

/// `enabled` is the answer of the rule above for a host that `host` may
/// return.
pub open spec fn dit_answer<F: FnOnce() -> Aarch64Host>(host: F, enabled: bool) -> bool {
    exists|h: Aarch64Host| #[trigger] host.ensures((), h) && enabled == dit_enabled(h)
}

/// Proof that the processor supports data-independent timing (`FEAT_DIT`).
///
/// Obtain this token with [`Self::detect`]. It is `Copy`, so it can be passed
/// to several backend calls. It does not enable compiler target features.
#[derive(Clone, Copy, Debug, PartialEq, Eq)]
pub struct Dit(());

impl Dit {
    /// Whether the capability is enabled on `host`.
    pub fn enabled_on(host: &Aarch64Host) -> (enabled: bool)
        ensures
            enabled == dit_enabled(*host),
    {
        host.target_arch && !host.build_disabled.dit && !host.env_disabled.dit && backend::dit(host)
    }

    /// Reports whether the capability is enabled, through `cache`: the
    /// answer recorded there, or else the answer for the host that `host`
    /// describes, which is then recorded.
    pub fn is_enabled<F: FnOnce() -> Aarch64Host>(cache: &mut Cache, host: F) -> (enabled: bool)
        requires
            old(cache)@ is None ==> host.requires(()),
        ensures
            lookup_step(old(cache)@, enabled, final(cache)@),
            old(cache)@ is None ==> dit_answer(host, enabled),
    {
        let probe = move || -> (enabled: bool)
            requires
                host.requires(()),
            ensures
                dit_answer(host, enabled),
        {
            let h = host();
            Self::enabled_on(&h)
        };
        cache.get_or_init(probe)
    }

    /// Detects the capability and returns a proof token when it is enabled:
    /// `Some` exactly when [`Self::is_enabled`] reports `true` for the same
    /// cache and host.
    pub fn detect<F: FnOnce() -> Aarch64Host>(cache: &mut Cache, host: F) -> (token: Option<Self>)
        requires
            old(cache)@ is None ==> host.requires(()),
        ensures
            lookup_step(old(cache)@, token.is_some(), final(cache)@),
            old(cache)@ is None ==> dit_answer(host, token.is_some()),
    {
        if Self::is_enabled(cache, host) {
            Some(Dit(()))
        } else {
            None
        }
    }
}

/// [`Neon`] is enabled on a host that is on `aarch64` and is not switched
/// off.
pub open spec fn neon_enabled(host: Aarch64Host) -> bool {
    permits(host, host.build_disabled.neon, host.env_disabled.neon)
}

/// `enabled` is the answer of the rule above for a host that `host` may
/// return.
pub open spec fn neon_answer<F: FnOnce() -> Aarch64Host>(host: F, enabled: bool) -> bool {
    exists|h: Aarch64Host| #[trigger] host.ensures((), h) && enabled == neon_enabled(h)
}

/// Proof that the processor can execute Advanced SIMD instructions.
///
/// `FEAT_AdvSIMD` is mandatory on `aarch64`, so this needs no probe: it is
/// available on the architecture unless switched off.
///
/// Obtain this token with [`Self::detect`]. It is `Copy`, so it can be passed
/// to several backend calls. It does not enable compiler target features.
#[derive(Clone, Copy, Debug, PartialEq, Eq)]
pub struct Neon(());

impl Neon {
    /// Whether the capability is enabled on `host`.
    pub fn enabled_on(host: &Aarch64Host) -> (enabled: bool)
        ensures
            enabled == neon_enabled(*host),
    {
        host.target_arch && !host.build_disabled.neon && !host.env_disabled.neon
    }

    /// Reports whether the capability is enabled, through `cache`: the
    /// answer recorded there, or else the answer for the host that `host`
    /// describes, which is then recorded.
    pub fn is_enabled<F: FnOnce() -> Aarch64Host>(cache: &mut Cache, host: F) -> (enabled: bool)
        requires
            old(cache)@ is None ==> host.requires(()),
        ensures
            lookup_step(old(cache)@, enabled, final(cache)@),
            old(cache)@ is None ==> neon_answer(host, enabled),
    {
        let probe = move || -> (enabled: bool)
            requires
                host.requires(()),
            ensures
                neon_answer(host, enabled),
        {
            let h = host();
            Self::enabled_on(&h)
        };
        cache.get_or_init(probe)
    }

    /// Detects the capability and returns a proof token when it is enabled:
    /// `Some` exactly when [`Self::is_enabled`] reports `true` for the same
    /// cache and host.
    pub fn detect<F: FnOnce() -> Aarch64Host>(cache: &mut Cache, host: F) -> (token: Option<Self>)
        requires
            old(cache)@ is None ==> host.requires(()),
        ensures
            lookup_step(old(cache)@, token.is_some(), final(cache)@),
            old(cache)@ is None ==> neon_answer(host, token.is_some()),
    {
        if Self::is_enabled(cache, host) {
            Some(Neon(()))
        } else {
            None
        }
    }
}

/// [`Sha2`] is enabled on a host that is on `aarch64`, is not switched off,
/// and whose probe reports the feature.
pub open spec fn sha2_enabled(host: Aarch64Host) -> bool {
    permits(host, host.build_disabled.sha2, host.env_disabled.sha2)
        && backend::with_floor(host.target_features.sha2, host.runtime.sha2)
}

/// `enabled` is the answer of the rule above for a host that `host` may
/// return.
pub open spec fn sha2_answer<F: FnOnce() -> Aarch64Host>(host: F, enabled: bool) -> bool {
    exists|h: Aarch64Host| #[trigger] host.ensures((), h) && enabled == sha2_enabled(h)
}

/// Proof that the processor can execute SHA-1 and SHA-256 instructions
/// (`FEAT_SHA1` and `FEAT_SHA256`).
///
/// Obtain this token with [`Self::detect`]. It is `Copy`, so it can be passed
/// to several backend calls. It does not enable compiler target features.
#[derive(Clone, Copy, Debug, PartialEq, Eq)]
pub struct Sha2(());

impl Sha2 {
    /// Whether the capability is enabled on `host`.
    pub fn enabled_on(host: &Aarch64Host) -> (enabled: bool)
        ensures
            enabled == sha2_enabled(*host),
    {
        host.target_arch && !host.build_disabled.sha2 && !host.env_disabled.sha2 && backend::sha2(host)
    }

    /// Reports whether the capability is enabled, through `cache`: the
    /// answer recorded there, or else the answer for the host that `host`
    /// describes, which is then recorded.
    pub fn is_enabled<F: FnOnce() -> Aarch64Host>(cache: &mut Cache, host: F) -> (enabled: bool)
        requires
            old(cache)@ is None ==> host.requires(()),
        ensures
            lookup_step(old(cache)@, enabled, final(cache)@),
            old(cache)@ is None ==> sha2_answer(host, enabled),
    {
        let probe = move || -> (enabled: bool)
            requires
                host.requires(()),
            ensures
                sha2_answer(host, enabled),
        {
            let h = host();
            Self::enabled_on(&h)
        };
        cache.get_or_init(probe)
    }

    /// Detects the capability and returns a proof token when it is enabled:
    /// `Some` exactly when [`Self::is_enabled`] reports `true` for the same
    /// cache and host.
    pub fn detect<F: FnOnce() -> Aarch64Host>(cache: &mut Cache, host: F) -> (token: Option<Self>)
        requires
            old(cache)@ is None ==> host.requires(()),
        ensures
            lookup_step(old(cache)@, token.is_some(), final(cache)@),
            old(cache)@ is None ==> sha2_answer(host, token.is_some()),
    {
        if Self::is_enabled(cache, host) {
            Some(Sha2(()))
        } else {
            None
        }
    }
}

/// [`Sha3`] is enabled on a host that is on `aarch64`, is not switched off,
/// and whose probe reports the feature.
pub open spec fn sha3_enabled(host: Aarch64Host) -> bool {
    permits(host, host.build_disabled.sha3, host.env_disabled.sha3)
        && backend::with_floor(host.target_features.sha3, host.runtime.sha3)
}

/// `enabled` is the answer of the rule above for a host that `host` may
/// return.
pub open spec fn sha3_answer<F: FnOnce() -> Aarch64Host>(host: F, enabled: bool) -> bool {
    exists|h: Aarch64Host| #[trigger] host.ensures((), h) && enabled == sha3_enabled(h)
}

/// Proof that the processor can execute SHA-3 and SHA-512 instructions
/// (`FEAT_SHA3` and `FEAT_SHA512`), so a SHA-512 backend takes this token too.
///
/// Obtain this token with [`Self::detect`]. It is `Copy`, so it can be passed
/// to several backend calls. It does not enable compiler target features.
#[derive(Clone, Copy, Debug, PartialEq, Eq)]
pub struct Sha3(());

impl Sha3 {
    /// Whether the capability is enabled on `host`.
    pub fn enabled_on(host: &Aarch64Host) -> (enabled: bool)
        ensures
            enabled == sha3_enabled(*host),
    {
        host.target_arch && !host.build_disabled.sha3 && !host.env_disabled.sha3 && backend::sha3(host)
    }

    /// Reports whether the capability is enabled, through `cache`: the
    /// answer recorded there, or else the answer for the host that `host`
    /// describes, which is then recorded.
    pub fn is_enabled<F: FnOnce() -> Aarch64Host>(cache: &mut Cache, host: F) -> (enabled: bool)
        requires
            old(cache)@ is None ==> host.requires(()),
        ensures
            lookup_step(old(cache)@, enabled, final(cache)@),
            old(cache)@ is None ==> sha3_answer(host, enabled),
    {
        let probe = move || -> (enabled: bool)
            requires
                host.requires(()),
            ensures
                sha3_answer(host, enabled),
        {
            let h = host();
            Self::enabled_on(&h)
        };
        cache.get_or_init(probe)
    }

    /// Detects the capability and returns a proof token when it is enabled:
    /// `Some` exactly when [`Self::is_enabled`] reports `true` for the same
    /// cache and host.
    pub fn detect<F: FnOnce() -> Aarch64Host>(cache: &mut Cache, host: F) -> (token: Option<Self>)
        requires
            old(cache)@ is None ==> host.requires(()),
        ensures
            lookup_step(old(cache)@, token.is_some(), final(cache)@),
            old(cache)@ is None ==> sha3_answer(host, token.is_some()),
    {
        if Self::is_enabled(cache, host) {
            Some(Sha3(()))
        } else {
            None
        }
    }
}

/// [`Sm4`] is enabled on a host that is on `aarch64`, is not switched off,
/// and whose probe reports the feature.
pub open spec fn sm4_enabled(host: Aarch64Host) -> bool {
    permits(host, host.build_disabled.sm4, host.env_disabled.sm4)
        && backend::with_floor(host.target_features.sm4, host.runtime.sm4)
}

/// `enabled` is the answer of the rule above for a host that `host` may
/// return.
pub open spec fn sm4_answer<F: FnOnce() -> Aarch64Host>(host: F, enabled: bool) -> bool {
    exists|h: Aarch64Host| #[trigger] host.ensures((), h) && enabled == sm4_enabled(h)
}

/// Proof that the processor can execute SM3 and SM4 instructions
/// (`FEAT_SM3` and `FEAT_SM4`).
///
/// Obtain this token with [`Self::detect`]. It is `Copy`, so it can be passed
/// to several backend calls. It does not enable compiler target features.
#[derive(Clone, Copy, Debug, PartialEq, Eq)]
pub struct Sm4(());

impl Sm4 {
    /// Whether the capability is enabled on `host`.
    pub fn enabled_on(host: &Aarch64Host) -> (enabled: bool)
        ensures
            enabled == sm4_enabled(*host),
    {
        host.target_arch && !host.build_disabled.sm4 && !host.env_disabled.sm4 && backend::sm4(host)
    }

    /// Reports whether the capability is enabled, through `cache`: the
    /// answer recorded there, or else the answer for the host that `host`
    /// describes, which is then recorded.
    pub fn is_enabled<F: FnOnce() -> Aarch64Host>(cache: &mut Cache, host: F) -> (enabled: bool)
        requires
            old(cache)@ is None ==> host.requires(()),
        ensures
            lookup_step(old(cache)@, enabled, final(cache)@),
            old(cache)@ is None ==> sm4_answer(host, enabled),
    {
        let probe = move || -> (enabled: bool)
            requires
                host.requires(()),
            ensures
                sm4_answer(host, enabled),
        {
            let h = host();
            Self::enabled_on(&h)
        };
        cache.get_or_init(probe)
    }

    /// Detects the capability and returns a proof token when it is enabled:
    /// `Some` exactly when [`Self::is_enabled`] reports `true` for the same
    /// cache and host.
    pub fn detect<F: FnOnce() -> Aarch64Host>(cache: &mut Cache, host: F) -> (token: Option<Self>)
        requires
            old(cache)@ is None ==> host.requires(()),
        ensures
            lookup_step(old(cache)@, token.is_some(), final(cache)@),
            old(cache)@ is None ==> sm4_answer(host, token.is_some()),
    {
        if Self::is_enabled(cache, host) {
            Some(Sm4(()))
        } else {
            None
        }
    }
}

/// Off `aarch64`, no AArch64 capability is ever enabled.
pub proof fn lemma_off_target_nothing_enabled(host: Aarch64Host)
    requires
        !host.target_arch,
    ensures
        !aes_enabled(host),
        !dit_enabled(host),
        !neon_enabled(host),
        !sha2_enabled(host),
        !sha3_enabled(host),
        !sm4_enabled(host),
{
}

/// A capability switched off by the build or by the environment is never
/// enabled, whatever the processor reports.
pub proof fn lemma_switches_disable(host: Aarch64Host)
    ensures
        host.build_disabled.aes || host.env_disabled.aes ==> !aes_enabled(host),
        host.build_disabled.dit || host.env_disabled.dit ==> !dit_enabled(host),
        host.build_disabled.neon || host.env_disabled.neon ==> !neon_enabled(host),
        host.build_disabled.sha2 || host.env_disabled.sha2 ==> !sha2_enabled(host),
        host.build_disabled.sha3 || host.env_disabled.sha3 ==> !sha3_enabled(host),
        host.build_disabled.sm4 || host.env_disabled.sm4 ==> !sm4_enabled(host),
{
}

/// NEON is part of the `aarch64` baseline: on `aarch64` it is enabled unless
/// switched off.
pub proof fn lemma_neon_is_baseline(host: Aarch64Host)
    requires
        host.target_arch,
        !host.build_disabled.neon,
        !host.env_disabled.neon,
    ensures
        neon_enabled(host),
{
}

/// A capability is never reported as less than the build guarantees: where
/// the build enables its target feature, it is enabled unless switched off,
/// whatever the runtime backend reports.
pub proof fn lemma_compile_time_floor(host: Aarch64Host)
    ensures
        permits(host, host.build_disabled.aes, host.env_disabled.aes) && host.target_features.aes
            ==> aes_enabled(host),
        permits(host, host.build_disabled.dit, host.env_disabled.dit) && host.target_features.dit
            ==> dit_enabled(host),
        permits(host, host.build_disabled.sha2, host.env_disabled.sha2) && host.target_features.sha2
            ==> sha2_enabled(host),
        permits(host, host.build_disabled.sha3, host.env_disabled.sha3) && host.target_features.sha3
            ==> sha3_enabled(host),
        permits(host, host.build_disabled.sm4, host.env_disabled.sm4) && host.target_features.sm4
            ==> sm4_enabled(host),
{
}

/// With no runtime detection backend, each probed capability is enabled
/// exactly where it is permitted and the build enables its target feature.
pub proof fn lemma_without_runtime_detection(host: Aarch64Host)
    requires
        !host.runtime.aes && !host.runtime.dit && !host.runtime.sha2 && !host.runtime.sha3
            && !host.runtime.sm4,
    ensures
        aes_enabled(host) == (permits(host, host.build_disabled.aes, host.env_disabled.aes)
            && host.target_features.aes),
        dit_enabled(host) == (permits(host, host.build_disabled.dit, host.env_disabled.dit)
            && host.target_features.dit),
        sha2_enabled(host) == (permits(host, host.build_disabled.sha2, host.env_disabled.sha2)
            && host.target_features.sha2),
        sha3_enabled(host) == (permits(host, host.build_disabled.sha3, host.env_disabled.sha3)
            && host.target_features.sha3),
        sm4_enabled(host) == (permits(host, host.build_disabled.sm4, host.env_disabled.sm4)
            && host.target_features.sm4),
{
}

/// What each AArch64 capability reads, in the host's own words: on
/// `aarch64`, switched off neither by the build nor by the environment, and
/// reported either by the build's target feature or by the runtime probe;
/// NEON needs no probe.
pub proof fn lemma_capabilities_from_host(h: Aarch64Host)
    ensures
        aes_enabled(h) == (h.target_arch && !h.build_disabled.aes && !h.env_disabled.aes
            && (h.target_features.aes || h.runtime.aes)),
        dit_enabled(h) == (h.target_arch && !h.build_disabled.dit && !h.env_disabled.dit
            && (h.target_features.dit || h.runtime.dit)),
        sha2_enabled(h) == (h.target_arch && !h.build_disabled.sha2 && !h.env_disabled.sha2
            && (h.target_features.sha2 || h.runtime.sha2)),
        sha3_enabled(h) == (h.target_arch && !h.build_disabled.sha3 && !h.env_disabled.sha3
            && (h.target_features.sha3 || h.runtime.sha3)),
        sm4_enabled(h) == (h.target_arch && !h.build_disabled.sm4 && !h.env_disabled.sm4
            && (h.target_features.sm4 || h.runtime.sm4)),
        neon_enabled(h) == (h.target_arch && !h.build_disabled.neon && !h.env_disabled.neon),
{
}

} // verus!
