//! The probes behind the AArch64 capabilities.
//!
//! Each probe answers for one LLVM target feature. A build that enables the
//! target feature may already emit its instructions everywhere, so the
//! capability is available whatever the runtime backend reports: the probe
//! is the compile-time floor or, failing that, the runtime answer.
use vstd::prelude::*;
use super::{Aarch64Host, Aarch64Probes};

verus! {

/// The probe for one target feature: the compile-time floor, or else the
/// runtime answer.
pub open spec fn with_floor(target_feature: bool, runtime: bool) -> bool {
    target_feature || runtime
}

/// `FEAT_AES` together with `FEAT_PMULL`.
pub fn aes(host: &Aarch64Host) -> (available: bool)
    ensures
        available == with_floor(host.target_features.aes, host.runtime.aes),
{
    host.target_features.aes || host.runtime.aes
}

/// `FEAT_DIT`.
pub fn dit(host: &Aarch64Host) -> (available: bool)
    ensures
        available == with_floor(host.target_features.dit, host.runtime.dit),
{
    host.target_features.dit || host.runtime.dit
}

/// `FEAT_SHA1` and `FEAT_SHA256`.
pub fn sha2(host: &Aarch64Host) -> (available: bool)
    ensures
        available == with_floor(host.target_features.sha2, host.runtime.sha2),
{
    host.target_features.sha2 || host.runtime.sha2
}

/// `FEAT_SHA3` and `FEAT_SHA512`.
pub fn sha3(host: &Aarch64Host) -> (available: bool)
    ensures
        available == with_floor(host.target_features.sha3, host.runtime.sha3),
{
    host.target_features.sha3 || host.runtime.sha3
}

/// `FEAT_SM3` and `FEAT_SM4`.
pub fn sm4(host: &Aarch64Host) -> (available: bool)
    ensures
        available == with_floor(host.target_features.sm4, host.runtime.sm4),
{
    host.target_features.sm4 || host.runtime.sm4
}

/// No runtime detection: the answers of a backend that leaves every
/// capability to the compile-time floor.
pub fn no_runtime_detection() -> (probes: Aarch64Probes)
    ensures
        !probes.aes && !probes.dit && !probes.sha2 && !probes.sha3 && !probes.sm4,
{
    Aarch64Probes { aes: false, dit: false, sha2: false, sha3: false, sm4: false }
}

} // verus!
