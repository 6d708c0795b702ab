# tc_runtime

CPU capability detection for x86 and AArch64, with proof tokens that a
backend can require in its signature, verified with Verus.

- `src/` is the verified library. `intrinsics::x86::cpuid` decodes CPUID
  leaves and XCR0; `intrinsics::x86` and `intrinsics::aarch64` decide each
  capability from an explicit host description (architecture, disable
  switches, override variables, probe results) and hand out tokens;
  `intrinsics::detect` holds the per-capability cache.
- `app/` builds the host description of the running process (CPUID,
  `cpufeatures`, `cfg!`, environment variables), keeps the caches in
  statics and offers `Aes::detect()` / `Aes::is_enabled()` through the
  `Capability` trait.
- `tests/` exercises the library on described hosts of every kind.
