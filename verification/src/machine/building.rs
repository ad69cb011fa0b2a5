//! What a new VM is built from.

use vstd::prelude::*;

verus! {

/// The registers of one CPUID leaf.
#[derive(Debug, Clone, Copy, PartialEq, Eq, Structural)]
pub struct CpuidRegs {
    pub eax: u32,
    pub ebx: u32,
    pub ecx: u32,
}

/// The leaf with the base frequency in MHz.
pub const CPUID_FREQUENCY: u32 = 0x16;

/// The leaf with the ratio of the TSC to the core crystal.
pub const CPUID_CRYSTAL: u32 = 0x15;

/// The TSC frequency of a host whose highest leaf is `highest`, from what its
/// frequency and crystal leaves hold.
pub open spec fn tsc_frequency(highest: u32, frequency: CpuidRegs, crystal: CpuidRegs) -> Option<
    u64,
> {
    if highest >= CPUID_FREQUENCY && frequency.eax != 0 {
        Some((frequency.eax * 1_000_000) as u64)
    } else if highest >= CPUID_CRYSTAL && crystal.eax != 0 && crystal.ebx != 0 && crystal.ecx
        != 0 {
        Some((crystal.ecx * crystal.ebx / crystal.eax as int) as u64)
    } else {
        None
    }
}

/// The host TSC frequency in Hz from the leaf with the base frequency,
/// falling back to the leaf with the TSC to core crystal ratio.
///
/// `None` when the host does not expose the frequency leaves. A leaf above
/// `highest` is not looked at.
pub fn host_tsc_frequency_hz(highest: u32, frequency: CpuidRegs, crystal: CpuidRegs) -> (r: Option<
    u64,
>)
    ensures
        r == tsc_frequency(highest, frequency, crystal),
{
    if highest >= CPUID_FREQUENCY {
        // EAX = base frequency in MHz.
        if frequency.eax != 0 {
            return Some(frequency.eax as u64 * 1_000_000);
        }
    }
    if highest >= CPUID_CRYSTAL {
        // EBX/EAX = TSC/core ratio, ECX = nominal core crystal Hz. Skip if
        // any field is zero.
        if crystal.eax != 0 && crystal.ebx != 0 && crystal.ecx != 0 {
            proof {
                product_fits(crystal.ecx, crystal.ebx);
                assert(0 <= crystal.ecx * crystal.ebx / crystal.eax as int <= crystal.ecx
                    * crystal.ebx) by (nonlinear_arith)
                    requires
                        crystal.eax >= 1,
                        crystal.ecx * crystal.ebx >= 0,
                ;
            }
            return Some(crystal.ecx as u64 * crystal.ebx as u64 / crystal.eax as u64);
        }
    }
    None
}

proof fn product_fits(a: u32, b: u32)
    ensures
        0 <= a * b <= u64::MAX,
{
    assert(0 <= a * b <= 0xFFFF_FFFF * 0xFFFF_FFFF) by (nonlinear_arith)
        requires
            0 <= a <= 0xFFFF_FFFF,
            0 <= b <= 0xFFFF_FFFF,
    ;
}

/// The frequency leaf, 0x16, names the frequency in megahertz and goes before
/// the crystal leaf, 0x15, whose ratio is applied and rounded down. A leaf that
/// the processor does not have, or with an empty field, says nothing.
pub proof fn frequency_comes_from_the_best_leaf(
    highest: u32,
    frequency: CpuidRegs,
    crystal: CpuidRegs,
)
    ensures
        ({
            let r = tsc_frequency(highest, frequency, crystal);
            let named = highest >= 0x16 && frequency.eax > 0;
            let ratio = highest >= 0x15 && crystal.eax > 0 && crystal.ebx > 0 && crystal.ecx > 0;
            &&& r is Some <==> named || ratio
            &&& named ==> r->0 == frequency.eax * 1_000_000
            &&& !named && ratio ==> r->0 * crystal.eax <= crystal.ecx * crystal.ebx < (r->0 + 1)
                * crystal.eax
        }),
{
    if highest >= 0x15 && crystal.eax > 0 {
        let n = crystal.ecx * crystal.ebx;
        let d = crystal.eax as int;
        let q = n / d;
        vstd::arithmetic::div_mod::lemma_fundamental_div_mod(n, d);
        vstd::arithmetic::div_mod::lemma_mod_bound(n, d);
        assert(q * d == d * q && (q + 1) * d == d * q + d) by (nonlinear_arith);
        assert(0 <= n <= 0xFFFF_FFFF * 0xFFFF_FFFF) by (nonlinear_arith)
            requires
                n == crystal.ecx * crystal.ebx,
                0 <= crystal.ecx <= 0xFFFF_FFFF,
                0 <= crystal.ebx <= 0xFFFF_FFFF,
        ;
        assert(0 <= q <= n) by (nonlinear_arith)
            requires
                q == n / d,
                n >= 0,
                d >= 1,
        ;
    }
}

} // verus!
