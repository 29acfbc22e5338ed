//! What the system reports of the machine.

use vstd::prelude::*;

verus! {

/// `sysinfo::System`: what the system reports, as of the last refresh. Nothing is known of a value
/// of it.
#[verifier::external_type_specification]
#[verifier::external_body]
pub struct ExSystem(sysinfo::System);

/// `sysinfo::CpuRefreshKind`: which facts of the processors a refresh is to fetch.
#[verifier::external_type_specification]
#[verifier::external_body]
pub struct ExCpuRefreshKind(sysinfo::CpuRefreshKind);

/// `System::new`: a value in which nothing is loaded yet.
pub assume_specification[ sysinfo::System::new ]() -> sysinfo::System;

/// `System::refresh_memory`: asks the system for the state of its memory.
pub assume_specification[ sysinfo::System::refresh_memory ](sys: &mut sysinfo::System);

/// `System::total_memory`: the size of the memory in bytes, as of the last refresh. It depends on
/// the machine, so nothing is claimed of it.
pub assume_specification[ sysinfo::System::total_memory ](sys: &sysinfo::System) -> u64;

/// `System::available_memory`: how many bytes of memory can be had, as of the last refresh. It
/// depends on the machine, so nothing is claimed of it.
pub assume_specification[ sysinfo::System::available_memory ](sys: &sysinfo::System) -> u64;

/// `System::refresh_cpu_list`: asks the system for its processors.
pub assume_specification[ sysinfo::System::refresh_cpu_list ](
    sys: &mut sysinfo::System,
    refresh_kind: sysinfo::CpuRefreshKind,
);

/// `CpuRefreshKind::everything`: all facts of the processors.
pub assume_specification[ sysinfo::CpuRefreshKind::everything ]() -> sysinfo::CpuRefreshKind;

/// `System::physical_core_count`: how many cores there are, where the system tells. It depends on
/// the machine, so nothing is claimed of it.
pub assume_specification[ sysinfo::System::physical_core_count ](sys: &sysinfo::System) -> Option<usize>;

/// The low 32 bits of a number of cores; zero where it is not known.
pub open spec fn low_bits(count: Option<usize>) -> nat {
    match count {
        Some(n) => n as nat % 0x1_0000_0000,
        None => 0,
    }
}

/// The low 32 bits of a number of cores; zero where it is not known.
pub fn core_count(count: Option<usize>) -> (r: u32)
    ensures
        r as nat == low_bits(count),
{
    match count {
        Some(n) => {
            let wide = n as u64;
            assert(wide as u32 == wide % 0x1_0000_0000u64) by (bit_vector);
            wide as u32
        },
        None => 0,
    }
}

/// `r` follows from what a system answers: `count` is its number of physical cores.
pub open spec fn cores_of(sys: sysinfo::System, count: Option<usize>, r: u32) -> bool {
    &&& call_ensures(sysinfo::System::physical_core_count, (&sys,), count)
    &&& r as nat == low_bits(count)
}

/// How many physical cores the system reports; zero where it reports none. The number depends on the
/// machine; it is the answer of the system, cut to 32 bits.
pub fn detect_physical_from_sysinfo(sys: &sysinfo::System) -> (r: u32)
    ensures
        exists|count: Option<usize>| cores_of(*sys, count, r),
{
    let count = sys.physical_core_count();
    let r = core_count(count);
    assert(cores_of(*sys, count, r));
    r
}

/// How many physical cores this machine has, after its processors were asked for; zero where that is
/// not known.
pub fn physical_cores() -> (r: u32)
    ensures
        exists|sys: &mut sysinfo::System, kind: sysinfo::CpuRefreshKind, count: Option<usize>|
            #![trigger call_ensures(sysinfo::System::refresh_cpu_list, (sys, kind), ()), cores_of(*final(sys), count, r)]
            {
                &&& call_ensures(sysinfo::CpuRefreshKind::everything, (), kind)
                &&& call_ensures(sysinfo::System::refresh_cpu_list, (sys, kind), ())
                &&& cores_of(*final(sys), count, r)
            },
{
    let mut sys = sysinfo::System::new();
    sys.refresh_cpu_list(sysinfo::CpuRefreshKind::everything());
    detect_physical_from_sysinfo(&sys)
}

} // verus!
