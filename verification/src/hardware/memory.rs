//! Memory.

use vstd::prelude::*;

verus! {

/// The memory of a machine: all of it, and what of it can be had.
#[derive(Clone, Debug)]
pub struct MemoryInfo {
    pub total_bytes: u64,
    pub available_bytes: u64,
}

/// The memory of a machine that reports these numbers of bytes.
pub fn reported(total: u64, available: u64) -> (r: MemoryInfo)
    ensures
        r == (MemoryInfo { total_bytes: total, available_bytes: available }),
{
    MemoryInfo { total_bytes: total, available_bytes: available }
}

/// `r` holds what a system answers: the whole memory and what of it can be had, each in its place.
pub open spec fn reported_by(sys: sysinfo::System, r: MemoryInfo) -> bool {
    &&& call_ensures(sysinfo::System::total_memory, (&sys,), r.total_bytes)
    &&& call_ensures(sysinfo::System::available_memory, (&sys,), r.available_bytes)
}

/// The memory of this machine, as the system reports it. The numbers depend on the machine; each is
/// the answer to its own question, after the state of the memory was asked for.
pub fn detect() -> (r: MemoryInfo)
    ensures
        exists|sys: &mut sysinfo::System| #[trigger]
            call_ensures(sysinfo::System::refresh_memory, (sys,), ()) && reported_by(*final(sys), r),
{
    let mut sys = sysinfo::System::new();
    sys.refresh_memory();
    let r = reported(sys.total_memory(), sys.available_memory());
    assert(reported_by(sys, r));
    r
}

/// Memory is scarce below four billion bytes.
pub open spec fn low_memory(info: MemoryInfo) -> bool {
    info.total_bytes < 4_000_000_000
}

/// Memory is plentiful from sixteen billion bytes on.
pub open spec fn high_memory(info: MemoryInfo) -> bool {
    info.total_bytes >= 16_000_000_000
}

/// Whether memory is scarce.
pub fn is_low_memory(info: &MemoryInfo) -> (r: bool)
    ensures
        r == low_memory(*info),
{
    info.total_bytes < 4_000_000_000
}

/// Whether memory is plentiful.
pub fn is_high_memory(info: &MemoryInfo) -> (r: bool)
    ensures
        r == high_memory(*info),
{
    info.total_bytes >= 16_000_000_000
}

/// No machine has both too little memory and plenty of it.
pub proof fn lemma_memory_is_not_both(info: MemoryInfo)
    ensures
        !(low_memory(info) && high_memory(info)),
{
}

/// Memory is scarce with less than four whole billions of bytes, and plentiful with sixteen or more.
pub proof fn lemma_memory_bounds(info: MemoryInfo)
    ensures
        low_memory(info) <==> info.total_bytes as int / 1_000_000_000 < 4,
        high_memory(info) <==> info.total_bytes as int / 1_000_000_000 >= 16,
{
}

} // verus!
