//! Plain per-subsystem records as the collector publishes them, the snapshot
//! that bundles one cycle's results, and the memory-percentage arithmetic.

use vstd::prelude::*;

verus! {

/// One CPU core's reading. Usage is a whole percentage in `0..=100` as the
/// provider reports it, rounded down.
#[derive(Clone, Debug)]
pub struct CpuData {
    pub cpu_name: String,
    pub vendor_id: String,
    pub brand: String,
    pub cpu_usage: u64,
}

/// One process's reading. CPU usage is a whole percentage, rounded down.
#[derive(Clone, Debug)]
pub struct ProcessData {
    pub pid: u32,
    pub parent: Option<u32>,
    pub name: String,
    pub status: String,
    pub cpu_usage: u64,
}

/// One disk's reading; sizes are in bytes.
#[derive(Clone, Debug)]
pub struct DiskData {
    pub name: String,
    pub kind: String,
    pub file_system: String,
    pub total_space: u64,
    pub available_space: u64,
    pub is_removable: bool,
    pub mount_path: String,
}

/// Free and total RAM and swap, in bytes.
#[derive(Clone, Debug)]
pub struct MemoryData {
    pub free_ram: u64,
    pub total_ram: u64,
    pub free_swap: u64,
    pub total_swap: u64,
}

/// One network interface's reading. `received` and `transmitted` are the byte
/// deltas since the previous refresh; the `total_*` fields are cumulative.
#[derive(Clone, Debug)]
pub struct NetworkData {
    pub interface_name: String,
    pub mac_address: String,
    pub received: u64,
    pub total_received: u64,
    pub total_packets_received: u64,
    pub transmitted: u64,
    pub total_transmitted: u64,
    pub total_packets_transmitted: u64,
}

/// One collection cycle's snapshot. Each subsystem's field is independently
/// absent when that subsystem's collection failed this cycle.
#[derive(Clone, Debug)]
pub struct DataCollected {
    pub cpu: Option<Vec<CpuData>>,
    pub processes: Option<Vec<ProcessData>>,
    pub disk: Option<Vec<DiskData>>,
    pub networks: Option<Vec<NetworkData>>,
}

impl DataCollected {
    pub open spec fn is_empty_spec(&self) -> bool {
        &&& self.cpu is None
        &&& self.processes is None
        &&& self.disk is None
        &&& self.networks is None
    }

    /// The all-absent snapshot the accumulator is reset to between cycles.
    pub fn empty() -> (d: DataCollected)
        ensures
            d.is_empty_spec(),
    {
        DataCollected { cpu: None, processes: None, disk: None, networks: None }
    }

    /// Bundle one cycle's four independent collection attempts. Each field
    /// comes from its own attempt alone, so one subsystem's failure never
    /// disturbs another's result.
    pub fn assemble(
        cpu: Option<Vec<CpuData>>,
        processes: Option<Vec<ProcessData>>,
        disk: Option<Vec<DiskData>>,
        networks: Option<Vec<NetworkData>>,
    ) -> (d: DataCollected)
        ensures
            d.cpu == cpu,
            d.processes == processes,
            d.disk == disk,
            d.networks == networks,
    {
        DataCollected { cpu, processes, disk, networks }
    }
}

impl Default for DataCollected {
    fn default() -> (d: DataCollected)
        ensures
            d.is_empty_spec(),
    {
        DataCollected::empty()
    }
}

/// Subsystem isolation law: however the process attempt went, every other
/// field of the assembled snapshot is exactly its own attempt's result; in
/// particular a failed process collection leaves a successful CPU, disk or
/// network collection populated.
pub proof fn lemma_subsystem_isolation(
    cpu: Option<Vec<CpuData>>,
    processes: Option<Vec<ProcessData>>,
    disk: Option<Vec<DiskData>>,
    networks: Option<Vec<NetworkData>>,
    d: DataCollected,
)
    requires
        d.cpu == cpu,
        d.processes == processes,
        d.disk == disk,
        d.networks == networks,
    ensures
        cpu is Some ==> d.cpu is Some,
        disk is Some ==> d.disk is Some,
        networks is Some ==> d.networks is Some,
        d.cpu == cpu,
        d.disk == disk,
        d.networks == networks,
{
}

/// Used share of a byte count as a whole percentage, rounded down: 0 when the
/// total is 0 (never a division by zero) or when more is free than exists.
pub open spec fn percent_spec(free: u64, total: u64) -> int {
    if total == 0 {
        0
    } else if free <= total {
        ((total - free) * 100) / (total as int)
    } else {
        0
    }
}

/// Percentage bound law: for any `0 <= free <= total` the percentage lies in
/// `[0, 100]`, and a zero total yields exactly 0.
pub proof fn lemma_percent_bound(free: u64, total: u64)
    requires
        free <= total,
    ensures
        0 <= percent_spec(free, total) <= 100,
        total == 0 ==> percent_spec(free, total) == 0,
{
    if total > 0 {
        let used = total - free;
        assert(0 <= (used * 100) / (total as int) <= 100) by (nonlinear_arith)
            requires
                0 <= used <= total,
                total > 0,
        ;
    }
}

/// Used share of `total` as a whole percentage, rounded down.
pub fn usage_percent(free: u64, total: u64) -> (r: u64)
    ensures
        r == percent_spec(free, total),
        r <= 100,
{
    proof {
        lemma_percent_bound(if free <= total { free } else { total }, total);
    }
    if total == 0 {
        0
    } else if free <= total {
        let used: u64 = total - free;
        let wide: u128 = (used as u128) * 100 / (total as u128);
        proof {
            assert((used as int) * 100 / (total as int) <= 100) by (nonlinear_arith)
                requires
                    0 <= used <= total,
                    total > 0,
            ;
        }
        wide as u64
    } else {
        0
    }
}

impl MemoryData {
    /// RAM and swap usage as whole percentages, each 0 when its total is 0.
    pub fn usage_percentages(&self) -> (r: (u64, u64))
        ensures
            r.0 == percent_spec(self.free_ram, self.total_ram),
            r.1 == percent_spec(self.free_swap, self.total_swap),
            r.0 <= 100,
            r.1 <= 100,
    {
        (usage_percent(self.free_ram, self.total_ram), usage_percent(
            self.free_swap,
            self.total_swap,
        ))
    }
}

} // verus!
