//! One sampling's worth of device metrics, and the flattened process table
//! that selection and process control index into.

use vstd::prelude::*;

verus! {

/// A workload that a device reports.
#[derive(Clone, Copy, Debug)]
pub struct GpuProcessInfo {
    pub pid: u32,
    pub used_gpu_memory: u64,
    pub utilization: u32,
}

/// The metrics of one device at one sampling instant, with its processes.
///
/// `memory_used <= memory_total` is expected of a provider but not demanded:
/// nothing in this crate relies on it.
#[derive(Clone, Debug)]
pub struct GpuInfo {
    pub index: usize,
    pub name: String,
    pub temperature: u32,
    pub utilization: u32,
    pub memory_used: u64,
    pub memory_total: u64,
    pub power_usage: u32,
    pub power_limit: u32,
    pub clock_freq: u32,
    pub processes: Vec<GpuProcessInfo>,
}

/// The rows that one device contributes to the process table: for each of
/// its processes, in order, the device's index and the process id.
pub open spec fn device_rows(gpu: GpuInfo) -> Seq<(usize, u32)> {
    Seq::new(gpu.processes@.len(), |i: int| (gpu.index, gpu.processes@[i].pid))
}

/// The process table: the rows of all devices, device after device.
pub open spec fn process_rows(devices: Seq<GpuInfo>) -> Seq<(usize, u32)>
    decreases devices.len(),
{
    if devices.len() == 0 {
        Seq::empty()
    } else {
        process_rows(devices.drop_last()) + device_rows(devices.last())
    }
}

/// Number of rows in the process table, capped at what `usize` holds.
pub open spec fn process_count(devices: Seq<GpuInfo>) -> usize {
    if process_rows(devices).len() <= usize::MAX {
        process_rows(devices).len() as usize
    } else {
        usize::MAX
    }
}

/// The row at position `selected` of the process table, if the table is
/// that long.
pub open spec fn selected_row(devices: Seq<GpuInfo>, selected: usize) -> Option<(usize, u32)> {
    if selected < process_rows(devices).len() {
        Some(process_rows(devices)[selected as int])
    } else {
        None
    }
}

/// Taking one more device appends that device's rows.
pub proof fn lemma_rows_extend(devices: Seq<GpuInfo>, k: int)
    requires
        0 <= k < devices.len(),
    ensures
        process_rows(devices.take(k + 1)) == process_rows(devices.take(k)) + device_rows(
            devices[k],
        ),
{
    assert(devices.take(k + 1).drop_last() =~= devices.take(k));
}

/// The table of the first `k` devices is the beginning of the whole table.
pub proof fn lemma_rows_prefix(devices: Seq<GpuInfo>, k: int)
    requires
        0 <= k <= devices.len(),
    ensures
        process_rows(devices.take(k)).is_prefix_of(process_rows(devices)),
    decreases devices.len() - k,
{
    if k == devices.len() {
        assert(devices.take(k) =~= devices);
    } else {
        lemma_rows_extend(devices, k);
        lemma_rows_prefix(devices, k + 1);
    }
}

/// Counts the processes of all devices (`usize::MAX` if there are more).
pub fn total_processes(devices: &Vec<GpuInfo>) -> (total: usize)
    ensures
        total == process_count(devices@),
{
    let mut total: usize = 0;
    let mut i: usize = 0;
    while i < devices.len()
        invariant
            i <= devices.len(),
            total == process_count(devices@.take(i as int)),
        decreases devices.len() - i,
    {
        proof {
            lemma_rows_extend(devices@, i as int);
        }
        total = total.saturating_add(devices[i].processes.len());
        i += 1;
    }
    assert(devices@.take(i as int) =~= devices@);
    total
}

/// The row at position `selected` of the process table: the device index
/// and the process id found there, or nothing if the table is shorter.
pub fn resolve(selected: usize, devices: &Vec<GpuInfo>) -> (row: Option<(usize, u32)>)
    ensures
        row == selected_row(devices@, selected),
{
    let mut remaining: usize = selected;
    let mut i: usize = 0;
    while i < devices.len()
        invariant
            i <= devices.len(),
            remaining + process_rows(devices@.take(i as int)).len() == selected,
        decreases devices.len() - i,
    {
        proof {
            lemma_rows_extend(devices@, i as int);
            lemma_rows_prefix(devices@, i as int + 1);
        }
        let gpu = &devices[i];
        if remaining < gpu.processes.len() {
            proof {
                let before = process_rows(devices@.take(i as int));
                let upto = process_rows(devices@.take(i as int + 1));
                assert(upto[selected as int] == device_rows(*gpu)[remaining as int]);
                assert(process_rows(devices@)[selected as int] == upto[selected as int]);
            }
            return Some((gpu.index, gpu.processes[remaining].pid));
        }
        remaining -= gpu.processes.len();
        i += 1;
    }
    assert(devices@.take(i as int) =~= devices@);
    None
}

} // verus!
