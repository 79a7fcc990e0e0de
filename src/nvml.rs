//! Per-process V-RAM from the NVIDIA management library.

use vstd::prelude::*;
use nvml_wrapper::error::NvmlError;
use nvml_wrapper::{Device, Nvml};
use crate::vram::{max_reading, merge_reading};

verus! {

#[verifier::external_type_specification]
#[verifier::external_body]
pub struct ExNvml(Nvml);

#[verifier::external_type_specification]
#[verifier::external_body]
pub struct ExDevice<'a>(Device<'a>);

#[verifier::external_type_specification]
#[verifier::external_body]
pub struct ExNvmlError(NvmlError);

/// Relies on `Nvml::init`: loads the library and opens a session, or fails.
pub assume_specification[ Nvml::init ]() -> Result<Nvml, NvmlError>;

/// Relies on `Nvml::device_count`: the number of GPUs, or a failure.
pub assume_specification[ Nvml::device_count ](nvml: &Nvml) -> Result<u32, NvmlError>;

/// Relies on `Nvml::device_by_index`: a handle on one GPU, or a failure.
pub assume_specification<'a>[ Nvml::device_by_index ](nvml: &'a Nvml, index: u32) -> Result<
    Device<'a>,
    NvmlError,
>;

/// Relies on `Device::running_graphics_processes`: the processes that use the
/// GPU for graphics, each as its pid and the bytes it uses where reported.
#[verifier::external_body]
fn graphics_processes(device: &Device) -> Result<Vec<(u32, Option<u64>)>, NvmlError> {
    device.running_graphics_processes().map(
        |list|
            list.into_iter().map(
                |p|
                    (
                        p.pid,
                        match p.used_gpu_memory {
                            nvml_wrapper::enums::device::UsedGpuMemory::Used(b) => Some(b),
                            nvml_wrapper::enums::device::UsedGpuMemory::Unavailable => None,
                        },
                    ),
            ).collect(),
    )
}

/// Relies on `Device::running_compute_processes`: the processes that use the
/// GPU for compute, each as its pid and the bytes it uses where reported.
#[verifier::external_body]
fn compute_processes(device: &Device) -> Result<Vec<(u32, Option<u64>)>, NvmlError> {
    device.running_compute_processes().map(
        |list|
            list.into_iter().map(
                |p|
                    (
                        p.pid,
                        match p.used_gpu_memory {
                            nvml_wrapper::enums::device::UsedGpuMemory::Used(b) => Some(b),
                            nvml_wrapper::enums::device::UsedGpuMemory::Unavailable => None,
                        },
                    ),
            ).collect(),
    )
}

/// The bytes of the first entry of `list` from position `i` on that is process
/// `pid` and reports its memory.
pub open spec fn bytes_for_pid_from(list: Seq<(u32, Option<u64>)>, pid: u32, i: int) -> Option<u64>
    decreases list.len() - i,
{
    if i < 0 || i >= list.len() {
        None
    } else if list[i].0 == pid && list[i].1 is Some {
        list[i].1
    } else {
        bytes_for_pid_from(list, pid, i + 1)
    }
}

/// The memory of process `pid` in a process list: the first entry of that pid
/// that reports its memory.
pub fn find_bytes_for_pid(list: &Vec<(u32, Option<u64>)>, pid: u32) -> (r: Option<u64>)
    ensures
        r == bytes_for_pid_from(list@, pid, 0),
{
    let mut i: usize = 0;
    while i < list.len()
        invariant
            i <= list@.len(),
            bytes_for_pid_from(list@, pid, 0) == bytes_for_pid_from(list@, pid, i as int),
        decreases list@.len() - i,
    {
        let (p, used) = list[i];
        if p == pid && used.is_some() {
            return used;
        }
        i += 1;
    }
    None
}

/// The reading of one GPU for process `pid`: the hit in its graphics list, or
/// else the hit in its compute list; a list that could not be had gives none.
pub open spec fn device_reading_spec(
    graphics: Option<Seq<(u32, Option<u64>)>>,
    compute: Option<Seq<(u32, Option<u64>)>>,
    pid: u32,
) -> Option<u64> {
    let g = match graphics {
        Some(l) => bytes_for_pid_from(l, pid, 0),
        None => None,
    };
    if g is Some {
        g
    } else {
        match compute {
            Some(l) => bytes_for_pid_from(l, pid, 0),
            None => None,
        }
    }
}

pub open spec fn list_view(l: Option<Vec<(u32, Option<u64>)>>) -> Option<Seq<(u32, Option<u64>)>> {
    match l {
        Some(v) => Some(v@),
        None => None,
    }
}

/// The reading of one GPU from its graphics and compute process lists.
pub fn device_reading_from(
    graphics: Option<Vec<(u32, Option<u64>)>>,
    compute: Option<Vec<(u32, Option<u64>)>>,
    pid: u32,
) -> (r: Option<u64>)
    ensures
        r == device_reading_spec(list_view(graphics), list_view(compute), pid),
{
    let g = match &graphics {
        Some(l) => find_bytes_for_pid(l, pid),
        None => None,
    };
    if g.is_some() {
        return g;
    }
    match &compute {
        Some(l) => find_bytes_for_pid(l, pid),
        None => None,
    }
}

/// The largest reading over the devices, a device without one not counting.
pub open spec fn fold_device_readings(d: Seq<Option<Option<u64>>>) -> Option<u64>
    decreases d.len(),
{
    if d.len() == 0 {
        None
    } else {
        max_reading(
            fold_device_readings(d.drop_last()),
            match d.last() {
                Some(x) => x,
                None => None,
            },
        )
    }
}

/// The reading over all devices: `None` where some device's handle failed (a
/// `None` entry), else the largest reading of any device.
pub open spec fn best_devices_spec(d: Seq<Option<Option<u64>>>) -> Option<u64> {
    if exists|i: int| 0 <= i < d.len() && (#[trigger] d[i]) is None {
        None
    } else {
        fold_device_readings(d)
    }
}

/// Combines the readings of all devices, each `None` where its handle failed.
pub fn best_device_reading(devices: &Vec<Option<Option<u64>>>) -> (r: Option<u64>)
    ensures
        r == best_devices_spec(devices@),
        (exists|i: int| 0 <= i < devices@.len() && (#[trigger] devices@[i]) is None) ==> r is None,
{
    let mut best: Option<u64> = None;
    let mut i: usize = 0;
    while i < devices.len()
        invariant
            i <= devices@.len(),
            best == fold_device_readings(devices@.take(i as int)),
            forall|j: int| 0 <= j < i ==> (#[trigger] devices@[j]) is Some,
        decreases devices@.len() - i,
    {
        assert(devices@.take(i + 1).drop_last() =~= devices@.take(i as int));
        match devices[i] {
            None => {
                return None;
            },
            Some(x) => {
                best = merge_reading(best, x);
            },
        }
        i += 1;
    }
    assert(devices@.take(devices@.len() as int) =~= devices@);
    best
}

/// V-RAM in use by process `pid`, the largest over all NVIDIA GPUs; `None`
/// where the library cannot be loaded, the GPUs cannot be counted, a GPU
/// cannot be reached, or no GPU reports the process. Each GPU's compute list
/// is fetched only where its graphics list gives no reading, and no GPU after
/// one that cannot be reached is asked.
pub fn query_vram_bytes_nvml_for_pid(pid: u32) -> (r: Option<u64>)
    ensures
        exists|devices: Seq<Option<Option<u64>>>| r == best_devices_spec(devices),
{
    let nvml = match Nvml::init() {
        Ok(n) => n,
        Err(_) => {
            assert(None::<u64> == best_devices_spec(seq![None]));
            return None;
        },
    };
    let count = match nvml.device_count() {
        Ok(c) => c,
        Err(_) => {
            assert(None::<u64> == best_devices_spec(seq![None]));
            return None;
        },
    };
    let mut devices: Vec<Option<Option<u64>>> = Vec::new();
    let mut i: u32 = 0;
    while i < count
        invariant_except_break
            devices@.len() == i,
        invariant
            i <= count,
            devices@.len() <= count,
        decreases count - i,
    {
        match nvml.device_by_index(i) {
            Ok(device) => {
                let graphics = match graphics_processes(&device) {
                    Ok(list) => Some(list),
                    Err(_) => None,
                };
                let found = if match &graphics {
                    Some(l) => find_bytes_for_pid(l, pid).is_some(),
                    None => false,
                } {
                    device_reading_from(graphics, None, pid)
                } else {
                    let compute = match compute_processes(&device) {
                        Ok(list) => Some(list),
                        Err(_) => None,
                    };
                    device_reading_from(graphics, compute, pid)
                };
                devices.push(Some(found));
            },
            Err(_) => {
                devices.push(None);
                break ;
            },
        }
        i += 1;
    }
    best_device_reading(&devices)
}

} // verus!
