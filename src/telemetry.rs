//! The telemetry sampler and the snapshot that the debug overlay shows.
//!
//! Percentages are held in hundredths of a percent, frame rates in hundredths
//! of a frame per second, durations in nanoseconds.

use vstd::prelude::*;
use crate::text::{chars_of, string_from_chars, trim, trim_chars, TrimSet};
use crate::vram::{fmt_bytes, fmt_bytes_spec, VideoRamInfo};

verus! {

broadcast use vstd::string::group_string_axioms;

/// One hundred percent.
pub const PERCENT_FULL: u32 = 10_000;

/// The default sampling interval: half a second.
pub const DEFAULT_SAMPLE_NANOS: u64 = 500_000_000;

/// A repeating timer that fires each time a full period has elapsed.
#[derive(Debug, Clone, Copy, PartialEq, Eq, Structural)]
pub struct SampleTimer {
    pub period_nanos: u64,
    pub elapsed_nanos: u64,
}

impl SampleTimer {
    pub open spec fn wf(self) -> bool {
        self.period_nanos > 0 && self.elapsed_nanos < self.period_nanos
    }

    pub fn new(period_nanos: u64) -> (r: SampleTimer)
        requires
            period_nanos > 0,
        ensures
            r.wf(),
            r.period_nanos == period_nanos,
            r.elapsed_nanos == 0,
    {
        SampleTimer { period_nanos, elapsed_nanos: 0 }
    }

    /// Advances the timer by `delta_nanos`; reports whether a period ended
    /// during it. What runs past the period's end counts toward the next.
    pub fn tick(&mut self, delta_nanos: u64) -> (fired: bool)
        requires
            old(self).wf(),
        ensures
            final(self).wf(),
            final(self).period_nanos == old(self).period_nanos,
            fired == (old(self).elapsed_nanos + delta_nanos >= old(self).period_nanos),
            final(self).elapsed_nanos == (old(self).elapsed_nanos + delta_nanos)
                % (old(self).period_nanos as int),
    {
        let total: u128 = self.elapsed_nanos as u128 + delta_nanos as u128;
        let period: u128 = self.period_nanos as u128;
        self.elapsed_nanos = (total % period) as u64;
        total >= period
    }
}

/// The app's CPU use as a share of the whole machine: the raw figure (which
/// counts each logical core as one hundred percent) divided by the number of
/// logical cores (at least one), clamped to `[0, 100]` percent.
pub open spec fn normalized_cpu(raw: i64, logical_cpus: usize) -> u32 {
    let n: int = if logical_cpus == 0 {
        1
    } else {
        logical_cpus as int
    };
    if raw <= 0 {
        0
    } else if raw as int / n > PERCENT_FULL as int {
        PERCENT_FULL
    } else {
        (raw as int / n) as u32
    }
}

pub fn normalize_app_cpu(raw: i64, logical_cpus: usize) -> (r: u32)
    ensures
        r == normalized_cpu(raw, logical_cpus),
        r <= PERCENT_FULL,
{
    let n: u64 = if logical_cpus == 0 {
        1
    } else {
        logical_cpus as u64
    };
    if raw <= 0 {
        0
    } else {
        let q = (raw as u64) / n;
        if q > PERCENT_FULL as u64 {
            PERCENT_FULL
        } else {
            q as u32
        }
    }
}

/// Whatever the raw figure and the core count, the normalized share lies in `[0, 100]` percent.
pub proof fn lemma_normalized_cpu_in_range(raw: i64, logical_cpus: usize)
    ensures
        0 <= normalized_cpu(raw, logical_cpus) <= PERCENT_FULL,
{
}

/// What the metrics backend reports of this process.
#[derive(Debug, Clone, Copy, PartialEq, Eq, Structural)]
pub struct ProcessSample {
    /// Resident memory in bytes.
    pub memory_bytes: u64,
    /// CPU use, one hundred percent per fully used logical core.
    pub cpu_raw: i64,
}

/// Periodically sampled process and system metrics.
#[derive(Debug, Clone, Copy, PartialEq, Eq, Structural)]
pub struct SysStats {
    /// CPU use of the whole machine.
    pub cpu_all_percent: u32,
    /// CPU use of this process, as a share of the machine.
    pub app_cpu_percent: u32,
    /// Resident memory of this process in bytes.
    pub app_mem_bytes: u64,
    /// Gates how often the backend is queried.
    pub timer: SampleTimer,
}

impl SysStats {
    pub open spec fn new_spec() -> SysStats {
        SysStats {
            cpu_all_percent: 0,
            app_cpu_percent: 0,
            app_mem_bytes: 0,
            timer: SampleTimer { period_nanos: DEFAULT_SAMPLE_NANOS, elapsed_nanos: 0 },
        }
    }

    pub open spec fn wf(self) -> bool {
        self.app_cpu_percent <= PERCENT_FULL && self.timer.wf()
    }

    /// Zero readings and a half-second sampling interval.
    pub fn new() -> (r: SysStats)
        ensures
            r.wf(),
            r.cpu_all_percent == 0,
            r.app_cpu_percent == 0,
            r.app_mem_bytes == 0,
            r.timer.period_nanos == DEFAULT_SAMPLE_NANOS,
            r.timer.elapsed_nanos == 0,
    {
        SysStats {
            cpu_all_percent: 0,
            app_cpu_percent: 0,
            app_mem_bytes: 0,
            timer: SampleTimer::new(DEFAULT_SAMPLE_NANOS),
        }
    }

    /// Stores the first reading of this process; a process that the backend
    /// cannot find reads as zero bytes and zero percent.
    pub fn record_initial(&mut self, process: Option<ProcessSample>, logical_cpus: usize)
        requires
            old(self).wf(),
        ensures
            final(self).wf(),
            final(self).cpu_all_percent == old(self).cpu_all_percent,
            final(self).timer == old(self).timer,
            final(self).app_mem_bytes == match process {
                Some(p) => p.memory_bytes,
                None => 0,
            },
            final(self).app_cpu_percent == match process {
                Some(p) => normalized_cpu(p.cpu_raw, logical_cpus),
                None => 0,
            },
    {
        match process {
            Some(p) => {
                self.app_mem_bytes = p.memory_bytes;
                self.app_cpu_percent = normalize_app_cpu(p.cpu_raw, logical_cpus);
            },
            None => {
                self.app_mem_bytes = 0;
                self.app_cpu_percent = 0;
            },
        }
    }

    /// Advances the sampling timer by one frame; reports whether the backend
    /// is due to be queried. While the overlay is hidden nothing advances and
    /// nothing is due.
    pub fn poll_due(&mut self, overlay_visible: bool, delta_nanos: u64) -> (due: bool)
        requires
            old(self).wf(),
        ensures
            final(self).wf(),
            !overlay_visible ==> !due && *final(self) == *old(self),
            overlay_visible ==> due == (old(self).timer.elapsed_nanos + delta_nanos
                >= old(self).timer.period_nanos) && final(self).timer.elapsed_nanos == (
            old(self).timer.elapsed_nanos + delta_nanos) % (old(self).timer.period_nanos as int)
                && final(self).timer.period_nanos == old(self).timer.period_nanos
                && final(self).cpu_all_percent == old(self).cpu_all_percent
                && final(self).app_cpu_percent == old(self).app_cpu_percent
                && final(self).app_mem_bytes == old(self).app_mem_bytes,
    {
        if !overlay_visible {
            return false;
        }
        self.timer.tick(delta_nanos)
    }

    /// Stores a fresh sample: the machine's CPU use as given, this process's
    /// memory, and its CPU use normalized; a process that the backend cannot
    /// find reads as zero bytes and zero percent.
    pub fn record_sample(&mut self, cpu_all_percent: u32, process: Option<ProcessSample>, logical_cpus: usize)
        requires
            old(self).wf(),
        ensures
            final(self).wf(),
            final(self).timer == old(self).timer,
            final(self).cpu_all_percent == cpu_all_percent,
            final(self).app_mem_bytes == match process {
                Some(p) => p.memory_bytes,
                None => 0,
            },
            final(self).app_cpu_percent == match process {
                Some(p) => normalized_cpu(p.cpu_raw, logical_cpus),
                None => 0,
            },
    {
        self.record_initial(process, logical_cpus);
        self.cpu_all_percent = cpu_all_percent;
    }
}


/// Static build identity.
#[derive(Debug, Clone, Copy)]
pub struct BuildInfo {
    pub app_name: &'static str,
    pub app_version: &'static str,
    pub bevy_version: &'static str,
}

/// One logical core as the metrics backend describes it.
pub struct CpuIdentity {
    /// Brand or model string.
    pub brand: String,
    /// Plain name, such as `cpu0`.
    pub name: String,
}

/// What the overlay shows.
pub struct DebugSnapshot {
    /// Smoothed frame rate.
    pub fps: u32,
    /// CPU use of the whole machine.
    pub cpu_all_percent: u32,
    /// CPU use of this process, as a share of the machine.
    pub app_cpu_percent: u32,
    /// Resident memory of this process in bytes.
    pub app_mem_bytes: u64,
    /// V-RAM in use, ready for display.
    pub v_ram_label: String,
    pub app_name: &'static str,
    pub app_ver: &'static str,
    pub bevy_ver: &'static str,
    /// Name of the graphics adapter.
    pub backend_name: String,
    /// CPU brand; resolved once, then kept.
    pub cpu_brand: String,
    /// Short name of the graphics API.
    pub backend_str: &'static str,
    /// Key label that toggles the overlay.
    pub key_debug_info: String,
    /// Key label that toggles the gizmos.
    pub key_gizmos: String,
}

impl DebugSnapshot {
    /// Zero figures and empty labels.
    pub open spec fn is_blank(self) -> bool {
        &&& self.fps == 0 && self.cpu_all_percent == 0 && self.app_cpu_percent == 0
        &&& self.app_mem_bytes == 0
        &&& self.v_ram_label@.len() == 0
        &&& self.app_name@.len() == 0 && self.app_ver@.len() == 0 && self.bevy_ver@.len() == 0
        &&& self.backend_name@.len() == 0 && self.cpu_brand@.len() == 0
        &&& self.backend_str@.len() == 0
        &&& self.key_debug_info@.len() == 0 && self.key_gizmos@.len() == 0
    }

    /// Zero figures and empty labels.
    pub fn new() -> (r: DebugSnapshot)
        ensures
            r.is_blank(),
    {
        proof {
            reveal_strlit("");
        }
        DebugSnapshot {
            fps: 0,
            cpu_all_percent: 0,
            app_cpu_percent: 0,
            app_mem_bytes: 0,
            v_ram_label: String::new(),
            app_name: "",
            app_ver: "",
            bevy_ver: "",
            backend_name: String::new(),
            cpu_brand: String::new(),
            backend_str: "",
            key_debug_info: String::new(),
            key_gizmos: String::new(),
        }
    }
}

/// The snapshot after the performance step: the frame rate (zero where the
/// diagnostics have none) and the latest sampler readings.
pub open spec fn perf_spec(s: DebugSnapshot, fps: Option<u32>, stats: SysStats) -> DebugSnapshot {
    DebugSnapshot {
        fps: match fps {
            Some(f) => f,
            None => 0,
        },
        cpu_all_percent: stats.cpu_all_percent,
        app_cpu_percent: stats.app_cpu_percent,
        app_mem_bytes: stats.app_mem_bytes,
        ..s
    }
}

pub fn snap_perf(snap: &mut DebugSnapshot, fps: Option<u32>, stats: &SysStats)
    ensures
        *final(snap) == perf_spec(*old(snap), fps, *stats),
{
    snap.fps = match fps {
        Some(f) => f,
        None => 0,
    };
    snap.cpu_all_percent = stats.cpu_all_percent;
    snap.app_cpu_percent = stats.app_cpu_percent;
    snap.app_mem_bytes = stats.app_mem_bytes;
}

/// The short name of a graphics API from its backend token.
pub open spec fn backend_label_spec(t: Seq<char>) -> Seq<char> {
    if t == seq!['v', 'u', 'l', 'k', 'a', 'n'] {
        "Vulkan"@
    } else if t == seq!['g', 'l'] {
        "OpenGL"@
    } else if t == seq!['m', 'e', 't', 'a', 'l'] {
        "Metal"@
    } else if t == seq!['d', 'x', '1', '2'] || t == seq!['D', 'X', '1', '2'] {
        "DirectX12"@
    } else if t == seq!['d', 'x', '1', '1'] || t == seq!['D', 'X', '1', '1'] {
        "DirectX11"@
    } else {
        "Unknown"@
    }
}

fn same_as(v: &Vec<char>, a: &Vec<char>) -> (r: bool)
    ensures
        r == (v@ == a@),
{
    if v.len() != a.len() {
        return false;
    }
    let mut i: usize = 0;
    while i < v.len()
        invariant
            v@.len() == a@.len(),
            i <= v@.len(),
            forall|j: int| 0 <= j < i ==> v@[j] == a@[j],
        decreases v@.len() - i,
    {
        if v[i] != a[i] {
            return false;
        }
        i += 1;
    }
    assert(v@ =~= a@);
    true
}

/// Maps a backend token (`vulkan`, `gl`, `metal`, `dx12`, `dx11`, ...) to the
/// name shown to the user; any other token is `Unknown`.
pub fn backend_label(token: &str) -> (r: &'static str)
    ensures
        r@ == backend_label_spec(token@),
{
    let t = chars_of(token);
    let vulkan = vec!['v', 'u', 'l', 'k', 'a', 'n'];
    let gl = vec!['g', 'l'];
    let metal = vec!['m', 'e', 't', 'a', 'l'];
    let dx12 = vec!['d', 'x', '1', '2'];
    let dx12_upper = vec!['D', 'X', '1', '2'];
    let dx11 = vec!['d', 'x', '1', '1'];
    let dx11_upper = vec!['D', 'X', '1', '1'];
    assert(vulkan@ =~= seq!['v', 'u', 'l', 'k', 'a', 'n']);
    assert(gl@ =~= seq!['g', 'l']);
    assert(metal@ =~= seq!['m', 'e', 't', 'a', 'l']);
    assert(dx12@ =~= seq!['d', 'x', '1', '2']);
    assert(dx12_upper@ =~= seq!['D', 'X', '1', '2']);
    assert(dx11@ =~= seq!['d', 'x', '1', '1']);
    assert(dx11_upper@ =~= seq!['D', 'X', '1', '1']);
    if same_as(&t, &vulkan) {
        "Vulkan"
    } else if same_as(&t, &gl) {
        "OpenGL"
    } else if same_as(&t, &metal) {
        "Metal"
    } else if same_as(&t, &dx12) || same_as(&t, &dx12_upper) {
        "DirectX12"
    } else if same_as(&t, &dx11) || same_as(&t, &dx11_upper) {
        "DirectX11"
    } else {
        "Unknown"
    }
}

/// Every token gets exactly one of the six labels, and a token outside the
/// known ones gets `Unknown`.
pub proof fn lemma_backend_label_total(t: Seq<char>)
    ensures
        backend_label_spec(t) == "Vulkan"@ || backend_label_spec(t) == "OpenGL"@
            || backend_label_spec(t) == "Metal"@ || backend_label_spec(t) == "DirectX12"@
            || backend_label_spec(t) == "DirectX11"@ || backend_label_spec(t) == "Unknown"@,
        t != seq!['v', 'u', 'l', 'k', 'a', 'n'] && t != seq!['g', 'l'] && t != seq![
            'm',
            'e',
            't',
            'a',
            'l',
        ] && t != seq!['d', 'x', '1', '2'] && t != seq!['D', 'X', '1', '2'] && t != seq![
            'd',
            'x',
            '1',
            '1',
        ] && t != seq!['D', 'X', '1', '1'] ==> backend_label_spec(t) == "Unknown"@,
{
}

/// The snapshot after the build step: the build identity (placeholders where
/// it is absent), the adapter's name and API label, and the hotkey labels.
pub open spec fn build_spec(
    s: DebugSnapshot,
    build: Option<BuildInfo>,
    backend_name: String,
    backend_token: Seq<char>,
    key_debug_info: String,
    key_gizmos: String,
) -> bool {
    let (app_name, app_ver, bevy_ver) = match build {
        Some(b) => (b.app_name@, b.app_version@, b.bevy_version@),
        None => ("<app>"@, "?"@, "0.17.3"@),
    };
    &&& s.app_name@ == app_name
    &&& s.app_ver@ == app_ver
    &&& s.bevy_ver@ == bevy_ver
    &&& s.backend_name == backend_name
    &&& s.backend_str@ == backend_label_spec(backend_token)
    &&& s.key_debug_info == key_debug_info
    &&& s.key_gizmos == key_gizmos
}

/// Whether two snapshots agree on the figures of the performance step.
pub open spec fn same_perf(a: DebugSnapshot, b: DebugSnapshot) -> bool {
    a.fps == b.fps && a.cpu_all_percent == b.cpu_all_percent && a.app_cpu_percent
        == b.app_cpu_percent && a.app_mem_bytes == b.app_mem_bytes
}

pub fn snap_build(
    snap: &mut DebugSnapshot,
    build: Option<BuildInfo>,
    backend_name: String,
    backend_token: &str,
    key_debug_info: String,
    key_gizmos: String,
)
    ensures
        build_spec(*final(snap), build, backend_name, backend_token@, key_debug_info, key_gizmos),
        same_perf(*final(snap), *old(snap)),
        final(snap).v_ram_label == old(snap).v_ram_label,
        final(snap).cpu_brand == old(snap).cpu_brand,
{
    let (app_name, app_ver, bevy_ver) = match build {
        Some(b) => (b.app_name, b.app_version, b.bevy_version),
        None => ("<app>", "?", "0.17.3"),
    };
    snap.app_name = app_name;
    snap.app_ver = app_ver;
    snap.bevy_ver = bevy_ver;
    snap.backend_name = backend_name;
    snap.backend_str = backend_label(backend_token);
    snap.key_debug_info = key_debug_info;
    snap.key_gizmos = key_gizmos;
}

/// The V-RAM label: `<amount> (<source>)`, or `n/a` without a reading.
pub open spec fn v_ram_label_spec(info: Option<VideoRamInfo>) -> Seq<char> {
    match info {
        Some(i) => fmt_bytes_spec(i.bytes) + " ("@ + i.source@ + ")"@,
        None => "n/a"@,
    }
}

pub fn snap_v_ram(snap: &mut DebugSnapshot, info: Option<VideoRamInfo>)
    ensures
        final(snap).v_ram_label@ == v_ram_label_spec(info),
        same_perf(*final(snap), *old(snap)),
        final(snap).app_name == old(snap).app_name && final(snap).app_ver == old(snap).app_ver
            && final(snap).bevy_ver == old(snap).bevy_ver,
        final(snap).backend_name == old(snap).backend_name && final(snap).backend_str == old(
            snap,
        ).backend_str,
        final(snap).key_debug_info == old(snap).key_debug_info && final(snap).key_gizmos == old(
            snap,
        ).key_gizmos,
        final(snap).cpu_brand == old(snap).cpu_brand,
{
    match info {
        Some(i) => {
            let mut label = fmt_bytes(i.bytes);
            label.append(" (");
            label.append(i.source);
            label.append(")");
            snap.v_ram_label = label;
        },
        None => {
            snap.v_ram_label = String::from_str("n/a");
        },
    }
}

/// The first brand among the cores from position `i` on that is not blank, trimmed.
pub open spec fn first_brand_from(cpus: Seq<CpuIdentity>, i: int) -> Option<Seq<char>>
    decreases cpus.len() - i,
{
    if i < 0 || i >= cpus.len() {
        None
    } else if trim(cpus[i].brand@, TrimSet::Whitespace).len() > 0 {
        Some(trim(cpus[i].brand@, TrimSet::Whitespace))
    } else {
        first_brand_from(cpus, i + 1)
    }
}

/// The CPU brand: the first brand that is not blank; else the first core's
/// name; else `Unknown CPU`. All are trimmed.
pub open spec fn cpu_brand_spec(cpus: Seq<CpuIdentity>) -> Seq<char> {
    match first_brand_from(cpus, 0) {
        Some(b) => b,
        None => if cpus.len() > 0 {
            trim(cpus[0].name@, TrimSet::Whitespace)
        } else {
            "Unknown CPU"@
        },
    }
}

/// The stored brand after a resolution: kept once it is not empty.
pub open spec fn brand_after(brand: Seq<char>, cpus: Seq<CpuIdentity>) -> Seq<char> {
    if brand.len() > 0 {
        brand
    } else {
        cpu_brand_spec(cpus)
    }
}

/// Once the brand is not empty, resolving it again, whatever the cores
/// report then, leaves it as it is.
pub proof fn lemma_cpu_brand_resolved_once(
    brand: Seq<char>,
    first: Seq<CpuIdentity>,
    later: Seq<CpuIdentity>,
)
    requires
        brand_after(brand, first).len() > 0,
    ensures
        brand_after(brand_after(brand, first), later) == brand_after(brand, first),
{
}

fn resolve_cpu_brand(cpus: &Vec<CpuIdentity>) -> (r: String)
    ensures
        r@ == cpu_brand_spec(cpus@),
{
    let mut i: usize = 0;
    while i < cpus.len()
        invariant
            i <= cpus@.len(),
            first_brand_from(cpus@, 0) == first_brand_from(cpus@, i as int),
        decreases cpus@.len() - i,
    {
        let b = trim_chars(&chars_of(cpus[i].brand.as_str()), TrimSet::Whitespace);
        if b.len() > 0 {
            return string_from_chars(&b);
        }
        i += 1;
    }
    if cpus.len() > 0 {
        string_from_chars(&trim_chars(&chars_of(cpus[0].name.as_str()), TrimSet::Whitespace))
    } else {
        String::from_str("Unknown CPU")
    }
}

pub fn snap_cpu_brand(snap: &mut DebugSnapshot, cpus: &Vec<CpuIdentity>)
    ensures
        final(snap).cpu_brand@ == brand_after(old(snap).cpu_brand@, cpus@),
        old(snap).cpu_brand@.len() > 0 ==> *final(snap) == *old(snap),
        same_perf(*final(snap), *old(snap)),
        final(snap).v_ram_label == old(snap).v_ram_label,
        final(snap).app_name == old(snap).app_name && final(snap).app_ver == old(snap).app_ver
            && final(snap).bevy_ver == old(snap).bevy_ver,
        final(snap).backend_name == old(snap).backend_name && final(snap).backend_str == old(
            snap,
        ).backend_str,
        final(snap).key_debug_info == old(snap).key_debug_info && final(snap).key_gizmos == old(
            snap,
        ).key_gizmos,
{
    if !snap.cpu_brand.as_str().is_empty() {
        return;
    }
    snap.cpu_brand = resolve_cpu_brand(cpus);
}


/// What the snapshot steps of one frame read from the host.
pub struct SnapshotInputs {
    /// Smoothed frame rate, where the diagnostics have one.
    pub fps: Option<u32>,
    /// Build identity, where the build provides it.
    pub build: Option<BuildInfo>,
    /// Name of the graphics adapter.
    pub backend_name: String,
    /// Token of the graphics API (`vulkan`, `gl`, `metal`, `dx12`, ...).
    pub backend_token: String,
    /// Key label that toggles the overlay.
    pub key_debug_info: String,
    /// Key label that toggles the gizmos.
    pub key_gizmos: String,
    /// The V-RAM reading of the probes, if one gave any.
    pub v_ram: Option<VideoRamInfo>,
    /// The logical cores as the metrics backend describes them.
    pub cpus: Vec<CpuIdentity>,
}

/// The debug overlay's state: whether it is shown, the sampler, and the
/// snapshot it displays.
pub struct DebugLogicComponent {
    pub overlay_visible: bool,
    pub stats: SysStats,
    pub snapshot: DebugSnapshot,
}

impl DebugLogicComponent {
    pub open spec fn wf(self) -> bool {
        self.stats.wf()
    }

    /// A hidden overlay, zero readings, an empty snapshot.
    pub fn new() -> (r: DebugLogicComponent)
        ensures
            r.wf(),
            !r.overlay_visible,
            r.stats == SysStats::new_spec(),
            r.snapshot.is_blank(),
    {
        DebugLogicComponent {
            overlay_visible: false,
            stats: SysStats::new(),
            snapshot: DebugSnapshot::new(),
        }
    }

    /// Advances the sampler by one frame; reports whether the metrics backend
    /// is due to be queried. Nothing advances while the overlay is hidden.
    pub fn poll_sys_info(&mut self, delta_nanos: u64) -> (due: bool)
        requires
            old(self).wf(),
        ensures
            final(self).wf(),
            final(self).overlay_visible == old(self).overlay_visible,
            final(self).snapshot == old(self).snapshot,
            !old(self).overlay_visible ==> !due && final(self).stats == old(self).stats,
            old(self).overlay_visible ==> due == (old(self).stats.timer.elapsed_nanos
                + delta_nanos >= old(self).stats.timer.period_nanos)
                && final(self).stats.timer.elapsed_nanos == (old(self).stats.timer.elapsed_nanos
                + delta_nanos) % (old(self).stats.timer.period_nanos as int)
                && final(self).stats.timer.period_nanos == old(self).stats.timer.period_nanos
                && final(self).stats.cpu_all_percent == old(self).stats.cpu_all_percent
                && final(self).stats.app_cpu_percent == old(self).stats.app_cpu_percent
                && final(self).stats.app_mem_bytes == old(self).stats.app_mem_bytes,
    {
        self.stats.poll_due(self.overlay_visible, delta_nanos)
    }

    /// Stores the sample taken when `poll_sys_info` reported it due: the
    /// machine's CPU use as given, this process's memory, and its CPU use
    /// divided by the logical core count (at least one) and clamped to
    /// `[0, 100]` percent; a process the backend cannot find reads as zero.
    pub fn record_sample(&mut self, cpu_all_percent: u32, process: Option<ProcessSample>, logical_cpus: usize)
        requires
            old(self).wf(),
        ensures
            final(self).wf(),
            final(self).overlay_visible == old(self).overlay_visible,
            final(self).snapshot == old(self).snapshot,
            final(self).stats.timer == old(self).stats.timer,
            final(self).stats.cpu_all_percent == cpu_all_percent,
            final(self).stats.app_mem_bytes == match process {
                Some(p) => p.memory_bytes,
                None => 0,
            },
            final(self).stats.app_cpu_percent == match process {
                Some(p) => normalized_cpu(p.cpu_raw, logical_cpus),
                None => 0,
            },
            final(self).stats.app_cpu_percent <= PERCENT_FULL,
    {
        self.stats.record_sample(cpu_all_percent, process, logical_cpus);
    }

    /// Runs the snapshot steps of one frame, in order: performance, build,
    /// V-RAM, CPU brand. While the overlay is hidden none runs and the
    /// snapshot is left as it is.
    pub fn build_snapshot(&mut self, inputs: SnapshotInputs) -> (ran: bool)
        requires
            old(self).wf(),
        ensures
            final(self).wf(),
            ran == old(self).overlay_visible,
            final(self).overlay_visible == old(self).overlay_visible,
            final(self).stats == old(self).stats,
            !ran ==> final(self).snapshot == old(self).snapshot,
            ran ==> same_perf(
                final(self).snapshot,
                perf_spec(old(self).snapshot, inputs.fps, old(self).stats),
            ),
            ran ==> build_spec(
                final(self).snapshot,
                inputs.build,
                inputs.backend_name,
                inputs.backend_token@,
                inputs.key_debug_info,
                inputs.key_gizmos,
            ),
            ran ==> final(self).snapshot.v_ram_label@ == v_ram_label_spec(inputs.v_ram),
            ran ==> final(self).snapshot.cpu_brand@ == brand_after(
                old(self).snapshot.cpu_brand@,
                inputs.cpus@,
            ),
    {
        if !self.overlay_visible {
            return false;
        }
        let SnapshotInputs {
            fps,
            build,
            backend_name,
            backend_token,
            key_debug_info,
            key_gizmos,
            v_ram,
            cpus,
        } = inputs;
        snap_perf(&mut self.snapshot, fps, &self.stats);
        snap_build(
            &mut self.snapshot,
            build,
            backend_name,
            backend_token.as_str(),
            key_debug_info,
            key_gizmos,
        );
        snap_v_ram(&mut self.snapshot, v_ram);
        snap_cpu_brand(&mut self.snapshot, &cpus);
        true
    }
}

} // verus!
