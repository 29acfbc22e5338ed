//! What the compiler knows of the machine that it compiles for.

use vstd::prelude::*;

use crate::scan::{join, joined, texts};
use crate::text::{cat10, cat2, cat3, cat4, cat5, cat6, cat9, dec, dec_text, owned, Text};

pub use cpu::{CpuInfo, SimdCapabilities};
pub use gpu::GpuInfo;
pub use memory::MemoryInfo;

pub mod cpu;
pub mod gpu;
pub mod layout;
pub mod machine;
pub mod memory;

verus! {

/// The operating system: its name and the target triple.
#[derive(Clone, Debug)]
pub struct OsInfo {
    pub name: String,
    pub triple: String,
}

/// The machine: its processor, its memory, its graphics adapters and its operating system.
#[derive(Clone, Debug)]
pub struct HardwareInfo {
    pub cpu: CpuInfo,
    pub memory: MemoryInfo,
    pub gpus: Vec<GpuInfo>,
    pub os: OsInfo,
}

/// What is read of the machine: of the processor, of the operating system, and what the listings of
/// graphics adapters say, where there are any.
pub struct Probe {
    pub cpu: cpu::CpuProbe,
    pub os: String,
    pub family: String,
    pub wmic: Option<String>,
    pub lspci: Option<String>,
}

// ---------------------------------------------------------------------------------------------
// Detection
// ---------------------------------------------------------------------------------------------
/// The target triple of a machine.
pub open spec fn triple_of(arch: Text, family: Text) -> Text {
    arch + "-pc-"@ + family
}

/// `info` is what follows from a probe, whatever the memory and the number of cores are.
pub open spec fn follows_probe(info: HardwareInfo, probe: Probe) -> bool {
    &&& cpu::follows_cpu_probe(info.cpu, probe.cpu)
    &&& gpu::views(info.gpus@) == gpu::detected(
        crate::scan::opt_text(probe.wmic),
        crate::scan::opt_text(probe.lspci),
    )
    &&& info.os.name@ == probe.os@
    &&& info.os.triple@ == triple_of(probe.cpu.arch@, probe.family@)
}

/// The number of physical cores that is reported; that of the logical ones where it is zero.
pub open spec fn cores_or(physical: u32, logical: u32) -> u32 {
    if physical > 0 {
        physical
    } else {
        logical
    }
}

/// Puts together what is known of a machine. A number of physical cores of zero is no answer: the
/// number of logical cores stands for it.
pub fn assemble(probe: &Probe, physical: u32, memory: MemoryInfo) -> (r: HardwareInfo)
    ensures
        follows_probe(r, *probe),
        r.cpu.physical_cores == cores_or(physical, r.cpu.logical_cores),
        r.memory == memory,
{
    let mut c = cpu::detect(&probe.cpu);
    if physical > 0 {
        c.physical_cores = physical;
    }
    HardwareInfo {
        cpu: c,
        memory,
        gpus: gpu::detect(&probe.wmic, &probe.lspci),
        os: OsInfo {
            name: probe.os.clone(),
            triple: cat3(&probe.cpu.arch, "-pc-", &probe.family),
        },
    }
}

/// What is known of this machine: what follows from the probe, with the memory and the cores as the
/// system reports them.
pub fn detect(probe: &Probe) -> (r: HardwareInfo)
    ensures
        follows_probe(r, *probe),
        exists|sys: &mut sysinfo::System| #[trigger]
            call_ensures(sysinfo::System::refresh_memory, (sys,), ()) && memory::reported_by(
                *final(sys),
                r.memory,
            ),
        exists|physical: u32| #[trigger]
            call_ensures(machine::physical_cores, (), physical) && r.cpu.physical_cores == cores_or(
                physical,
                r.cpu.logical_cores,
            ),
        r.cpu.physical_cores > 0 || r.cpu.physical_cores == r.cpu.logical_cores,
{
    let physical = machine::physical_cores();
    assemble(probe, physical, memory::detect())
}

// ---------------------------------------------------------------------------------------------
// Recommendations
// ---------------------------------------------------------------------------------------------
/// The optimisation level: lower where memory is scarce.
pub open spec fn opt_level(info: HardwareInfo) -> Text {
    if memory::low_memory(info.memory) {
        "O2"@
    } else {
        "O3"@
    }
}

/// The recommended optimisation level.
pub fn recommended_opt_level(info: &HardwareInfo) -> (r: &'static str)
    ensures
        r@ == opt_level(*info),
{
    if memory::is_low_memory(&info.memory) {
        "O2"
    } else {
        "O3"
    }
}

/// How many things are best done at once: one for each logical core, and at least one.
pub fn recommended_parallelism(info: &HardwareInfo) -> (r: u32)
    ensures
        r >= 1,
        r == (if info.cpu.logical_cores >= 1 {
            info.cpu.logical_cores
        } else {
            1
        }),
{
    if info.cpu.logical_cores >= 1 {
        info.cpu.logical_cores
    } else {
        1
    }
}

/// What is remembered when the machine is asked for: what was remembered before, and what is detected
/// only where nothing was.
pub open spec fn remembers(before: Option<HardwareInfo>, after: Option<HardwareInfo>, probe: Probe) -> bool {
    match before {
        Some(_) => after == before,
        None => after is Some && call_ensures(detect, (&probe,), after->0),
    }
}

/// What is known of this machine. It is detected at the first call; later calls give what was found
/// then.
pub fn cached_hardware_info<'a>(cache: &'a mut Option<HardwareInfo>, probe: &Probe) -> (r: &'a HardwareInfo)
    ensures
        remembers(*old(cache), *final(cache), *probe),
        *final(cache) == Some(*r),
{
    if cache.is_none() {
        *cache = Some(detect(probe));
    }
    match cache {
        Some(info) => info,
        None => vstd::pervasive::unreached(),
    }
}

impl HardwareInfo {
    /// What is known of this machine. It is detected at the first call; later calls give what was found
    /// then, so there always is an answer.
    pub fn cached<'a>(cache: &'a mut Option<HardwareInfo>, probe: &Probe) -> (r: Option<&'a HardwareInfo>)
        ensures
            remembers(*old(cache), *final(cache), *probe),
            r is Some,
            *final(cache) == Some(*r->0),
    {
        Some(cached_hardware_info(cache, probe))
    }
}

// ---------------------------------------------------------------------------------------------
// Description
// ---------------------------------------------------------------------------------------------
/// The sizes of a machine as decimal fractions: of its memory and of the memory of each graphics
/// adapter in GB, of its caches in MB, each with one digit behind the point.
pub struct Sizes {
    pub total_gb: String,
    pub available_gb: String,
    pub l1_mb: String,
    pub l2_mb: String,
    pub l3_mb: String,
    pub gpu_gb: Vec<String>,
}

/// The size of a cache; `mb` is its size in MB.
pub open spec fn cache_text(v: Option<u64>, mb: Text) -> Text {
    match v {
        Some(n) => if n >= 1024 * 1024 {
            mb + " MB"@
        } else if n >= 1024 {
            dec((n / 1024) as nat) + " KB"@
        } else {
            dec(n as nat) + " B"@
        },
        None => "unknown"@,
    }
}

fn fmt_cache(v: Option<u64>, mb: &str) -> (r: String)
    ensures
        r@ == cache_text(v, mb@),
{
    match v {
        Some(n) => {
            if n >= 1024 * 1024 {
                cat2(mb, " MB")
            } else if n >= 1024 {
                cat2(&dec_text((n / 1024) as u128), " KB")
            } else {
                cat2(&dec_text(n as u128), " B")
            }
        },
        None => owned("unknown"),
    }
}

/// A list of features, each in quotes.
pub open spec fn quoted(features: Seq<Text>) -> Seq<Text> {
    features.map_values(|f: Text| "\""@ + f + "\""@)
}

fn quote_all(features: &Vec<&'static str>) -> (r: Vec<String>)
    ensures
        texts(r@) == quoted(cpu::str_texts(features@)),
{
    let ghost all = quoted(cpu::str_texts(features@));
    let mut r: Vec<String> = Vec::new();
    let mut i: usize = 0;
    while i < features.len()
        invariant
            all == quoted(cpu::str_texts(features@)),
            i <= features@.len(),
            texts(r@) == all.take(i as int),
        decreases features.len() - i,
    {
        let t = cat3("\"", features[i], "\"");
        let ghost before = r@;
        let ghost text = t@;
        r.push(t);
        assert(texts(r@) == texts(before).push(text));
        assert(all.take(i + 1) == all.take(i as int).push(text));
        i += 1;
    }
    assert(all.take(i as int) == all);
    r
}

/// The description of a graphics adapter; one without memory of its own shares the machine's.
pub open spec fn gpu_line(i: nat, g: gpu::Adapter, gb: Text) -> Text {
    "GPU["@ + dec(i) + "]: "@ + g.name + " ("@ + g.vendor + ", "@ + (if g.dedicated_memory > 0 {
        gb + " GB"@
    } else {
        "shared"@
    }) + ")\n"@
}

/// The descriptions of graphics adapters; `sizes` are their sizes in GB.
pub open spec fn gpu_lines(gpus: Seq<gpu::Adapter>, sizes: Seq<Text>) -> Text
    decreases gpus.len(),
{
    if gpus.len() == 0 {
        ""@
    } else {
        let i = (gpus.len() - 1) as nat;
        gpu_lines(gpus.drop_last(), sizes) + gpu_line(
            i,
            gpus.last(),
            if i < sizes.len() {
                sizes[i as int]
            } else {
                ""@
            },
        )
    }
}

fn gpu_text(gpus: &Vec<GpuInfo>, sizes: &Vec<String>) -> (r: String)
    ensures
        r@ == gpu_lines(gpu::views(gpus@), texts(sizes@)),
{
    let ghost all = gpu::views(gpus@);
    let mut r = owned("");
    let mut i: usize = 0;
    while i < gpus.len()
        invariant
            all == gpu::views(gpus@),
            i <= gpus@.len(),
            r@ == gpu_lines(all.take(i as int), texts(sizes@)),
        decreases gpus.len() - i,
    {
        assert(all.take(i + 1).drop_last() == all.take(i as int));
        assert(all[i as int] == gpus@[i as int]@);
        let gb = if i < sizes.len() {
            assert(texts(sizes@)[i as int] == sizes@[i as int]@);
            sizes[i].clone()
        } else {
            owned("")
        };
        let mem = if gpus[i].dedicated_memory > 0 {
            cat2(&gb, " GB")
        } else {
            owned("shared")
        };
        let line = cat9(
            "GPU[",
            &dec_text(i as u128),
            "]: ",
            &gpus[i].name,
            " (",
            &gpus[i].vendor,
            ", ",
            &mem,
            ")\n",
        );
        r.append(&line);
        i += 1;
    }
    assert(all.take(i as int) == all);
    r
}

/// The recommended optimisation level, with the reason.
pub open spec fn opt_note(info: HardwareInfo) -> Text {
    if memory::low_memory(info.memory) {
        "O2 (low RAM)"@
    } else if memory::high_memory(info.memory) {
        "O3 (high RAM)"@
    } else {
        "O3"@
    }
}

impl HardwareInfo {
    /// The first lines of the description: the system, the processor and its caches.
    pub open spec fn cpu_lines(self, sizes: Sizes) -> Text {
        "═══ Yidika Hardware Info ═══\nOS:      "@ + self.os.name@ + " ("@ + self.os.triple@
            + ")\nCPU:     "@ + self.cpu.name@ + " ["@ + self.cpu.vendor@ + "]\nCores:   "@ + dec(
            self.cpu.physical_cores as nat,
        ) + " physical, "@ + dec(self.cpu.logical_cores as nat) + " logical (arch: "@ + self.cpu.arch@
            + ")\nCache:   L1="@ + cache_text(self.cpu.cache_l1, sizes.l1_mb@) + ", L2="@ + cache_text(
            self.cpu.cache_l2,
            sizes.l2_mb@,
        ) + ", L3="@ + cache_text(self.cpu.cache_l3, sizes.l3_mb@) + "\n"@
    }

    /// The lines on the features of the processor and on the memory.
    pub open spec fn memory_lines(self, sizes: Sizes) -> Text {
        "SIMD:    "@ + self.cpu.simd.best() + " (["@ + joined(
            quoted(self.cpu.simd.features()),
            ", "@,
        ) + "])\nRAM:     "@ + sizes.total_gb@ + " GB total, "@ + sizes.available_gb@ + " GB available\n"@
    }

    /// The last lines of the description: the recommendations.
    pub open spec fn advice_lines(self) -> Text {
        "Opt:     "@ + opt_note(self) + " recommended\nMode:    "@ + (if self.cpu.logical_cores > 1 {
            "multi-core"@
        } else {
            "single-core"@
        }) + "\n═══════════════════════════════"@
    }

    /// The description of the machine.
    pub open spec fn description(self, sizes: Sizes) -> Text {
        self.cpu_lines(sizes) + self.memory_lines(sizes) + gpu_lines(
            gpu::views(self.gpus@),
            texts(sizes.gpu_gb@),
        ) + self.advice_lines()
    }

    /// The description of the machine, its sizes being given as decimal fractions.
    pub fn to_text(&self, sizes: &Sizes) -> (r: String)
        ensures
            r@ == self.description(*sizes),
    {
        let head = cat10(
            "═══ Yidika Hardware Info ═══\nOS:      ",
            &self.os.name,
            " (",
            &self.os.triple,
            ")\nCPU:     ",
            &self.cpu.name,
            " [",
            &self.cpu.vendor,
            "]\nCores:   ",
            &dec_text(self.cpu.physical_cores as u128),
        );
        let cpu_lines = cat6(
            &cat6(
                &head,
                " physical, ",
                &dec_text(self.cpu.logical_cores as u128),
                " logical (arch: ",
                &self.cpu.arch,
                ")\nCache:   L1=",
            ),
            &fmt_cache(self.cpu.cache_l1, &sizes.l1_mb),
            ", L2=",
            &fmt_cache(self.cpu.cache_l2, &sizes.l2_mb),
            ", L3=",
            &cat2(&fmt_cache(self.cpu.cache_l3, &sizes.l3_mb), "\n"),
        );
        assert(cpu_lines@ == self.cpu_lines(*sizes));
        let features = join(&quote_all(&self.cpu.simd.to_llvm_features()), ", ");
        let memory_lines = cat9(
            "SIMD:    ",
            self.cpu.simd.best_feature_string(),
            " ([",
            &features,
            "])\nRAM:     ",
            &sizes.total_gb,
            " GB total, ",
            &sizes.available_gb,
            " GB available\n",
        );
        let note = if memory::is_low_memory(&self.memory) {
            "O2 (low RAM)"
        } else if memory::is_high_memory(&self.memory) {
            "O3 (high RAM)"
        } else {
            "O3"
        };
        let mode = if self.cpu.logical_cores > 1 {
            "multi-core"
        } else {
            "single-core"
        };
        let advice = cat5(
            "Opt:     ",
            note,
            " recommended\nMode:    ",
            mode,
            "\n═══════════════════════════════",
        );
        cat4(&cpu_lines, &memory_lines, &gpu_text(&self.gpus, &sizes.gpu_gb), &advice)
    }
}

/// The description of every machine has the title in it, whatever the machine is.
pub proof fn lemma_description_has_a_title(info: HardwareInfo, sizes: Sizes)
    ensures
        crate::scan::holds(info.description(sizes), "Yidika Hardware Info"@),
{
    let first = "═══ Yidika Hardware Info ═══\nOS:      "@;
    let title = "Yidika Hardware Info"@;
    let all = info.description(sizes);
    reveal_strlit("═══ Yidika Hardware Info ═══\nOS:      ");
    reveal_strlit("Yidika Hardware Info");
    assert(first.subrange(4, 24) == title);
    assert(all.subrange(4, 24) == first.subrange(4, 24));
    assert(crate::scan::occurs_at(all, title, 4));
}

/// The optimisation level is one of two, whatever the machine is.
pub proof fn lemma_opt_level_is_one_of_two(info: HardwareInfo)
    ensures
        opt_level(info) == "O2"@ || opt_level(info) == "O3"@,
{
}

/// The machine is detected at most once: whatever is asked later, what the first call left is kept.
pub proof fn lemma_first_description_stays(
    before: Option<HardwareInfo>,
    first: Option<HardwareInfo>,
    second: Option<HardwareInfo>,
    probe: Probe,
    later: Probe,
)
    requires
        remembers(before, first, probe),
        remembers(first, second, later),
    ensures
        first is Some,
        second == first,
{
}

} // verus!
