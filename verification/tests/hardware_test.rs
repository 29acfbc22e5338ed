//! The machine: processors, memory, graphics adapters, and what follows from them.

use yidika::cli::show_info;
use yidika::hardware::cpu::{
    cache_info, detect_simd, known_vendor, llvm_cpu_name, set_llvm_cpu_name, vendor_name, CpuProbe, Leaf,
    Registers,
};
use yidika::hardware::gpu::{detect_linux_lspci, detect_windows_dxdiag, has_dedicated_gpu};
use yidika::hardware::machine::{core_count, detect_physical_from_sysinfo, physical_cores};
use yidika::hardware::memory::{is_high_memory, is_low_memory, reported};
use yidika::hardware::{
    assemble, cached_hardware_info, cpu, detect, gpu, memory, recommended_opt_level, recommended_parallelism,
    HardwareInfo, MemoryInfo, Probe, Sizes,
};

const NONE: Leaf = Leaf { eax: 0, ebx: 0, ecx: 0, edx: 0 };

fn text_leaf(b: &[u8; 12]) -> Leaf {
    let word = |i: usize| u32::from_le_bytes([b[i], b[i + 1], b[i + 2], b[i + 3]]);
    Leaf { eax: 0, ebx: word(0), edx: word(4), ecx: word(8) }
}

fn x86(vendor: &[u8; 12]) -> Registers {
    Registers::X86 {
        vendor: text_leaf(vendor),
        features: Leaf { eax: 0, ebx: 0, ecx: 1 << 28 | 1 << 20 | 1 << 19 | 1 << 9 | 1, edx: 1 << 25 | 1 << 26 },
        extended: Leaf { eax: 0, ebx: 1 << 5, ecx: 0, edx: 0 },
        l1: Leaf { eax: 1, ebx: 0, ecx: 32 << 24, edx: 0 },
        l2: Leaf { eax: 0, ebx: 0, ecx: 512 << 16, edx: 16 << 18 },
    }
}

fn cpu_probe() -> CpuProbe {
    CpuProbe {
        arch: "x86_64".to_string(),
        parallelism: Some(8),
        llvm_name: None,
        registers: x86(b"GenuineIntel"),
    }
}

fn probe() -> Probe {
    Probe {
        cpu: cpu_probe(),
        os: "linux".to_string(),
        family: "unix".to_string(),
        wmic: None,
        lspci: None,
    }
}

fn sizes() -> Sizes {
    Sizes {
        total_gb: "7.5".to_string(),
        available_gb: "3.2".to_string(),
        l1_mb: "0.0".to_string(),
        l2_mb: "0.5".to_string(),
        l3_mb: "8.0".to_string(),
        gpu_gb: vec!["4.0".to_string()],
    }
}

#[test]
fn test_show_info() {
    let result = show_info(&detect(&probe()), &sizes());
    assert!(result.is_ok());
    let info = result.unwrap();
    assert!(info.contains("Yidika Hardware Info"));
}

#[test]
fn test_cpu_detect_no_panic() {
    let cpu = cpu::detect(&cpu_probe());
    assert!(cpu.logical_cores > 0, "at least 1 core");
    assert!(!cpu.arch.is_empty(), "arch non-empty");
}

#[test]
fn test_simd_capabilities() {
    let simd = detect_simd(x86(b"GenuineIntel"));
    let features = simd.to_llvm_features();
    assert!(!features.is_empty(), "at least baseline features");
    let best = simd.best_feature_string();
    assert!(!best.is_empty());
}

#[test]
fn test_simd_features_valid_format() {
    for registers in [x86(b"GenuineIntel"), Registers::Arm { sve: true }, Registers::Other] {
        let simd = detect_simd(registers);
        for f in simd.to_llvm_features() {
            assert!(f.starts_with('+'), "feature {} should start with +", f);
        }
    }
}

#[test]
fn test_gpu_detect_no_panic() {
    let gpus = gpu::detect(&None, &None);
    assert!(!gpus.is_empty(), "at least unknown gpu");
}

#[test]
fn test_memory_detect() {
    let mem = memory::detect();
    assert!(mem.total_bytes > 0, "total memory > 0");
}

#[test]
fn test_hardware_detect() {
    let hw = detect(&probe());
    assert!(hw.cpu.logical_cores > 0);
    assert!(hw.memory.total_bytes > 0);
    assert!(!hw.os.name.is_empty());
}

#[test]
fn test_display_no_panic() {
    let hw = detect(&probe());
    let s = hw.to_text(&sizes());
    assert!(s.contains("Yidika Hardware Info"));
}

#[test]
fn test_opt_level() {
    let hw = detect(&probe());
    let level = recommended_opt_level(&hw);
    assert!(level == "O2" || level == "O3");
}

#[test]
fn test_recommended_parallelism() {
    let hw = detect(&probe());
    let n = recommended_parallelism(&hw);
    assert!(n >= 1);
}

#[test]
fn features_follow_the_registers() {
    let simd = detect_simd(x86(b"GenuineIntel"));
    assert_eq!(
        simd.to_llvm_features(),
        vec!["+sse", "+sse2", "+sse3", "+ssse3", "+sse4.1", "+sse4.2", "+avx", "+avx2"]
    );
    assert_eq!(simd.best_feature_string(), "avx2");
    let arm = detect_simd(Registers::Arm { sve: false });
    assert_eq!(arm.to_llvm_features(), vec!["+neon"]);
    assert_eq!(arm.best_feature_string(), "neon");
    let other = detect_simd(Registers::Other);
    assert_eq!(other.to_llvm_features(), vec!["+sse2"]);
    assert_eq!(other.best_feature_string(), "baseline");
}

#[test]
fn extended_features_need_avx() {
    let registers = Registers::X86 {
        vendor: NONE,
        features: NONE,
        extended: Leaf { eax: 0, ebx: 1 << 5 | 1 << 16, ecx: 0, edx: 0 },
        l1: NONE,
        l2: NONE,
    };
    let simd = detect_simd(registers);
    assert!(!simd.avx2 && !simd.avx512);
    assert_eq!(simd.to_llvm_features(), vec!["+sse2"]);
}

#[test]
fn caches_follow_the_registers() {
    assert_eq!(cache_info(x86(b"GenuineIntel")), (Some(32 * 1024), Some(512 * 1024), Some(16 * 512 * 1024)));
    let none = Registers::X86 { vendor: NONE, features: NONE, extended: NONE, l1: NONE, l2: NONE };
    assert_eq!(cache_info(none), (None, Some(0), None));
    assert_eq!(cache_info(Registers::Other), (None, None, None));
}

#[test]
fn vendors_are_read_from_the_registers() {
    assert_eq!(vendor_name(x86(b"GenuineIntel")), "GenuineIntel");
    assert_eq!(vendor_name(x86(b"AuthenticAMD")), "AuthenticAMD");
    assert_eq!(vendor_name(x86(b"HygonGenuine")), "HygonGenuine");
    assert_eq!(vendor_name(x86(b"bad\xff vendor!")), "bad\u{fffd} vendor!");
    assert_eq!(vendor_name(Registers::Other), "generic");
    assert_eq!(known_vendor("xGenuineIntelx"), "GenuineIntel");
}

#[test]
fn the_name_of_llvm_comes_first() {
    let mut name = None;
    assert_eq!(llvm_cpu_name(&name), None);
    set_llvm_cpu_name(&mut name, "znver3");
    assert_eq!(llvm_cpu_name(&name), Some("znver3".to_string()));
    set_llvm_cpu_name(&mut name, "skylake");
    assert_eq!(llvm_cpu_name(&name), Some("skylake".to_string()));
    let mut p = cpu_probe();
    assert_eq!(cpu::detect(&p).name, "x86_64");
    p.llvm_name = name;
    assert_eq!(cpu::detect(&p).name, "skylake");
}

#[test]
fn one_thread_where_the_system_does_not_tell() {
    let mut p = cpu_probe();
    p.parallelism = None;
    assert_eq!(cpu::detect(&p).logical_cores, 1);
    assert_eq!(cpu::detect(&p).physical_cores, 1);
}

#[test]
fn physical_cores_of_the_system_come_first() {
    let mem = reported(8_000_000_000, 1);
    assert_eq!(assemble(&probe(), 4, mem.clone()).cpu.physical_cores, 4);
    assert_eq!(assemble(&probe(), 0, mem.clone()).cpu.physical_cores, 8);
    assert_eq!(assemble(&probe(), 4, mem).os.triple, "x86_64-pc-unix");
    assert_eq!(core_count(Some(12)), 12);
    assert_eq!(core_count(None), 0);
    assert_eq!(detect_physical_from_sysinfo(&sysinfo::System::new()), physical_cores());
}

#[test]
fn memory_is_judged_by_its_size() {
    let mem = |total: u64| MemoryInfo { total_bytes: total, available_bytes: 0 };
    assert!(is_low_memory(&mem(3_999_999_999)));
    assert!(!is_low_memory(&mem(4_000_000_000)));
    assert!(!is_high_memory(&mem(15_999_999_999)));
    assert!(is_high_memory(&mem(16_000_000_000)));
    assert_eq!(recommended_opt_level(&assemble(&probe(), 1, mem(1))), "O2");
    assert_eq!(recommended_opt_level(&assemble(&probe(), 1, mem(4_000_000_000))), "O3");
}

#[test]
fn no_core_at_all_still_does_one_thing() {
    let mut hw = detect(&probe());
    assert_eq!(recommended_parallelism(&hw), 8);
    hw.cpu.logical_cores = 0;
    assert_eq!(recommended_parallelism(&hw), 1);
}

#[test]
fn the_first_description_stays() {
    let named = |name: &str| {
        let mut p = probe();
        p.os = name.to_string();
        p
    };
    let mut cache: Option<HardwareInfo> = None;
    assert_eq!(HardwareInfo::cached(&mut cache, &named("one")).unwrap().os.name, "one");
    assert_eq!(HardwareInfo::cached(&mut cache, &named("two")).unwrap().os.name, "one");
    assert_eq!(cached_hardware_info(&mut cache, &named("three")).os.name, "one");
    assert_eq!(cached_hardware_info(&mut None, &named("four")).os.name, "four");
}

#[test]
fn cores_are_never_missing() {
    let hw = detect(&probe());
    assert!(hw.cpu.physical_cores > 0);
}

#[test]
fn one_line_for_each_adapter_and_for_the_advice() {
    let mut p = probe();
    p.wmic = Some("head\nPC,A,V,1\nPC,B,V,0\nPC,C,V,0".to_string());
    let text = assemble(&p, 4, reported(1, 1)).to_text(&sizes());
    let lines: Vec<&str> = text.split('\n').collect();
    assert_eq!(lines.len(), 13);
    for (i, line) in lines.iter().enumerate() {
        for g in 0..3 {
            assert_eq!(line.starts_with(&format!("GPU[{}]: ", g)), i == g + 7);
        }
    }
    assert_eq!(lines[10], "Opt:     O2 (low RAM) recommended");
    assert_eq!(lines[11], "Mode:    multi-core");
}

#[test]
fn adapters_of_windows() {
    let out = "Node,AdapterCompatibility,AdapterRAM,Name\r\n\r\nPC, NVIDIA ,RTX 3060, 4294967296 \r\nPC,,x,1\r\nPC,AMD,R7,many\r\nPC,short\r\n";
    let gpus = detect_windows_dxdiag(out);
    assert_eq!(gpus.len(), 2);
    assert_eq!(gpus[0].name, "NVIDIA");
    assert_eq!(gpus[0].vendor, "RTX 3060");
    assert_eq!(gpus[0].dedicated_memory, 4_294_967_296);
    assert_eq!(gpus[0].api_type, "DirectX");
    assert_eq!(gpus[1].dedicated_memory, 0);
    assert!(has_dedicated_gpu(&gpus));
    assert!(!has_dedicated_gpu(&gpus[1..]));
}

#[test]
fn adapters_of_linux() {
    let out = "01:00.0 \"VGA compatible\" \"NVIDIA\"\n\tMemory at f0 (64-bit)\n\tMemory at f1\n02:00.0 \"3D controller\" \"AMD\"\nMemory at 1";
    let gpus = detect_linux_lspci(out);
    assert_eq!(gpus.len(), 2);
    assert_eq!(gpus[0].name, "VGA compatible");
    assert_eq!(gpus[0].vendor, "VGA compatible");
    assert_eq!(gpus[0].api_type, "Vulkan");
    assert_eq!(gpus[1].name, "3D controller");
    assert!(!has_dedicated_gpu(&gpus));
}

#[test]
fn the_listing_of_windows_comes_first() {
    let wmic = Some("head\nPC,A,B,7".to_string());
    let lspci = Some("\"VGA x\" \"y\"\nMemory at 0".to_string());
    assert_eq!(gpu::detect(&wmic, &lspci)[0].name, "A");
    assert_eq!(gpu::detect(&Some("head".to_string()), &lspci)[0].name, "VGA x");
    let unknown = gpu::detect(&Some(String::new()), &Some(String::new()));
    assert_eq!(unknown.len(), 1);
    assert_eq!(unknown[0].name, "Unknown (no GPU detected)");
    assert_eq!(unknown[0].vendor, "unknown");
    assert_eq!(unknown[0].api_type, "none");
}

#[test]
fn the_description_of_a_machine() {
    let mut p = probe();
    p.wmic = Some("head\nPC,GPU A,Vendor A,4294967296\nPC,GPU B,Vendor B,0".to_string());
    let hw = assemble(&p, 4, reported(8_000_000_000, 1));
    assert_eq!(
        hw.to_text(&sizes()),
        "═══ Yidika Hardware Info ═══\n\
         OS:      linux (x86_64-pc-unix)\n\
         CPU:     x86_64 [GenuineIntel]\n\
         Cores:   4 physical, 8 logical (arch: x86_64)\n\
         Cache:   L1=32 KB, L2=512 KB, L3=8.0 MB\n\
         SIMD:    avx2 ([\"+sse\", \"+sse2\", \"+sse3\", \"+ssse3\", \"+sse4.1\", \"+sse4.2\", \"+avx\", \"+avx2\"])\n\
         RAM:     7.5 GB total, 3.2 GB available\n\
         GPU[0]: GPU A (Vendor A, 4.0 GB)\n\
         GPU[1]: GPU B (Vendor B, shared)\n\
         Opt:     O3 recommended\n\
         Mode:    multi-core\n\
         ═══════════════════════════════"
    );
}
