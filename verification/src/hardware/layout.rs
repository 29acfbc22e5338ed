//! The lines of the description of a machine.

use vstd::prelude::*;

use crate::hardware::cpu::{with_feature, SimdCapabilities};
use crate::hardware::gpu::{self, Adapter};
use crate::hardware::{cache_text, gpu_line, gpu_lines, opt_level, opt_note, quoted, HardwareInfo, Sizes};
use crate::scan::{
    begins, is_digit, joined, lemma_begins_appended, lemma_dec_reads_back, lemma_pieces_of_line,
    lemma_pieces_of_lines, pieces, texts,
};
use crate::text::{dec, Text};

verus! {

// ---------------------------------------------------------------------------------------------
// Texts of one line
// ---------------------------------------------------------------------------------------------
/// A text without a line feed.
#[verifier::opaque]
pub open spec fn one_line(t: Text) -> bool {
    !t.contains('\n')
}

broadcast proof fn lemma_one_line_cat(a: Text, b: Text)
    requires
        one_line(a),
        one_line(b),
    ensures
        one_line(#[trigger] (a + b)),
{
    reveal(one_line);
    if (a + b).contains('\n') {
        let i = choose|i: int| 0 <= i < (a + b).len() && (a + b)[i] == '\n';
        if i < a.len() {
            assert(a[i] == '\n');
        } else {
            assert(b[i - a.len()] == '\n');
        }
    }
}

proof fn lemma_one_line_dec(n: nat)
    ensures
        one_line(dec(n)),
{
    reveal(one_line);
    lemma_dec_reads_back(n);
    if dec(n).contains('\n') {
        let i = choose|i: int| 0 <= i < dec(n).len() && dec(n)[i] == '\n';
        assert(is_digit(dec(n)[i]));
    }
}

proof fn lemma_one_line_joined(parts: Seq<Text>, sep: Text)
    requires
        one_line(sep),
        forall|i: int| 0 <= i < parts.len() ==> one_line(#[trigger] parts[i]),
    ensures
        one_line(joined(parts, sep)),
    decreases parts.len(),
{
    broadcast use lemma_one_line_cat;

    if parts.len() == 0 {
        reveal(one_line);
        reveal_strlit("");
    } else if parts.len() > 1 {
        lemma_one_line_joined(parts.drop_last(), sep);
    }
}

proof fn lemma_words_a()
    ensures
        one_line("═══ Yidika Hardware Info ═══"@),
        one_line("OS:      "@),
        one_line(" ("@),
        one_line(")"@),
        one_line("CPU:     "@),
        one_line(" ["@),
        one_line("]"@),
        one_line("Cores:   "@),
        one_line(" physical, "@),
        one_line(" logical (arch: "@),
        one_line("Cache:   L1="@),
        one_line(", L2="@),
        one_line(", L3="@),
        one_line("SIMD:    "@),
{
    reveal(one_line);
    reveal_strlit("═══ Yidika Hardware Info ═══");
    reveal_strlit("OS:      ");
    reveal_strlit(" (");
    reveal_strlit(")");
    reveal_strlit("CPU:     ");
    reveal_strlit(" [");
    reveal_strlit("]");
    reveal_strlit("Cores:   ");
    reveal_strlit(" physical, ");
    reveal_strlit(" logical (arch: ");
    reveal_strlit("Cache:   L1=");
    reveal_strlit(", L2=");
    reveal_strlit(", L3=");
    reveal_strlit("SIMD:    ");
}

proof fn lemma_words_b()
    ensures
        one_line(" (["@),
        one_line("])"@),
        one_line("RAM:     "@),
        one_line(" GB total, "@),
        one_line(" GB available"@),
        one_line("Opt:     "@),
        one_line(" recommended"@),
        one_line("Mode:    "@),
        one_line("multi-core"@),
        one_line("single-core"@),
        one_line("═══════════════════════════════"@),
        one_line("O2 (low RAM)"@),
        one_line("O3 (high RAM)"@),
        one_line("O3"@),
{
    reveal(one_line);
    reveal_strlit(" ([");
    reveal_strlit("])");
    reveal_strlit("RAM:     ");
    reveal_strlit(" GB total, ");
    reveal_strlit(" GB available");
    reveal_strlit("Opt:     ");
    reveal_strlit(" recommended");
    reveal_strlit("Mode:    ");
    reveal_strlit("multi-core");
    reveal_strlit("single-core");
    reveal_strlit("═══════════════════════════════");
    reveal_strlit("O2 (low RAM)");
    reveal_strlit("O3 (high RAM)");
    reveal_strlit("O3");
}

proof fn lemma_words_c()
    ensures
        one_line("GPU["@),
        one_line("]: "@),
        one_line(", "@),
        one_line(" GB"@),
        one_line("shared"@),
        one_line(" MB"@),
        one_line(" KB"@),
        one_line(" B"@),
        one_line("unknown"@),
        one_line("avx512"@),
        one_line("avx2"@),
        one_line("avx"@),
        one_line("sse4.2"@),
        one_line("neon"@),
{
    reveal(one_line);
    reveal_strlit("GPU[");
    reveal_strlit("]: ");
    reveal_strlit(", ");
    reveal_strlit(" GB");
    reveal_strlit("shared");
    reveal_strlit(" MB");
    reveal_strlit(" KB");
    reveal_strlit(" B");
    reveal_strlit("unknown");
    reveal_strlit("avx512");
    reveal_strlit("avx2");
    reveal_strlit("avx");
    reveal_strlit("sse4.2");
    reveal_strlit("neon");
}

proof fn lemma_words_d()
    ensures
        one_line("baseline"@),
        one_line("\""@),
        one_line("+sse"@),
        one_line("+sse2"@),
        one_line("+sse3"@),
        one_line("+ssse3"@),
        one_line("+sse4.1"@),
        one_line("+sse4.2"@),
        one_line("+avx"@),
        one_line("+avx2"@),
        one_line("+avx512f"@),
        one_line("+neon"@),
        one_line("+sve"@),
{
    reveal(one_line);
    reveal_strlit("baseline");
    reveal_strlit("\"");
    reveal_strlit("+sse");
    reveal_strlit("+sse2");
    reveal_strlit("+sse3");
    reveal_strlit("+ssse3");
    reveal_strlit("+sse4.1");
    reveal_strlit("+sse4.2");
    reveal_strlit("+avx");
    reveal_strlit("+avx2");
    reveal_strlit("+avx512f");
    reveal_strlit("+neon");
    reveal_strlit("+sve");
}

proof fn lemma_words()
    ensures
        one_line("═══ Yidika Hardware Info ═══"@),
        one_line("OS:      "@),
        one_line(" ("@),
        one_line(")"@),
        one_line("CPU:     "@),
        one_line(" ["@),
        one_line("]"@),
        one_line("Cores:   "@),
        one_line(" physical, "@),
        one_line(" logical (arch: "@),
        one_line("Cache:   L1="@),
        one_line(", L2="@),
        one_line(", L3="@),
        one_line("SIMD:    "@),
        one_line(" (["@),
        one_line("])"@),
        one_line("RAM:     "@),
        one_line(" GB total, "@),
        one_line(" GB available"@),
        one_line("Opt:     "@),
        one_line(" recommended"@),
        one_line("Mode:    "@),
        one_line("multi-core"@),
        one_line("single-core"@),
        one_line("═══════════════════════════════"@),
        one_line("O2 (low RAM)"@),
        one_line("O3 (high RAM)"@),
        one_line("O3"@),
        one_line("GPU["@),
        one_line("]: "@),
        one_line(", "@),
        one_line(" GB"@),
        one_line("shared"@),
        one_line(" MB"@),
        one_line(" KB"@),
        one_line(" B"@),
        one_line("unknown"@),
        one_line("avx512"@),
        one_line("avx2"@),
        one_line("avx"@),
        one_line("sse4.2"@),
        one_line("neon"@),
        one_line("baseline"@),
        one_line("\""@),
        one_line("+sse"@),
        one_line("+sse2"@),
        one_line("+sse3"@),
        one_line("+ssse3"@),
        one_line("+sse4.1"@),
        one_line("+sse4.2"@),
        one_line("+avx"@),
        one_line("+avx2"@),
        one_line("+avx512f"@),
        one_line("+neon"@),
        one_line("+sve"@),
{
    lemma_words_a();
    lemma_words_b();
    lemma_words_c();
    lemma_words_d();
}

// ---------------------------------------------------------------------------------------------
// The lines
// ---------------------------------------------------------------------------------------------
/// No text of a machine goes over more than one line.
pub open spec fn fits_on_lines(info: HardwareInfo, sizes: Sizes) -> bool {
    &&& one_line(info.os.name@)
    &&& one_line(info.os.triple@)
    &&& one_line(info.cpu.name@)
    &&& one_line(info.cpu.vendor@)
    &&& one_line(info.cpu.arch@)
    &&& one_line(sizes.l1_mb@)
    &&& one_line(sizes.l2_mb@)
    &&& one_line(sizes.l3_mb@)
    &&& one_line(sizes.total_gb@)
    &&& one_line(sizes.available_gb@)
    &&& adapters_fit(gpu::views(info.gpus@), texts(sizes.gpu_gb@))
}

/// No text of an adapter goes over more than one line.
pub open spec fn adapters_fit(gpus: Seq<Adapter>, sizes: Seq<Text>) -> bool {
    &&& forall|i: int| 0 <= i < gpus.len() ==> one_line((#[trigger] gpus[i]).name) && one_line(gpus[i].vendor)
    &&& forall|i: int| 0 <= i < sizes.len() ==> one_line(#[trigger] sizes[i])
}

/// The lines in front of those of the adapters.
pub open spec fn first_lines(info: HardwareInfo, sizes: Sizes) -> Seq<Text> {
    seq![
        "═══ Yidika Hardware Info ═══"@,
        "OS:      "@ + info.os.name@ + " ("@ + info.os.triple@ + ")"@,
        "CPU:     "@ + info.cpu.name@ + " ["@ + info.cpu.vendor@ + "]"@,
        "Cores:   "@ + dec(info.cpu.physical_cores as nat) + " physical, "@ + dec(
            info.cpu.logical_cores as nat,
        ) + " logical (arch: "@ + info.cpu.arch@ + ")"@,
        "Cache:   L1="@ + cache_text(info.cpu.cache_l1, sizes.l1_mb@) + ", L2="@ + cache_text(
            info.cpu.cache_l2,
            sizes.l2_mb@,
        ) + ", L3="@ + cache_text(info.cpu.cache_l3, sizes.l3_mb@),
        "SIMD:    "@ + info.cpu.simd.best() + " (["@ + joined(
            quoted(info.cpu.simd.features()),
            ", "@,
        ) + "])"@,
        "RAM:     "@ + sizes.total_gb@ + " GB total, "@ + sizes.available_gb@ + " GB available"@,
    ]
}

/// The size of an adapter; empty where it is not given.
pub open spec fn adapter_size(sizes: Seq<Text>, i: nat) -> Text {
    if i < sizes.len() {
        sizes[i as int]
    } else {
        ""@
    }
}

/// The line of an adapter.
pub open spec fn adapter_line(i: nat, g: Adapter, gb: Text) -> Text {
    "GPU["@ + dec(i) + "]: "@ + g.name + " ("@ + g.vendor + ", "@ + (if g.dedicated_memory > 0 {
        gb + " GB"@
    } else {
        "shared"@
    }) + ")"@
}

/// The lines of the adapters, in order.
pub open spec fn adapter_lines(gpus: Seq<Adapter>, sizes: Seq<Text>) -> Seq<Text> {
    Seq::new(gpus.len(), |i: int| adapter_line(i as nat, gpus[i], adapter_size(sizes, i as nat)))
}

/// What the description says of the cores.
pub open spec fn mode_text(info: HardwareInfo) -> Text {
    if info.cpu.logical_cores > 1 {
        "multi-core"@
    } else {
        "single-core"@
    }
}

/// The lines behind those of the adapters.
pub open spec fn last_lines(info: HardwareInfo) -> Seq<Text> {
    seq![
        "Opt:     "@ + opt_note(info) + " recommended"@,
        "Mode:    "@ + mode_text(info),
        "═══════════════════════════════"@,
    ]
}

/// The lines of the description of a machine.
pub open spec fn description_lines(info: HardwareInfo, sizes: Sizes) -> Seq<Text> {
    first_lines(info, sizes) + adapter_lines(gpu::views(info.gpus@), texts(sizes.gpu_gb@)) + last_lines(info)
}

proof fn lemma_cache_fits(v: Option<u64>, mb: Text)
    requires
        one_line(mb),
    ensures
        one_line(cache_text(v, mb)),
{
    broadcast use lemma_one_line_cat;

    lemma_words();
    match v {
        Some(n) => {
            lemma_one_line_dec((n / 1024) as nat);
            lemma_one_line_dec(n as nat);
        },
        None => {},
    }
}

/// Texts of one line each.
#[verifier::opaque]
spec fn all_one_line(list: Seq<Text>) -> bool {
    forall|i: int| 0 <= i < list.len() ==> one_line(#[trigger] list[i])
}

broadcast proof fn lemma_feature_fits(list: Seq<Text>, on: bool, feature: Text)
    requires
        all_one_line(list),
        one_line(feature),
    ensures
        all_one_line(#[trigger] with_feature(list, on, feature)),
{
    reveal(all_one_line);
}

proof fn lemma_present_fit(simd: SimdCapabilities)
    ensures
        all_one_line(simd.features()),
{
    broadcast use lemma_feature_fits;

    lemma_words();
    assert(all_one_line(Seq::<Text>::empty())) by {
        reveal(all_one_line);
    }
    assert(all_one_line(simd.present()));
    assert(all_one_line(seq!["+sse2"@])) by {
        reveal(all_one_line);
    }
}

proof fn lemma_features_fit(simd: SimdCapabilities)
    ensures
        one_line(simd.best()),
        one_line(joined(quoted(simd.features()), ", "@)),
{
    lemma_words();
    lemma_present_fit(simd);
    let features = simd.features();
    let list = quoted(features);
    assert forall|i: int| 0 <= i < list.len() implies one_line(#[trigger] list[i]) by {
        reveal(all_one_line);
        assert(one_line(features[i]));
        assert(list[i] == "\""@ + features[i] + "\""@);
        lemma_one_line_cat("\""@, features[i]);
        lemma_one_line_cat("\""@ + features[i], "\""@);
    }
    lemma_one_line_joined(list, ", "@);
}

proof fn lemma_first_lines_fit(info: HardwareInfo, sizes: Sizes)
    requires
        fits_on_lines(info, sizes),
    ensures
        forall|i: int| 0 <= i < 7 ==> one_line(#[trigger] first_lines(info, sizes)[i]),
        forall|i: int| 0 <= i < 3 ==> one_line(#[trigger] last_lines(info)[i]),
{
    broadcast use lemma_one_line_cat;

    lemma_words();
    lemma_one_line_dec(info.cpu.physical_cores as nat);
    lemma_one_line_dec(info.cpu.logical_cores as nat);
    lemma_cache_fits(info.cpu.cache_l1, sizes.l1_mb@);
    lemma_cache_fits(info.cpu.cache_l2, sizes.l2_mb@);
    lemma_cache_fits(info.cpu.cache_l3, sizes.l3_mb@);
    lemma_features_fit(info.cpu.simd);
}

proof fn lemma_adapter_fits(i: nat, g: Adapter, gb: Text)
    requires
        one_line(g.name),
        one_line(g.vendor),
        one_line(gb),
    ensures
        one_line(adapter_line(i, g, gb)),
{
    broadcast use lemma_one_line_cat;

    lemma_words();
    lemma_one_line_dec(i);
}

// ---------------------------------------------------------------------------------------------
// The description, line by line
// ---------------------------------------------------------------------------------------------
proof fn lemma_line(line: Text, rest: Text)
    requires
        one_line(line),
    ensures
        pieces(line + "\n"@ + rest, "\n"@) == seq![line] + pieces(rest, "\n"@),
{
    reveal(one_line);
    lemma_pieces_of_lines(line, rest);
}

proof fn lemma_adapters(gpus: Seq<Adapter>, sizes: Seq<Text>, rest: Text)
    requires
        adapters_fit(gpus, sizes),
    ensures
        pieces(gpu_lines(gpus, sizes) + rest, "\n"@) == adapter_lines(gpus, sizes) + pieces(rest, "\n"@),
    decreases gpus.len(),
{
    reveal_strlit("");
    if gpus.len() == 0 {
        assert(gpu_lines(gpus, sizes) + rest == rest);
        assert(adapter_lines(gpus, sizes) + pieces(rest, "\n"@) == pieces(rest, "\n"@));
    } else {
        let front = gpus.drop_last();
        let i = (gpus.len() - 1) as nat;
        let gb = adapter_size(sizes, i);
        let line = adapter_line(i, gpus.last(), gb);
        assert(one_line(gb)) by {
            reveal(one_line);
        }
        assert(one_line(gpus[i as int].name));
        lemma_adapter_fits(i, gpus.last(), gb);
        assert(gpu_line(i, gpus.last(), gb) == line + "\n"@) by {
            reveal_strlit(")\n");
            reveal_strlit(")");
            reveal_strlit("\n");
            assert(")\n"@ == ")"@ + "\n"@);
        }
        assert(gpu_lines(gpus, sizes) + rest == gpu_lines(front, sizes) + (line + "\n"@ + rest));
        assert forall|k: int| 0 <= k < front.len() implies one_line((#[trigger] front[k]).name) && one_line(
            front[k].vendor,
        ) by {
            assert(gpus[k] == front[k]);
        }
        lemma_adapters(front, sizes, line + "\n"@ + rest);
        lemma_line(line, rest);
        assert(adapter_lines(gpus, sizes) == adapter_lines(front, sizes).push(line));
        assert(adapter_lines(front, sizes) + (seq![line] + pieces(rest, "\n"@)) == adapter_lines(gpus, sizes)
            + pieces(rest, "\n"@));
    }
}

proof fn lemma_breaks()
    ensures
        "═══ Yidika Hardware Info ═══\nOS:      "@ == "═══ Yidika Hardware Info ═══"@ + "\n"@ + "OS:      "@,
        ")\nCPU:     "@ == ")"@ + "\n"@ + "CPU:     "@,
        "]\nCores:   "@ == "]"@ + "\n"@ + "Cores:   "@,
        ")\nCache:   L1="@ == ")"@ + "\n"@ + "Cache:   L1="@,
        "])\nRAM:     "@ == "])"@ + "\n"@ + "RAM:     "@,
        " GB available\n"@ == " GB available"@ + "\n"@,
        " recommended\nMode:    "@ == " recommended"@ + "\n"@ + "Mode:    "@,
        "\n═══════════════════════════════"@ == "\n"@ + "═══════════════════════════════"@,
{
    reveal_strlit("\n");
    assert("═══ Yidika Hardware Info ═══\nOS:      "@ == "═══ Yidika Hardware Info ═══"@ + "\n"@ + "OS:      "@) by {
        reveal_strlit("═══ Yidika Hardware Info ═══\nOS:      ");
        reveal_strlit("═══ Yidika Hardware Info ═══");
        reveal_strlit("OS:      ");
    }
    assert(")\nCPU:     "@ == ")"@ + "\n"@ + "CPU:     "@) by {
        reveal_strlit(")\nCPU:     ");
        reveal_strlit(")");
        reveal_strlit("CPU:     ");
    }
    assert("]\nCores:   "@ == "]"@ + "\n"@ + "Cores:   "@) by {
        reveal_strlit("]\nCores:   ");
        reveal_strlit("]");
        reveal_strlit("Cores:   ");
    }
    assert(")\nCache:   L1="@ == ")"@ + "\n"@ + "Cache:   L1="@) by {
        reveal_strlit(")\nCache:   L1=");
        reveal_strlit(")");
        reveal_strlit("Cache:   L1=");
    }
    assert("])\nRAM:     "@ == "])"@ + "\n"@ + "RAM:     "@) by {
        reveal_strlit("])\nRAM:     ");
        reveal_strlit("])");
        reveal_strlit("RAM:     ");
    }
    assert(" GB available\n"@ == " GB available"@ + "\n"@) by {
        reveal_strlit(" GB available\n");
        reveal_strlit(" GB available");
    }
    assert(" recommended\nMode:    "@ == " recommended"@ + "\n"@ + "Mode:    "@) by {
        reveal_strlit(" recommended\nMode:    ");
        reveal_strlit(" recommended");
        reveal_strlit("Mode:    ");
    }
    assert("\n═══════════════════════════════"@ == "\n"@ + "═══════════════════════════════"@) by {
        reveal_strlit("\n═══════════════════════════════");
        reveal_strlit("═══════════════════════════════");
    }
}

proof fn lemma_group3(z: Text, a: Text, b: Text, c: Text)
    ensures
        z + a + b + c == z + (a + b + c),
{
    assert(z + a + b + c == z + (a + b + c));
}

proof fn lemma_group4(z: Text, a: Text, b: Text, c: Text, d: Text)
    ensures
        z + a + b + c + d == z + (a + b + c + d),
{
    assert(z + a + b + c + d == z + (a + b + c + d));
}

proof fn lemma_group6(z: Text, a: Text, b: Text, c: Text, d: Text, e: Text, f: Text)
    ensures
        z + a + b + c + d + e + f == z + (a + b + c + d + e + f),
{
    lemma_group3(z, a, b, c);
    lemma_group3(z + (a + b + c), d, e, f);
    lemma_group3(a + b + c, d, e, f);
    assert(z + (a + b + c) + (d + e + f) == z + ((a + b + c) + (d + e + f)));
}

proof fn lemma_end_of_line(z: Text, line: Text, close: Text, nl: Text, next: Text)
    ensures
        z + line + (close + nl + next) == z + (line + close) + nl + next,
{
    assert(z + line + (close + nl + next) == z + (line + close) + nl + next);
}

proof fn lemma_cpu_lines(info: HardwareInfo, sizes: Sizes)
    ensures
        ({
            let nl = "\n"@;
            let f = first_lines(info, sizes);
            info.cpu_lines(sizes) == f[0] + nl + f[1] + nl + f[2] + nl + f[3] + nl + f[4] + nl
        }),
{
    let nl = "\n"@;
    let f = first_lines(info, sizes);
    let (os, close, cpu) = ("OS:      "@, ")"@, "CPU:     "@);
    let (name, triple) = (info.os.name@, info.os.triple@);
    let (cpu_name, vendor) = (info.cpu.name@, info.cpu.vendor@);
    let (some, all) = (dec(info.cpu.physical_cores as nat), dec(info.cpu.logical_cores as nat));
    let arch = info.cpu.arch@;
    let c1 = cache_text(info.cpu.cache_l1, sizes.l1_mb@);
    let c2 = cache_text(info.cpu.cache_l2, sizes.l2_mb@);
    let c3 = cache_text(info.cpu.cache_l3, sizes.l3_mb@);
    lemma_breaks();
    let z0 = f[0] + nl;
    let a0 = z0 + os + name + " ("@ + triple;
    lemma_group4(z0, os, name, " ("@, triple);
    lemma_end_of_line(z0, os + name + " ("@ + triple, close, nl, cpu);
    let z1 = z0 + f[1] + nl;
    assert(a0 + ")\nCPU:     "@ == z1 + cpu);
    let a1 = z1 + cpu + cpu_name + " ["@ + vendor;
    lemma_group4(z1, cpu, cpu_name, " ["@, vendor);
    lemma_end_of_line(z1, cpu + cpu_name + " ["@ + vendor, "]"@, nl, "Cores:   "@);
    let z2 = z1 + f[2] + nl;
    assert(a1 + "]\nCores:   "@ == z2 + "Cores:   "@);
    let a2 = z2 + "Cores:   "@ + some + " physical, "@ + all + " logical (arch: "@ + arch;
    lemma_group6(z2, "Cores:   "@, some, " physical, "@, all, " logical (arch: "@, arch);
    lemma_end_of_line(
        z2,
        "Cores:   "@ + some + " physical, "@ + all + " logical (arch: "@ + arch,
        close,
        nl,
        "Cache:   L1="@,
    );
    let z3 = z2 + f[3] + nl;
    assert(a2 + ")\nCache:   L1="@ == z3 + "Cache:   L1="@);
    lemma_group6(z3, "Cache:   L1="@, c1, ", L2="@, c2, ", L3="@, c3);
    assert(info.cpu_lines(sizes) == z3 + "Cache:   L1="@ + c1 + ", L2="@ + c2 + ", L3="@ + c3 + nl);
}

proof fn lemma_memory_lines(info: HardwareInfo, sizes: Sizes)
    ensures
        ({
            let nl = "\n"@;
            let f = first_lines(info, sizes);
            info.memory_lines(sizes) == f[5] + nl + f[6] + nl
        }),
{
    let nl = "\n"@;
    let f = first_lines(info, sizes);
    let simd = "SIMD:    "@ + info.cpu.simd.best() + " (["@ + joined(
        quoted(info.cpu.simd.features()),
        ", "@,
    );
    let (ram, total, free) = ("RAM:     "@, sizes.total_gb@, sizes.available_gb@);
    let empty = Seq::<char>::empty();
    lemma_breaks();
    lemma_end_of_line(empty, simd, "])"@, nl, ram);
    assert(empty + simd == simd);
    assert(empty + (simd + "])"@) == simd + "])"@);
    let z = f[5] + nl;
    lemma_group4(z, ram, total, " GB total, "@, free);
    lemma_end_of_line(z, ram + total + " GB total, "@ + free, " GB available"@, nl, empty);
    assert(" GB available"@ + nl + empty == " GB available\n"@);
    assert(z + f[6] + nl + empty == z + f[6] + nl);
}

proof fn lemma_advice_lines(info: HardwareInfo)
    ensures
        ({
            let nl = "\n"@;
            let l = last_lines(info);
            info.advice_lines() == l[0] + nl + (l[1] + nl + l[2])
        }),
{
    let nl = "\n"@;
    let l = last_lines(info);
    let opt = "Opt:     "@ + opt_note(info);
    let empty = Seq::<char>::empty();
    lemma_breaks();
    lemma_end_of_line(empty, opt, " recommended"@, nl, "Mode:    "@);
    assert(empty + opt == opt);
    assert(empty + (opt + " recommended"@) == l[0]);
    assert(l[0] + nl + "Mode:    "@ + mode_text(info) + (nl + l[2]) == l[0] + nl + (l[1] + nl + l[2]));
}

proof fn lemma_nested(
    a: Text,
    b: Text,
    c: Text,
    d: Text,
    e: Text,
    f: Text,
    g: Text,
    nl: Text,
    rest: Text,
)
    ensures
        (a + nl + b + nl + c + nl + d + nl + e + nl) + (f + nl + g + nl) + rest == a + nl + (b + nl + (c + nl
            + (d + nl + (e + nl + (f + nl + (g + nl + rest)))))),
{
    let t = f + nl + (g + nl + rest);
    assert((f + nl + g + nl) + rest == t);
    let p = a + nl + b + nl + c + nl + d + nl + e + nl;
    assert(p + (f + nl + g + nl) + rest == p + t) by {
        assert(p + (f + nl + g + nl) + rest == p + ((f + nl + g + nl) + rest));
    }
    let q = a + nl + b + nl + c + nl;
    assert(q + d + nl + e + nl + t == q + (d + nl + (e + nl + t)));
    let u = d + nl + (e + nl + t);
    assert(q + u == a + nl + (b + nl + (c + nl + u)));
}

/// The description of a machine, cut at its line feeds, is the list of its lines.
pub proof fn lemma_description_is_its_lines(info: HardwareInfo, sizes: Sizes)
    requires
        fits_on_lines(info, sizes),
    ensures
        pieces(info.description(sizes), "\n"@) == description_lines(info, sizes),
{
    let nl = "\n"@;
    let f = first_lines(info, sizes);
    let l = last_lines(info);
    let gpus = gpu::views(info.gpus@);
    let gb = texts(sizes.gpu_gb@);
    let d10 = l[2];
    let d9 = l[1] + nl + d10;
    let d8 = l[0] + nl + d9;
    let d7 = gpu_lines(gpus, gb) + d8;
    let d6 = f[6] + nl + d7;
    let d5 = f[5] + nl + d6;
    let d4 = f[4] + nl + d5;
    let d3 = f[3] + nl + d4;
    let d2 = f[2] + nl + d3;
    let d1 = f[1] + nl + d2;
    let d0 = f[0] + nl + d1;
    lemma_cpu_lines(info, sizes);
    lemma_memory_lines(info, sizes);
    lemma_advice_lines(info);
    let front = info.cpu_lines(sizes) + info.memory_lines(sizes);
    lemma_group2(front, gpu_lines(gpus, gb), d8);
    lemma_nested(f[0], f[1], f[2], f[3], f[4], f[5], f[6], nl, d7);
    assert(info.description(sizes) == d0);
    lemma_first_lines_fit(info, sizes);
    lemma_line(f[0], d1);
    lemma_line(f[1], d2);
    lemma_line(f[2], d3);
    lemma_line(f[3], d4);
    lemma_line(f[4], d5);
    lemma_line(f[5], d6);
    lemma_line(f[6], d7);
    lemma_adapters(gpus, gb, d8);
    lemma_line(l[0], d9);
    lemma_line(l[1], d10);
    assert(one_line(l[2]));
    assert(pieces(d10, nl) == seq![d10]) by {
        reveal(one_line);
        lemma_pieces_of_line(d10);
    }
    lemma_lists(f, adapter_lines(gpus, gb), l, pieces(d0, nl));
}

proof fn lemma_group2(z: Text, a: Text, b: Text)
    ensures
        z + a + b == z + (a + b),
{
    assert(z + a + b == z + (a + b));
}

proof fn lemma_lists(f: Seq<Text>, g: Seq<Text>, l: Seq<Text>, all: Seq<Text>)
    requires
        f.len() == 7,
        l.len() == 3,
        all == seq![f[0]] + (seq![f[1]] + (seq![f[2]] + (seq![f[3]] + (seq![f[4]] + (seq![f[5]] + (seq![
            f[6],
        ] + (g + (seq![l[0]] + (seq![l[1]] + seq![l[2]]))))))))),
    ensures
        all == f + g + l,
{
    assert(seq![l[0]] + (seq![l[1]] + seq![l[2]]) == l);
    assert(all == f + (g + l));
    assert(f + (g + l) == f + g + l);
}

/// What the line of an adapter begins with.
pub open spec fn adapter_head(i: nat) -> Text {
    "GPU["@ + dec(i) + "]: "@
}

proof fn lemma_adapter_line_begins(i: nat, g: Adapter, gb: Text)
    ensures
        begins(adapter_line(i, g, gb), adapter_head(i)),
{
    let rest = g.name + " ("@ + g.vendor + ", "@ + (if g.dedicated_memory > 0 {
        gb + " GB"@
    } else {
        "shared"@
    }) + ")"@;
    assert(adapter_line(i, g, gb) == adapter_head(i) + rest);
    lemma_begins_appended(adapter_head(i), rest);
}

proof fn lemma_adapter_heads_differ(line: Text, i: nat, j: nat)
    requires
        begins(line, adapter_head(i)),
        begins(line, adapter_head(j)),
    ensures
        i == j,
{
    reveal_strlit("GPU[");
    reveal_strlit("]: ");
    lemma_dec_reads_back(i);
    lemma_dec_reads_back(j);
    let a = dec(i);
    let b = dec(j);
    let (m, n) = (a.len() as int, b.len() as int);
    assert(forall|k: int| 0 <= k < m ==> line[4 + k] == #[trigger] a[k]) by {
        assert forall|k: int| 0 <= k < m implies line[4 + k] == #[trigger] a[k] by {
            assert(line.take(adapter_head(i).len() as int)[4 + k] == adapter_head(i)[4 + k]);
        }
    }
    assert(forall|k: int| 0 <= k < n ==> line[4 + k] == #[trigger] b[k]) by {
        assert forall|k: int| 0 <= k < n implies line[4 + k] == #[trigger] b[k] by {
            assert(line.take(adapter_head(j).len() as int)[4 + k] == adapter_head(j)[4 + k]);
        }
    }
    assert(line[4 + m] == ']') by {
        assert(line.take(adapter_head(i).len() as int)[4 + m] == adapter_head(i)[4 + m]);
    }
    assert(line[4 + n] == ']') by {
        assert(line.take(adapter_head(j).len() as int)[4 + n] == adapter_head(j)[4 + n]);
    }
    if m < n {
        assert(is_digit(b[m]));
    } else if n < m {
        assert(is_digit(a[n]));
    }
    assert(a == b);
}

proof fn lemma_no_adapter_head(word: Text, rest: Text, i: nat)
    requires
        word.len() > 0,
        word[0] != 'G',
    ensures
        !begins(word + rest, adapter_head(i)),
{
    reveal_strlit("GPU[");
    if begins(word + rest, adapter_head(i)) {
        assert((word + rest).take(adapter_head(i).len() as int)[0] == adapter_head(i)[0]);
    }
}

proof fn lemma_other_lines(info: HardwareInfo, sizes: Sizes, i: nat)
    ensures
        forall|k: int| 0 <= k < 7 ==> !begins(#[trigger] first_lines(info, sizes)[k], adapter_head(i)),
        forall|k: int| 0 <= k < 3 ==> !begins(#[trigger] last_lines(info)[k], adapter_head(i)),
{
    let f = first_lines(info, sizes);
    let l = last_lines(info);
    reveal_strlit("═══ Yidika Hardware Info ═══");
    reveal_strlit("OS:      ");
    reveal_strlit("CPU:     ");
    reveal_strlit("Cores:   ");
    reveal_strlit("Cache:   L1=");
    reveal_strlit("SIMD:    ");
    reveal_strlit("RAM:     ");
    reveal_strlit("Opt:     ");
    reveal_strlit("Mode:    ");
    reveal_strlit("═══════════════════════════════");
    assert forall|k: int| 0 <= k < 7 implies !begins(#[trigger] f[k], adapter_head(i)) by {
        lemma_no_adapter_head(f[k], Seq::<char>::empty(), i);
        assert(f[k] + Seq::<char>::empty() == f[k]);
    }
    assert forall|k: int| 0 <= k < 3 implies !begins(#[trigger] l[k], adapter_head(i)) by {
        lemma_no_adapter_head(l[k], Seq::<char>::empty(), i);
        assert(l[k] + Seq::<char>::empty() == l[k]);
    }
}

/// The description of a machine whose texts hold no line feed has one line for each adapter, in order,
/// and no other line that begins like it; behind them comes the recommended optimisation level, and
/// then whether the machine has one core or several.
pub proof fn lemma_description_lines(info: HardwareInfo, sizes: Sizes)
    requires
        fits_on_lines(info, sizes),
    ensures
        ({
            let all = pieces(info.description(sizes), "\n"@);
            let n = info.gpus@.len() as int;
            &&& all.len() == n + 10
            &&& forall|k: int, i: int|
                0 <= k < all.len() && 0 <= i < n ==> (#[trigger] begins(all[k], adapter_head(i as nat)) <==> k
                    == i + 7)
            &&& all[n + 7] == "Opt:     "@ + opt_note(info) + " recommended"@
            &&& begins(opt_note(info), opt_level(info))
            &&& all[n + 8] == "Mode:    "@ + mode_text(info)
            &&& mode_text(info) == "multi-core"@ <==> info.cpu.logical_cores > 1
            &&& mode_text(info) == "single-core"@ <==> info.cpu.logical_cores <= 1
        }),
{
    lemma_description_is_its_lines(info, sizes);
    let all = pieces(info.description(sizes), "\n"@);
    let gpus = gpu::views(info.gpus@);
    let gb = texts(sizes.gpu_gb@);
    let n = gpus.len() as int;
    assert forall|k: int, i: int| 0 <= k < all.len() && 0 <= i < n implies (#[trigger] begins(
        all[k],
        adapter_head(i as nat),
    ) <==> k == i + 7) by {
        lemma_other_lines(info, sizes, i as nat);
        if k < 7 {
            assert(all[k] == first_lines(info, sizes)[k]);
        } else if k < n + 7 {
            let j = (k - 7) as nat;
            assert(all[k] == adapter_line(j, gpus[k - 7], adapter_size(gb, j)));
            lemma_adapter_line_begins(j, gpus[k - 7], adapter_size(gb, j));
            if begins(all[k], adapter_head(i as nat)) {
                lemma_adapter_heads_differ(all[k], i as nat, j);
            }
        } else {
            assert(all[k] == last_lines(info)[k - 7 - n]);
        }
    }
    assert(all[n + 7] == last_lines(info)[0]);
    assert(all[n + 8] == last_lines(info)[1]);
    assert(begins(opt_note(info), opt_level(info))) by {
        reveal_strlit("O2");
        reveal_strlit("O3");
        reveal_strlit("O2 (low RAM)");
        reveal_strlit("O3 (high RAM)");
        assert("O2 (low RAM)"@.take(2) == "O2"@);
        assert("O3 (high RAM)"@.take(2) == "O3"@);
        assert("O3"@.take(2) == "O3"@);
    }
    assert("multi-core"@ != "single-core"@) by {
        reveal_strlit("multi-core");
        reveal_strlit("single-core");
        assert("multi-core"@.len() != "single-core"@.len());
    }
}

} // verus!
