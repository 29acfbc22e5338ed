//! Processors.

use vstd::prelude::*;

use crate::scan::{begins, contains, holds, opt_text};
use crate::text::{owned, Text};

verus! {

// ---------------------------------------------------------------------------------------------
// The name that LLVM has for the processor
// ---------------------------------------------------------------------------------------------
/// Sets the name that LLVM has for the processor.
pub fn set_llvm_cpu_name(known: &mut Option<String>, name: &str)
    ensures
        opt_text(*final(known)) == Some(name@),
{
    *known = Some(owned(name));
}

/// The name that LLVM has for the processor, where it was set.
pub fn llvm_cpu_name(known: &Option<String>) -> (r: Option<String>)
    ensures
        opt_text(r) == opt_text(*known),
{
    match known {
        Some(name) => Some(name.clone()),
        None => None,
    }
}

// ---------------------------------------------------------------------------------------------
// Vector features
// ---------------------------------------------------------------------------------------------
/// The vector extensions that a processor has.
#[derive(Clone, Debug)]
pub struct SimdCapabilities {
    pub sse: bool,
    pub sse2: bool,
    pub sse3: bool,
    pub ssse3: bool,
    pub sse4_1: bool,
    pub sse4_2: bool,
    pub avx: bool,
    pub avx2: bool,
    pub avx512: bool,
    pub neon: bool,
    pub sve: bool,
    pub amx: bool,
}

/// String slices as texts.
pub open spec fn str_texts(list: Seq<&'static str>) -> Seq<Text> {
    list.map_values(|s: &'static str| s@)
}

/// `list`, with `feature` behind it where `on` holds.
pub open spec fn with_feature(list: Seq<Text>, on: bool, feature: Text) -> Seq<Text> {
    if on {
        list.push(feature)
    } else {
        list
    }
}

fn add_feature(list: Vec<&'static str>, on: bool, feature: &'static str) -> (r: Vec<&'static str>)
    ensures
        str_texts(r@) == with_feature(str_texts(list@), on, feature@),
{
    let mut r = list;
    let ghost before = r@;
    if on {
        r.push(feature);
        assert(str_texts(r@) == str_texts(before).push(feature@));
    }
    r
}

impl SimdCapabilities {
    /// The best vector extension.
    pub open spec fn best(self) -> Text {
        if self.avx512 {
            "avx512"@
        } else if self.avx2 {
            "avx2"@
        } else if self.avx {
            "avx"@
        } else if self.sse4_2 {
            "sse4.2"@
        } else if self.neon {
            "neon"@
        } else {
            "baseline"@
        }
    }

    /// The best vector extension.
    pub fn best_feature_string(&self) -> (r: &'static str)
        ensures
            r@ == self.best(),
    {
        if self.avx512 {
            "avx512"
        } else if self.avx2 {
            "avx2"
        } else if self.avx {
            "avx"
        } else if self.sse4_2 {
            "sse4.2"
        } else if self.neon {
            "neon"
        } else {
            "baseline"
        }
    }

    /// The features that the processor has, as LLVM writes them.
    pub open spec fn present(self) -> Seq<Text> {
        let f = with_feature(seq![], self.sse, "+sse"@);
        let f = with_feature(f, self.sse2, "+sse2"@);
        let f = with_feature(f, self.sse3, "+sse3"@);
        let f = with_feature(f, self.ssse3, "+ssse3"@);
        let f = with_feature(f, self.sse4_1, "+sse4.1"@);
        let f = with_feature(f, self.sse4_2, "+sse4.2"@);
        let f = with_feature(f, self.avx, "+avx"@);
        let f = with_feature(f, self.avx2, "+avx2"@);
        let f = with_feature(f, self.avx512, "+avx512f"@);
        let f = with_feature(f, self.neon, "+neon"@);
        with_feature(f, self.sve, "+sve"@)
    }

    /// The features to compile for: those that the processor has, or the baseline where it has none.
    pub open spec fn features(self) -> Seq<Text> {
        if self.present().len() == 0 {
            seq!["+sse2"@]
        } else {
            self.present()
        }
    }

    /// The features to compile for.
    pub fn to_llvm_features(&self) -> (r: Vec<&'static str>)
        ensures
            str_texts(r@) == self.features(),
            r@.len() > 0,
    {
        let f: Vec<&'static str> = Vec::new();
        assert(str_texts(f@) == Seq::<Text>::empty());
        let f = add_feature(f, self.sse, "+sse");
        let f = add_feature(f, self.sse2, "+sse2");
        let f = add_feature(f, self.sse3, "+sse3");
        let f = add_feature(f, self.ssse3, "+ssse3");
        let f = add_feature(f, self.sse4_1, "+sse4.1");
        let f = add_feature(f, self.sse4_2, "+sse4.2");
        let f = add_feature(f, self.avx, "+avx");
        let f = add_feature(f, self.avx2, "+avx2");
        let f = add_feature(f, self.avx512, "+avx512f");
        let f = add_feature(f, self.neon, "+neon");
        let mut f = add_feature(f, self.sve, "+sve");
        assert(str_texts(f@).len() == f@.len());
        if f.len() == 0 {
            f.push("+sse2");
            assert(str_texts(f@) == seq!["+sse2"@]);
        }
        f
    }
}

/// Every feature to compile for begins with a plus sign, and there is at least one.
pub proof fn lemma_features_are_switched_on(simd: SimdCapabilities)
    ensures
        simd.features().len() > 0,
        forall|i: int| 0 <= i < simd.features().len() ==> begins(#[trigger] simd.features()[i], "+"@),
{
    reveal_strlit("+");
    reveal_strlit("+sse");
    reveal_strlit("+sse2");
    reveal_strlit("+sse3");
    reveal_strlit("+ssse3");
    reveal_strlit("+sse4.1");
    reveal_strlit("+sse4.2");
    reveal_strlit("+avx");
    reveal_strlit("+avx2");
    reveal_strlit("+avx512f");
    reveal_strlit("+neon");
    reveal_strlit("+sve");
    assert("+sse"@.take(1) == "+"@);
    assert("+sse2"@.take(1) == "+"@);
    assert("+sse3"@.take(1) == "+"@);
    assert("+ssse3"@.take(1) == "+"@);
    assert("+sse4.1"@.take(1) == "+"@);
    assert("+sse4.2"@.take(1) == "+"@);
    assert("+avx"@.take(1) == "+"@);
    assert("+avx2"@.take(1) == "+"@);
    assert("+avx512f"@.take(1) == "+"@);
    assert("+neon"@.take(1) == "+"@);
    assert("+sve"@.take(1) == "+"@);
}

// ---------------------------------------------------------------------------------------------
// What is read of the processor
// ---------------------------------------------------------------------------------------------
/// A processor: its names, its cores, its caches in bytes and its vector extensions.
#[derive(Clone, Debug)]
pub struct CpuInfo {
    pub name: String,
    pub vendor: String,
    pub physical_cores: u32,
    pub logical_cores: u32,
    pub cache_l1: Option<u64>,
    pub cache_l2: Option<u64>,
    pub cache_l3: Option<u64>,
    pub simd: SimdCapabilities,
    pub arch: String,
}

/// The four registers that one question to an x86 processor fills.
#[derive(Clone, Copy, Debug)]
pub struct Leaf {
    pub eax: u32,
    pub ebx: u32,
    pub ecx: u32,
    pub edx: u32,
}

/// The answers of a processor: of an x86 one on its vendor, its features, its extended features and
/// its caches; of an ARM one whether it was compiled for scalable vectors.
#[derive(Clone, Copy, Debug)]
pub enum Registers {
    X86 { vendor: Leaf, features: Leaf, extended: Leaf, l1: Leaf, l2: Leaf },
    Arm { sve: bool },
    Other,
}

/// What is read of a processor.
pub struct CpuProbe {
    /// The name of the architecture.
    pub arch: String,
    /// How many threads run at once, where the system tells.
    pub parallelism: Option<u32>,
    /// The name that LLVM has for the processor, where it is known.
    pub llvm_name: Option<String>,
    pub registers: Registers,
}

/// Bit `n` of `x` is set.
pub open spec fn has_bit(x: u32, n: u32) -> bool {
    x & (1u32 << n) != 0
}

/// The vector features that the registers of an x86 processor tell of. The extended ones count only
/// where it has AVX.
pub open spec fn x86_simd(features: Leaf, extended: Leaf) -> SimdCapabilities {
    let avx = has_bit(features.ecx, 28);
    SimdCapabilities {
        sse: has_bit(features.edx, 25),
        sse2: has_bit(features.edx, 26),
        sse3: has_bit(features.ecx, 0),
        ssse3: has_bit(features.ecx, 9),
        sse4_1: has_bit(features.ecx, 19),
        sse4_2: has_bit(features.ecx, 20),
        avx,
        avx2: avx && has_bit(extended.ebx, 5),
        avx512: avx && has_bit(extended.ebx, 16),
        neon: false,
        sve: false,
        amx: false,
    }
}

/// No vector features but those of ARM.
pub open spec fn arm_simd(neon: bool, sve: bool) -> SimdCapabilities {
    SimdCapabilities {
        sse: false,
        sse2: false,
        sse3: false,
        ssse3: false,
        sse4_1: false,
        sse4_2: false,
        avx: false,
        avx2: false,
        avx512: false,
        neon,
        sve,
        amx: false,
    }
}

/// The vector features that the registers tell of.
pub open spec fn simd_of(registers: Registers) -> SimdCapabilities {
    match registers {
        Registers::X86 { features, extended, .. } => x86_simd(features, extended),
        Registers::Arm { sve } => arm_simd(true, sve),
        Registers::Other => arm_simd(false, false),
    }
}

/// The vector features that the registers tell of.
pub fn detect_simd(registers: Registers) -> (r: SimdCapabilities)
    ensures
        r == simd_of(registers),
{
    match registers {
        Registers::X86 { features, extended, .. } => {
            let avx = features.ecx & (1u32 << 28) != 0;
            SimdCapabilities {
                sse: features.edx & (1u32 << 25) != 0,
                sse2: features.edx & (1u32 << 26) != 0,
                sse3: features.ecx & (1u32 << 0) != 0,
                ssse3: features.ecx & (1u32 << 9) != 0,
                sse4_1: features.ecx & (1u32 << 19) != 0,
                sse4_2: features.ecx & (1u32 << 20) != 0,
                avx,
                avx2: avx && extended.ebx & (1u32 << 5) != 0,
                avx512: avx && extended.ebx & (1u32 << 16) != 0,
                neon: false,
                sve: false,
                amx: false,
            }
        },
        Registers::Arm { sve } => arm_features(true, sve),
        Registers::Other => arm_features(false, false),
    }
}

fn arm_features(neon: bool, sve: bool) -> (r: SimdCapabilities)
    ensures
        r == arm_simd(neon, sve),
{
    SimdCapabilities {
        sse: false,
        sse2: false,
        sse3: false,
        ssse3: false,
        sse4_1: false,
        sse4_2: false,
        avx: false,
        avx2: false,
        avx512: false,
        neon,
        sve,
        amx: false,
    }
}

/// The sizes of the caches in bytes: the registers give the first two in KB, the third in half MB.
pub open spec fn caches_of(registers: Registers) -> (Option<u64>, Option<u64>, Option<u64>) {
    match registers {
        Registers::X86 { l1, l2, .. } => {
            let third = (((l2.edx >> 18) & 0xFFFF) * 524288) as u64;
            (
                if l1.eax != 0 {
                    Some((((l1.ecx >> 24) & 0xFF) * 1024) as u64)
                } else {
                    None
                },
                Some((((l2.ecx >> 16) & 0xFFFF) * 1024) as u64),
                if third > 0 {
                    Some(third)
                } else {
                    None
                },
            )
        },
        _ => (None, None, None),
    }
}

/// The sizes of the caches in bytes.
pub fn cache_info(registers: Registers) -> (r: (Option<u64>, Option<u64>, Option<u64>))
    ensures
        r == caches_of(registers),
{
    match registers {
        Registers::X86 { l1, l2, .. } => {
            let a = l1.ecx;
            let b = l2.ecx;
            let c = l2.edx;
            assert((a >> 24) & 0xFF <= 0xFF) by (bit_vector);
            assert((b >> 16) & 0xFFFF <= 0xFFFF) by (bit_vector);
            assert((c >> 18) & 0xFFFF <= 0xFFFF) by (bit_vector);
            let first: Option<u64> = if l1.eax != 0 {
                Some(((a >> 24) & 0xFF) as u64 * 1024)
            } else {
                None
            };
            let second: Option<u64> = Some(((b >> 16) & 0xFFFF) as u64 * 1024);
            let size: u64 = ((c >> 18) & 0xFFFF) as u64 * 524288;
            let third: Option<u64> = if size > 0 {
                Some(size)
            } else {
                None
            };
            (first, second, third)
        },
        _ => (None, None, None),
    }
}

// ---------------------------------------------------------------------------------------------
// The vendor
// ---------------------------------------------------------------------------------------------
/// What `String::from_utf8_lossy` makes of bytes.
pub uninterp spec fn utf8_lossy(bytes: Seq<u8>) -> Seq<char>;

/// `String::from_utf8_lossy`, as an owned string: the bytes read as UTF-8, with a mark for every part
/// that is none. Of bytes that are all ASCII the documentation gives the result, one character for
/// each; the rest stays behind the name [`utf8_lossy`].
#[verifier::external_body]
pub(crate) fn from_utf8_lossy(bytes: &Vec<u8>) -> (r: String)
    ensures
        r@ == utf8_lossy(bytes@),
        (forall|i: int| 0 <= i < bytes@.len() ==> bytes@[i] < 128) ==> r@ == Seq::new(
            bytes@.len(),
            |i: int| bytes@[i] as char,
        ),
{
    String::from_utf8_lossy(bytes).into_owned()
}

/// Byte `n` of `x`, counted from the lowest.
pub open spec fn byte_of(x: u32, n: u32) -> u8 {
    ((x >> (8 * n) as u32) & 0xFF) as u8
}

/// The twelve bytes of a vendor name.
pub open spec fn vendor_bytes(leaf: Leaf) -> Seq<u8> {
    seq![
        byte_of(leaf.ebx, 0),
        byte_of(leaf.ebx, 1),
        byte_of(leaf.ebx, 2),
        byte_of(leaf.ebx, 3),
        byte_of(leaf.edx, 0),
        byte_of(leaf.edx, 1),
        byte_of(leaf.edx, 2),
        byte_of(leaf.edx, 3),
        byte_of(leaf.ecx, 0),
        byte_of(leaf.ecx, 1),
        byte_of(leaf.ecx, 2),
        byte_of(leaf.ecx, 3),
    ]
}

/// The vendor that a text names: one of the two well-known ones, or the text itself.
pub open spec fn vendor_in(text: Text) -> Text {
    if holds(text, "GenuineIntel"@) {
        "GenuineIntel"@
    } else if holds(text, "AuthenticAMD"@) {
        "AuthenticAMD"@
    } else {
        text
    }
}

/// The vendor that a text names.
pub fn known_vendor(text: &str) -> (r: String)
    ensures
        r@ == vendor_in(text@),
{
    if contains(text, "GenuineIntel") {
        owned("GenuineIntel")
    } else if contains(text, "AuthenticAMD") {
        owned("AuthenticAMD")
    } else {
        owned(text)
    }
}

/// The vendor of a processor.
pub open spec fn vendor_of(registers: Registers) -> Text {
    match registers {
        Registers::X86 { vendor, .. } => vendor_in(utf8_lossy(vendor_bytes(vendor))),
        _ => "generic"@,
    }
}

fn byte_at(x: u32, n: u32) -> (r: u8)
    requires
        n < 4,
    ensures
        r == byte_of(x, n),
{
    ((x >> (8 * n)) & 0xFF) as u8
}

/// The vendor of a processor.
pub fn vendor_name(registers: Registers) -> (r: String)
    ensures
        r@ == vendor_of(registers),
{
    match registers {
        Registers::X86 { vendor, .. } => {
            let bytes: Vec<u8> = vec![
                byte_at(vendor.ebx, 0),
                byte_at(vendor.ebx, 1),
                byte_at(vendor.ebx, 2),
                byte_at(vendor.ebx, 3),
                byte_at(vendor.edx, 0),
                byte_at(vendor.edx, 1),
                byte_at(vendor.edx, 2),
                byte_at(vendor.edx, 3),
                byte_at(vendor.ecx, 0),
                byte_at(vendor.ecx, 1),
                byte_at(vendor.ecx, 2),
                byte_at(vendor.ecx, 3),
            ];
            assert(bytes@ == vendor_bytes(vendor));
            known_vendor(&from_utf8_lossy(&bytes))
        },
        _ => owned("generic"),
    }
}

// ---------------------------------------------------------------------------------------------
// Detection
// ---------------------------------------------------------------------------------------------
/// How many threads run at once; one where the system does not tell.
pub open spec fn threads(parallelism: Option<u32>) -> u32 {
    match parallelism {
        Some(n) => n,
        None => 1,
    }
}

/// `info` is what follows from a probe, whatever the number of physical cores is.
pub open spec fn follows_cpu_probe(info: CpuInfo, probe: CpuProbe) -> bool {
    &&& info.name@ == (match opt_text(probe.llvm_name) {
        Some(name) => name,
        None => probe.arch@,
    })
    &&& info.vendor@ == vendor_of(probe.registers)
    &&& info.logical_cores == threads(probe.parallelism)
    &&& (info.cache_l1, info.cache_l2, info.cache_l3) == caches_of(probe.registers)
    &&& info.simd == simd_of(probe.registers)
    &&& info.arch@ == probe.arch@
}

/// What is known of a processor; every thread counts as a core of its own.
pub fn detect(probe: &CpuProbe) -> (r: CpuInfo)
    ensures
        follows_cpu_probe(r, *probe),
        r.physical_cores == r.logical_cores,
{
    let logical = match probe.parallelism {
        Some(n) => n,
        None => 1,
    };
    let name = match llvm_cpu_name(&probe.llvm_name) {
        Some(name) => name,
        None => probe.arch.clone(),
    };
    let (cache_l1, cache_l2, cache_l3) = cache_info(probe.registers);
    CpuInfo {
        name,
        vendor: vendor_name(probe.registers),
        physical_cores: logical,
        logical_cores: logical,
        cache_l1,
        cache_l2,
        cache_l3,
        simd: detect_simd(probe.registers),
        arch: probe.arch.clone(),
    }
}

// ---------------------------------------------------------------------------------------------
// What a processor has
// ---------------------------------------------------------------------------------------------
proof fn lemma_with_feature(list: Seq<Text>, on: bool, feature: Text, x: Text)
    ensures
        with_feature(list, on, feature).contains(x) <==> list.contains(x) || (on && x == feature),
        with_feature(list, on, feature).len() == 0 <==> list.len() == 0 && !on,
{
    let all = with_feature(list, on, feature);
    if on {
        assert(all[list.len() as int] == feature);
        if list.contains(x) {
            let i = choose|i: int| 0 <= i < list.len() && list[i] == x;
            assert(all[i] == x);
        }
        if all.contains(x) {
            let i = choose|i: int| 0 <= i < all.len() && all[i] == x;
            if i < list.len() {
                assert(list[i] == x);
            }
        }
    }
}

/// A program is compiled for exactly the features that the processor has; for the second SSE where it has none of them.
pub proof fn lemma_features_are_those_present(simd: SimdCapabilities, x: Text)
    ensures
        ({
            let f = simd.features();
            let any = simd.sse || simd.sse2 || simd.sse3 || simd.ssse3 || simd.sse4_1 || simd.sse4_2 || simd.avx
                || simd.avx2 || simd.avx512 || simd.neon || simd.sve;
            f.contains(x) <==> {
                ||| x == "+sse"@ && simd.sse
                ||| x == "+sse2"@ && (simd.sse2 || !any)
                ||| x == "+sse3"@ && simd.sse3
                ||| x == "+ssse3"@ && simd.ssse3
                ||| x == "+sse4.1"@ && simd.sse4_1
                ||| x == "+sse4.2"@ && simd.sse4_2
                ||| x == "+avx"@ && simd.avx
                ||| x == "+avx2"@ && simd.avx2
                ||| x == "+avx512f"@ && simd.avx512
                ||| x == "+neon"@ && simd.neon
                ||| x == "+sve"@ && simd.sve
            }
        }),
{
    let f0 = Seq::<Text>::empty();
    let f1 = with_feature(f0, simd.sse, "+sse"@);
    lemma_with_feature(f0, simd.sse, "+sse"@, x);
    let f2 = with_feature(f1, simd.sse2, "+sse2"@);
    lemma_with_feature(f1, simd.sse2, "+sse2"@, x);
    let f3 = with_feature(f2, simd.sse3, "+sse3"@);
    lemma_with_feature(f2, simd.sse3, "+sse3"@, x);
    let f4 = with_feature(f3, simd.ssse3, "+ssse3"@);
    lemma_with_feature(f3, simd.ssse3, "+ssse3"@, x);
    let f5 = with_feature(f4, simd.sse4_1, "+sse4.1"@);
    lemma_with_feature(f4, simd.sse4_1, "+sse4.1"@, x);
    let f6 = with_feature(f5, simd.sse4_2, "+sse4.2"@);
    lemma_with_feature(f5, simd.sse4_2, "+sse4.2"@, x);
    let f7 = with_feature(f6, simd.avx, "+avx"@);
    lemma_with_feature(f6, simd.avx, "+avx"@, x);
    let f8 = with_feature(f7, simd.avx2, "+avx2"@);
    lemma_with_feature(f7, simd.avx2, "+avx2"@, x);
    let f9 = with_feature(f8, simd.avx512, "+avx512f"@);
    lemma_with_feature(f8, simd.avx512, "+avx512f"@, x);
    let f10 = with_feature(f9, simd.neon, "+neon"@);
    lemma_with_feature(f9, simd.neon, "+neon"@, x);
    let f11 = with_feature(f10, simd.sve, "+sve"@);
    lemma_with_feature(f10, simd.sve, "+sve"@, x);
    assert(f11 == simd.present());
    let one = seq!["+sse2"@];
    assert(one[0] == "+sse2"@);
}

/// The best vector extension is the widest one that the processor has.
pub proof fn lemma_best_is_widest(simd: SimdCapabilities)
    ensures
        simd.best() == "avx512"@ <==> simd.avx512,
        simd.best() == "avx2"@ <==> simd.avx2 && !simd.avx512,
        simd.best() == "avx"@ <==> simd.avx && !simd.avx2 && !simd.avx512,
        simd.best() == "sse4.2"@ <==> simd.sse4_2 && !simd.avx && !simd.avx2 && !simd.avx512,
        simd.best() == "neon"@ <==> simd.neon && !simd.sse4_2 && !simd.avx && !simd.avx2 && !simd.avx512,
        simd.best() == "baseline"@ <==> !simd.neon && !simd.sse4_2 && !simd.avx && !simd.avx2 && !simd.avx512,
{
    reveal_strlit("avx512");
    reveal_strlit("avx2");
    reveal_strlit("avx");
    reveal_strlit("sse4.2");
    reveal_strlit("neon");
    reveal_strlit("baseline");
    assert("avx512"@.len() == 6 && "avx2"@.len() == 4 && "avx"@.len() == 3 && "sse4.2"@.len() == 6 && "neon"@.len() == 4
        && "baseline"@.len() == 8);
    assert("avx512"@[0] == 'a' && "sse4.2"@[0] == 's');
    assert("avx2"@[0] == 'a' && "neon"@[0] == 'n');
}

proof fn lemma_bits(x: u32)
    ensures
        has_bit(x, 0) <==> x % 2 == 1,
        has_bit(x, 5) <==> (x / 0x20) % 2 == 1,
        has_bit(x, 9) <==> (x / 0x200) % 2 == 1,
        has_bit(x, 16) <==> (x / 0x1_0000) % 2 == 1,
        has_bit(x, 19) <==> (x / 0x8_0000) % 2 == 1,
        has_bit(x, 20) <==> (x / 0x10_0000) % 2 == 1,
        has_bit(x, 25) <==> (x / 0x200_0000) % 2 == 1,
        has_bit(x, 26) <==> (x / 0x400_0000) % 2 == 1,
        has_bit(x, 28) <==> (x / 0x1000_0000) % 2 == 1,
{
    assert(x & (1u32 << 0) != 0 <==> x % 2 == 1) by (bit_vector);
    assert(x & (1u32 << 5) != 0 <==> (x / 0x20) % 2 == 1) by (bit_vector);
    assert(x & (1u32 << 9) != 0 <==> (x / 0x200) % 2 == 1) by (bit_vector);
    assert(x & (1u32 << 16) != 0 <==> (x / 0x1_0000) % 2 == 1) by (bit_vector);
    assert(x & (1u32 << 19) != 0 <==> (x / 0x8_0000) % 2 == 1) by (bit_vector);
    assert(x & (1u32 << 20) != 0 <==> (x / 0x10_0000) % 2 == 1) by (bit_vector);
    assert(x & (1u32 << 25) != 0 <==> (x / 0x200_0000) % 2 == 1) by (bit_vector);
    assert(x & (1u32 << 26) != 0 <==> (x / 0x400_0000) % 2 == 1) by (bit_vector);
    assert(x & (1u32 << 28) != 0 <==> (x / 0x1000_0000) % 2 == 1) by (bit_vector);
}

/// Which digits of its registers tell the features of an x86 processor. The two wide extensions count only beside AVX.
pub proof fn lemma_x86_features(vendor: Leaf, features: Leaf, extended: Leaf, l1: Leaf, l2: Leaf)
    ensures
        ({
            let s = simd_of(Registers::X86 { vendor, features, extended, l1, l2 });
            let c = features.ecx;
            let d = features.edx;
            let b = extended.ebx;
            &&& s.sse3 <==> c % 2 == 1
            &&& s.ssse3 <==> (c / 0x200) % 2 == 1
            &&& s.sse4_1 <==> (c / 0x8_0000) % 2 == 1
            &&& s.sse4_2 <==> (c / 0x10_0000) % 2 == 1
            &&& s.avx <==> (c / 0x1000_0000) % 2 == 1
            &&& s.sse <==> (d / 0x200_0000) % 2 == 1
            &&& s.sse2 <==> (d / 0x400_0000) % 2 == 1
            &&& s.avx2 <==> s.avx && (b / 0x20) % 2 == 1
            &&& s.avx512 <==> s.avx && (b / 0x1_0000) % 2 == 1
            &&& !s.neon && !s.sve && !s.amx
        }),
{
    lemma_bits(features.ecx);
    lemma_bits(features.edx);
    lemma_bits(extended.ebx);
}

} // verus!
