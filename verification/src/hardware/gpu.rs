//! Graphics adapters.

use vstd::prelude::*;

use crate::scan::{
    contains, holds, lines, lines_of, opt_text, parse_number, parsed, pieces, split, texts, trim, trimmed,
};
use crate::text::{owned, same, Text};

verus! {

/// A graphics adapter; `dedicated_memory` is the memory of its own, in bytes.
#[derive(Clone, Debug)]
pub struct GpuInfo {
    pub name: String,
    pub vendor: String,
    pub dedicated_memory: u64,
    pub api_type: String,
}

/// A graphics adapter.
pub struct Adapter {
    pub name: Text,
    pub vendor: Text,
    pub dedicated_memory: nat,
    pub api_type: Text,
}

impl View for GpuInfo {
    type V = Adapter;

    open spec fn view(&self) -> Adapter {
        Adapter {
            name: self.name@,
            vendor: self.vendor@,
            dedicated_memory: self.dedicated_memory as nat,
            api_type: self.api_type@,
        }
    }
}

/// A list of adapters.
pub open spec fn views(list: Seq<GpuInfo>) -> Seq<Adapter> {
    list.map_values(|g: GpuInfo| g@)
}

// ---------------------------------------------------------------------------------------------
// The listing of Windows
// ---------------------------------------------------------------------------------------------
/// The memory in the fourth column of a line; zero where it holds no number.
pub open spec fn memory_column(columns: Seq<Text>) -> nat {
    if columns.len() > 3 {
        match parsed(trimmed(columns[3]), u64::MAX as nat) {
            Some(n) => n,
            None => 0,
        }
    } else {
        0
    }
}

/// The adapter that a line of comma-separated values lists: the second column is its name, the third
/// its vendor. A line with fewer columns, or without a name, lists none.
pub open spec fn csv_adapter(line: Text) -> Option<Adapter> {
    let columns = pieces(line, ","@);
    if columns.len() >= 3 && trimmed(columns[1]) != ""@ {
        Some(
            Adapter {
                name: trimmed(columns[1]),
                vendor: trimmed(columns[2]),
                dedicated_memory: memory_column(columns),
                api_type: "DirectX"@,
            },
        )
    } else {
        None
    }
}

/// The adapters that lines list.
pub open spec fn csv_adapters(lines: Seq<Text>) -> Seq<Adapter>
    decreases lines.len(),
{
    if lines.len() == 0 {
        seq![]
    } else {
        match csv_adapter(lines.last()) {
            Some(a) => csv_adapters(lines.drop_last()).push(a),
            None => csv_adapters(lines.drop_last()),
        }
    }
}

/// The lines behind the first one.
pub open spec fn behind_first(lines: Seq<Text>) -> Seq<Text> {
    if lines.len() == 0 {
        seq![]
    } else {
        lines.skip(1)
    }
}

fn read_csv_line(line: &str) -> (r: Option<GpuInfo>)
    ensures
        match r {
            Some(g) => csv_adapter(line@) == Some(g@),
            None => csv_adapter(line@) is None,
        },
{
    proof {
        reveal_strlit(",");
    }
    let columns = split(line, ",");
    let ghost model = texts(columns@);
    if columns.len() >= 3 {
        assert(model[1] == columns@[1]@);
        assert(model[2] == columns@[2]@);
        let name = trim(&columns[1]);
        let vendor = trim(&columns[2]);
        let dedicated_memory: u64 = if columns.len() > 3 {
            assert(model[3] == columns@[3]@);
            match parse_number(&trim(&columns[3]), u64::MAX) {
                Some(n) => n,
                None => 0,
            }
        } else {
            0
        };
        if same(&name, "") {
            None
        } else {
            Some(GpuInfo { name, vendor, dedicated_memory, api_type: owned("DirectX") })
        }
    } else {
        None
    }
}

/// The adapters in the output of `wmic`: a head line, then comma-separated values.
pub fn detect_windows_dxdiag(stdout: &str) -> (r: Vec<GpuInfo>)
    ensures
        views(r@) == csv_adapters(behind_first(lines_of(stdout@))),
{
    let all = lines(stdout);
    let ghost model = behind_first(texts(all@));
    let mut r: Vec<GpuInfo> = Vec::new();
    assert(views(r@) == csv_adapters(model.take(0)));
    let mut i: usize = 1;
    while i < all.len()
        invariant
            model == behind_first(texts(all@)),
            1 <= i,
            all@.len() > 0 ==> i <= all@.len(),
            all@.len() == 0 ==> i == 1 && model.len() == 0,
            views(r@) == csv_adapters(model.take(i - 1)),
        decreases all.len() - i,
    {
        let ghost before = r@;
        assert(model[i - 1] == all@[i as int]@);
        assert(model.take(i as int).drop_last() == model.take(i - 1));
        match read_csv_line(&all[i]) {
            Some(g) => {
                let ghost one = g@;
                r.push(g);
                assert(views(r@) == views(before).push(one));
            },
            None => {},
        }
        i += 1;
    }
    assert(model.take(i - 1) == model);
    r
}

// ---------------------------------------------------------------------------------------------
// The listing of Linux
// ---------------------------------------------------------------------------------------------
/// A line on a display adapter.
pub open spec fn is_display(line: Text) -> bool {
    holds(line, "VGA"@) || holds(line, "3D"@)
}

/// The adapter that is described behind a line, `current` being the one before: the text between the
/// first two quotes of a line on a display adapter.
pub open spec fn adapter_named(line: Text, current: Text) -> Text {
    if is_display(line) && pieces(line, "\""@).len() >= 3 {
        pieces(line, "\""@)[1]
    } else {
        current
    }
}

/// The adapters that lines list, and the name of one that is begun and not listed yet. An adapter is
/// listed once a line tells where its memory is.
pub open spec fn listed(lines: Seq<Text>) -> (Seq<Adapter>, Text)
    decreases lines.len(),
{
    if lines.len() == 0 {
        (seq![], ""@)
    } else {
        let (list, before) = listed(lines.drop_last());
        let current = adapter_named(lines.last(), before);
        if holds(lines.last(), "Memory at"@) && current != ""@ {
            (
                list.push(
                    Adapter {
                        name: current,
                        vendor: current,
                        dedicated_memory: 0,
                        api_type: "Vulkan"@,
                    },
                ),
                ""@,
            )
        } else {
            (list, current)
        }
    }
}

fn name_adapter(line: &str, current: String) -> (r: String)
    ensures
        r@ == adapter_named(line@, current@),
{
    if contains(line, "VGA") || contains(line, "3D") {
        proof {
            reveal_strlit("\"");
        }
        let parts = split(line, "\"");
        if parts.len() >= 3 {
            assert(texts(parts@)[1] == parts@[1]@);
            return parts[1].clone();
        }
    }
    current
}

/// The adapters in the output of `lspci`.
pub fn detect_linux_lspci(stdout: &str) -> (r: Vec<GpuInfo>)
    ensures
        views(r@) == listed(lines_of(stdout@)).0,
{
    let all = lines(stdout);
    let ghost model = texts(all@);
    let mut r: Vec<GpuInfo> = Vec::new();
    let mut current = owned("");
    assert(views(r@) == Seq::<Adapter>::empty());
    let mut i: usize = 0;
    while i < all.len()
        invariant
            model == texts(all@),
            i <= all@.len(),
            (views(r@), current@) == listed(model.take(i as int)),
        decreases all.len() - i,
    {
        let ghost before = r@;
        assert(model[i as int] == all@[i as int]@);
        assert(model.take(i + 1).drop_last() == model.take(i as int));
        current = name_adapter(&all[i], current);
        if contains(&all[i], "Memory at") && !same(&current, "") {
            let g = GpuInfo {
                name: current.clone(),
                vendor: current.clone(),
                dedicated_memory: 0,
                api_type: owned("Vulkan"),
            };
            let ghost one = g@;
            r.push(g);
            assert(views(r@) == views(before).push(one));
            current = owned("");
        }
        i += 1;
    }
    assert(model.take(i as int) == model);
    r
}

// ---------------------------------------------------------------------------------------------
// Detection
// ---------------------------------------------------------------------------------------------
/// What stands for an adapter where none is found.
pub open spec fn no_adapter() -> Adapter {
    Adapter {
        name: "Unknown (no GPU detected)"@,
        vendor: "unknown"@,
        dedicated_memory: 0,
        api_type: "none"@,
    }
}

/// The adapters of a machine: those in the listing of Windows or, where there are none, in that of
/// Linux; where there are none in either, one that stands for them.
pub open spec fn detected(wmic: Option<Text>, lspci: Option<Text>) -> Seq<Adapter> {
    let first = match wmic {
        Some(out) => csv_adapters(behind_first(lines_of(out))),
        None => seq![],
    };
    let second = match lspci {
        Some(out) => if first.len() == 0 {
            listed(lines_of(out)).0
        } else {
            first
        },
        None => first,
    };
    if second.len() == 0 {
        seq![no_adapter()]
    } else {
        second
    }
}

/// The adapters of a machine; there is at least one.
pub fn detect(wmic: &Option<String>, lspci: &Option<String>) -> (r: Vec<GpuInfo>)
    ensures
        views(r@) == detected(opt_text(*wmic), opt_text(*lspci)),
        r@.len() > 0,
{
    let mut gpus = match wmic {
        Some(out) => detect_windows_dxdiag(out),
        None => Vec::new(),
    };
    assert(views(gpus@).len() == gpus@.len());
    assert(wmic is None ==> views(gpus@) == Seq::<Adapter>::empty());
    match lspci {
        Some(out) => {
            if gpus.len() == 0 {
                gpus = detect_linux_lspci(out);
            }
        },
        None => {},
    }
    assert(views(gpus@).len() == gpus@.len());
    if gpus.len() == 0 {
        gpus.push(
            GpuInfo {
                name: owned("Unknown (no GPU detected)"),
                vendor: owned("unknown"),
                dedicated_memory: 0,
                api_type: owned("none"),
            },
        );
        assert(views(gpus@) == seq![no_adapter()]);
    }
    gpus
}

/// Whether an adapter has memory of its own.
pub fn has_dedicated_gpu(gpus: &[GpuInfo]) -> (r: bool)
    ensures
        r == exists|i: int| 0 <= i < gpus@.len() && (#[trigger] gpus@[i]).dedicated_memory > 0,
{
    let mut i: usize = 0;
    while i < gpus.len()
        invariant
            i <= gpus@.len(),
            forall|j: int| 0 <= j < i ==> (#[trigger] gpus@[j]).dedicated_memory == 0,
        decreases gpus.len() - i,
    {
        if gpus[i].dedicated_memory > 0 {
            assert(gpus@[i as int].dedicated_memory > 0);
            return true;
        }
        i += 1;
    }
    false
}

/// The columns of a listed adapter: behind the first stand its name, its vendor and its memory, in that order.
pub proof fn lemma_columns(line: Text)
    ensures
        ({
            let columns = pieces(line, ","@);
            let listed = csv_adapter(line);
            &&& listed is Some <==> columns.len() >= 3 && trimmed(columns[1]).len() > 0
            &&& listed is Some ==> listed->0.name == trimmed(columns[1]) && listed->0.vendor == trimmed(columns[2])
                && listed->0.api_type == "DirectX"@
            &&& listed is Some && columns.len() > 3 && parsed(trimmed(columns[3]), u64::MAX as nat) is Some
                ==> Some(listed->0.dedicated_memory) == parsed(trimmed(columns[3]), u64::MAX as nat)
        }),
{
    reveal_strlit("");
    let columns = pieces(line, ","@);
    if trimmed(columns[1]).len() == 0 {
        assert(trimmed(columns[1]) == ""@);
    }
}

/// At least one adapter is told of, and what Windows lists is told of whatever Linux lists.
pub proof fn lemma_adapters_are_told(wmic: Option<Text>, lspci: Option<Text>)
    ensures
        detected(wmic, lspci).len() > 0,
        wmic is Some && csv_adapters(behind_first(lines_of(wmic->0))).len() > 0 ==> detected(wmic, lspci)
            == csv_adapters(behind_first(lines_of(wmic->0))),
        wmic is None && lspci is Some && listed(lines_of(lspci->0)).0.len() > 0 ==> detected(wmic, lspci) == listed(
            lines_of(lspci->0),
        ).0,
{
}

} // verus!
