//! Specs probe: assembling the static system report and reading the GPU
//! tool's CSV output. Sampling the machine is the caller's I/O; every
//! formatting and parsing step is specified here.

use vstd::prelude::*;

use crate::strutil::dec_digit;
use crate::strutil::dec_str;
use crate::strutil::digit_str;
use crate::strutil::parse_u64;
use crate::strutil::parse_u64_spec;
use crate::strutil::split_spec;
use crate::strutil::split_str;
use crate::strutil::str_eq;
use crate::strutil::trim;
use crate::strutil::trim_spec;
use crate::strutil::u64_to_dec;

verus! {

// ---------------------------------------------------------------------------
// Formatting
// ---------------------------------------------------------------------------

/// A byte count in tenths of a gibibyte, rounded.
pub open spec fn gb_tenths(bytes: int) -> int {
    (10 * bytes + 536870912) / 1073741824
}

/// A byte count as gibibytes with one decimal.
pub open spec fn gb_str(bytes: int) -> Seq<char> {
    dec_str((gb_tenths(bytes) / 10) as nat) + seq!['.'] + seq![dec_digit(gb_tenths(bytes) % 10)]
}

/// Render a byte count as gibibytes with one decimal.
pub fn format_bytes_gb(bytes: u64) -> (r: String)
    ensures
        r@ == gb_str(bytes as int),
{
    let num: u128 = 10u128 * (bytes as u128) + 536870912u128;
    proof {
        assert(num / 1073741824u128 < 0x1_0000_0000_0000_0000u128) by (nonlinear_arith)
            requires
                num < 1073741824u128 * 0x1_0000_0000_0000_0000u128,
        ;
    }
    let t: u64 = (num / 1073741824u128) as u64;
    let mut s = u64_to_dec(t / 10);
    s.append(".");
    s.append(digit_str(t % 10));
    proof {
        reveal_strlit(".");
        assert(s@ =~= gb_str(bytes as int));
    }
    s
}

/// Rounded RAM percentage of `used` out of `total`; a zero total reads as
/// zero.
pub open spec fn ram_percent_val(used: int, total: int) -> int {
    if total <= 0 {
        0
    } else {
        (200 * used + total) / (2 * total)
    }
}

/// The RAM percentage as shown: the rounded number and a percent sign.
pub open spec fn ram_percent_str(used: int, total: int) -> Seq<char> {
    dec_str(ram_percent_val(used, total) as nat) + seq!['%']
}

/// Render the rounded RAM percentage.
pub fn format_ram_percent(used: u64, total: u64) -> (r: String)
    requires
        used <= total,
    ensures
        r@ == ram_percent_str(used as int, total as int),
{
    if total == 0 {
        let mut s = u64_to_dec(0);
        s.append("%");
        proof {
            reveal_strlit("%");
            assert(s@ =~= ram_percent_str(used as int, total as int));
        }
        return s;
    }
    let num: u128 = 200u128 * (used as u128) + (total as u128);
    let den: u128 = 2u128 * (total as u128);
    proof {
        assert(num < 101 * den);
        assert(num / den < 101) by (nonlinear_arith)
            requires
                num < 101 * den,
                den > 0,
        ;
    }
    let v: u64 = (num / den) as u64;
    let mut s = u64_to_dec(v);
    s.append("%");
    proof {
        reveal_strlit("%");
        assert(s@ =~= ram_percent_str(used as int, total as int));
    }
    s
}

/// The platform name as shown to the user.
pub open spec fn os_name_spec(os: Seq<char>) -> Seq<char> {
    if os == "windows"@ {
        "Windows"@
    } else if os == "macos"@ {
        "macOS"@
    } else if os == "linux"@ {
        "Linux"@
    } else {
        os
    }
}

/// Map the compile-time platform tag to its display name.
pub fn os_display_name(os: &str) -> (r: String)
    ensures
        r@ == os_name_spec(os@),
{
    if str_eq(os, "windows") {
        "Windows".to_owned()
    } else if str_eq(os, "macos") {
        "macOS".to_owned()
    } else if str_eq(os, "linux") {
        "Linux".to_owned()
    } else {
        os.to_owned()
    }
}

// ---------------------------------------------------------------------------
// Reading the GPU tool's CSV output
// ---------------------------------------------------------------------------

/// The first output line, trimmed.
pub open spec fn first_line_trimmed(out: Seq<char>) -> Seq<char> {
    trim_spec(split_spec(out, '\n')[0])
}

/// The k-th comma field of the first line, trimmed; absent when the line
/// has fewer fields.
pub open spec fn csv_field(out: Seq<char>, k: int) -> Option<Seq<char>> {
    let parts = split_spec(first_line_trimmed(out), ',');
    if 0 <= k < parts.len() {
        Some(trim_spec(parts[k]))
    } else {
        None
    }
}

/// The GPU name the static probe reports from this output.
pub open spec fn gpu_name_spec(out: Seq<char>) -> Seq<char> {
    if first_line_trimmed(out).len() == 0 {
        "No GPU"@
    } else {
        match csv_field(out, 0) {
            Some(n) => n,
            None => ""@,
        }
    }
}

/// The GPU memory text the static probe reports from this output.
pub open spec fn gpu_mem_spec(out: Seq<char>) -> Seq<char> {
    if first_line_trimmed(out).len() == 0 {
        ""@
    } else {
        let m = match csv_field(out, 1) {
            Some(m) => m,
            None => ""@,
        };
        if m.len() == 0 {
            m
        } else {
            m + " MB"@
        }
    }
}

/// Read name and memory from the GPU tool's `name,memory.total` output.
pub fn parse_gpu_info(out: &str) -> (r: (String, String))
    ensures
        r.0@ == gpu_name_spec(out@),
        r.1@ == gpu_mem_spec(out@),
{
    let lines = split_str(out, '\n');
    let line = trim(lines[0].as_str());
    let n = line.unicode_len();
    if n == 0 {
        return ("No GPU".to_owned(), "".to_owned());
    }
    let parts = split_str(line, ',');
    let name = trim(parts[0].as_str()).to_owned();
    let mem = if parts.len() > 1 {
        trim(parts[1].as_str()).to_owned()
    } else {
        "".to_owned()
    };
    if mem.as_str().unicode_len() == 0 {
        (name, mem)
    } else {
        let mut m = mem;
        m.append(" MB");
        (name, m)
    }
}

/// A decimal `u32`, as the realtime probe parses one field.
pub open spec fn parse_u32_spec(s: Seq<char>) -> Option<u32> {
    match parse_u64_spec(s) {
        Some(v) => if v <= u32::MAX {
            Some(v as u32)
        } else {
            None
        },
        None => None,
    }
}

fn parse_u32(s: &str) -> (r: Option<u32>)
    ensures
        r == parse_u32_spec(s@),
{
    match parse_u64(s) {
        Some(v) => if v <= 0xffff_ffffu64 {
            Some(v as u32)
        } else {
            None
        },
        None => None,
    }
}

/// The k-th field parsed as `u64`, absent when missing or malformed.
pub open spec fn csv_u64(out: Seq<char>, k: int) -> Option<u64> {
    match csv_field(out, k) {
        Some(f) => parse_u64_spec(f),
        None => None,
    }
}

/// The k-th field parsed as `u32`, absent when missing or malformed.
pub open spec fn csv_u32(out: Seq<char>, k: int) -> Option<u32> {
    match csv_field(out, k) {
        Some(f) => parse_u32_spec(f),
        None => None,
    }
}

/// Read utilization, memory used and total, and temperature from the GPU
/// tool's realtime output; an empty first line means no reading at all.
pub fn parse_gpu_usage(out: &str) -> (r: (Option<u32>, Option<u64>, Option<u64>, Option<u32>))
    ensures
        first_line_trimmed(out@).len() == 0 ==> r == (
            Option::<u32>::None,
            Option::<u64>::None,
            Option::<u64>::None,
            Option::<u32>::None,
        ),
        first_line_trimmed(out@).len() > 0 ==> r.0 == csv_u32(out@, 0) && r.1 == csv_u64(out@, 1)
            && r.2 == csv_u64(out@, 2) && r.3 == csv_u32(out@, 3),
{
    let lines = split_str(out, '\n');
    let line = trim(lines[0].as_str());
    let n = line.unicode_len();
    if n == 0 {
        return (None, None, None, None);
    }
    let parts = split_str(line, ',');
    let p0 = if parts.len() > 0 {
        parse_u32(trim(parts[0].as_str()))
    } else {
        None
    };
    let p1 = if parts.len() > 1 {
        parse_u64(trim(parts[1].as_str()))
    } else {
        None
    };
    let p2 = if parts.len() > 2 {
        parse_u64(trim(parts[2].as_str()))
    } else {
        None
    };
    let p3 = if parts.len() > 3 {
        parse_u32(trim(parts[3].as_str()))
    } else {
        None
    };
    (p0, p1, p2, p3)
}

// ---------------------------------------------------------------------------
// The static report
// ---------------------------------------------------------------------------

/// The one-shot system report: OS, CPU, RAM and GPU, formatted for the UI.
pub struct SystemSpecs {
    pub os: String,
    pub processor: String,
    pub total_ram_gb: String,
    pub available_ram_gb: String,
    pub ram_percent: String,
    pub cpu_cores: u32,
    pub cpu_threads: u32,
    pub gpu: String,
    pub gpu_memory: String,
}

/// Assemble the static report from the sampled numbers: RAM formatted in
/// gibibytes, the used share rounded to whole percent, an unknown CPU brand
/// shown as such.
pub fn build_system_specs(
    os: &str,
    processor: Option<String>,
    total_mem: u64,
    available_mem: u64,
    cpu_cores: u32,
    cpu_threads: u32,
    gpu: String,
    gpu_memory: String,
) -> (r: SystemSpecs)
    ensures
        r.os@ == os_name_spec(os@),
        r.processor@ == (match processor {
            Some(p) => p@,
            None => "Unknown"@,
        }),
        r.total_ram_gb@ == gb_str(total_mem as int),
        r.available_ram_gb@ == gb_str(available_mem as int),
        r.ram_percent@ == ram_percent_str(
            if available_mem <= total_mem {
                total_mem - available_mem
            } else {
                0
            },
            total_mem as int,
        ),
        r.cpu_cores == cpu_cores,
        r.cpu_threads == cpu_threads,
        r.gpu == gpu,
        r.gpu_memory == gpu_memory,
{
    let used = if available_mem <= total_mem {
        total_mem - available_mem
    } else {
        0
    };
    SystemSpecs {
        os: os_display_name(os),
        processor: match processor {
            Some(p) => p,
            None => "Unknown".to_owned(),
        },
        total_ram_gb: format_bytes_gb(total_mem),
        available_ram_gb: format_bytes_gb(available_mem),
        ram_percent: format_ram_percent(used, total_mem),
        cpu_cores,
        cpu_threads,
        gpu,
        gpu_memory,
    }
}

} // verus!
