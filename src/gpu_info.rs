//! GPU and system memory information, read from the text that
//! `nvidia-smi` and `/proc/meminfo` produce, and the Whisper model
//! recommendation that follows from it.

use vstd::prelude::*;
use crate::decimal::{decimal, decimal_chars, parse_u64, parses_as_u64};
use crate::text::{
    chars_of, contains, contains_seq, has_prefix, lines, lines_of, occurs_at, split, split_on,
    split_whitespace, starts_with, string_of, trim, trimmed, words_of,
};

verus! {

/// GPU information.
#[derive(Debug, Clone)]
pub struct GpuInfo {
    pub name: String,
    /// Total VRAM in MB.
    pub total_memory_mb: u64,
    /// Used VRAM in MB.
    pub used_memory_mb: u64,
    /// Free VRAM in MB.
    pub free_memory_mb: u64,
    pub cuda_available: bool,
    pub cuda_version: Option<String>,
    pub driver_version: Option<String>,
}

/// A `GpuInfo` with text as characters.
pub struct GpuView {
    pub name: Seq<char>,
    pub total_memory_mb: u64,
    pub used_memory_mb: u64,
    pub free_memory_mb: u64,
    pub cuda_available: bool,
    pub cuda_version: Option<Seq<char>>,
    pub driver_version: Option<Seq<char>>,
}

impl View for GpuInfo {
    type V = GpuView;

    open spec fn view(&self) -> GpuView {
        GpuView {
            name: self.name@,
            total_memory_mb: self.total_memory_mb,
            used_memory_mb: self.used_memory_mb,
            free_memory_mb: self.free_memory_mb,
            cuda_available: self.cuda_available,
            cuda_version: crate::config::opt_view(self.cuda_version),
            driver_version: crate::config::opt_view(self.driver_version),
        }
    }
}

/// The number a field holds, or 0 when it is not a number.
pub open spec fn number_or_zero(s: Seq<char>) -> u64 {
    match parses_as_u64(s) {
        Some(n) => n,
        None => 0,
    }
}

/// The first position at or after `i` where `needle` occurs in `hay`.
pub open spec fn find_from(hay: Seq<char>, needle: Seq<char>, i: int) -> Option<int>
    decreases hay.len() + 1 - i,
{
    if i < 0 || i + needle.len() > hay.len() {
        None
    } else if occurs_at(hay, needle, i) {
        Some(i)
    } else {
        find_from(hay, needle, i + 1)
    }
}

/// The text between the first and second occurrence of `sep` in `s` (to the
/// end when there is no second), as `str::split(sep).nth(1)` yields it.
pub open spec fn second_piece(s: Seq<char>, sep: Seq<char>) -> Option<Seq<char>> {
    match find_from(s, sep, 0) {
        None => None,
        Some(i) => {
            let rest = s.subrange(i + sep.len(), s.len() as int);
            match find_from(rest, sep, 0) {
                None => Some(rest),
                Some(j) => Some(rest.subrange(0, j)),
            }
        },
    }
}

/// The first line of `ls` from index `i` on that contains `pat`.
pub open spec fn first_line_with(ls: Seq<Seq<char>>, pat: Seq<char>, i: int) -> Option<Seq<char>>
    decreases ls.len() - i,
{
    if i < 0 || i >= ls.len() {
        None
    } else if contains_seq(ls[i], pat) {
        Some(ls[i])
    } else {
        first_line_with(ls, pat, i + 1)
    }
}

/// The CUDA version named in `nvidia-smi`'s summary: the first word after
/// `CUDA Version:` on the first line that mentions `CUDA Version`.
pub open spec fn cuda_version_in(summary: Seq<char>) -> Option<Seq<char>> {
    match first_line_with(lines_of(summary), "CUDA Version"@, 0) {
        None => None,
        Some(line) => match second_piece(line, "CUDA Version:"@) {
            None => None,
            Some(p) => Some(if words_of(p).len() > 0 { words_of(p)[0] } else { Seq::empty() }),
        },
    }
}

/// The GPU described by the first line of `nvidia-smi`'s CSV query output
/// (`name, total, used, free, driver`, each field trimmed, a number that does
/// not parse read as 0); `None` without a line of at least five fields.
pub open spec fn gpu_from(query: Seq<char>, summary: Option<Seq<char>>) -> Option<GpuView> {
    let ls = lines_of(query);
    if ls.len() == 0 {
        None
    } else {
        let f = split_on(ls[0], ',').map_values(|p: Seq<char>| trimmed(p));
        if f.len() < 5 {
            None
        } else {
            Some(GpuView {
                name: f[0],
                total_memory_mb: number_or_zero(f[1]),
                used_memory_mb: number_or_zero(f[2]),
                free_memory_mb: number_or_zero(f[3]),
                cuda_available: true,
                cuda_version: match summary {
                    Some(s) => cuda_version_in(s),
                    None => None,
                },
                driver_version: Some(f[4]),
            })
        }
    }
}

fn find_exec(hay: &Vec<char>, needle: &Vec<char>, from: usize) -> (r: Option<usize>)
    ensures
        r is None ==> find_from(hay@, needle@, from as int) is None,
        r matches Some(k) ==> find_from(hay@, needle@, from as int) == Some(k as int) && occurs_at(
            hay@,
            needle@,
            k as int,
        ),
    decreases hay@.len() + 1 - from,
{
    if needle.len() > hay.len() || from > hay.len() - needle.len() {
        return None;
    }
    if needle.len() == 0 {
        proof {
            assert(hay@.subrange(from as int, from as int) =~= needle@);
        }
        return Some(from);
    }
    let rest: Vec<char> = slice_chars(hay, from, from + needle.len());
    if crate::text::chars_equal(&rest, needle) {
        Some(from)
    } else {
        find_exec(hay, needle, from + 1)
    }
}

/// The characters of `v` from `a` up to `b`.
fn slice_chars(v: &Vec<char>, a: usize, b: usize) -> (r: Vec<char>)
    requires
        a <= b <= v@.len(),
    ensures
        r@ == v@.subrange(a as int, b as int),
{
    let mut out: Vec<char> = Vec::new();
    let mut k: usize = a;
    while k < b
        invariant
            a <= k <= b <= v@.len(),
            out@ == v@.subrange(a as int, k as int),
        decreases b - k,
    {
        out.push(v[k]);
        k = k + 1;
        proof {
            assert(out@ =~= v@.subrange(a as int, k as int));
        }
    }
    out
}

fn cuda_version_exec(summary: &Vec<char>) -> (r: Option<String>)
    ensures
        crate::config::opt_view(r) == cuda_version_in(summary@),
{
    let ls = lines(summary);
    let ghost lv = ls@.map_values(|p: Vec<char>| p@);
    let mark = chars_of("CUDA Version");
    let sep = chars_of("CUDA Version:");
    let mut i: usize = 0;
    while i < ls.len()
        invariant
            i <= ls@.len(),
            lv == ls@.map_values(|p: Vec<char>| p@),
            lv == lines_of(summary@),
            mark@ == "CUDA Version"@,
            sep@ == "CUDA Version:"@,
            first_line_with(lv, mark@, 0) == first_line_with(lv, mark@, i as int),
        decreases ls@.len() - i,
    {
        assert(lv[i as int] == ls@[i as int]@);
        if contains(&ls[i], &mark) {
            proof {
                assert(first_line_with(lv, mark@, i as int) == Some(lv[i as int]));
            }
            let line = &ls[i];
            let piece = match find_exec(line, &sep, 0) {
                None => {
                    return None;
                },
                Some(a) => {
                    let ll = line.len();
                    assert(occurs_at(line@, sep@, a as int));
                    let rest = slice_chars(line, a + sep.len(), line.len());
                    match find_exec(&rest, &sep, 0) {
                        None => rest,
                        Some(b) => slice_chars(&rest, 0, b),
                    }
                },
            };
            let ws = split_whitespace(&piece);
            proof {
                assert(ws@.map_values(|p: Vec<char>| p@).len() == ws@.len());
            }
            if ws.len() > 0 {
                proof {
                    assert(ws@.map_values(|p: Vec<char>| p@)[0] == ws@[0]@);
                }
                return Some(string_of(&ws[0]));
            } else {
                return Some(String::new());
            }
        }
        i = i + 1;
    }
    None
}

impl GpuInfo {
    /// The GPU described by `nvidia-smi`'s output, as `gpu_from` states:
    /// `query` is the output of the CSV query (`None` when the command failed)
    /// and `summary` the plain output used for the CUDA version.
    pub fn detect(query: Option<&str>, summary: Option<&str>) -> (r: Option<Self>)
        ensures
            match query {
                None => r is None,
                Some(q) => match gpu_from(q@, match summary { Some(s) => Some(s@), None => None }) {
                    None => r is None,
                    Some(g) => r matches Some(x) && x@ == g,
                },
            },
    {
        let q = match query {
            Some(q) => chars_of(q),
            None => {
                return None;
            },
        };
        let ls = lines(&q);
        let ghost lv = ls@.map_values(|p: Vec<char>| p@);
        if ls.len() == 0 {
            return None;
        }
        proof {
            assert(lv[0] == ls@[0]@);
        }
        let parts = split(&ls[0], ',');
        let ghost pv = parts@.map_values(|p: Vec<char>| p@);
        let ghost fv = pv.map_values(|p: Seq<char>| trimmed(p));
        if parts.len() < 5 {
            return None;
        }
        let name = trim(&parts[0]);
        let total = trim(&parts[1]);
        let used = trim(&parts[2]);
        let free = trim(&parts[3]);
        let driver = trim(&parts[4]);
        proof {
            assert(fv[0] == name@);
            assert(fv[1] == total@);
            assert(fv[2] == used@);
            assert(fv[3] == free@);
            assert(fv[4] == driver@);
        }
        let total_mb = match parse_u64(&total) { Some(n) => n, None => 0 };
        let used_mb = match parse_u64(&used) { Some(n) => n, None => 0 };
        let free_mb = match parse_u64(&free) { Some(n) => n, None => 0 };
        let cuda_version = match summary {
            Some(s) => cuda_version_exec(&chars_of(s)),
            None => None,
        };
        Some(GpuInfo {
            name: string_of(&name),
            total_memory_mb: total_mb,
            used_memory_mb: used_mb,
            free_memory_mb: free_mb,
            cuda_available: true,
            cuda_version,
            driver_version: Some(string_of(&driver)),
        })
    }

    /// Whether the free VRAM holds a model needing `required_mb`.
    pub fn can_fit_model(&self, required_mb: u64) -> (r: bool)
        ensures
            r == (self.free_memory_mb >= required_mb),
    {
        self.free_memory_mb >= required_mb
    }
}

/// Model recommendation based on system capabilities.
#[derive(Debug, Clone)]
pub struct ModelRecommendation {
    pub recommended_model: &'static str,
    pub reason: String,
    pub will_use_gpu: bool,
    pub estimated_speed: &'static str,
}

/// The model, reason tail and speed note for `free` MB of free VRAM.
pub open spec fn gpu_tier(free: u64) -> (Seq<char>, Seq<char>, Seq<char>) {
    if free >= 10000 {
        ("large"@, " MB free VRAM - can run Large model for best accuracy"@, "Slow but most accurate"@)
    } else if free >= 5000 {
        ("medium"@, " MB free VRAM - Medium model offers good balance"@, "Moderate speed, high accuracy"@)
    } else if free >= 2500 {
        ("small"@, " MB free VRAM - Small model recommended"@, "Good speed and accuracy"@)
    } else if free >= 1500 {
        ("base"@, " MB free VRAM - Base model fits"@, "Fast with decent accuracy"@)
    } else {
        ("tiny"@, " MB free VRAM - using Tiny model"@, "Fastest, basic accuracy"@)
    }
}

/// The reason given for a GPU recommendation.
pub open spec fn gpu_reason(name: Seq<char>, free: u64) -> Seq<char> {
    let lead = if free >= 1500 { " has "@ } else { " has only "@ };
    "GPU "@ + name + lead + decimal(free as nat) + gpu_tier(free).1
}

/// The reason given without a CUDA GPU.
pub open spec fn cpu_reason() -> Seq<char> {
    "No CUDA GPU detected - using CPU. Base model recommended for balance of speed and accuracy."@
}

/// The Whisper model to use: with a CUDA GPU, the largest model whose VRAM
/// need fits the free VRAM (10000, 5000, 2500, 1500 MB for large, medium,
/// small, base; tiny below); without one, base on the CPU.
pub fn recommend_whisper_model(gpu_info: Option<&GpuInfo>) -> (r: ModelRecommendation)
    ensures
        match gpu_info {
            Some(g) if g.cuda_available => {
                &&& r.recommended_model@ == gpu_tier(g.free_memory_mb).0
                &&& r.reason@ == gpu_reason(g.name@, g.free_memory_mb)
                &&& r.will_use_gpu
                &&& r.estimated_speed@ == gpu_tier(g.free_memory_mb).2
            },
            _ => {
                &&& r.recommended_model@ == "base"@
                &&& r.reason@ == cpu_reason()
                &&& !r.will_use_gpu
                &&& r.estimated_speed@ == "Moderate (CPU)"@
            },
        },
{
    match gpu_info {
        Some(gpu) if gpu.cuda_available => {
            let free = gpu.free_memory_mb;
            let (model, tail, speed): (&'static str, &'static str, &'static str) = if free >= 10000 {
                ("large", " MB free VRAM - can run Large model for best accuracy", "Slow but most accurate")
            } else if free >= 5000 {
                ("medium", " MB free VRAM - Medium model offers good balance", "Moderate speed, high accuracy")
            } else if free >= 2500 {
                ("small", " MB free VRAM - Small model recommended", "Good speed and accuracy")
            } else if free >= 1500 {
                ("base", " MB free VRAM - Base model fits", "Fast with decent accuracy")
            } else {
                ("tiny", " MB free VRAM - using Tiny model", "Fastest, basic accuracy")
            };
            let lead: &'static str = if free >= 1500 { " has " } else { " has only " };
            let reason = String::from_str("GPU ").concat(gpu.name.as_str()).concat(lead).concat(
                string_of(&decimal_chars(free)).as_str(),
            ).concat(tail);
            ModelRecommendation {
                recommended_model: model,
                reason,
                will_use_gpu: true,
                estimated_speed: speed,
            }
        },
        _ => ModelRecommendation {
            recommended_model: "base",
            reason: String::from_str(
                "No CUDA GPU detected - using CPU. Base model recommended for balance of speed and accuracy.",
            ),
            will_use_gpu: false,
            estimated_speed: "Moderate (CPU)",
        },
    }
}

/// System memory in MB.
#[derive(Debug, Clone, Copy, Default)]
pub struct SystemMemory {
    pub total_mb: u64,
    pub available_mb: u64,
}

/// The number in the second field of a `/proc/meminfo` line, or 0.
pub open spec fn meminfo_value(line: Seq<char>) -> u64 {
    let w = words_of(line);
    if w.len() >= 2 { number_or_zero(w[1]) } else { 0 }
}

/// The kB values of the last `MemTotal:` and `MemAvailable:` lines among
/// the first `n` lines (0 where there is none).
pub open spec fn meminfo_scan(ls: Seq<Seq<char>>, n: int) -> (u64, u64)
    decreases n,
{
    if n <= 0 || n > ls.len() {
        (0, 0)
    } else {
        let (t, a) = meminfo_scan(ls, n - 1);
        let l = ls[n - 1];
        if starts_with(l, "MemTotal:"@) {
            (meminfo_value(l), a)
        } else if starts_with(l, "MemAvailable:"@) {
            (t, meminfo_value(l))
        } else {
            (t, a)
        }
    }
}

/// The number in the second whitespace-separated field of `line`, or 0.
pub fn parse_meminfo_value(line: &str) -> (r: u64)
    ensures
        r == meminfo_value(line@),
{
    meminfo_value_of(&chars_of(line))
}

fn meminfo_value_of(line: &Vec<char>) -> (r: u64)
    ensures
        r == meminfo_value(line@),
{
    let w = split_whitespace(line);
    proof {
        assert(w@.map_values(|p: Vec<char>| p@).len() == w@.len());
    }
    if w.len() >= 2 {
        proof {
            assert(w@.map_values(|p: Vec<char>| p@)[1] == w@[1]@);
        }
        match parse_u64(&w[1]) {
            Some(n) => n,
            None => 0,
        }
    } else {
        0
    }
}

impl SystemMemory {
    /// Memory from the text of `/proc/meminfo` (`None` when it could not be
    /// read: both zero), in MB (kB divided by 1024, rounded down).
    pub fn detect(meminfo: Option<&str>) -> (r: Self)
        ensures
            match meminfo {
                None => r.total_mb == 0 && r.available_mb == 0,
                Some(m) => {
                    let ls = lines_of(m@);
                    let (t, a) = meminfo_scan(ls, ls.len() as int);
                    r.total_mb == t / 1024 && r.available_mb == a / 1024
                },
            },
    {
        let content = match meminfo {
            Some(m) => chars_of(m),
            None => {
                return SystemMemory { total_mb: 0, available_mb: 0 };
            },
        };
        let ls = lines(&content);
        let ghost lv = ls@.map_values(|p: Vec<char>| p@);
        let total_key = chars_of("MemTotal:");
        let avail_key = chars_of("MemAvailable:");
        let mut total: u64 = 0;
        let mut available: u64 = 0;
        let mut i: usize = 0;
        while i < ls.len()
            invariant
                i <= ls@.len(),
                lv == ls@.map_values(|p: Vec<char>| p@),
                total_key@ == "MemTotal:"@,
                avail_key@ == "MemAvailable:"@,
                (total, available) == meminfo_scan(lv, i as int),
            decreases ls@.len() - i,
        {
            assert(lv[i as int] == ls@[i as int]@);
            if has_prefix(&ls[i], &total_key) {
                total = meminfo_value_of(&ls[i]);
            } else if has_prefix(&ls[i], &avail_key) {
                available = meminfo_value_of(&ls[i]);
            }
            i = i + 1;
        }
        SystemMemory { total_mb: total / 1024, available_mb: available / 1024 }
    }
}

} // verus!
