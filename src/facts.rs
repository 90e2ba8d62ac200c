use vstd::prelude::*;
use vstd::string::StrSliceExecFns;
use vstd::string::StringExecFns;

use crate::sysoverview::SysOverview;
use crate::text::{decimal, push_decimal, repeated, views};

verus! {

broadcast use vstd::string::group_string_axioms;

/// `p` occurs in `s` at index `i`.
pub open spec fn occurs_at(s: Seq<char>, p: Seq<char>, i: int) -> bool {
    0 <= i && i + p.len() <= s.len() && s.subrange(i, i + p.len()) == p
}

/// `i` is the first index at which `p` occurs in `s`.
pub open spec fn first_at(s: Seq<char>, p: Seq<char>, i: int) -> bool {
    occurs_at(s, p, i) && forall|j: int| 0 <= j < i ==> !occurs_at(s, p, j)
}

/// `p` occurs somewhere in `s`.
pub open spec fn contains(s: Seq<char>, p: Seq<char>) -> bool {
    exists|i: int| occurs_at(s, p, i)
}

/// What follows the first occurrence of `p` in `s`, if there is one.
pub open spec fn after_first(s: Seq<char>, p: Seq<char>) -> Option<Seq<char>> {
    if exists|i: int| first_at(s, p, i) {
        let i = choose|i: int| first_at(s, p, i);
        Some(s.skip(i + p.len()))
    } else {
        None
    }
}

/// The index of the first occurrence of `p` in `s`.
pub fn find(s: &str, p: &str) -> (r: Option<usize>)
    ensures
        r matches Some(i) ==> first_at(s@, p@, i as int),
        r is None ==> !contains(s@, p@),
{
    let n = s.unicode_len();
    let m = p.unicode_len();
    if m > n {
        return None;
    }
    let mut i: usize = 0;
    while i <= n - m
        invariant
            n == s@.len(),
            m == p@.len(),
            m <= n,
            i <= n - m + 1,
            forall|j: int| 0 <= j < i ==> !occurs_at(s@, p@, j),
        decreases n - m + 1 - i,
    {
        let mut k: usize = 0;
        let mut same = true;
        while k < m
            invariant
                n == s@.len(),
                m == p@.len(),
                i + m <= n,
                k <= m,
                same == (forall|t: int| 0 <= t < k ==> s@[i + t] == p@[t]),
            decreases m - k,
        {
            if s.get_char(i + k) != p.get_char(k) {
                same = false;
            }
            k = k + 1;
        }
        if same {
            assert(s@.subrange(i as int, i + m) =~= p@);
            return Some(i);
        }
        assert(!occurs_at(s@, p@, i as int)) by {
            if occurs_at(s@, p@, i as int) {
                assert forall|t: int| 0 <= t < m implies s@[i + t] == p@[t] by {
                    assert(s@.subrange(i as int, i + m)[t] == s@[i + t]);
                }
            }
        }
        i = i + 1;
    }
    None
}

proof fn lemma_first_unique(s: Seq<char>, p: Seq<char>, i: int)
    requires
        first_at(s, p, i),
    ensures
        after_first(s, p) == Some(s.skip(i + p.len())),
{
    let j = choose|j: int| first_at(s, p, j);
    assert(first_at(s, p, j));
    assert(j == i);
}

/// What follows the first `p` in `s`, if `p` occurs in it.
pub fn split_after(s: &str, p: &str) -> (r: Option<String>)
    ensures
        r matches Some(t) ==> after_first(s@, p@) == Some(t@),
        r is None ==> after_first(s@, p@) is None,
{
    match find(s, p) {
        Some(i) => {
            proof {
                lemma_first_unique(s@, p@, i as int);
            }
            let n = s.unicode_len();
            let t = String::from_str(s.substring_char(i + p.unicode_len(), n));
            assert(t@ =~= s@.skip(i + p@.len()));
            Some(t)
        },
        None => {
            assert(!exists|i: int| first_at(s@, p@, i));
            None
        },
    }
}

/// `parts` with `sep` between each two neighbours.
pub open spec fn join(parts: Seq<Seq<char>>, sep: Seq<char>) -> Seq<char>
    decreases parts.len(),
{
    if parts.len() == 0 {
        Seq::empty()
    } else if parts.len() == 1 {
        parts[0]
    } else {
        join(parts.drop_last(), sep) + sep + parts.last()
    }
}

/// Joins `parts` with ", " between each two neighbours.
pub fn join_commas(parts: &Vec<String>) -> (r: String)
    ensures
        r@ == join(views(parts@), ", "@),
{
    let mut out = String::new();
    let mut i: usize = 0;
    while i < parts.len()
        invariant
            i <= parts@.len(),
            out@ == join(views(parts@).take(i as int), ", "@),
        decreases parts@.len() - i,
    {
        assert(views(parts@).take(i + 1).drop_last() =~= views(parts@).take(i as int));
        if i > 0 {
            out.append(", ");
        } else {
            assert(out@ =~= Seq::<char>::empty());
        }
        out.append(parts[i].as_str());
        i = i + 1;
    }
    assert(views(parts@).take(parts@.len() as int) =~= views(parts@));
    out
}

pub open spec fn secs_per_day() -> nat {
    86400
}

pub open spec fn secs_per_hour() -> nat {
    3600
}

/// One part of an uptime, such as "3 hours".
pub open spec fn amount(n: nat, unit: Seq<char>) -> Seq<char> {
    decimal(n) + unit
}

/// The parts of an uptime of `s` seconds: whole days, hours and minutes
/// while more than one of each is left, then the seconds that remain.
pub open spec fn uptime_parts(s: nat) -> Seq<Seq<char>> {
    let days = if s > secs_per_day() { seq![amount(s / secs_per_day(), " days"@)] } else { seq![] };
    let s1 = if s > secs_per_day() { s % secs_per_day() } else { s };
    let hours = if s1 > secs_per_hour() { seq![amount(s1 / secs_per_hour(), " hours"@)] } else { seq![] };
    let s2 = if s1 > secs_per_hour() { s1 % secs_per_hour() } else { s1 };
    let mins = if s2 > 60 { seq![amount(s2 / 60, " mins"@)] } else { seq![] };
    let s3 = if s2 > 60 { s2 % 60 } else { s2 };
    let secs = if s3 > 0 { seq![amount(s3, " seconds"@)] } else { seq![] };
    days + hours + mins + secs
}

/// An uptime of `s` seconds in words, its parts separated by ", ".
pub open spec fn uptime_text(s: nat) -> Seq<char> {
    join(uptime_parts(s), ", "@)
}

fn amount_string(n: u64, unit: &str) -> (r: String)
    ensures
        r@ == amount(n as nat, unit@),
{
    let mut s = String::new();
    push_decimal(&mut s, n);
    s.append(unit);
    assert(s@ =~= amount(n as nat, unit@));
    s
}



/// The memory line: used and total memory in whole mebibytes.
pub open spec fn memory_text(used: nat, total: nat) -> Seq<char> {
    decimal(used / 1048576) + "MiB / "@ + decimal(total / 1048576) + "MiB"@
}



/// The text of a fact that may be missing, or `fallback` in its place.
pub open spec fn or_else(v: Option<String>, fallback: Seq<char>) -> Seq<char> {
    match v {
        Some(s) => s@,
        None => fallback,
    }
}

/// The fact, or `fallback` where it is missing.
pub fn value_or(v: Option<String>, fallback: &str) -> (r: String)
    ensures
        r@ == or_else(v, fallback@),
{
    match v {
        Some(s) => s,
        None => String::from_str(fallback),
    }
}

/// A display size written as width x height.
pub open spec fn resolution_text(d: (u32, u32)) -> Seq<char> {
    decimal(d.0 as nat) + "x"@ + decimal(d.1 as nat)
}

/// The resolutions of the displays, or one line that says none was found.
pub open spec fn resolution_lines(displays: Seq<(u32, u32)>) -> Seq<Seq<char>> {
    if displays.len() == 0 {
        seq!["Unable to get display!"@]
    } else {
        displays.map_values(|d: (u32, u32)| resolution_text(d))
    }
}


/// The entries of `v`, each kept at its first occurrence only.
pub open spec fn distinct(v: Seq<Seq<char>>) -> Seq<Seq<char>>
    decreases v.len(),
{
    if v.len() == 0 {
        Seq::empty()
    } else {
        let d = distinct(v.drop_last());
        if d.contains(v.last()) {
            d
        } else {
            d.push(v.last())
        }
    }
}

/// The distinct processor models, or one line that says none was found.
pub open spec fn cpu_lines(brands: Seq<Seq<char>>) -> Seq<Seq<char>> {
    if brands.len() == 0 {
        seq!["Unable to get CPU!"@]
    } else {
        distinct(brands)
    }
}


/// The state of a reading of a graphics report: the name of the graphics
/// chip last seen, and the entries found so far.
pub open spec fn gpu_scan(report: Seq<Seq<char>>) -> (Seq<char>, Seq<Seq<char>>)
    decreases report.len(),
{
    if report.len() == 0 {
        ("Unable to get GPU"@, Seq::empty())
    } else {
        let (name, found) = gpu_scan(report.drop_last());
        let line = report.last();
        if contains(line, "Chipset Model"@) {
            match after_first(line, ": "@) {
                Some(v) => (v, found),
                None => (name, found),
            }
        } else if contains(line, "VRAM"@) {
            match after_first(line, ": "@) {
                Some(v) => (name, found.push(name + " ("@ + v + " VRAM)"@)),
                None => (name, found),
            }
        } else {
            (name, found)
        }
    }
}

/// The graphics entries of a report, or one line that says none was found.
pub open spec fn gpu_lines(report: Seq<Seq<char>>) -> Seq<Seq<char>> {
    if gpu_scan(report).1.len() == 0 {
        seq!["Unable to get GPU"@]
    } else {
        gpu_scan(report).1
    }
}


impl SysOverview {
    /// An uptime of `secs` seconds in words.
    pub fn get_uptime(secs: u64) -> (r: String)
        ensures
            r@ == uptime_text(secs as nat),
    {
        let mut s: u64 = secs;
        let mut parts: Vec<String> = Vec::new();
        if s > 86400 {
            let days = s / 86400;
            s = s % 86400;
            parts.push(amount_string(days, " days"));
        }
        if s > 3600 {
            let hours = s / 3600;
            s = s % 3600;
            parts.push(amount_string(hours, " hours"));
        }
        if s > 60 {
            let mins = s / 60;
            s = s % 60;
            parts.push(amount_string(mins, " mins"));
        }
        if s > 0 {
            parts.push(amount_string(s, " seconds"));
        }
        assert(views(parts@) =~= uptime_parts(secs as nat));
        join_commas(&parts)
    }
    /// The number of whole mebibytes in `bytes` bytes.
    pub fn bytes_to_mebibytes(bytes: u64) -> (r: u64)
        ensures
            r == bytes / 1048576,
    {
        bytes / 1048576
    }
    /// The memory in use and in all, in whole mebibytes.
    pub fn get_memory(total_bytes: u64, used_bytes: u64) -> (r: String)
        ensures
            r@ == memory_text(used_bytes as nat, total_bytes as nat),
    {
        let total = Self::bytes_to_mebibytes(total_bytes);
        let used = Self::bytes_to_mebibytes(used_bytes);
        let mut s = String::new();
        push_decimal(&mut s, used);
        s.append("MiB / ");
        push_decimal(&mut s, total);
        s.append("MiB");
        assert(s@ =~= memory_text(used_bytes as nat, total_bytes as nat));
        s
    }
    /// A line of `length` dashes, to underline a heading that long.
    pub fn get_underline(length: usize) -> (r: String)
        ensures
            r@ == repeated('-', length as nat),
    {
        crate::text::repeat_char('-', length)
    }
    /// One line per display, with its width and height.
    pub fn get_resolutions(displays: &Vec<(u32, u32)>) -> (r: Vec<String>)
        ensures
            views(r@) == resolution_lines(displays@),
    {
        let mut out: Vec<String> = Vec::new();
        if displays.len() == 0 {
            out.push(String::from_str("Unable to get display!"));
            assert(views(out@) =~= resolution_lines(displays@));
            return out;
        }
        let mut i: usize = 0;
        while i < displays.len()
            invariant
                i <= displays@.len(),
                views(out@) == displays@.take(i as int).map_values(|d: (u32, u32)| resolution_text(d)),
            decreases displays@.len() - i,
        {
            let ghost before = views(out@);
            let (w, h) = displays[i];
            let mut s = String::new();
            push_decimal(&mut s, w as u64);
            s.append("x");
            push_decimal(&mut s, h as u64);
            assert(s@ =~= resolution_text(displays@[i as int]));
            out.push(s);
            assert(views(out@) =~= before.push(s@));
            assert(displays@.take(i + 1).map_values(|d: (u32, u32)| resolution_text(d)) =~= displays@.take(
                i as int,
            ).map_values(|d: (u32, u32)| resolution_text(d)).push(resolution_text(displays@[i as int])));
            i = i + 1;
        }
        assert(displays@.take(displays@.len() as int) =~= displays@);
        out
    }
    /// The model of each processor, each model once.
    pub fn get_cpus(brands: &Vec<String>) -> (r: Vec<String>)
        ensures
            views(r@) == cpu_lines(views(brands@)),
    {
        let mut out: Vec<String> = Vec::new();
        if brands.len() == 0 {
            out.push(String::from_str("Unable to get CPU!"));
            assert(views(out@) =~= cpu_lines(views(brands@)));
            return out;
        }
        let mut i: usize = 0;
        while i < brands.len()
            invariant
                i <= brands@.len(),
                views(out@) == distinct(views(brands@).take(i as int)),
            decreases brands@.len() - i,
        {
            let ghost d = views(out@);
            assert(views(brands@).take(i + 1).drop_last() =~= views(brands@).take(i as int));
            let mut seen = false;
            let mut k: usize = 0;
            while k < out.len()
                invariant
                    k <= out@.len(),
                    i < brands@.len(),
                    d == views(out@),
                    seen == (exists|t: int| 0 <= t < k && d[t] == brands@[i as int]@),
                decreases out@.len() - k,
            {
                let same = out[k] == brands[i];
                assert(same == (d[k as int] == brands@[i as int]@));
                if same {
                    seen = true;
                }
                k = k + 1;
            }
            assert(seen == d.contains(brands@[i as int]@));
            if !seen {
                out.push(brands[i].clone());
                assert(views(out@) =~= d.push(brands@[i as int]@));
            }
            i = i + 1;
        }
        assert(views(brands@).take(brands@.len() as int) =~= views(brands@));
        out
    }
    /// Reads the graphics chips out of the lines of a display report: each line
    /// "Chipset Model: <name>" names a chip, and each line with "VRAM: <size>"
    /// adds an entry "<name> (<size> VRAM)" for the chip last named.
    pub fn get_gpu(report: &Vec<String>) -> (r: Vec<String>)
        ensures
            views(r@) == gpu_lines(views(report@)),
    {
        let mut name = String::from_str("Unable to get GPU");
        let mut gpus: Vec<String> = Vec::new();
        let mut i: usize = 0;
        while i < report.len()
            invariant
                i <= report@.len(),
                gpu_scan(views(report@).take(i as int)) == (name@, views(gpus@)),
            decreases report@.len() - i,
        {
            assert(views(report@).take(i + 1).drop_last() =~= views(report@).take(i as int));
            let line: &str = report[i].as_str();
            if find(line, "Chipset Model").is_some() {
                if let Some(v) = split_after(line, ": ") {
                    name = v;
                }
            } else if find(line, "VRAM").is_some() {
                if let Some(v) = split_after(line, ": ") {
                    let mut entry = name.clone();
                    entry.append(" (");
                    entry.append(v.as_str());
                    entry.append(" VRAM)");
                    gpus.push(entry);
                    assert(views(gpus@) =~= gpu_scan(views(report@).take(i as int)).1.push(
                        name@ + " ("@ + v@ + " VRAM)"@,
                    ));
                }
            }
            i = i + 1;
        }
        assert(views(report@).take(report@.len() as int) =~= views(report@));
        if gpus.len() == 0 {
            let mut none: Vec<String> = Vec::new();
            none.push(String::from_str("Unable to get GPU"));
            assert(views(none@) =~= gpu_lines(views(report@)));
            return none;
        }
        gpus
    }

    /// The shell, or a placeholder where it is not known.
    pub fn get_shell(shell: Option<String>) -> (r: String)
        ensures
            r@ == or_else(shell, "Unable to get shell"@),
    {
        value_or(shell, "Unable to get shell")
    }

    /// The window manager, or a placeholder where it is not known.
    pub fn get_wm(wm: Option<String>) -> (r: String)
        ensures
            r@ == or_else(wm, "Unable to get WM"@),
    {
        value_or(wm, "Unable to get WM")
    }

    /// The terminal program, or a placeholder where it is not known.
    pub fn get_terminal(terminal: Option<String>) -> (r: String)
        ensures
            r@ == or_else(terminal, "Unable to get terminal"@),
    {
        value_or(terminal, "Unable to get terminal")
    }
}

} // verus!
