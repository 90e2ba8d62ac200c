use vstd::prelude::*;
use vstd::string::StringExecFns;

use crate::color::{colorize, styled, Color};
use crate::facts::{
    cpu_lines, gpu_lines, memory_text, or_else, resolution_lines, uptime_text, value_or,
};
use crate::text::{decimal, repeated, to_decimal, views};

verus! {

broadcast use vstd::string::group_string_axioms;

/// The raw facts about the host, as the system reports them; a fact that
/// could not be read is `None`, or an empty list.
pub struct Facts {
    pub host_name: Option<String>,
    pub os_version: Option<String>,
    pub distribution: String,
    pub kernel_version: Option<String>,
    pub uptime_secs: u64,
    pub shell: Option<String>,
    pub displays: Vec<(u32, u32)>,
    pub window_manager: Option<String>,
    pub terminal: Option<String>,
    pub cpu_brands: Vec<String>,
    /// The lines of the system's display report.
    pub gpu_report: Vec<String>,
    pub total_memory: u64,
    pub used_memory: u64,
}

/// One fact of the summary, ready to be shown.
pub enum SysField {
    HostName(String),
    Underline(String),
    OsName(String),
    Host(String),
    KernelVersion(String),
    Uptime(String),
    Shell(String),
    Resolutions(Vec<String>),
    WM(String),
    Terminal(String),
    CPUs(Vec<String>),
    GPUs(Vec<String>),
    Memory(String),
}

/// The label a fact is shown under.
pub open spec fn label(f: SysField) -> Seq<char> {
    match f {
        SysField::OsName(_) => "OS"@,
        SysField::HostName(_) => "HostName"@,
        SysField::Underline(_) => "HostUnderline"@,
        SysField::Host(_) => "Host"@,
        SysField::KernelVersion(_) => "Kernel"@,
        SysField::Uptime(_) => "Uptime"@,
        SysField::Shell(_) => "Shell"@,
        SysField::WM(_) => "WM"@,
        SysField::Terminal(_) => "Terminal"@,
        SysField::Memory(_) => "Memory"@,
        SysField::CPUs(_) => "CPU"@,
        SysField::GPUs(_) => "GPU"@,
        SysField::Resolutions(_) => "Resolution"@,
    }
}

/// "label: value", the label in `p` and the value in `s`.
pub open spec fn labelled(name: Seq<char>, v: Seq<char>, p: Color, s: Color) -> Seq<char> {
    styled(name, p) + ": "@ + styled(v, s)
}

/// "label (n): value", the label and `n` in `p` and the value in `s`.
pub open spec fn numbered(name: Seq<char>, n: nat, v: Seq<char>, p: Color, s: Color) -> Seq<char> {
    styled(name, p) + " ("@ + styled(decimal(n), p) + "): "@ + styled(v, s)
}

/// The lines of a fact with many values: one unnumbered line for a single
/// value, else one numbered line per value, counting from 1.
pub open spec fn list_lines(name: Seq<char>, vs: Seq<Seq<char>>, p: Color, s: Color) -> Seq<Seq<char>> {
    if vs.len() == 1 {
        seq![labelled(name, vs[0], p, s)]
    } else {
        Seq::new(vs.len(), |i: int| numbered(name, (i + 1) as nat, vs[i], p, s))
    }
}

/// The lines that show a fact: the host name and its underline alone in
/// `p`, other facts under their label.
pub open spec fn field_lines(f: SysField, p: Color, s: Color) -> Seq<Seq<char>> {
    match f {
        SysField::HostName(v) => seq![styled(v@, p)],
        SysField::Underline(v) => seq![styled(v@, p)],
        SysField::Resolutions(vs) => list_lines(label(f), views(vs@), p, s),
        SysField::CPUs(vs) => list_lines(label(f), views(vs@), p, s),
        SysField::GPUs(vs) => list_lines(label(f), views(vs@), p, s),
        SysField::OsName(v) => seq![labelled(label(f), v@, p, s)],
        SysField::Host(v) => seq![labelled(label(f), v@, p, s)],
        SysField::KernelVersion(v) => seq![labelled(label(f), v@, p, s)],
        SysField::Uptime(v) => seq![labelled(label(f), v@, p, s)],
        SysField::Shell(v) => seq![labelled(label(f), v@, p, s)],
        SysField::WM(v) => seq![labelled(label(f), v@, p, s)],
        SysField::Terminal(v) => seq![labelled(label(f), v@, p, s)],
        SysField::Memory(v) => seq![labelled(label(f), v@, p, s)],
    }
}

/// The lines of all `parts`, in order.
pub open spec fn concat_lines(parts: Seq<Seq<Seq<char>>>) -> Seq<Seq<char>>
    decreases parts.len(),
{
    if parts.len() == 0 {
        Seq::empty()
    } else {
        concat_lines(parts.drop_last()) + parts.last()
    }
}

/// The host name, or nothing where it is missing.
pub open spec fn host_name_text(facts: Facts) -> Seq<char> {
    or_else(facts.host_name, Seq::empty())
}

/// The facts of the summary, in the order they are shown.
pub struct SysOverview {
    data: Vec<SysField>,
}

impl SysOverview {
    /// The facts, in order.
    pub closed spec fn fields(&self) -> Seq<SysField> {
        self.data@
    }

    /// Turns the raw facts into the summary: the host name and a line of
    /// dashes under it, then host, OS, kernel, uptime, shell, resolutions,
    /// window manager, terminal, processors, graphics and memory. Each
    /// missing fact is shown by a fixed placeholder.
    pub fn new(facts: Facts) -> (r: SysOverview)
        ensures
            r.fields().len() == 13,
            r.fields()[0] matches SysField::HostName(v) && v@ == host_name_text(facts),
            r.fields()[1] matches SysField::Underline(v) && v@ == repeated(
                '-',
                host_name_text(facts).len(),
            ),
            r.fields()[2] matches SysField::Host(v) && v@ == facts.distribution@,
            r.fields()[3] matches SysField::OsName(v) && v@ == or_else(facts.os_version, Seq::empty()),
            r.fields()[4] matches SysField::KernelVersion(v) && v@ == or_else(
                facts.kernel_version,
                Seq::empty(),
            ),
            r.fields()[5] matches SysField::Uptime(v) && v@ == uptime_text(facts.uptime_secs as nat),
            r.fields()[6] matches SysField::Shell(v) && v@ == or_else(facts.shell, "Unable to get shell"@),
            r.fields()[7] matches SysField::Resolutions(vs) && views(vs@) == resolution_lines(
                facts.displays@,
            ),
            r.fields()[8] matches SysField::WM(v) && v@ == or_else(facts.window_manager, "Unable to get WM"@),
            r.fields()[9] matches SysField::Terminal(v) && v@ == or_else(
                facts.terminal,
                "Unable to get terminal"@,
            ),
            r.fields()[10] matches SysField::CPUs(vs) && views(vs@) == cpu_lines(views(facts.cpu_brands@)),
            r.fields()[11] matches SysField::GPUs(vs) && views(vs@) == gpu_lines(views(facts.gpu_report@)),
            r.fields()[12] matches SysField::Memory(v) && v@ == memory_text(
                facts.used_memory as nat,
                facts.total_memory as nat,
            ),
    {
        let ghost f = facts;
        let Facts {
            host_name,
            os_version,
            distribution,
            kernel_version,
            uptime_secs,
            shell,
            displays,
            window_manager,
            terminal,
            cpu_brands,
            gpu_report,
            total_memory,
            used_memory,
        } = facts;
        let host_name = value_or(host_name, "");
        proof {
            reveal_strlit("");
            assert(host_name@ == host_name_text(f));
        }
        let underline = Self::get_underline(crate::text::char_len(host_name.as_str()));
        let mut data: Vec<SysField> = Vec::new();
        data.push(SysField::HostName(host_name));
        data.push(SysField::Underline(underline));
        data.push(SysField::Host(distribution));
        data.push(SysField::OsName(value_or(os_version, "")));
        data.push(SysField::KernelVersion(value_or(kernel_version, "")));
        data.push(SysField::Uptime(Self::get_uptime(uptime_secs)));
        data.push(SysField::Shell(Self::get_shell(shell)));
        data.push(SysField::Resolutions(Self::get_resolutions(&displays)));
        data.push(SysField::WM(Self::get_wm(window_manager)));
        data.push(SysField::Terminal(Self::get_terminal(terminal)));
        data.push(SysField::CPUs(Self::get_cpus(&cpu_brands)));
        data.push(SysField::GPUs(Self::get_gpu(&gpu_report)));
        data.push(SysField::Memory(Self::get_memory(total_memory, used_memory)));
        SysOverview { data }
    }

    /// The label that `sys_field` is shown under.
    pub fn get_name(&self, sys_field: &SysField) -> (r: String)
        ensures
            r@ == label(*sys_field),
    {
        let name: &str = match sys_field {
            SysField::OsName(_) => "OS",
            SysField::HostName(_) => "HostName",
            SysField::Underline(_) => "HostUnderline",
            SysField::Host(_) => "Host",
            SysField::KernelVersion(_) => "Kernel",
            SysField::Uptime(_) => "Uptime",
            SysField::Shell(_) => "Shell",
            SysField::WM(_) => "WM",
            SysField::Terminal(_) => "Terminal",
            SysField::Memory(_) => "Memory",
            SysField::CPUs(_) => "CPU",
            SysField::GPUs(_) => "GPU",
            SysField::Resolutions(_) => "Resolution",
        };
        String::from_str(name)
    }

    /// The lines of the summary, one or more per fact, in order: labels in
    /// `primary`, values in `secondary`.
    pub fn output_strs(&self, primary: Color, secondary: Color) -> (r: Vec<String>)
        ensures
            views(r@) == concat_lines(
                self.fields().map_values(|f: SysField| field_lines(f, primary, secondary)),
            ),
    {
        let ghost parts = self.fields().map_values(|f: SysField| field_lines(f, primary, secondary));
        let mut out: Vec<String> = Vec::new();
        let mut i: usize = 0;
        while i < self.data.len()
            invariant
                i <= self.data@.len(),
                parts == self.fields().map_values(|f: SysField| field_lines(f, primary, secondary)),
                views(out@) == concat_lines(parts.take(i as int)),
            decreases self.data@.len() - i,
        {
            assert(parts.take(i + 1).drop_last() =~= parts.take(i as int));
            let ghost before = views(out@);
            let field = &self.data[i];
            let name = self.get_name(field);
            match field {
                SysField::HostName(v) | SysField::Underline(v) => {
                    out.push(colorize(v.as_str(), primary));
                },
                SysField::Resolutions(vs) | SysField::CPUs(vs) | SysField::GPUs(vs) => {
                    push_list_lines(&mut out, name.as_str(), vs, primary, secondary);
                },
                SysField::OsName(v)
                | SysField::Host(v)
                | SysField::KernelVersion(v)
                | SysField::Uptime(v)
                | SysField::Shell(v)
                | SysField::WM(v)
                | SysField::Terminal(v)
                | SysField::Memory(v) => {
                    out.push(labelled_line(name.as_str(), v.as_str(), primary, secondary));
                },
            }
            assert(views(out@) =~= before + parts[i as int]);
            i = i + 1;
        }
        assert(parts.take(self.data@.len() as int) =~= parts);
        out
    }
}

fn labelled_line(name: &str, v: &str, p: Color, s: Color) -> (r: String)
    ensures
        r@ == labelled(name@, v@, p, s),
{
    let mut line = colorize(name, p);
    line.append(": ");
    let value = colorize(v, s);
    line.append(value.as_str());
    line
}

fn push_list_lines(out: &mut Vec<String>, name: &str, vs: &Vec<String>, p: Color, s: Color)
    ensures
        views(final(out)@) == views(old(out)@) + list_lines(name@, views(vs@), p, s),
{
    let ghost start = views(out@);
    if vs.len() == 1 {
        out.push(labelled_line(name, vs[0].as_str(), p, s));
        assert(views(out@) =~= start + list_lines(name@, views(vs@), p, s));
        return;
    }
    let mut j: usize = 0;
    while j < vs.len()
        invariant
            vs@.len() != 1,
            j <= vs@.len(),
            views(out@) == start + list_lines(name@, views(vs@), p, s).take(j as int),
        decreases vs@.len() - j,
    {
        let ghost before = views(out@);
        let mut line = colorize(name, p);
        line.append(" (");
        let number = to_decimal((j + 1) as u64);
        let n = colorize(number.as_str(), p);
        line.append(n.as_str());
        line.append("): ");
        let value = colorize(vs[j].as_str(), s);
        line.append(value.as_str());
        assert(line@ =~= numbered(name@, (j + 1) as nat, vs@[j as int]@, p, s));
        out.push(line);
        assert(views(out@) =~= before.push(line@));
        assert(list_lines(name@, views(vs@), p, s).take(j + 1) =~= list_lines(name@, views(vs@), p, s).take(
            j as int,
        ).push(numbered(name@, (j + 1) as nat, vs@[j as int]@, p, s)));
        j = j + 1;
    }
    assert(list_lines(name@, views(vs@), p, s).take(vs@.len() as int) =~= list_lines(
        name@,
        views(vs@),
        p,
        s,
    ));
}

} // verus!
