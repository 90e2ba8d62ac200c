use crossterm::style::Stylize;
use sysfetch::color::Color;
use sysfetch::sysoverview::{Facts, SysField, SysOverview};

fn strings(v: &[&str]) -> Vec<String> {
    v.iter().map(|s| s.to_string()).collect()
}

fn p(s: &str) -> String {
    format!("{}", s.with(crossterm::style::Color::Blue))
}

fn s(v: &str) -> String {
    format!("{}", v.with(crossterm::style::Color::White))
}

fn facts() -> Facts {
    Facts {
        host_name: Some("box".to_string()),
        os_version: Some("Linux 6".to_string()),
        distribution: "arch".to_string(),
        kernel_version: None,
        uptime_secs: 3661,
        shell: None,
        displays: vec![(1920, 1080), (800, 600)],
        window_manager: Some("iTerm".to_string()),
        terminal: None,
        cpu_brands: strings(&["M1", "M1", "M1"]),
        gpu_report: Vec::new(),
        total_memory: 16 * 1048576,
        used_memory: 5 * 1048576 + 1000,
    }
}

#[test]
fn uptime_in_words() {
    assert_eq!(SysOverview::get_uptime(90061), "1 days, 1 hours, 1 mins, 1 seconds");
    assert_eq!(SysOverview::get_uptime(86400), "24 hours");
    assert_eq!(SysOverview::get_uptime(3600), "60 mins");
    assert_eq!(SysOverview::get_uptime(61), "1 mins, 1 seconds");
    assert_eq!(SysOverview::get_uptime(60), "60 seconds");
    assert_eq!(SysOverview::get_uptime(0), "");
    assert_eq!(SysOverview::get_uptime(172800 + 7), "2 days, 7 seconds");
}

#[test]
fn mebibytes_round_down() {
    assert_eq!(SysOverview::bytes_to_mebibytes(0), 0);
    assert_eq!(SysOverview::bytes_to_mebibytes(1048575), 0);
    assert_eq!(SysOverview::bytes_to_mebibytes(3 * 1048576 + 5), 3);
}

#[test]
fn memory_line() {
    assert_eq!(SysOverview::get_memory(16 * 1048576, 5 * 1048576 + 1), "5MiB / 16MiB");
}

#[test]
fn underline_is_dashes() {
    assert_eq!(SysOverview::get_underline(3), "---");
    assert_eq!(SysOverview::get_underline(0), "");
}

#[test]
fn placeholders_for_missing_facts() {
    assert_eq!(SysOverview::get_shell(None), "Unable to get shell");
    assert_eq!(SysOverview::get_shell(Some("/bin/zsh".to_string())), "/bin/zsh");
    assert_eq!(SysOverview::get_wm(None), "Unable to get WM");
    assert_eq!(SysOverview::get_terminal(None), "Unable to get terminal");
    assert_eq!(SysOverview::get_resolutions(&Vec::new()), strings(&["Unable to get display!"]));
    assert_eq!(SysOverview::get_cpus(&Vec::new()), strings(&["Unable to get CPU!"]));
}

#[test]
fn resolutions_width_by_height() {
    assert_eq!(SysOverview::get_resolutions(&vec![(1920, 1080), (0, 7)]), strings(&["1920x1080", "0x7"]));
}

#[test]
fn cpus_listed_once_each() {
    assert_eq!(SysOverview::get_cpus(&strings(&["A", "B", "A", "C", "B"])), strings(&["A", "B", "C"]));
}

#[test]
fn gpu_report_is_read() {
    let report = strings(&[
        "Graphics/Displays:",
        "    Chipset Model: Radeon Pro 560",
        "      VRAM (Total): 4 GB",
        "    Chipset Model: Intel HD 630",
        "      VRAM (Dynamic, Max): 1536 MB",
        "    Vendor: Intel",
    ]);
    assert_eq!(
        SysOverview::get_gpu(&report),
        strings(&["Radeon Pro 560 (4 GB VRAM)", "Intel HD 630 (1536 MB VRAM)"])
    );
}

#[test]
fn gpu_without_a_name_gets_placeholder_name() {
    assert_eq!(
        SysOverview::get_gpu(&strings(&["VRAM: 2 GB"])),
        strings(&["Unable to get GPU (2 GB VRAM)"])
    );
}

#[test]
fn scenario_c_failed_gpu_query_still_has_a_line() {
    assert_eq!(SysOverview::get_gpu(&Vec::new()), strings(&["Unable to get GPU"]));
    let o = SysOverview::new(facts());
    let lines = o.output_strs(Color::Blue, Color::White);
    let gpu = format!("{}: {}", p("GPU"), s("Unable to get GPU"));
    assert_eq!(lines[lines.len() - 2], gpu);
}

#[test]
fn names_of_fields() {
    let o = SysOverview::new(facts());
    assert_eq!(o.get_name(&SysField::OsName(String::new())), "OS");
    assert_eq!(o.get_name(&SysField::Underline(String::new())), "HostUnderline");
    assert_eq!(o.get_name(&SysField::GPUs(Vec::new())), "GPU");
    assert_eq!(o.get_name(&SysField::Resolutions(Vec::new())), "Resolution");
    assert_eq!(o.get_name(&SysField::KernelVersion(String::new())), "Kernel");
}

#[test]
fn summary_lines_in_catalog_order() {
    let o = SysOverview::new(facts());
    let lines = o.output_strs(Color::Blue, Color::White);
    let expected = vec![
        p("box"),
        p("---"),
        format!("{}: {}", p("Host"), s("arch")),
        format!("{}: {}", p("OS"), s("Linux 6")),
        format!("{}: {}", p("Kernel"), s("")),
        format!("{}: {}", p("Uptime"), s("1 hours, 1 mins, 1 seconds")),
        format!("{}: {}", p("Shell"), s("Unable to get shell")),
        format!("{} ({}): {}", p("Resolution"), p("1"), s("1920x1080")),
        format!("{} ({}): {}", p("Resolution"), p("2"), s("800x600")),
        format!("{}: {}", p("WM"), s("iTerm")),
        format!("{}: {}", p("Terminal"), s("Unable to get terminal")),
        format!("{}: {}", p("CPU"), s("M1")),
        format!("{}: {}", p("GPU"), s("Unable to get GPU")),
        format!("{}: {}", p("Memory"), s("5MiB / 16MiB")),
    ];
    assert_eq!(lines, expected);
}

#[test]
fn missing_host_name_gives_empty_heading() {
    let mut f = facts();
    f.host_name = None;
    let lines = SysOverview::new(f).output_strs(Color::Red, Color::White);
    let red = format!("{}", "".with(crossterm::style::Color::Red));
    assert_eq!(lines[0], red);
    assert_eq!(lines[1], red);
}
