use rustky::config::Module;
use rustky::metrics::{DiskInfo, LocalTime, MetricsSnapshot, NetworkInfo};
use rustky::modules::{
    collect, exec_line, inline_key, startup_loads, Load, outside_fits, outside_work, time_lines, Outside, ScriptOutcome, Work,
};
use rustky::script::{ScriptItem, ScriptValue};
use rustky::styled::{LineStyle, StyledLine};

fn snapshot() -> MetricsSnapshot {
    MetricsSnapshot {
        cpu_usage_tenths: 123,
        cpu_per_core_tenths: vec![50, 1000],
        mem_used: 4_294_967_296,
        mem_total: 17_179_869_184,
        swap_used: 0,
        swap_total: 0,
        disks: vec![
            DiskInfo {
                mount_point: "/".to_string(),
                total_bytes: 10 * 1_073_741_824,
                available_bytes: 4 * 1_073_741_824,
            },
            DiskInfo {
                mount_point: "/odd".to_string(),
                total_bytes: 1_073_741_824,
                available_bytes: 2 * 1_073_741_824,
            },
        ],
        networks: vec![NetworkInfo {
            interface: "eth0".to_string(),
            rx_bytes: 1_572_864,
            tx_bytes: 0,
        }],
        hostname: "box".to_string(),
        uptime_seconds: 3725,
        os_name: None,
        kernel_version: None,
        local_time: LocalTime { unix_seconds: 0, nanos: 0, utc_offset_seconds: 0 },
    }
}

fn texts(lines: &[StyledLine]) -> Vec<String> {
    lines.iter().map(|l| l.text.clone()).collect()
}

fn one(m: Module) -> String {
    let lines = collect(&m, &snapshot(), &Outside::Nothing);
    assert_eq!(lines.len(), 1);
    assert_eq!(lines[0].style, LineStyle::default());
    lines[0].text.clone()
}

#[test]
fn memory_line_in_gib_with_percent() {
    assert_eq!(one(Module::Memory { label: "MEM".to_string() }), "MEM: 4.0/16.0 GiB (25%)");
}

#[test]
fn memory_line_with_zero_total() {
    let mut snap = snapshot();
    snap.mem_used = 0;
    snap.mem_total = 0;
    let lines = collect(&Module::Memory { label: "RAM".to_string() }, &snap, &Outside::Nothing);
    assert_eq!(texts(&lines), vec!["RAM: 0.0/0.0 GiB (0%)"]);
}

#[test]
fn memory_percent_rounds_ties_to_even() {
    let mut snap = snapshot();
    snap.mem_used = 1;
    snap.mem_total = 8;
    let lines = collect(&Module::Memory { label: "MEM".to_string() }, &snap, &Outside::Nothing);
    assert_eq!(texts(&lines), vec!["MEM: 0.0/0.0 GiB (12%)"]);
    snap.mem_used = 3;
    let lines = collect(&Module::Memory { label: "MEM".to_string() }, &snap, &Outside::Nothing);
    assert_eq!(texts(&lines), vec!["MEM: 0.0/0.0 GiB (38%)"]);
}

#[test]
fn disk_absent_is_not_found() {
    assert_eq!(one(Module::Disk { mount_point: "/data".to_string() }), "DISK /data: not found");
}

#[test]
fn disk_found_reports_used_and_total() {
    assert_eq!(one(Module::Disk { mount_point: "/".to_string() }), "DISK /: 6.0/10.0 GiB");
}

#[test]
fn disk_with_more_available_than_total_is_negative() {
    assert_eq!(one(Module::Disk { mount_point: "/odd".to_string() }), "DISK /odd: -1.0/1.0 GiB");
}

#[test]
fn network_found_and_absent() {
    assert_eq!(
        one(Module::Network { interface: "eth0".to_string() }),
        "NET eth0: rx 1.5 MiB / tx 0.0 MiB"
    );
    assert_eq!(one(Module::Network { interface: "wlan0".to_string() }), "NET wlan0: not found");
}

#[test]
fn cpu_aggregate_and_per_core() {
    assert_eq!(one(Module::Cpu { label: "CPU".to_string(), show_per_core: false }), "CPU: 12.3%");
    let lines = collect(
        &Module::Cpu { label: "CPU".to_string(), show_per_core: true },
        &snapshot(),
        &Outside::Nothing,
    );
    assert_eq!(texts(&lines), vec!["  core 0: 5.0%", "  core 1: 100.0%"]);
}

#[test]
fn cpu_per_core_with_no_cores_gives_no_lines() {
    let mut snap = snapshot();
    snap.cpu_per_core_tenths = vec![];
    let lines = collect(&Module::Cpu { label: "CPU".to_string(), show_per_core: true }, &snap, &Outside::Nothing);
    assert!(lines.is_empty());
}

#[test]
fn uptime_hostname_and_text() {
    assert_eq!(one(Module::Uptime), "UPTIME: 1h 2m");
    assert_eq!(one(Module::Hostname), "HOST: box");
    assert_eq!(one(Module::Text { content: "hello".to_string() }), "hello");
}

#[test]
fn time_is_formatted_at_the_offset() {
    assert_eq!(one(Module::Time { format: "%Y-%m-%d %H:%M:%S".to_string() }), "1970-01-01 00:00:00");
    let mut snap = snapshot();
    snap.local_time = LocalTime { unix_seconds: 86_400 + 1800, nanos: 0, utc_offset_seconds: 3600 };
    let lines = collect(&Module::Time { format: "%d %H:%M %z".to_string() }, &snap, &Outside::Nothing);
    assert_eq!(texts(&lines), vec!["02 01:30 +0100"]);
}

#[test]
fn time_with_a_bad_format_gives_a_diagnostic() {
    assert_eq!(one(Module::Time { format: "%Q".to_string() }), "[time: cannot format %Q]");
}

fn exec(label: Option<&str>, style: Option<LineStyle>, result: Result<Vec<u8>, String>) -> Vec<StyledLine> {
    let m = Module::Exec {
        command: "true".to_string(),
        label: label.map(|l| l.to_string()),
        style,
    };
    let o = Outside::Command(result);
    assert!(outside_fits(&m, &o));
    collect(&m, &snapshot(), &o)
}

#[test]
fn exec_output_is_trimmed_and_labelled() {
    assert_eq!(texts(&exec(None, None, Ok(b"  hello world \n\n".to_vec()))), vec!["hello world"]);
    assert_eq!(texts(&exec(Some("L"), None, Ok(b"42\n".to_vec()))), vec!["L: 42"]);
}

#[test]
fn exec_output_replaces_bad_utf8() {
    assert_eq!(texts(&exec(None, None, Ok(vec![b'a', 0xff, b'b']))), vec!["a\u{fffd}b"]);
}

#[test]
fn exec_launch_error_becomes_a_line() {
    assert_eq!(
        texts(&exec(Some("X"), None, Err("No such file".to_string()))),
        vec!["X: exec error: No such file"]
    );
}

#[test]
fn exec_style_is_carried() {
    let style = LineStyle { fg_color: Some("#ff0000".to_string()), bg_color: None, font_size: Some(1400) };
    let lines = exec(None, Some(style.clone()), Ok(b"x".to_vec()));
    assert_eq!(lines[0].style, style);
}

#[test]
fn rhai_without_code_or_file() {
    let m = Module::Rhai { code: None, file: None, function: "f".to_string() };
    assert_eq!(outside_work(&m), Work::Idle);
    assert_eq!(one(m), "[rhai: no code or file specified]");
}

#[test]
fn script_outcomes_become_lines() {
    let rhai = Module::Rhai { code: Some("fn f() {}".to_string()), file: None, function: "f".to_string() };
    let py = Module::Python { file: "/s/x.py".to_string(), function: "f".to_string() };
    let run = |m: &Module, o: ScriptOutcome| texts(&collect(m, &snapshot(), &Outside::Script(o)));
    assert_eq!(run(&rhai, ScriptOutcome::NotLoaded("inline:f".to_string())), vec!["[rhai: inline:f not compiled]"]);
    assert_eq!(run(&rhai, ScriptOutcome::Failed("bad".to_string())), vec!["[rhai error: bad]"]);
    assert_eq!(run(&py, ScriptOutcome::NotLoaded("/s/x.py".to_string())), vec!["[python: /s/x.py not loaded]"]);
    assert_eq!(run(&py, ScriptOutcome::Failed("boom".to_string())), vec!["[python error: boom]"]);
    assert_eq!(
        run(&py, ScriptOutcome::Returned(ScriptValue::Single(ScriptItem::Text("a\nb".to_string())))),
        vec!["a", "b"]
    );
}

#[test]
fn outside_work_and_fit() {
    let inline = Module::Rhai { code: Some("x".to_string()), file: Some("f.rhai".to_string()), function: "go".to_string() };
    assert_eq!(
        outside_work(&inline),
        Work::RhaiInline { key: "inline:go".to_string(), function: "go".to_string() }
    );
    let file = Module::Rhai { code: None, file: Some("f.rhai".to_string()), function: "go".to_string() };
    assert_eq!(outside_work(&file), Work::RhaiFile { file: "f.rhai".to_string(), function: "go".to_string() });
    assert_eq!(inline_key(&"go".to_string()), "inline:go");
    assert!(!outside_fits(&Module::Uptime, &Outside::Command(Ok(vec![]))));
    assert!(outside_fits(&Module::Uptime, &Outside::Nothing));
    assert_eq!(outside_work(&Module::Exec { command: "ls".to_string(), label: None, style: None }), Work::Run("ls".to_string()));
}

#[test]
fn exec_line_from_given_output() {
    let l = exec_line(&Some("up".to_string()), &None, Ok("3 days".to_string()));
    assert_eq!(l.text, "up: 3 days");
    let style = LineStyle { fg_color: None, bg_color: Some("#222222".to_string()), font_size: None };
    let l = exec_line(&None, &Some(style.clone()), Err("denied".to_string()));
    assert_eq!(l.text, "exec error: denied");
    assert_eq!(l.style, style);
}

#[test]
fn time_lines_from_given_text() {
    let fmt = "%H".to_string();
    assert_eq!(texts(&time_lines(&fmt, Some("12".to_string()))), vec!["12"]);
    assert_eq!(texts(&time_lines(&fmt, None)), vec!["[time: cannot format %H]"]);
}

#[test]
fn startup_loads_compile_code_and_file() {
    let both = Module::Rhai { code: Some("fn f() {}".to_string()), file: Some("a.rhai".to_string()), function: "f".to_string() };
    assert_eq!(
        startup_loads(&both),
        vec![
            Load::RhaiInline { key: "inline:f".to_string(), code: "fn f() {}".to_string() },
            Load::RhaiFile { file: "a.rhai".to_string() },
        ]
    );
    let py = Module::Python { file: "p.py".to_string(), function: "g".to_string() };
    assert_eq!(startup_loads(&py), vec![Load::Python { file: "p.py".to_string() }]);
    assert!(startup_loads(&Module::Uptime).is_empty());
}
