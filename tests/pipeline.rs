use rustky::config::Module;
use rustky::metrics::{LocalTime, MetricsSnapshot};
use rustky::modules::{Outside, ScriptOutcome};
use rustky::pipeline::{collect_lines, post_process, HookOutcome};
use rustky::script::{decode, ScriptItem, ScriptRecord, ScriptValue};
use rustky::styled::{LineStyle, StyledLine};

fn empty_snapshot() -> MetricsSnapshot {
    MetricsSnapshot {
        cpu_usage_tenths: 0,
        cpu_per_core_tenths: vec![],
        mem_used: 0,
        mem_total: 0,
        swap_used: 0,
        swap_total: 0,
        disks: vec![],
        networks: vec![],
        hostname: "h".to_string(),
        uptime_seconds: 0,
        os_name: None,
        kernel_version: None,
        local_time: LocalTime { unix_seconds: 0, nanos: 0, utc_offset_seconds: 0 },
    }
}

fn texts(lines: &[StyledLine]) -> Vec<String> {
    lines.iter().map(|l| l.text.clone()).collect()
}

fn text(s: &str) -> Module {
    Module::Text { content: s.to_string() }
}

fn python(f: &str) -> Module {
    Module::Python { file: "/m.py".to_string(), function: f.to_string() }
}

#[test]
fn pipeline_keeps_descriptor_order() {
    let modules = vec![text("a"), python("b"), text("c")];
    let outside = vec![
        Outside::Nothing,
        Outside::Script(ScriptOutcome::Returned(ScriptValue::List(vec![
            ScriptItem::Text("b1".to_string()),
            ScriptItem::Text("b2".to_string()),
        ]))),
        Outside::Nothing,
    ];
    let lines = collect_lines(&modules, &empty_snapshot(), &outside);
    assert_eq!(texts(&lines), vec!["a", "b1", "b2", "c"]);
}

#[test]
fn failing_module_does_not_suppress_others() {
    let modules = vec![text("x"), python("broken"), text("y")];
    let outside = vec![
        Outside::Nothing,
        Outside::Script(ScriptOutcome::Failed("NameError: oops".to_string())),
        Outside::Nothing,
    ];
    let lines = collect_lines(&modules, &empty_snapshot(), &outside);
    assert_eq!(texts(&lines), vec!["x", "[python error: NameError: oops]", "y"]);
}

#[test]
fn empty_module_list_gives_no_lines() {
    assert!(collect_lines(&vec![], &empty_snapshot(), &vec![]).is_empty());
}

#[test]
fn hook_result_replaces_lines() {
    let lines = vec![StyledLine::plain("a".to_string())];
    let out = post_process(
        lines,
        &HookOutcome::Returned(ScriptValue::Single(ScriptItem::Text("z".to_string()))),
    );
    assert_eq!(texts(&out), vec!["z"]);
}

#[test]
fn hook_empty_result_blanks_the_panel() {
    let lines = vec![StyledLine::plain("a".to_string())];
    let out = post_process(lines, &HookOutcome::Returned(ScriptValue::List(vec![])));
    assert!(out.is_empty());
}

#[test]
fn hook_failure_or_absence_keeps_lines() {
    let lines = vec![StyledLine::plain("a".to_string()), StyledLine::plain("b".to_string())];
    let out = post_process(lines.clone(), &HookOutcome::Failed("err".to_string()));
    assert_eq!(texts(&out), vec!["a", "b"]);
    let out = post_process(lines, &HookOutcome::Absent);
    assert_eq!(texts(&out), vec!["a", "b"]);
}

#[test]
fn decode_text_splits_lines() {
    let out = decode(&ScriptValue::Single(ScriptItem::Text("one\r\ntwo\n\nthree\n".to_string())));
    assert_eq!(texts(&out), vec!["one", "two", "", "three"]);
    assert!(decode(&ScriptValue::Single(ScriptItem::Text(String::new()))).is_empty());
    let out = decode(&ScriptValue::Single(ScriptItem::Text("tail\r".to_string())));
    assert_eq!(texts(&out), vec!["tail\r"]);
}

#[test]
fn decode_record_gives_styled_line() {
    let rec = ScriptRecord {
        text: Some("hot".to_string()),
        fg_color: Some("#ff0000".to_string()),
        bg_color: None,
        font_size: Some(1600),
    };
    let out = decode(&ScriptValue::Single(ScriptItem::Record(rec)));
    assert_eq!(out.len(), 1);
    assert_eq!(out[0].text, "hot");
    assert_eq!(
        out[0].style,
        LineStyle { fg_color: Some("#ff0000".to_string()), bg_color: None, font_size: Some(1600) }
    );
    let bare = ScriptRecord { text: None, fg_color: None, bg_color: Some("#000".to_string()), font_size: None };
    let out = decode(&ScriptValue::Single(ScriptItem::Record(bare)));
    assert_eq!(out[0].text, "");
    assert_eq!(out[0].style.bg_color, Some("#000".to_string()));
}

#[test]
fn decode_other_and_lists() {
    let out = decode(&ScriptValue::Single(ScriptItem::Other("42".to_string())));
    assert_eq!(texts(&out), vec!["42"]);
    let out = decode(&ScriptValue::List(vec![
        ScriptItem::Text("a\nb".to_string()),
        ScriptItem::Other("[1, 2]".to_string()),
        ScriptItem::Record(ScriptRecord { text: Some("c".to_string()), fg_color: None, bg_color: None, font_size: None }),
    ]));
    assert_eq!(texts(&out), vec!["a", "b", "[1, 2]", "c"]);
}

#[test]
fn styled_line_constructors() {
    let p = StyledLine::plain("t".to_string());
    assert_eq!(p.style, LineStyle::default());
    let f: StyledLine = StyledLine::from("u".to_string());
    assert_eq!(f.text, "u");
    assert_eq!(f.style, LineStyle::default());
    let style = LineStyle { fg_color: None, bg_color: Some("#111111".to_string()), font_size: None };
    let s = StyledLine::styled("v".to_string(), style.clone());
    assert_eq!(s.style, style);
    assert_eq!(s.copied(), s);
}
