//! The lines each kind of module produces.
//!
//! Work that only the world outside can do (running a command, calling a
//! script) is handed in as an `Outside` value; everything decided from it
//! is here.

use vstd::prelude::*;
use crate::clock::{format_time, time_text};
use crate::config::Module;
use crate::metrics::{DiskInfo, MetricsSnapshot, NetworkInfo};
use crate::script::{ScriptValue, decode, value_lines};
use crate::styled::{LineStyle, LineView, StyledLine, lines_view, opt_text, plain_line};
use crate::text::{decimal, push_decimal, push_ratio, push_signed_ratio, push_tenths, ratio_text,
    round_div, rounded_div, signed_ratio_text, tenths_text};

verus! {

/// Bytes in a GiB.
pub const GIB: u128 = 1073741824;

/// Bytes in a MiB.
pub const MIB: u128 = 1048576;

/// How a script call ended.
#[derive(Debug, Clone, PartialEq, Eq)]
pub enum ScriptOutcome {
    /// No compiled or loaded script is known under this key.
    NotLoaded(String),
    /// The call failed; the runtime's message.
    Failed(String),
    /// The call returned this value.
    Returned(ScriptValue),
}

/// The result of the outside work a module needs.
#[derive(Debug, PartialEq, Eq)]
pub enum Outside {
    /// The module needs none.
    Nothing,
    /// A command's captured standard output, or the text of the error that
    /// kept it from starting.
    Command(Result<Vec<u8>, String>),
    /// A script call.
    Script(ScriptOutcome),
}

/// The outside work a module asks for.
#[derive(Debug, Clone, PartialEq, Eq)]
pub enum Work {
    /// Nothing to do outside.
    Idle,
    /// Run this shell command.
    Run(String),
    /// Call `function` of the Rhai script compiled from inline code.
    RhaiInline { key: String, function: String },
    /// Call `function` of the Rhai script in this file.
    RhaiFile { file: String, function: String },
    /// Call `function` of the Python module in this file.
    Python { file: String, function: String },
}

/// A script to compile or load once, at startup.
#[derive(Debug, Clone, PartialEq, Eq)]
pub enum Load {
    /// Compile inline Rhai code under `key`.
    RhaiInline { key: String, code: String },
    /// Compile the Rhai script in this file.
    RhaiFile { file: String },
    /// Load the Python module in this file.
    Python { file: String },
}

/// The text of the standard output bytes `b`, with malformed UTF-8
/// replaced.
pub uninterp spec fn lossy_text(b: Seq<u8>) -> Seq<char>;

/// `s` without leading and trailing white space.
pub uninterp spec fn trimmed(s: Seq<char>) -> Seq<char>;

/// Relies on `String::from_utf8_lossy`: the decoded text, with U+FFFD for
/// each malformed sequence.
#[verifier::external_body]
fn utf8_lossy(b: &Vec<u8>) -> (r: String)
    ensures
        r@ == lossy_text(b@),
{
    String::from_utf8_lossy(b.as_slice()).into_owned()
}

/// Relies on `str::trim`: the text without leading and trailing white space.
#[verifier::external_body]
fn trim_text(s: &String) -> (r: String)
    ensures
        r@ == trimmed(s@),
{
    s.trim().to_string()
}

/// The key under which inline Rhai code for `function` is compiled.
pub open spec fn inline_key_text(function: Seq<char>) -> Seq<char> {
    "inline:"@ + function
}

pub fn inline_key(function: &String) -> (r: String)
    ensures
        r@ == inline_key_text(function@),
{
    let mut r = String::from_str("inline:");
    r.append(function.as_str());
    r
}

/// Whether `o` is the kind of outside result module `m` needs.
pub open spec fn fits(m: Module, o: Outside) -> bool {
    match m {
        Module::Exec { .. } => o is Command,
        Module::Rhai { code, file, .. } => if code is None && file is None {
            o is Nothing
        } else {
            o is Script
        },
        Module::Python { .. } => o is Script,
        _ => o is Nothing,
    }
}

pub fn outside_fits(m: &Module, o: &Outside) -> (r: bool)
    ensures
        r == fits(*m, *o),
{
    match m {
        Module::Exec { .. } => matches!(o, Outside::Command(_)),
        Module::Rhai { code, file, .. } => if code.is_none() && file.is_none() {
            matches!(o, Outside::Nothing)
        } else {
            matches!(o, Outside::Script(_))
        },
        Module::Python { .. } => matches!(o, Outside::Script(_)),
        _ => matches!(o, Outside::Nothing),
    }
}

/// The outside work module `m` asks for; inline Rhai code wins over a file.
pub fn outside_work(m: &Module) -> (r: Work)
    ensures
        match *m {
            Module::Exec { command, .. } => r matches Work::Run(c) && c@ == command@,
            Module::Rhai { code, file, function } => match (code, file) {
                (Some(_), _) => r matches Work::RhaiInline { key, function: f }
                    && key@ == inline_key_text(function@) && f@ == function@,
                (None, Some(path)) => r matches Work::RhaiFile { file: p, function: f }
                    && p@ == path@ && f@ == function@,
                (None, None) => r is Idle,
            },
            Module::Python { file, function } => r matches Work::Python { file: p, function: f }
                && p@ == file@ && f@ == function@,
            _ => r is Idle,
        },
{
    match m {
        Module::Exec { command, .. } => Work::Run(command.clone()),
        Module::Rhai { code, file, function } => {
            if code.is_some() {
                Work::RhaiInline { key: inline_key(function), function: function.clone() }
            } else {
                match file {
                    Some(path) => Work::RhaiFile { file: path.clone(), function: function.clone() },
                    None => Work::Idle,
                }
            }
        },
        Module::Python { file, function } => Work::Python {
            file: file.clone(),
            function: function.clone(),
        },
        _ => Work::Idle,
    }
}

/// The scripts module `m` needs ready before the first draw: a Rhai module
/// compiles both its inline code and its file, where it names them.
pub fn startup_loads(m: &Module) -> (r: Vec<Load>)
    ensures
        match *m {
            Module::Rhai { code, file, function } => {
                &&& r@.len() == (if code is Some { 1int } else { 0 }) + (if file is Some { 1int } else { 0 })
                &&& code matches Some(c) ==> (r@[0] matches Load::RhaiInline { key, code: c2 }
                    && key@ == inline_key_text(function@) && c2@ == c@)
                &&& file matches Some(f) ==> (r@[r@.len() - 1] matches Load::RhaiFile { file: f2 } && f2@ == f@)
            },
            Module::Python { file, .. } => r@.len() == 1 && (r@[0] matches Load::Python { file: f2 } && f2@ == file@),
            _ => r@.len() == 0,
        },
{
    let mut r: Vec<Load> = Vec::new();
    match m {
        Module::Rhai { code, file, function } => {
            if let Some(c) = code {
                r.push(Load::RhaiInline { key: inline_key(function), code: c.clone() });
            }
            if let Some(f) = file {
                r.push(Load::RhaiFile { file: f.clone() });
            }
        },
        Module::Python { file, .. } => {
            r.push(Load::Python { file: file.clone() });
        },
        _ => {},
    }
    r
}

pub open spec fn cpu_text(label: Seq<char>, tenths: u32) -> Seq<char> {
    label + ": "@ + tenths_text(tenths as nat) + "%"@
}

pub open spec fn core_text(index: nat, tenths: u32) -> Seq<char> {
    "  core "@ + decimal(index) + ": "@ + tenths_text(tenths as nat) + "%"@
}

/// Used memory as a whole percentage of the total (zero when the total is).
pub open spec fn memory_percent(used: u64, total: u64) -> nat {
    if total > 0 {
        round_div(used as nat * 100, total as nat)
    } else {
        0
    }
}

pub open spec fn memory_text(label: Seq<char>, used: u64, total: u64) -> Seq<char> {
    label + ": "@ + ratio_text(used as nat, GIB as nat) + "/"@ + ratio_text(total as nat, GIB as nat)
        + " GiB ("@ + decimal(memory_percent(used, total)) + "%)"@
}

/// The first disk mounted at `mount`.
pub open spec fn find_disk(ds: Seq<DiskInfo>, mount: Seq<char>) -> Option<DiskInfo>
    decreases ds.len(),
{
    if ds.len() == 0 {
        None
    } else if ds[0].mount_point@ == mount {
        Some(ds[0])
    } else {
        find_disk(ds.drop_first(), mount)
    }
}

pub open spec fn disk_text(mount: Seq<char>, ds: Seq<DiskInfo>) -> Seq<char> {
    match find_disk(ds, mount) {
        Some(d) => "DISK "@ + mount + ": "@ + signed_ratio_text(
            d.total_bytes as nat,
            d.available_bytes as nat,
            GIB as nat,
        ) + "/"@ + ratio_text(d.total_bytes as nat, GIB as nat) + " GiB"@,
        None => "DISK "@ + mount + ": not found"@,
    }
}

/// The first interface called `name`.
pub open spec fn find_network(ns: Seq<NetworkInfo>, name: Seq<char>) -> Option<NetworkInfo>
    decreases ns.len(),
{
    if ns.len() == 0 {
        None
    } else if ns[0].interface@ == name {
        Some(ns[0])
    } else {
        find_network(ns.drop_first(), name)
    }
}

pub open spec fn network_text(name: Seq<char>, ns: Seq<NetworkInfo>) -> Seq<char> {
    match find_network(ns, name) {
        Some(n) => "NET "@ + name + ": rx "@ + ratio_text(n.rx_bytes as nat, MIB as nat)
            + " MiB / tx "@ + ratio_text(n.tx_bytes as nat, MIB as nat) + " MiB"@,
        None => "NET "@ + name + ": not found"@,
    }
}

pub open spec fn uptime_text(seconds: u64) -> Seq<char> {
    "UPTIME: "@ + decimal(seconds as nat / 3600) + "h "@ + decimal((seconds as nat % 3600) / 60)
        + "m"@
}

pub open spec fn host_text(name: Seq<char>) -> Seq<char> {
    "HOST: "@ + name
}

/// The line of a time module whose format chrono rejects.
pub open spec fn time_error_text(format: Seq<char>) -> Seq<char> {
    "[time: cannot format "@ + format + "]"@
}

/// The text of an `Exec` line from the command's trimmed output, or the
/// text of the error that kept it from starting.
pub open spec fn exec_text(label: Option<String>, output: Result<Seq<char>, Seq<char>>) -> Seq<char> {
    let body = match output {
        Ok(text) => text,
        Err(e) => "exec error: "@ + e,
    };
    match label {
        Some(l) => l@ + ": "@ + body,
        None => body,
    }
}

/// The line of an `Exec` module: its text, in the configured style if any.
pub open spec fn exec_line_of(
    label: Option<String>,
    style: Option<LineStyle>,
    output: Result<Seq<char>, Seq<char>>,
) -> LineView {
    match style {
        Some(s) => LineView { text: exec_text(label, output), style: s@ },
        None => plain_line(exec_text(label, output)),
    }
}

/// What a command's result reads as: its standard output decoded and
/// trimmed, or the error text.
pub open spec fn command_text(result: Result<Vec<u8>, String>) -> Result<Seq<char>, Seq<char>> {
    match result {
        Ok(out) => Ok(trimmed(lossy_text(out@))),
        Err(e) => Err(e@),
    }
}

/// The lines of a time module from chrono's text, or from its refusal.
pub open spec fn time_lines_of(format: Seq<char>, formatted: Option<Seq<char>>) -> Seq<LineView> {
    match formatted {
        Some(s) => seq![plain_line(s)],
        None => seq![plain_line(time_error_text(format))],
    }
}

/// The lines of a script call for a runtime called `kind`, whose missing
/// scripts are reported as `missing`.
pub open spec fn script_lines(kind: Seq<char>, missing: Seq<char>, o: ScriptOutcome) -> Seq<LineView> {
    match o {
        ScriptOutcome::NotLoaded(key) => seq![plain_line("["@ + kind + ": "@ + key@ + missing + "]"@)],
        ScriptOutcome::Failed(e) => seq![plain_line("["@ + kind + " error: "@ + e@ + "]"@)],
        ScriptOutcome::Returned(v) => value_lines(v),
    }
}

/// The lines module `m` produces from the snapshot `snap` and the result
/// `o` of its outside work.
pub open spec fn module_lines(m: Module, snap: MetricsSnapshot, o: Outside) -> Seq<LineView> {
    match m {
        Module::Cpu { label, show_per_core } => if show_per_core {
            Seq::new(
                snap.cpu_per_core_tenths@.len(),
                |i: int| plain_line(core_text(i as nat, snap.cpu_per_core_tenths@[i])),
            )
        } else {
            seq![plain_line(cpu_text(label@, snap.cpu_usage_tenths))]
        },
        Module::Memory { label } => seq![plain_line(memory_text(label@, snap.mem_used, snap.mem_total))],
        Module::Disk { mount_point } => seq![plain_line(disk_text(mount_point@, snap.disks@))],
        Module::Network { interface } => seq![plain_line(network_text(interface@, snap.networks@))],
        Module::Uptime => seq![plain_line(uptime_text(snap.uptime_seconds))],
        Module::Hostname => seq![plain_line(host_text(snap.hostname@))],
        Module::Time { format } => {
            let t = snap.local_time;
            time_lines_of(format@, time_text(t.unix_seconds, t.nanos, t.utc_offset_seconds, format@))
        },
        Module::Text { content } => seq![plain_line(content@)],
        Module::Exec { label, style, .. } => match o {
            Outside::Command(result) => seq![exec_line_of(label, style, command_text(result))],
            _ => Seq::empty(),
        },
        Module::Rhai { code, file, .. } => if code is None && file is None {
            seq![plain_line("[rhai: no code or file specified]"@)]
        } else {
            match o {
                Outside::Script(outcome) => script_lines("rhai"@, " not compiled"@, outcome),
                _ => Seq::empty(),
            }
        },
        Module::Python { .. } => match o {
            Outside::Script(outcome) => script_lines("python"@, " not loaded"@, outcome),
            _ => Seq::empty(),
        },
    }
}


fn cpu_line(label: &String, tenths: u32) -> (r: String)
    ensures
        r@ == cpu_text(label@, tenths),
{
    let mut r = label.clone();
    r.append(": ");
    push_tenths(&mut r, tenths as u128);
    r.append("%");
    r
}

fn core_line(index: usize, tenths: u32) -> (r: String)
    ensures
        r@ == core_text(index as nat, tenths),
{
    let mut r = String::from_str("  core ");
    push_decimal(&mut r, index as u128);
    r.append(": ");
    push_tenths(&mut r, tenths as u128);
    r.append("%");
    r
}

fn memory_line(label: &String, used: u64, total: u64) -> (r: String)
    ensures
        r@ == memory_text(label@, used, total),
{
    let mut r = label.clone();
    r.append(": ");
    push_ratio(&mut r, used, GIB);
    r.append("/");
    push_ratio(&mut r, total, GIB);
    r.append(" GiB (");
    let pct: u128 = if total > 0 {
        rounded_div(used as u128 * 100, total as u128)
    } else {
        0
    };
    push_decimal(&mut r, pct);
    r.append("%)");
    r
}

fn disk_line(mount: &String, disks: &Vec<DiskInfo>) -> (r: String)
    ensures
        r@ == disk_text(mount@, disks@),
{
    let mut r = String::from_str("DISK ");
    r.append(mount.as_str());
    let mut i: usize = 0;
    assert(disks@.skip(0) =~= disks@);
    while i < disks.len()
        invariant
            i <= disks@.len(),
            find_disk(disks@, mount@) == find_disk(disks@.skip(i as int), mount@),
            r@ == "DISK "@ + mount@,
        decreases disks@.len() - i,
    {
        assert(disks@.skip(i as int).drop_first() =~= disks@.skip(i + 1));
        let d = &disks[i];
        if d.mount_point == *mount {
            r.append(": ");
            push_signed_ratio(&mut r, d.total_bytes, d.available_bytes, GIB);
            r.append("/");
            push_ratio(&mut r, d.total_bytes, GIB);
            r.append(" GiB");
            return r;
        }
        i = i + 1;
    }
    r.append(": not found");
    r
}

fn network_line(name: &String, networks: &Vec<NetworkInfo>) -> (r: String)
    ensures
        r@ == network_text(name@, networks@),
{
    let mut r = String::from_str("NET ");
    r.append(name.as_str());
    let mut i: usize = 0;
    assert(networks@.skip(0) =~= networks@);
    while i < networks.len()
        invariant
            i <= networks@.len(),
            find_network(networks@, name@) == find_network(networks@.skip(i as int), name@),
            r@ == "NET "@ + name@,
        decreases networks@.len() - i,
    {
        assert(networks@.skip(i as int).drop_first() =~= networks@.skip(i + 1));
        let n = &networks[i];
        if n.interface == *name {
            r.append(": rx ");
            push_ratio(&mut r, n.rx_bytes, MIB);
            r.append(" MiB / tx ");
            push_ratio(&mut r, n.tx_bytes, MIB);
            r.append(" MiB");
            return r;
        }
        i = i + 1;
    }
    r.append(": not found");
    r
}

fn uptime_line(seconds: u64) -> (r: String)
    ensures
        r@ == uptime_text(seconds),
{
    let mut r = String::from_str("UPTIME: ");
    push_decimal(&mut r, (seconds / 3600) as u128);
    r.append("h ");
    push_decimal(&mut r, ((seconds % 3600) / 60) as u128);
    r.append("m");
    r
}

fn script_diagnostic(kind: &str, key: &String, missing: &str) -> (r: StyledLine)
    ensures
        r@ == plain_line("["@ + kind@ + ": "@ + key@ + missing@ + "]"@),
{
    let mut t = String::from_str("[");
    t.append(kind);
    t.append(": ");
    t.append(key.as_str());
    t.append(missing);
    t.append("]");
    StyledLine::plain(t)
}

fn script_error(kind: &str, message: &String) -> (r: StyledLine)
    ensures
        r@ == plain_line("["@ + kind@ + " error: "@ + message@ + "]"@),
{
    let mut t = String::from_str("[");
    t.append(kind);
    t.append(" error: ");
    t.append(message.as_str());
    t.append("]");
    StyledLine::plain(t)
}

fn outcome_lines(kind: &str, missing: &str, o: &ScriptOutcome) -> (r: Vec<StyledLine>)
    ensures
        lines_view(r@) == script_lines(kind@, missing@, *o),
{
    let r = match o {
        ScriptOutcome::NotLoaded(key) => vec![script_diagnostic(kind, key, missing)],
        ScriptOutcome::Failed(e) => vec![script_error(kind, e)],
        ScriptOutcome::Returned(v) => decode(v),
    };
    assert(lines_view(r@) =~= script_lines(kind@, missing@, *o));
    r
}

fn one_line(text: String) -> (r: Vec<StyledLine>)
    ensures
        lines_view(r@) == seq![plain_line(text@)],
{
    let r = vec![StyledLine::plain(text)];
    assert(lines_view(r@) =~= seq![plain_line(text@)]);
    r
}

/// The line of an `Exec` module given what its command gave: `Ok` with the
/// trimmed standard output, or `Err` with the text of the launch error.
pub fn exec_line(label: &Option<String>, style: &Option<LineStyle>, output: Result<String, String>) -> (r: StyledLine)
    ensures
        r@ == exec_line_of(
            *label,
            *style,
            match output {
                Ok(t) => Ok(t@),
                Err(e) => Err(e@),
            },
        ),
{
    let body = match output {
        Ok(t) => t,
        Err(e) => {
            let mut t = String::from_str("exec error: ");
            t.append(e.as_str());
            t
        },
    };
    let text = match label {
        Some(l) => {
            let mut t = l.clone();
            t.append(": ");
            t.append(body.as_str());
            t
        },
        None => body,
    };
    match style {
        Some(s) => StyledLine::styled(text, s.copied()),
        None => StyledLine::plain(text),
    }
}

/// The lines of a time module given chrono's text for it, or `None` where
/// chrono refused the format.
pub fn time_lines(format: &String, formatted: Option<String>) -> (r: Vec<StyledLine>)
    ensures
        lines_view(r@) == time_lines_of(format@, opt_text(formatted)),
{
    match formatted {
        Some(t) => one_line(t),
        None => {
            let mut t = String::from_str("[time: cannot format ");
            t.append(format.as_str());
            t.append("]");
            one_line(t)
        },
    }
}

/// The lines module `module` produces from `snapshot` and the result of
/// its outside work.
pub fn collect(module: &Module, snapshot: &MetricsSnapshot, outside: &Outside) -> (r: Vec<StyledLine>)
    requires
        fits(*module, *outside),
    ensures
        lines_view(r@) == module_lines(*module, *snapshot, *outside),
{
    match module {
        Module::Cpu { label, show_per_core } => {
            if *show_per_core {
                let cores = &snapshot.cpu_per_core_tenths;
                let ghost want = module_lines(*module, *snapshot, *outside);
                let mut r: Vec<StyledLine> = Vec::new();
                let mut i: usize = 0;
                while i < cores.len()
                    invariant
                        i <= cores@.len(),
                        *cores == snapshot.cpu_per_core_tenths,
                        want == module_lines(*module, *snapshot, *outside),
                        want.len() == cores@.len(),
                        lines_view(r@) =~= want.take(i as int),
                        want == Seq::new(
                            cores@.len(),
                            |j: int| plain_line(core_text(j as nat, cores@[j])),
                        ),
                    decreases cores@.len() - i,
                {
                    let ghost before = r@;
                    r.push(StyledLine::plain(core_line(i, cores[i])));
                    assert(want[i as int] == plain_line(core_text(i as nat, cores@[i as int])));
                    assert(lines_view(r@) =~= lines_view(before).push(want[i as int]));
                    i = i + 1;
                    assert(want.take(i as int) =~= want.take(i - 1).push(want[i - 1]));
                }
                assert(want.take(i as int) =~= want);
                r
            } else {
                one_line(cpu_line(label, snapshot.cpu_usage_tenths))
            }
        },
        Module::Memory { label } => one_line(memory_line(label, snapshot.mem_used, snapshot.mem_total)),
        Module::Disk { mount_point } => one_line(disk_line(mount_point, &snapshot.disks)),
        Module::Network { interface } => one_line(network_line(interface, &snapshot.networks)),
        Module::Uptime => one_line(uptime_line(snapshot.uptime_seconds)),
        Module::Hostname => {
            let mut t = String::from_str("HOST: ");
            t.append(snapshot.hostname.as_str());
            one_line(t)
        },
        Module::Time { format } => time_lines(format, format_time(&snapshot.local_time, format.as_str())),
        Module::Text { content } => one_line(content.clone()),
        Module::Exec { label, style, .. } => match outside {
            Outside::Command(result) => {
                let output = match result {
                    Ok(out) => Ok(trim_text(&utf8_lossy(out))),
                    Err(e) => Err(e.clone()),
                };
                let r = vec![exec_line(label, style, output)];
                assert(lines_view(r@) =~= module_lines(*module, *snapshot, *outside));
                r
            },
            _ => Vec::new(),
        },
        Module::Rhai { code, file, .. } => {
            if code.is_none() && file.is_none() {
                one_line(String::from_str("[rhai: no code or file specified]"))
            } else {
                match outside {
                    Outside::Script(o) => outcome_lines("rhai", " not compiled", o),
                    _ => Vec::new(),
                }
            }
        },
        Module::Python { .. } => match outside {
            Outside::Script(o) => outcome_lines("python", " not loaded", o),
            _ => Vec::new(),
        },
    }
}

} // verus!
