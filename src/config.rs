//! The panel's settings and the list of modules it shows, with their
//! built-in defaults.

use vstd::prelude::*;
use crate::styled::LineStyle;

verus! {

/// Settings that apply to the whole panel. The font size is in hundredths
/// of a point.
#[derive(Debug, Clone, PartialEq, Eq)]
pub struct General {
    pub update_interval_ms: u64,
    pub font: String,
    pub font_size: u32,
    pub fg_color: String,
    pub bg_color: String,
    pub scripts_dir: Option<String>,
    pub on_draw_rhai: Option<String>,
    pub on_draw_python: Option<String>,
}

/// Placement and requested size of the surface, in pixels.
#[derive(Debug, Clone, Copy, PartialEq, Eq, Structural)]
pub struct Window {
    pub x: i32,
    pub y: i32,
    pub width: u32,
    pub height: u32,
    pub transparent: bool,
    pub always_on_top: bool,
    pub decoration: bool,
}

/// One configured content source.
#[derive(Debug, Clone, PartialEq, Eq)]
pub enum Module {
    Cpu { label: String, show_per_core: bool },
    Memory { label: String },
    Disk { mount_point: String },
    Network { interface: String },
    Uptime,
    Hostname,
    Time { format: String },
    Text { content: String },
    Exec { command: String, label: Option<String>, style: Option<LineStyle> },
    Rhai { code: Option<String>, file: Option<String>, function: String },
    Python { file: String, function: String },
}

/// Everything the panel is configured with.
#[derive(Debug, Clone, PartialEq, Eq)]
pub struct Config {
    pub general: General,
    pub window: Window,
    pub modules: Vec<Module>,
}

/// The label of a CPU module that names none.
pub fn default_label() -> (r: String)
    ensures
        r@ == "CPU"@,
{
    String::from_str("CPU")
}

/// The label of a memory module that names none.
pub fn default_label_mem() -> (r: String)
    ensures
        r@ == "MEM"@,
{
    String::from_str("MEM")
}

/// The mount point of a disk module that names none.
pub fn default_mount() -> (r: String)
    ensures
        r@ == "/"@,
{
    String::from_str("/")
}

/// The interface of a network module that names none.
pub fn default_iface() -> (r: String)
    ensures
        r@ == "eth0"@,
{
    String::from_str("eth0")
}

/// The format of a time module that names none.
pub fn default_time_format() -> (r: String)
    ensures
        r@ == "%Y-%m-%d %H:%M:%S"@,
{
    String::from_str("%Y-%m-%d %H:%M:%S")
}

/// The modules shown when none are configured: host name, uptime, time,
/// CPU, memory and the root file system, in that order.
pub open spec fn is_default_module_list(ms: Seq<Module>) -> bool {
    &&& ms.len() == 6
    &&& ms[0] is Hostname
    &&& ms[1] is Uptime
    &&& ms[2] matches Module::Time { format } && format@ == "%Y-%m-%d %H:%M:%S"@
    &&& ms[3] matches Module::Cpu { label, show_per_core } && label@ == "CPU"@ && !show_per_core
    &&& ms[4] matches Module::Memory { label } && label@ == "MEM"@
    &&& ms[5] matches Module::Disk { mount_point } && mount_point@ == "/"@
}

impl Default for General {
    fn default() -> (r: General)
        ensures
            r.update_interval_ms == 1000,
            r.font@ == "monospace"@,
            r.font_size == 1200,
            r.fg_color@ == "#ffffff"@,
            r.bg_color@ == "#000000aa"@,
            r.scripts_dir is None,
            r.on_draw_rhai is None,
            r.on_draw_python is None,
    {
        General {
            update_interval_ms: 1000,
            font: String::from_str("monospace"),
            font_size: 1200,
            fg_color: String::from_str("#ffffff"),
            bg_color: String::from_str("#000000aa"),
            scripts_dir: None,
            on_draw_rhai: None,
            on_draw_python: None,
        }
    }
}

impl Default for Window {
    fn default() -> (r: Window)
        ensures
            r == (Window {
                x: 20,
                y: 40,
                width: 320,
                height: 600,
                transparent: true,
                always_on_top: true,
                decoration: false,
            }),
    {
        Window {
            x: 20,
            y: 40,
            width: 320,
            height: 600,
            transparent: true,
            always_on_top: true,
            decoration: false,
        }
    }
}

impl Default for Config {
    fn default() -> (r: Config)
        ensures
            r.general.update_interval_ms == 1000,
            r.general.font_size == 1200,
            r.general.fg_color@ == "#ffffff"@,
            r.general.bg_color@ == "#000000aa"@,
            r.window.width == 320,
            r.window.height == 600,
            is_default_module_list(r.modules@),
    {
        let modules = vec![
            Module::Hostname,
            Module::Uptime,
            Module::Time { format: default_time_format() },
            Module::Cpu { label: default_label(), show_per_core: false },
            Module::Memory { label: default_label_mem() },
            Module::Disk { mount_point: default_mount() },
        ];
        Config { general: General::default(), window: Window::default(), modules }
    }
}

/// `rest` adjoined to the path `base`.
pub uninterp spec fn joined_path(base: Seq<char>, rest: Seq<char>) -> Seq<char>;

/// Whether `p` starts at the file system root.
pub open spec fn is_absolute(p: Seq<char>) -> bool {
    p.len() > 0 && p[0] == '/'
}

/// Relies on `Path::join` (read back with `to_string_lossy`): `rest`
/// adjoined to `base`, where an absolute `rest` replaces `base`.
#[verifier::external_body]
fn join_path(base: &str, rest: &str) -> (r: String)
    ensures
        r@ == joined_path(base@, rest@),
        is_absolute(rest@) ==> r@ == rest@,
{
    std::path::Path::new(base).join(rest).to_string_lossy().into_owned()
}

/// `p` with a leading `~/` replaced by the home directory, where one is
/// known.
pub open spec fn expanded(p: Seq<char>, home: Option<String>) -> Seq<char> {
    if p.len() >= 2 && p[0] == '~' && p[1] == '/' && home is Some {
        joined_path(home->0@, p.skip(2))
    } else {
        p
    }
}

/// The directory configuration lives under, or `~/.config` when the
/// platform names none.
pub open spec fn config_root(config_dir: Option<String>) -> Seq<char> {
    match config_dir {
        Some(d) => d@,
        None => "~/.config"@,
    }
}

/// Replaces a leading `~/` with `home`.
pub fn shellexpand(p: &str, home: &Option<String>) -> (r: String)
    ensures
        r@ == expanded(p@, *home),
{
    let n = p.unicode_len();
    if n >= 2 && p.get_char(0) == '~' && p.get_char(1) == '/' {
        if let Some(h) = home {
            return join_path(h.as_str(), p.substring_char(2, n));
        }
    }
    String::from_str(p)
}

fn root_text(config_dir: &Option<String>) -> (r: String)
    ensures
        r@ == config_root(*config_dir),
{
    match config_dir {
        Some(d) => d.clone(),
        None => String::from_str("~/.config"),
    }
}

impl Config {
    /// Where the configuration file is read from, given the platform's
    /// configuration directory.
    pub fn config_path(config_dir: &Option<String>) -> (r: String)
        ensures
            r@ == joined_path(joined_path(config_root(*config_dir), "rustky"@), "config.toml"@),
    {
        let app = join_path(root_text(config_dir).as_str(), "rustky");
        join_path(app.as_str(), "config.toml")
    }

    /// The directory relative script paths are resolved against: the
    /// configured one, expanded, or `scripts` in the configuration
    /// directory.
    pub open spec fn scripts_dir_text(self, config_dir: Option<String>, home: Option<String>) -> Seq<char> {
        match self.general.scripts_dir {
            Some(d) => expanded(d@, home),
            None => joined_path(joined_path(config_root(config_dir), "rustky"@), "scripts"@),
        }
    }

    pub fn scripts_dir(&self, config_dir: &Option<String>, home: &Option<String>) -> (r: String)
        ensures
            r@ == self.scripts_dir_text(*config_dir, *home),
    {
        match &self.general.scripts_dir {
            Some(d) => shellexpand(d.as_str(), home),
            None => {
                let app = join_path(root_text(config_dir).as_str(), "rustky");
                join_path(app.as_str(), "scripts")
            },
        }
    }

    /// A script path: expanded, and taken as it is where absolute, else
    /// under the scripts directory.
    pub fn resolve_script_path(&self, path: &str, config_dir: &Option<String>, home: &Option<String>) -> (r: String)
        ensures
            r@ == if is_absolute(expanded(path@, *home)) {
                expanded(path@, *home)
            } else {
                joined_path(self.scripts_dir_text(*config_dir, *home), expanded(path@, *home))
            },
    {
        let e = shellexpand(path, home);
        if e.as_str().unicode_len() > 0 && e.as_str().get_char(0) == '/' {
            e
        } else {
            let dir = self.scripts_dir(config_dir, home);
            join_path(dir.as_str(), e.as_str())
        }
    }
}

} // verus!
