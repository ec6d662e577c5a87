//! The resolved configuration of the dashboard and the environment it runs
//! in: which diff format to show, which external diff tool to use, layout
//! and colors, and the repository root.
//!
//! Two configuration schemas exist in the wild: a flat one keyed by full
//! dotted names, and a nested one. The library resolves both to the same
//! [`Config`]; reading and deserialising the raw text happens outside and
//! hands in plain values.

use vstd::prelude::*;

verus! {

/// A terminal color, as the configuration can name one.
#[derive(Clone, Copy, Debug, PartialEq, Eq, Structural)]
pub enum UiColor {
    Reset,
    Black,
    Red,
    Green,
    Yellow,
    Blue,
    Magenta,
    Cyan,
    Gray,
    DarkGray,
    LightRed,
    LightGreen,
    LightYellow,
    LightBlue,
    LightMagenta,
    LightCyan,
    White,
    Rgb(u8, u8, u8),
    Indexed(u8),
}

/// How diffs are rendered.
#[derive(Clone, Debug, PartialEq)]
pub enum DiffFormat {
    ColorWords,
    Git,
    /// Delegate to an external diff tool; `None` means the tool configured
    /// elsewhere, without naming it here.
    DiffTool(Option<String>),
    Summary,
    Stat,
}

/// Two optional tool names carrying the same text.
pub open spec fn spec_tool_names_match(a: Option<String>, b: Option<String>) -> bool {
    match (a, b) {
        (Some(x), Some(y)) => x@ == y@,
        (None, None) => true,
        _ => false,
    }
}

/// Two formats that agree: the same variant, with diff tool names compared
/// by their text.
pub open spec fn spec_formats_match(a: DiffFormat, b: DiffFormat) -> bool {
    match (a, b) {
        (DiffFormat::DiffTool(x), DiffFormat::DiffTool(y)) => spec_tool_names_match(x, y),
        _ => a == b,
    }
}

/// The format that follows `f` when the user cycles formats: color-words
/// turns into git; git turns into the configured diff tool if there is one,
/// else back to color-words; everything else returns to color-words.
pub open spec fn spec_next_format(f: DiffFormat, diff_tool: Option<Option<String>>) -> DiffFormat {
    match f {
        DiffFormat::ColorWords => DiffFormat::Git,
        DiffFormat::Git => match diff_tool {
            Some(tool) => DiffFormat::DiffTool(tool),
            None => DiffFormat::ColorWords,
        },
        _ => DiffFormat::ColorWords,
    }
}

impl DiffFormat {
    /// Cycle to the next diff format, given what [`Config::diff_tool`]
    /// resolved.
    pub fn get_next(&self, diff_tool: Option<Option<String>>) -> (r: DiffFormat)
        ensures
            r == spec_next_format(*self, diff_tool),
    {
        match self {
            DiffFormat::ColorWords => DiffFormat::Git,
            DiffFormat::Git => {
                match diff_tool {
                    Some(tool) => DiffFormat::DiffTool(tool),
                    None => DiffFormat::ColorWords,
                }
            },
            _ => DiffFormat::ColorWords,
        }
    }

    /// An owned copy that agrees with this format.
    pub fn duplicate(&self) -> (r: DiffFormat)
        ensures
            spec_formats_match(r, *self),
    {
        match self {
            DiffFormat::ColorWords => DiffFormat::ColorWords,
            DiffFormat::Git => DiffFormat::Git,
            DiffFormat::DiffTool(tool) => DiffFormat::DiffTool(
                match tool {
                    Some(name) => Some(name.clone()),
                    None => None,
                },
            ),
            DiffFormat::Summary => DiffFormat::Summary,
            DiffFormat::Stat => DiffFormat::Stat,
        }
    }
}

impl Default for DiffFormat {
    fn default() -> (r: DiffFormat)
        ensures
            r is ColorWords,
    {
        DiffFormat::ColorWords
    }
}

/// How the two main panes are arranged.
#[derive(Clone, Copy, Debug, PartialEq, Eq, Structural)]
pub enum JJLayout {
    Horizontal,
    Vertical,
}

impl Default for JJLayout {
    fn default() -> (r: JJLayout)
        ensures
            r is Horizontal,
    {
        JJLayout::Horizontal
    }
}

/// The resolved configuration, from the flat schema's keys. `None` means the
/// key was absent; the getters supply the defaults.
#[derive(Debug)]
pub struct Config {
    pub blazingjj_highlight_color: Option<UiColor>,
    pub blazingjj_diff_format: Option<DiffFormat>,
    pub blazingjj_diff_tool: Option<String>,
    pub blazingjj_bookmark_template: Option<String>,
    pub blazingjj_layout: Option<JJLayout>,
    pub blazingjj_layout_percent: Option<u16>,
    pub ui_diff_format: Option<DiffFormat>,
    /// Whether the generic diff-tool key is set at all; its value is not
    /// read, only its presence.
    pub ui_diff_tool: bool,
    pub git_push_bookmark_template: Option<String>,
}

impl Default for Config {
    fn default() -> (r: Config)
        ensures
            r.blazingjj_highlight_color is None,
            r.blazingjj_diff_format is None,
            r.blazingjj_diff_tool is None,
            r.blazingjj_bookmark_template is None,
            r.blazingjj_layout is None,
            r.blazingjj_layout_percent is None,
            r.ui_diff_format is None,
            r.ui_diff_tool == false,
            r.git_push_bookmark_template is None,
    {
        Config {
            blazingjj_highlight_color: None,
            blazingjj_diff_format: None,
            blazingjj_diff_tool: None,
            blazingjj_bookmark_template: None,
            blazingjj_layout: None,
            blazingjj_layout_percent: None,
            ui_diff_format: None,
            ui_diff_tool: false,
            git_push_bookmark_template: None,
        }
    }
}

/// What [`Config::diff_tool`] resolves: the dedicated key wins and names the
/// tool; otherwise a set generic key means "a tool, unnamed"; otherwise no
/// tool at all.
pub open spec fn spec_diff_tool(c: Config) -> Option<Option<String>> {
    match c.blazingjj_diff_tool {
        Some(tool) => Some(Some(tool)),
        None => if c.ui_diff_tool {
            Some(None)
        } else {
            None
        },
    }
}

/// What [`Config::diff_format`] resolves: the dedicated key, else the
/// generic key, else a format derived from the resolved diff tool.
pub open spec fn spec_diff_format(c: Config) -> DiffFormat {
    match c.blazingjj_diff_format {
        Some(f) => f,
        None => match c.ui_diff_format {
            Some(f) => f,
            None => match spec_diff_tool(c) {
                Some(tool) => DiffFormat::DiffTool(tool),
                None => DiffFormat::ColorWords,
            },
        },
    }
}

/// What [`Config::bookmark_template`] resolves: the dedicated key, else the
/// generic push-bookmark template, else the built-in template.
pub open spec fn spec_bookmark_template(c: Config) -> Seq<char> {
    match c.blazingjj_bookmark_template {
        Some(t) => t@,
        None => match c.git_push_bookmark_template {
            Some(t) => t@,
            None => "'push-' ++ change_id.short()"@,
        },
    }
}

impl Config {
    /// The diff format to use.
    pub fn diff_format(&self) -> (r: DiffFormat)
        ensures
            spec_formats_match(r, spec_diff_format(*self)),
    {
        match &self.blazingjj_diff_format {
            Some(f) => f.duplicate(),
            None => {
                match &self.ui_diff_format {
                    Some(f) => f.duplicate(),
                    None => {
                        match self.diff_tool() {
                            Some(tool) => DiffFormat::DiffTool(tool),
                            None => DiffFormat::ColorWords,
                        }
                    },
                }
            },
        }
    }

    /// The external diff tool, if one is configured. `Some(Some(name))`
    /// names it; `Some(None)` means one is configured without a usable name
    /// here; `None` means none is.
    pub fn diff_tool(&self) -> (r: Option<Option<String>>)
        ensures
            spec_diff_tool(*self) matches Some(tool) ==> (r matches Some(rt)
                && spec_tool_names_match(rt, tool)),
            spec_diff_tool(*self) is None ==> r is None,
    {
        match &self.blazingjj_diff_tool {
            Some(tool) => Some(Some(tool.clone())),
            None => {
                if self.ui_diff_tool {
                    Some(None)
                } else {
                    None
                }
            },
        }
    }

    /// The highlight color, with its built-in default.
    pub fn highlight_color(&self) -> (r: UiColor)
        ensures
            r == match self.blazingjj_highlight_color {
                Some(c) => c,
                None => UiColor::Rgb(50, 50, 150),
            },
    {
        match self.blazingjj_highlight_color {
            Some(c) => c,
            None => UiColor::Rgb(50, 50, 150),
        }
    }

    /// The template used when naming a pushed bookmark.
    pub fn bookmark_template(&self) -> (r: String)
        ensures
            r@ == spec_bookmark_template(*self),
    {
        match &self.blazingjj_bookmark_template {
            Some(t) => t.clone(),
            None => {
                match &self.git_push_bookmark_template {
                    Some(t) => t.clone(),
                    None => String::from_str("'push-' ++ change_id.short()"),
                }
            },
        }
    }

    /// The pane layout, with its built-in default.
    pub fn layout(&self) -> (r: JJLayout)
        ensures
            r == match self.blazingjj_layout {
                Some(l) => l,
                None => JJLayout::Horizontal,
            },
    {
        match self.blazingjj_layout {
            Some(l) => l,
            None => JJLayout::Horizontal,
        }
    }

    /// How much of the width or height the first pane takes, in percent,
    /// with its built-in default.
    pub fn layout_percent(&self) -> (r: u16)
        ensures
            r == match self.blazingjj_layout_percent {
                Some(p) => p,
                None => 50u16,
            },
    {
        match self.blazingjj_layout_percent {
            Some(p) => p,
            None => 50,
        }
    }
}

/// The nested configuration schema's tables, as plain values.
#[derive(Debug)]
pub struct JjConfig {
    pub blazingjj: Option<JjConfigBlazingjj>,
    pub ui: Option<JjConfigUi>,
    pub templates: Option<JjConfigTemplates>,
}

#[derive(Debug)]
pub struct JjConfigBlazingjj {
    pub highlight_color: Option<UiColor>,
    pub diff_format: Option<DiffFormat>,
    pub diff_tool: Option<String>,
    pub bookmark_prefix: Option<String>,
    pub layout: Option<JJLayout>,
    pub layout_percent: Option<u16>,
}

#[derive(Debug)]
pub struct JjConfigUi {
    pub diff: Option<JjConfigUiDiff>,
}

#[derive(Debug)]
pub struct JjConfigUiDiff {
    pub format: Option<DiffFormat>,
    /// Whether the tool key is present; its value is not read.
    pub tool_set: bool,
}

#[derive(Debug)]
pub struct JjConfigTemplates {
    pub git_push_bookmark: Option<String>,
}

/// The flat configuration that the nested schema resolves to: each flat key
/// takes the corresponding nested value, absent tables contributing nothing.
pub open spec fn spec_merged_config(j: JjConfig) -> Config {
    Config {
        blazingjj_highlight_color: match j.blazingjj {
            Some(b) => b.highlight_color,
            None => None,
        },
        blazingjj_diff_format: match j.blazingjj {
            Some(b) => b.diff_format,
            None => None,
        },
        blazingjj_diff_tool: match j.blazingjj {
            Some(b) => b.diff_tool,
            None => None,
        },
        blazingjj_bookmark_template: match j.blazingjj {
            Some(b) => b.bookmark_prefix,
            None => None,
        },
        blazingjj_layout: match j.blazingjj {
            Some(b) => b.layout,
            None => None,
        },
        blazingjj_layout_percent: match j.blazingjj {
            Some(b) => b.layout_percent,
            None => None,
        },
        ui_diff_format: match j.ui {
            Some(u) => match u.diff {
                Some(d) => d.format,
                None => None,
            },
            None => None,
        },
        ui_diff_tool: match j.ui {
            Some(u) => match u.diff {
                Some(d) => d.tool_set,
                None => false,
            },
            None => false,
        },
        git_push_bookmark_template: match j.templates {
            Some(t) => t.git_push_bookmark,
            None => None,
        },
    }
}

impl Config {
    /// Resolve the nested schema to the flat configuration.
    pub fn from_jj_config(config: JjConfig) -> (r: Config)
        ensures
            r == spec_merged_config(config),
    {
        let (highlight_color, diff_format, diff_tool, bookmark_template, layout, layout_percent) =
            match config.blazingjj {
            Some(b) => (
                b.highlight_color,
                b.diff_format,
                b.diff_tool,
                b.bookmark_prefix,
                b.layout,
                b.layout_percent,
            ),
            None => (None, None, None, None, None, None),
        };
        let (ui_diff_format, ui_diff_tool) = match config.ui {
            Some(u) => match u.diff {
                Some(d) => (d.format, d.tool_set),
                None => (None, false),
            },
            None => (None, false),
        };
        let git_push_bookmark_template = match config.templates {
            Some(t) => t.git_push_bookmark,
            None => None,
        };
        Config {
            blazingjj_highlight_color: highlight_color,
            blazingjj_diff_format: diff_format,
            blazingjj_diff_tool: diff_tool,
            blazingjj_bookmark_template: bookmark_template,
            blazingjj_layout: layout,
            blazingjj_layout_percent: layout_percent,
            ui_diff_format,
            ui_diff_tool,
            git_push_bookmark_template,
        }
    }
}

/// The environment one dashboard session runs in.
#[derive(Debug)]
pub struct Env {
    pub config: Config,
    /// The repository root, as the wrapped tool reported it.
    pub root: String,
    /// The revset shown by default, if the user gave one.
    pub default_revset: Option<String>,
    /// The name or path of the wrapped tool's binary.
    pub jj_bin: String,
}

/// Command output with one trailing line ending removed: a final newline
/// goes, and a carriage return directly before it goes with it.
pub open spec fn spec_remove_end_line(s: Seq<char>) -> Seq<char> {
    if s.len() > 0 && s[s.len() - 1] == '\n' {
        if s.len() > 1 && s[s.len() - 2] == '\r' {
            s.subrange(0, s.len() - 2)
        } else {
            s.subrange(0, s.len() - 1)
        }
    } else {
        s
    }
}

/// Strip one trailing line ending from captured command output.
pub fn remove_end_line(s: &str) -> (r: String)
    ensures
        r@ == spec_remove_end_line(s@),
{
    let n = s.unicode_len();
    if n > 0 && s.get_char(n - 1) == '\n' {
        if n > 1 && s.get_char(n - 2) == '\r' {
            s.substring_char(0, n - 2).to_owned()
        } else {
            s.substring_char(0, n - 1).to_owned()
        }
    } else {
        s.to_owned()
    }
}

} // verus!
