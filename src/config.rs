//! Reading the picker's options from a string-keyed settings mapping.

use vstd::prelude::*;
use vstd::string::StringExecFns;
use owo_colors::AnsiColors;
use crate::style::{ansi_color_named, color_from_name};
use crate::text::{same_text, trim_of, trimmed};

verus! {

/// The picker's options.
pub struct Config {
    pub ignore_case: bool,
    pub quick_jump: bool,
    pub selection_color: AnsiColors,
    /// The selection color goes to the name's foreground, else to its
    /// background.
    pub selection_on_foreground: bool,
    /// The color of the active tab's whole row, if any.
    pub active_tab_color: Option<AnsiColors>,
    pub underline_active: bool,
    /// The active tab's color goes to the row's background, else to its
    /// foreground.
    pub active_color_on_background: bool,
}

/// A setting whose value can be malformed.
#[derive(Debug, Clone, Copy, PartialEq, Eq, Structural)]
pub enum Setting {
    IgnoreCase,
    QuickJump,
    SelectionAccentTarget,
    TabColorTarget,
    UnderlineActive,
}

/// A recognized setting holds a value that cannot be read.
pub struct ConfigError {
    pub setting: Setting,
    pub value: String,
}

/// The options read from a mapping, with the entries that no option uses.
pub struct Loaded {
    pub config: Config,
    pub unused: Vec<(String, String)>,
}

/// The options when nothing is configured.
pub open spec fn default_config() -> Config {
    Config {
        ignore_case: true,
        quick_jump: false,
        selection_color: ansi_color_named("yellow"@),
        selection_on_foreground: true,
        active_tab_color: None,
        underline_active: true,
        active_color_on_background: false,
    }
}

/// The value of `key` in the mapping; a later entry overrides an earlier one.
pub open spec fn lookup(es: Seq<(String, String)>, key: Seq<char>) -> Option<Seq<char>>
    decreases es.len(),
{
    if es.len() == 0 {
        None
    } else if es.last().0@ == key {
        Some(es.last().1@)
    } else {
        lookup(es.drop_last(), key)
    }
}

pub open spec fn is_known_key(k: Seq<char>) -> bool {
    ||| k == "ignore_case"@
    ||| k == "quick_jump"@
    ||| k == "selection_color"@
    ||| k == "apply_selection_accent_to"@
    ||| k == "active_tab_color"@
    ||| k == "apply_tab_color_to"@
    ||| k == "underline_active"@
}

/// The entries whose key no option reads, in their order.
pub open spec fn unused_of(es: Seq<(String, String)>) -> Seq<(Seq<char>, Seq<char>)>
    decreases es.len(),
{
    if es.len() == 0 {
        seq![]
    } else if is_known_key(es.last().0@) {
        unused_of(es.drop_last())
    } else {
        unused_of(es.drop_last()).push((es.last().0@, es.last().1@))
    }
}

pub open spec fn pairs_view(v: Seq<(String, String)>) -> Seq<(Seq<char>, Seq<char>)> {
    v.map_values(|e: (String, String)| (e.0@, e.1@))
}

/// Boolean text, as `bool::from_str` reads it.
pub open spec fn flag_of(s: Seq<char>) -> Option<bool> {
    if s == "true"@ {
        Some(true)
    } else if s == "false"@ {
        Some(false)
    } else {
        None
    }
}

/// Where a color goes: `Some(true)` for the foreground, `Some(false)` for
/// the background.
pub open spec fn target_of(s: Seq<char>) -> Option<bool> {
    if s == "foreground"@ || s == "fg"@ {
        Some(true)
    } else if s == "background"@ || s == "bg"@ {
        Some(false)
    } else {
        None
    }
}

/// A boolean option: the default when absent, the trimmed value read as
/// boolean text, or the offending value.
pub open spec fn flag_setting(es: Seq<(String, String)>, key: Seq<char>, default: bool) -> Result<bool, Seq<char>> {
    match lookup(es, key) {
        None => Ok(default),
        Some(v) => match flag_of(trim_of(v)) {
            Some(b) => Ok(b),
            None => Err(v),
        },
    }
}

/// A color target option, `true` for the foreground (the default).
pub open spec fn target_setting(es: Seq<(String, String)>, key: Seq<char>) -> Result<bool, Seq<char>> {
    match lookup(es, key) {
        None => Ok(true),
        Some(v) => match target_of(v) {
            Some(b) => Ok(b),
            None => Err(v),
        },
    }
}

pub open spec fn selection_color_setting(es: Seq<(String, String)>) -> AnsiColors {
    match lookup(es, "selection_color"@) {
        None => ansi_color_named("yellow"@),
        Some(v) => ansi_color_named(trim_of(v)),
    }
}

pub open spec fn active_color_setting(es: Seq<(String, String)>) -> Option<AnsiColors> {
    match lookup(es, "active_tab_color"@) {
        None => None,
        Some(v) => if trim_of(v) == "none"@ {
            None
        } else {
            Some(ansi_color_named(trim_of(v)))
        },
    }
}

/// The options a mapping configures, or the first malformed setting in the
/// order ignore_case, quick_jump, apply_selection_accent_to,
/// apply_tab_color_to, underline_active, with its value.
pub open spec fn resolved(es: Seq<(String, String)>) -> Result<Config, (Setting, Seq<char>)> {
    let ic = flag_setting(es, "ignore_case"@, true);
    let qj = flag_setting(es, "quick_jump"@, false);
    let sel = target_setting(es, "apply_selection_accent_to"@);
    let tab = target_setting(es, "apply_tab_color_to"@);
    let ul = flag_setting(es, "underline_active"@, true);
    if ic is Err {
        Err((Setting::IgnoreCase, ic->Err_0))
    } else if qj is Err {
        Err((Setting::QuickJump, qj->Err_0))
    } else if sel is Err {
        Err((Setting::SelectionAccentTarget, sel->Err_0))
    } else if tab is Err {
        Err((Setting::TabColorTarget, tab->Err_0))
    } else if ul is Err {
        Err((Setting::UnderlineActive, ul->Err_0))
    } else {
        Ok(
            Config {
                ignore_case: ic->Ok_0,
                quick_jump: qj->Ok_0,
                selection_color: selection_color_setting(es),
                selection_on_foreground: sel->Ok_0,
                active_tab_color: active_color_setting(es),
                underline_active: ul->Ok_0,
                active_color_on_background: !tab->Ok_0,
            },
        )
    }
}

impl Config {
    /// The options when nothing is configured.
    pub fn new() -> (r: Config)
        ensures
            r == default_config(),
    {
        Config {
            ignore_case: true,
            quick_jump: false,
            selection_color: color_from_name("yellow"),
            selection_on_foreground: true,
            active_tab_color: None,
            underline_active: true,
            active_color_on_background: false,
        }
    }
}

/// The value of `key` in the mapping, if any.
fn find_value<'a>(es: &'a Vec<(String, String)>, key: &str) -> (r: Option<&'a String>)
    ensures
        lookup(es@, key@) == (match r {
            Some(v) => Some(v@),
            None => None,
        }),
{
    let mut i: usize = es.len();
    assert(es@.subrange(0, i as int) =~= es@);
    while i > 0
        invariant
            i <= es@.len(),
            lookup(es@, key@) == lookup(es@.subrange(0, i as int), key@),
        decreases i,
    {
        let e = &es[i - 1];
        assert(es@.subrange(0, i as int).drop_last() =~= es@.subrange(0, i - 1));
        if same_text(e.0.as_str(), key) {
            return Some(&e.1);
        }
        i -= 1;
    }
    None
}

/// Boolean text read as `bool::from_str` does.
pub fn parse_flag(s: &str) -> (r: Option<bool>)
    ensures
        r == flag_of(s@),
{
    if same_text(s, "true") {
        Some(true)
    } else if same_text(s, "false") {
        Some(false)
    } else {
        None
    }
}

/// Where a color goes: `Some(true)` for the foreground, `Some(false)` for
/// the background.
pub fn parse_target(s: &str) -> (r: Option<bool>)
    ensures
        r == target_of(s@),
{
    if same_text(s, "foreground") || same_text(s, "fg") {
        Some(true)
    } else if same_text(s, "background") || same_text(s, "bg") {
        Some(false)
    } else {
        None
    }
}

fn read_flag(es: &Vec<(String, String)>, key: &str, default: bool) -> (r: Result<bool, String>)
    ensures
        match r {
            Ok(b) => flag_setting(es@, key@, default) == Ok::<bool, Seq<char>>(b),
            Err(v) => flag_setting(es@, key@, default) == Err::<bool, Seq<char>>(v@),
        },
{
    match find_value(es, key) {
        None => Ok(default),
        Some(v) => match parse_flag(trimmed(v.as_str())) {
            Some(b) => Ok(b),
            None => Err(v.clone()),
        },
    }
}

fn read_target(es: &Vec<(String, String)>, key: &str) -> (r: Result<bool, String>)
    ensures
        match r {
            Ok(b) => target_setting(es@, key@) == Ok::<bool, Seq<char>>(b),
            Err(v) => target_setting(es@, key@) == Err::<bool, Seq<char>>(v@),
        },
{
    match find_value(es, key) {
        None => Ok(true),
        Some(v) => match parse_target(v.as_str()) {
            Some(b) => Ok(b),
            None => Err(v.clone()),
        },
    }
}

/// Whether some option reads the key.
pub fn is_known(k: &str) -> (r: bool)
    ensures
        r == is_known_key(k@),
{
    same_text(k, "ignore_case") || same_text(k, "quick_jump") || same_text(k, "selection_color")
        || same_text(k, "apply_selection_accent_to") || same_text(k, "active_tab_color")
        || same_text(k, "apply_tab_color_to") || same_text(k, "underline_active")
}

/// The entries whose key no option reads, in their order.
pub fn unused_entries(es: &Vec<(String, String)>) -> (r: Vec<(String, String)>)
    ensures
        pairs_view(r@) == unused_of(es@),
{
    let mut out: Vec<(String, String)> = Vec::new();
    let mut i: usize = 0;
    while i < es.len()
        invariant
            i <= es@.len(),
            pairs_view(out@) == unused_of(es@.subrange(0, i as int)),
        decreases es@.len() - i,
    {
        let e = &es[i];
        assert(es@.subrange(0, i + 1).drop_last() =~= es@.subrange(0, i as int));
        if !is_known(e.0.as_str()) {
            out.push((e.0.clone(), e.1.clone()));
            assert(pairs_view(out@) =~= unused_of(es@.subrange(0, i as int)).push((e.0@, e.1@)));
        }
        i += 1;
    }
    assert(es@.subrange(0, es@.len() as int) =~= es@);
    out
}

/// Reads the options from a mapping of settings: every recognized key must
/// hold a readable value; the entries that no option reads are handed back.
pub fn load(es: &Vec<(String, String)>) -> (r: Result<Loaded, ConfigError>)
    ensures
        match resolved(es@) {
            Ok(c) => r is Ok && r->Ok_0.config == c && pairs_view(r->Ok_0.unused@) == unused_of(es@),
            Err((s, v)) => r is Err && r->Err_0.setting == s && r->Err_0.value@ == v,
        },
{
    let ignore_case = match read_flag(es, "ignore_case", true) {
        Ok(b) => b,
        Err(value) => return Err(ConfigError { setting: Setting::IgnoreCase, value }),
    };
    let quick_jump = match read_flag(es, "quick_jump", false) {
        Ok(b) => b,
        Err(value) => return Err(ConfigError { setting: Setting::QuickJump, value }),
    };
    let selection_color = match find_value(es, "selection_color") {
        None => color_from_name("yellow"),
        Some(v) => color_from_name(trimmed(v.as_str())),
    };
    let selection_on_foreground = match read_target(es, "apply_selection_accent_to") {
        Ok(b) => b,
        Err(value) => return Err(ConfigError { setting: Setting::SelectionAccentTarget, value }),
    };
    let active_tab_color = match find_value(es, "active_tab_color") {
        None => None,
        Some(v) => {
            let t = trimmed(v.as_str());
            if same_text(t, "none") {
                None
            } else {
                Some(color_from_name(t))
            }
        },
    };
    let tab_on_foreground = match read_target(es, "apply_tab_color_to") {
        Ok(b) => b,
        Err(value) => return Err(ConfigError { setting: Setting::TabColorTarget, value }),
    };
    let underline_active = match read_flag(es, "underline_active", true) {
        Ok(b) => b,
        Err(value) => return Err(ConfigError { setting: Setting::UnderlineActive, value }),
    };
    let config = Config {
        ignore_case,
        quick_jump,
        selection_color,
        selection_on_foreground,
        active_tab_color,
        underline_active,
        active_color_on_background: !tab_on_foreground,
    };
    Ok(Loaded { config, unused: unused_entries(es) })
}

/// The report of unused entries: one `('key': 'value')` line per entry,
/// each followed by an empty line.
pub open spec fn report_of(pairs: Seq<(Seq<char>, Seq<char>)>) -> Seq<char>
    decreases pairs.len(),
{
    if pairs.len() == 0 {
        seq![]
    } else {
        report_of(pairs.drop_last()) + "('"@ + pairs.last().0 + "': '"@ + pairs.last().1 + "')\n\n"@
    }
}

/// The report of unused entries, as shown in a warning.
pub fn unused_report(unused: &Vec<(String, String)>) -> (r: String)
    ensures
        r@ == report_of(pairs_view(unused@)),
{
    let mut out = String::from_str("");
    proof {
        reveal_strlit("");
    }
    assert(pairs_view(unused@.subrange(0, 0)) =~= seq![]);
    let mut i: usize = 0;
    while i < unused.len()
        invariant
            i <= unused@.len(),
            out@ == report_of(pairs_view(unused@.subrange(0, i as int))),
        decreases unused@.len() - i,
    {
        let e = &unused[i];
        assert(pairs_view(unused@.subrange(0, i + 1)).drop_last() =~= pairs_view(unused@.subrange(0, i as int)));
        out.append("('");
        out.append(e.0.as_str());
        out.append("': '");
        out.append(e.1.as_str());
        out.append("')\n\n");
        i += 1;
    }
    assert(unused@.subrange(0, unused@.len() as int) =~= unused@);
    out
}

} // verus!
