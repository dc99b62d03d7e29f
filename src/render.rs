//! The picker's frame: a prompt line with the filter text, and one styled
//! row per visible tab.

use vstd::prelude::*;
use vstd::string::StringExecFns;
use crate::config::Config;
use crate::picker::{Item, Picker, shown};
use crate::style::{
    background_text, bold, bold_text, cyan, cyan_text, dimmed, dimmed_text, foreground_text,
    in_foreground, italic, italic_text, on_background, underline_text, underlined,
};
use crate::text::push_char;

verus! {

/// What the picker shows.
pub struct Frame {
    /// The marker followed by the filter text, or a placeholder when the
    /// filter is empty.
    pub prompt: String,
    /// One row per visible tab, in position order.
    pub rows: Vec<String>,
}

pub open spec fn digit_char(d: nat) -> char {
    seq!['0', '1', '2', '3', '4', '5', '6', '7', '8', '9'][d as int]
}

/// The decimal digits of `n`.
pub open spec fn decimal(n: nat) -> Seq<char>
    decreases n,
{
    if n < 10 {
        seq![digit_char(n)]
    } else {
        decimal(n / 10).push(digit_char(n % 10))
    }
}

pub open spec fn prompt_of(filter: Seq<char>) -> Seq<char> {
    let shown_text = if filter.len() == 0 {
        "(filter)"@
    } else {
        filter
    };
    bold(cyan(">"@)) + " "@ + italic(dimmed(shown_text))
}

/// A tab's row: its one-based number and its name. The name of the active
/// tab is underlined when so configured; the selected tab's name takes the
/// selection color; the active tab's whole row then takes its color.
pub open spec fn row_of(it: Item, sel: Option<usize>, cfg: Config) -> Seq<char> {
    let name1 = if it.active && cfg.underline_active {
        underlined(it.name@)
    } else {
        it.name@
    };
    let name2 = if sel == Some(it.position) {
        if cfg.selection_on_foreground {
            in_foreground(name1, cfg.selection_color)
        } else {
            on_background(name1, cfg.selection_color)
        }
    } else {
        name1
    };
    let row = decimal((it.position + 1) as nat) + " - "@ + name2;
    if it.active && cfg.active_tab_color is Some {
        if cfg.active_color_on_background {
            on_background(row, cfg.active_tab_color->0)
        } else {
            in_foreground(row, cfg.active_tab_color->0)
        }
    } else {
        row
    }
}

pub open spec fn views(v: Seq<String>) -> Seq<Seq<char>> {
    v.map_values(|s: String| s@)
}

pub open spec fn rows_of(items: Seq<Item>, sel: Option<usize>, cfg: Config, filter: Seq<char>) -> Seq<Seq<char>> {
    shown(items, filter, cfg.ignore_case).map_values(|it: Item| row_of(it, sel, cfg))
}

/// Lines joined by a newline between each two.
pub open spec fn joined(lines: Seq<Seq<char>>) -> Seq<char>
    decreases lines.len(),
{
    if lines.len() == 0 {
        seq![]
    } else if lines.len() == 1 {
        lines[0]
    } else {
        joined(lines.drop_last()) + "\n"@ + lines.last()
    }
}

/// Appends the decimal digits of `n`.
pub fn write_decimal(out: &mut String, n: u128)
    ensures
        final(out)@ == old(out)@ + decimal(n as nat),
    decreases n,
{
    if n >= 10 {
        write_decimal(out, n / 10);
    }
    let d = n % 10;
    let c = if d == 0 {
        '0'
    } else if d == 1 {
        '1'
    } else if d == 2 {
        '2'
    } else if d == 3 {
        '3'
    } else if d == 4 {
        '4'
    } else if d == 5 {
        '5'
    } else if d == 6 {
        '6'
    } else if d == 7 {
        '7'
    } else if d == 8 {
        '8'
    } else {
        '9'
    };
    assert(c == digit_char(d as nat));
    push_char(out, c);
    assert(final(out)@ =~= old(out)@ + decimal(n as nat));
}

/// The prompt line for a filter text.
pub fn prompt_line(filter: &String) -> (r: String)
    ensures
        r@ == prompt_of(filter@),
{
    let text = if filter.as_str().unicode_len() == 0 {
        dimmed_text("(filter)")
    } else {
        dimmed_text(filter.as_str())
    };
    let styled = italic_text(text.as_str());
    let marker = cyan_text(">");
    let out = bold_text(marker.as_str());
    out.concat(" ").concat(styled.as_str())
}

/// The row of one tab.
pub fn format_row(it: &Item, sel: Option<usize>, cfg: &Config) -> (r: String)
    ensures
        r@ == row_of(*it, sel, *cfg),
{
    let mut name = it.name.clone();
    if it.active && cfg.underline_active {
        name = underline_text(name.as_str());
    }
    if sel == Some(it.position) {
        if cfg.selection_on_foreground {
            name = foreground_text(name.as_str(), cfg.selection_color);
        } else {
            name = background_text(name.as_str(), cfg.selection_color);
        }
    }
    let mut row = String::new();
    write_decimal(&mut row, it.position as u128 + 1);
    row.append(" - ");
    row.append(name.as_str());
    if it.active {
        if let Some(c) = cfg.active_tab_color {
            if cfg.active_color_on_background {
                row = background_text(row.as_str(), c);
            } else {
                row = foreground_text(row.as_str(), c);
            }
        }
    }
    row
}

/// Lines joined by a newline between each two.
pub fn join_lines(lines: &Vec<String>) -> (r: String)
    ensures
        r@ == joined(views(lines@)),
{
    let mut out = String::new();
    let mut i: usize = 0;
    while i < lines.len()
        invariant
            i <= lines@.len(),
            out@ == joined(views(lines@.subrange(0, i as int))),
        decreases lines@.len() - i,
    {
        let ghost before = views(lines@.subrange(0, i as int));
        let ghost after = views(lines@.subrange(0, i + 1));
        assert(after.drop_last() =~= before);
        if i > 0 {
            out.append("\n");
        }
        out.append(lines[i].as_str());
        proof {
            if i == 0 {
                assert(after.len() == 1);
                assert(out@ =~= after[0]);
            }
        }
        i += 1;
    }
    assert(lines@.subrange(0, lines@.len() as int) =~= lines@);
    out
}

impl Picker {
    /// The frame for the current state: the prompt line and the rows of the
    /// visible tabs.
    pub fn render(&self) -> (r: Frame)
        ensures
            r.prompt@ == prompt_of(self.filter@),
            views(r.rows@) == rows_of(self.items@, self.selected, self.config, self.filter@),
    {
        let mut rows: Vec<String> = Vec::new();
        let ghost pred = crate::picker::shows(self.filter@, self.config.ignore_case);
        let mut i: usize = 0;
        while i < self.items.len()
            invariant
                i <= self.items@.len(),
                pred == crate::picker::shows(self.filter@, self.config.ignore_case),
                views(rows@) == rows_of(self.items@.subrange(0, i as int), self.selected, self.config, self.filter@),
            decreases self.items@.len() - i,
        {
            let it = &self.items[i];
            let ghost before = self.items@.subrange(0, i as int);
            let ghost after = self.items@.subrange(0, i + 1);
            proof {
                assert(after.drop_last() =~= before);
                reveal(Seq::filter);
            }
            if crate::matcher::matches(&it.name, &self.filter, self.config.ignore_case) {
                let row = format_row(it, self.selected, &self.config);
                let ghost old_rows = rows@;
                rows.push(row);
                assert(after.filter(pred) == before.filter(pred).push(*it));
                assert(views(rows@) =~= views(old_rows).push(row_of(*it, self.selected, self.config)));
                assert(rows_of(after, self.selected, self.config, self.filter@) =~= rows_of(
                    before,
                    self.selected,
                    self.config,
                    self.filter@,
                ).push(row_of(*it, self.selected, self.config)));
                assert(views(rows@) =~= rows_of(after, self.selected, self.config, self.filter@));
            } else {
                assert(after.filter(pred) == before.filter(pred));
            }
            i += 1;
        }
        assert(self.items@.subrange(0, self.items@.len() as int) =~= self.items@);
        Frame { prompt: prompt_line(&self.filter), rows }
    }
}

} // verus!
