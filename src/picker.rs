//! The picker's state: the tabs, the filter text, the selected tab, and how
//! key presses and new tab lists change them.

use vstd::prelude::*;
use crate::config::Config;
use crate::matcher::name_matches;
use crate::text::{pop_char, push_char};

verus! {

/// One selectable tab.
pub struct Item {
    /// Zero-based place in the host's list: the tab's identity and what
    /// activating it targets.
    pub position: usize,
    pub name: String,
    /// The host's currently focused tab.
    pub active: bool,
}

/// The picker's state.
pub struct Picker {
    pub items: Vec<Item>,
    pub filter: String,
    /// The position of the selected tab; it may name a tab that the filter
    /// hides, which navigation recovers from.
    pub selected: Option<usize>,
    pub config: Config,
}

/// A key without its modifiers.
#[derive(Debug, Clone, Copy, PartialEq, Eq, Structural)]
pub enum Key {
    Esc,
    Enter,
    Backspace,
    Up,
    Down,
    Tab,
    Char(char),
    Other,
}

/// A key press with the modifiers held.
#[derive(Debug, Clone, Copy, PartialEq, Eq, Structural)]
pub struct KeyEvent {
    pub key: Key,
    pub ctrl: bool,
    pub shift: bool,
    pub alt: bool,
    pub super_key: bool,
}

/// What a key press asks of the picker.
#[derive(Debug, Clone, Copy, PartialEq, Eq, Structural)]
pub enum Command {
    Cancel,
    Down,
    Up,
    Confirm,
    DeleteChar,
    /// Activate the tab at this position.
    QuickJump(usize),
    Append(char),
    Ignore,
}

/// What the host is to do after an event.
#[derive(Debug, Clone, Copy, PartialEq, Eq, Structural)]
pub struct Reaction {
    /// The picker must be drawn again.
    pub render: bool,
    /// The overlay is to close.
    pub close: bool,
    /// The position of the tab to activate.
    pub activate: Option<usize>,
}

/// An event from the host.
pub enum Event {
    /// A new authoritative list of tabs.
    TabsChanged(Vec<Item>),
    Key(KeyEvent),
}

pub open spec fn shows(filter: Seq<char>, ignore_case: bool) -> spec_fn(Item) -> bool {
    |it: Item| name_matches(it.name@, filter, ignore_case)
}

/// The tabs the filter lets through, in their order.
pub open spec fn shown(items: Seq<Item>, filter: Seq<char>, ignore_case: bool) -> Seq<Item> {
    items.filter(shows(filter, ignore_case))
}

pub open spec fn positions(items: Seq<Item>) -> Seq<usize> {
    items.map_values(|it: Item| it.position)
}

/// The positions of the visible tabs, in order.
pub open spec fn visible_positions(items: Seq<Item>, filter: Seq<char>, ignore_case: bool) -> Seq<usize> {
    positions(shown(items, filter, ignore_case))
}

pub open spec fn strictly_ascending(s: Seq<usize>) -> bool {
    forall|i: int, j: int| 0 <= i < j < s.len() ==> s[i] < s[j]
}

/// The selection after a reset: the first visible position, if any.
pub open spec fn first_of(vis: Seq<usize>) -> Option<usize> {
    if vis.len() == 0 {
        None
    } else {
        Some(vis[0])
    }
}

/// `after` is `before` with its selection reset: the first visible
/// position, everything else kept.
pub open spec fn is_reset_of(before: Picker, after: Picker) -> bool {
    &&& after.selected == first_of(before.visible())
    &&& after.items@ == before.items@
    &&& after.filter@ == before.filter@
    &&& after.config == before.config
}

/// Scanning `vis` from index `i` toward its end for `p`: the position after the
/// first match, or the first position when the match is last or there is
/// none.
pub open spec fn scan_down(vis: Seq<usize>, p: usize, i: int) -> Option<usize>
    decreases vis.len() - i,
{
    if i < 0 || i >= vis.len() {
        Some(vis[0])
    } else if vis[i] == p {
        if i + 1 < vis.len() {
            Some(vis[i + 1])
        } else {
            Some(vis[0])
        }
    } else {
        scan_down(vis, p, i + 1)
    }
}

/// Scanning `vis` from index `i` toward its start for `p`: the position before the
/// first match, or the last position when the match is first or there is
/// none.
pub open spec fn scan_up(vis: Seq<usize>, p: usize, i: int) -> Option<usize>
    decreases i + 1,
{
    if i < 0 || i >= vis.len() {
        Some(vis.last())
    } else if vis[i] == p {
        if i >= 1 {
            Some(vis[i - 1])
        } else {
            Some(vis.last())
        }
    } else {
        scan_up(vis, p, i - 1)
    }
}

/// Moving down: the position after the selected one; the first visible
/// position when the selected one is last or not visible; nothing changes
/// when nothing is visible.
pub open spec fn step_down(vis: Seq<usize>, sel: Option<usize>) -> Option<usize> {
    if vis.len() == 0 {
        sel
    } else {
        match sel {
            Some(p) => scan_down(vis, p, 0),
            None => Some(vis[0]),
        }
    }
}

/// Moving up: the position before the selected one; the last visible
/// position when the selected one is first or not visible; nothing changes
/// when nothing is visible.
pub open spec fn step_up(vis: Seq<usize>, sel: Option<usize>) -> Option<usize> {
    if vis.len() == 0 {
        sel
    } else {
        match sel {
            Some(p) => scan_up(vis, p, vis.len() - 1),
            None => Some(vis.last()),
        }
    }
}

/// The position of the first tab from index `i` on that the host marks
/// active.
pub open spec fn active_from(items: Seq<Item>, i: int) -> Option<usize>
    decreases items.len() - i,
{
    if i < 0 || i >= items.len() {
        None
    } else if items[i].active {
        Some(items[i].position)
    } else {
        active_from(items, i + 1)
    }
}

/// The position of the first tab that the host marks active.
pub open spec fn active_position(items: Seq<Item>) -> Option<usize> {
    active_from(items, 0)
}

pub open spec fn is_digit(c: char) -> bool {
    '0' <= c <= '9'
}

pub open spec fn is_letter(c: char) -> bool {
    ('a' <= c <= 'z') || ('A' <= c <= 'Z')
}

pub open spec fn no_modifiers(k: KeyEvent) -> bool {
    !k.ctrl && !k.shift && !k.alt && !k.super_key
}

/// The dispatch table from key presses to commands.
pub open spec fn command_of(k: KeyEvent, quick_jump: bool) -> Command {
    match k.key {
        Key::Esc => Command::Cancel,
        Key::Down => Command::Down,
        Key::Up => Command::Up,
        Key::Enter => Command::Confirm,
        Key::Backspace => Command::DeleteChar,
        Key::Tab => if no_modifiers(k) {
            Command::Down
        } else if k.shift {
            Command::Up
        } else {
            Command::Ignore
        },
        Key::Char(c) => if k.ctrl && c == 'c' {
            Command::Cancel
        } else if k.ctrl && c == 'n' {
            Command::Down
        } else if k.ctrl && (c == 'k' || c == 'p') {
            Command::Up
        } else if is_digit(c) && quick_jump {
            Command::QuickJump((c as u32 - '0' as u32) as usize)
        } else if is_digit(c) || is_letter(c) {
            Command::Append(c)
        } else {
            Command::Ignore
        },
        Key::Other => Command::Ignore,
    }
}

/// The filter text after a command.
pub open spec fn filter_after(cmd: Command, f: Seq<char>) -> Seq<char> {
    match cmd {
        Command::Append(c) => f.push(c),
        Command::DeleteChar => if f.len() == 0 {
            f
        } else {
            f.drop_last()
        },
        _ => f,
    }
}

/// The selection after a command, over the tabs, the filter text before
/// it, and the selection before it.
pub open spec fn selection_after(
    cmd: Command,
    items: Seq<Item>,
    f: Seq<char>,
    ignore_case: bool,
    sel: Option<usize>,
) -> Option<usize> {
    match cmd {
        Command::Down => step_down(visible_positions(items, f, ignore_case), sel),
        Command::Up => step_up(visible_positions(items, f, ignore_case), sel),
        Command::Append(_) | Command::DeleteChar => first_of(
            visible_positions(items, filter_after(cmd, f), ignore_case),
        ),
        _ => sel,
    }
}

/// What the host is told after a command.
pub open spec fn reaction_of(cmd: Command, sel: Option<usize>) -> Reaction {
    match cmd {
        Command::Cancel => Reaction { render: false, close: true, activate: None },
        Command::Confirm => if sel is Some {
            Reaction { render: false, close: true, activate: sel }
        } else {
            Reaction { render: false, close: false, activate: None }
        },
        Command::QuickJump(d) => Reaction { render: false, close: true, activate: Some(d) },
        Command::Ignore => Reaction { render: false, close: false, activate: None },
        _ => Reaction { render: true, close: false, activate: None },
    }
}

/// The command a key press gives.
pub fn interpret(k: &KeyEvent, quick_jump: bool) -> (r: Command)
    ensures
        r == command_of(*k, quick_jump),
{
    match k.key {
        Key::Esc => Command::Cancel,
        Key::Down => Command::Down,
        Key::Up => Command::Up,
        Key::Enter => Command::Confirm,
        Key::Backspace => Command::DeleteChar,
        Key::Tab => {
            if !k.ctrl && !k.shift && !k.alt && !k.super_key {
                Command::Down
            } else if k.shift {
                Command::Up
            } else {
                Command::Ignore
            }
        },
        Key::Char(c) => {
            let digit = '0' <= c && c <= '9';
            if k.ctrl && c == 'c' {
                Command::Cancel
            } else if k.ctrl && c == 'n' {
                Command::Down
            } else if k.ctrl && (c == 'k' || c == 'p') {
                Command::Up
            } else if digit && quick_jump {
                Command::QuickJump((c as u32 - '0' as u32) as usize)
            } else if digit || ('a' <= c && c <= 'z') || ('A' <= c && c <= 'Z') {
                Command::Append(c)
            } else {
                Command::Ignore
            }
        },
        Key::Other => Command::Ignore,
    }
}

impl Picker {
    /// The positions of the visible tabs under the current filter.
    pub open spec fn visible(&self) -> Seq<usize> {
        visible_positions(self.items@, self.filter@, self.config.ignore_case)
    }

    /// A picker with no tabs, an empty filter and nothing selected.
    pub fn new(config: Config) -> (r: Picker)
        ensures
            r.items@.len() == 0,
            r.filter@.len() == 0,
            r.selected.is_none(),
            r.config == config,
    {
        Picker { items: Vec::new(), filter: String::new(), selected: None, config }
    }

    /// The positions of the visible tabs, in order.
    pub fn viewable_tabs(&self) -> (r: Vec<usize>)
        ensures
            r@ == self.visible(),
    {
        let mut out: Vec<usize> = Vec::new();
        let mut i: usize = 0;
        let ghost pred = shows(self.filter@, self.config.ignore_case);
        while i < self.items.len()
            invariant
                i <= self.items@.len(),
                pred == shows(self.filter@, self.config.ignore_case),
                out@ == positions(self.items@.subrange(0, i as int).filter(pred)),
            decreases self.items@.len() - i,
        {
            let it = &self.items[i];
            let ghost before = self.items@.subrange(0, i as int);
            let ghost after = self.items@.subrange(0, i + 1);
            proof {
                assert(after.drop_last() =~= before);
                reveal(Seq::filter);
            }
            if crate::matcher::matches(&it.name, &self.filter, self.config.ignore_case) {
                out.push(it.position);
                assert(after.filter(pred) == before.filter(pred).push(*it));
                assert(out@ =~= positions(after.filter(pred)));
            } else {
                assert(after.filter(pred) == before.filter(pred));
            }
            i += 1;
        }
        assert(self.items@.subrange(0, self.items@.len() as int) =~= self.items@);
        out
    }

    /// Selects the first visible tab, or nothing when none is visible.
    pub fn reset_selection(&mut self)
        ensures
            is_reset_of(*old(self), *final(self)),
    {
        let vis = self.viewable_tabs();
        if vis.len() == 0 {
            self.selected = None;
        } else {
            self.selected = Some(vis[0]);
        }
    }

    /// Moves the selection to the next visible tab, wrapping around.
    pub fn select_down(&mut self)
        ensures
            final(self).selected == step_down(old(self).visible(), old(self).selected),
            final(self).items@ == old(self).items@,
            final(self).filter@ == old(self).filter@,
            final(self).config == old(self).config,
    {
        let vis = self.viewable_tabs();
        self.selected = position_below(&vis, self.selected);
    }

    /// Moves the selection to the previous visible tab, wrapping around.
    pub fn select_up(&mut self)
        ensures
            final(self).selected == step_up(old(self).visible(), old(self).selected),
            final(self).items@ == old(self).items@,
            final(self).filter@ == old(self).filter@,
            final(self).config == old(self).config,
    {
        let vis = self.viewable_tabs();
        self.selected = position_above(&vis, self.selected);
    }

    /// Carries out what a key press asks: navigation, filter edits with a
    /// reset of the selection, or a request to close and activate a tab.
    pub fn handle_key(&mut self, key: &KeyEvent) -> (r: Reaction)
        ensures
            final(self).filter@ == filter_after(command_of(*key, old(self).config.quick_jump), old(self).filter@),
            final(self).selected == selection_after(
                command_of(*key, old(self).config.quick_jump),
                old(self).items@,
                old(self).filter@,
                old(self).config.ignore_case,
                old(self).selected,
            ),
            r == reaction_of(command_of(*key, old(self).config.quick_jump), old(self).selected),
            final(self).items@ == old(self).items@,
            final(self).config == old(self).config,
    {
        let cmd = interpret(key, self.config.quick_jump);
        match cmd {
            Command::Cancel => Reaction { render: false, close: true, activate: None },
            Command::Down => {
                self.select_down();
                Reaction { render: true, close: false, activate: None }
            },
            Command::Up => {
                self.select_up();
                Reaction { render: true, close: false, activate: None }
            },
            Command::Confirm => {
                match self.selected {
                    Some(p) => Reaction { render: false, close: true, activate: Some(p) },
                    None => Reaction { render: false, close: false, activate: None },
                }
            },
            Command::DeleteChar => {
                let _ = pop_char(&mut self.filter);
                self.reset_selection();
                Reaction { render: true, close: false, activate: None }
            },
            Command::QuickJump(d) => Reaction { render: false, close: true, activate: Some(d) },
            Command::Append(c) => {
                push_char(&mut self.filter, c);
                self.reset_selection();
                Reaction { render: true, close: false, activate: None }
            },
            Command::Ignore => Reaction { render: false, close: false, activate: None },
        }
    }

    /// Handles an event from the host: a new tab list replaces the tabs and
    /// selects the active one; a key press goes to `handle_key`.
    pub fn update(&mut self, event: Event) -> (r: Reaction)
        ensures
            match event {
                Event::TabsChanged(items) => {
                    &&& final(self).items@ == items@
                    &&& final(self).selected == active_position(items@)
                    &&& final(self).filter@ == old(self).filter@
                    &&& final(self).config == old(self).config
                    &&& r == (Reaction { render: true, close: false, activate: None })
                },
                Event::Key(key) => {
                    let cmd = command_of(key, old(self).config.quick_jump);
                    &&& final(self).filter@ == filter_after(cmd, old(self).filter@)
                    &&& final(self).selected == selection_after(
                        cmd,
                        old(self).items@,
                        old(self).filter@,
                        old(self).config.ignore_case,
                        old(self).selected,
                    )
                    &&& r == reaction_of(cmd, old(self).selected)
                    &&& final(self).items@ == old(self).items@
                    &&& final(self).config == old(self).config
                },
            },
    {
        match event {
            Event::TabsChanged(items) => {
                self.set_tabs(items);
                Reaction { render: true, close: false, activate: None }
            },
            Event::Key(key) => self.handle_key(&key),
        }
    }

    /// Takes a new list of tabs and selects the one the host marks active.
    pub fn set_tabs(&mut self, items: Vec<Item>)
        ensures
            final(self).items@ == items@,
            final(self).selected == active_position(items@),
            final(self).filter@ == old(self).filter@,
            final(self).config == old(self).config,
    {
        self.selected = first_active(&items);
        self.items = items;
    }
}

/// The selection after moving down through the visible positions `vis`.
pub fn position_below(vis: &Vec<usize>, sel: Option<usize>) -> (r: Option<usize>)
    ensures
        r == step_down(vis@, sel),
{
    let n = vis.len();
    if n == 0 {
        return sel;
    }
    match sel {
        None => Some(vis[0]),
        Some(p) => {
            let mut k: usize = 0;
            while k < n
                invariant
                    n == vis@.len(),
                    sel == Some(p),
                    k <= n,
                    scan_down(vis@, p, 0) == scan_down(vis@, p, k as int),
                decreases n - k,
            {
                if vis[k] == p {
                    if k + 1 < n {
                        return Some(vis[k + 1]);
                    } else {
                        return Some(vis[0]);
                    }
                }
                k += 1;
            }
            Some(vis[0])
        },
    }
}

/// The selection after moving up through the visible positions `vis`.
pub fn position_above(vis: &Vec<usize>, sel: Option<usize>) -> (r: Option<usize>)
    ensures
        r == step_up(vis@, sel),
{
    let n = vis.len();
    if n == 0 {
        return sel;
    }
    match sel {
        None => Some(vis[n - 1]),
        Some(p) => {
            let mut k: usize = n;
            while k > 0
                invariant
                    n == vis@.len(),
                    n > 0,
                    sel == Some(p),
                    k <= n,
                    scan_up(vis@, p, n - 1) == scan_up(vis@, p, k - 1),
                decreases k,
            {
                if vis[k - 1] == p {
                    if k >= 2 {
                        return Some(vis[k - 2]);
                    } else {
                        return Some(vis[n - 1]);
                    }
                }
                k -= 1;
            }
            Some(vis[n - 1])
        },
    }
}

/// The position of the first tab that the host marks active.
pub fn first_active(items: &Vec<Item>) -> (r: Option<usize>)
    ensures
        r == active_position(items@),
{
    let mut k: usize = 0;
    while k < items.len()
        invariant
            k <= items@.len(),
            active_from(items@, 0) == active_from(items@, k as int),
        decreases items@.len() - k,
    {
        if items[k].active {
            return Some(items[k].position);
        }
        k += 1;
    }
    None
}

} // verus!
