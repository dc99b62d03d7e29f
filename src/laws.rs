//! Properties of the picker that relate several calls or hold of every
//! input.

use vstd::prelude::*;
use crate::matcher::name_matches;
use crate::picker::{
    Command, Item, Picker, filter_after, first_of, is_reset_of, positions, scan_down, scan_up,
    selection_after, shown, shows, step_down, step_up, strictly_ascending, visible_positions,
};

verus! {

broadcast use vstd::seq_lib::group_filter_ensures;

/// The visible tabs are exactly the tabs whose name satisfies the filter;
/// when the tabs come in ascending position order, so do the visible ones.
pub proof fn lemma_visible_exact(items: Seq<Item>, f: Seq<char>, ignore_case: bool)
    ensures
        forall|it: Item|
            #[trigger] shown(items, f, ignore_case).contains(it) <==> (items.contains(it)
                && name_matches(it.name@, f, ignore_case)),
        strictly_ascending(positions(items)) ==> strictly_ascending(
            visible_positions(items, f, ignore_case),
        ),
    decreases items.len(),
{
    let pred = shows(f, ignore_case);
    assert forall|it: Item| #[trigger] shown(items, f, ignore_case).contains(it) <==> (items.contains(it)
        && name_matches(it.name@, f, ignore_case)) by {
        if shown(items, f, ignore_case).contains(it) {
            items.lemma_filter_contains_rev(pred, it);
            let i = choose|i: int| 0 <= i < items.filter(pred).len() && items.filter(pred)[i] == it;
            assert(pred(items.filter(pred)[i]));
        }
        if items.contains(it) && name_matches(it.name@, f, ignore_case) {
            let i = choose|i: int| 0 <= i < items.len() && items[i] == it;
            assert(pred(items[i]));
        }
    }
    if items.len() > 0 && strictly_ascending(positions(items)) {
        let rest = items.drop_last();
        let last = items.last();
        assert(positions(rest) =~= positions(items).drop_last());
        lemma_visible_exact(rest, f, ignore_case);
        reveal(Seq::filter);
        if pred(last) {
            let sr = shown(rest, f, ignore_case);
            assert(shown(items, f, ignore_case) == sr.push(last));
            assert forall|i: int| 0 <= i < sr.len() implies sr[i].position < last.position by {
                assert(sr.contains(sr[i]));
                let j = choose|j: int| 0 <= j < rest.len() && rest[j] == sr[i];
                assert(positions(items)[j] == sr[i].position);
                assert(positions(items)[items.len() - 1] == last.position);
            }
            assert(positions(sr.push(last)) =~= positions(sr).push(last.position));
        } else {
            assert(shown(items, f, ignore_case) == shown(rest, f, ignore_case));
        }
    }
}

/// Resetting the selection a second time selects what the first reset did.
pub proof fn lemma_reset_idempotent(start: Picker, once: Picker, twice: Picker)
    requires
        is_reset_of(start, once),
        is_reset_of(once, twice),
    ensures
        twice.selected == once.selected,
        twice.items@ == once.items@,
        twice.filter@ == once.filter@,
        twice.config == once.config,
{
}

proof fn lemma_down_from_last(vis: Seq<usize>, i: int)
    requires
        0 <= i < vis.len(),
        strictly_ascending(vis),
    ensures
        scan_down(vis, vis.last(), i) == Some(vis[0]),
    decreases vis.len() - i,
{
    if i + 1 < vis.len() {
        assert(vis[i] < vis[vis.len() - 1]);
        lemma_down_from_last(vis, i + 1);
    }
}

proof fn lemma_up_from_first(vis: Seq<usize>, i: int)
    requires
        0 <= i < vis.len(),
        strictly_ascending(vis),
    ensures
        scan_up(vis, vis[0], i) == Some(vis.last()),
    decreases i,
{
    if i > 0 {
        assert(vis[0] < vis[i]);
        lemma_up_from_first(vis, i - 1);
    }
}

/// Moving down from the last visible tab selects the first, and moving up
/// from the first selects the last, when visible positions ascend.
pub proof fn lemma_wraparound(vis: Seq<usize>)
    requires
        vis.len() > 0,
        strictly_ascending(vis),
    ensures
        step_down(vis, Some(vis.last())) == Some(vis[0]),
        step_up(vis, Some(vis[0])) == Some(vis.last()),
{
    lemma_down_from_last(vis, 0);
    lemma_up_from_first(vis, vis.len() - 1);
}

proof fn lemma_down_miss(vis: Seq<usize>, p: usize, i: int)
    requires
        vis.len() > 0,
        !vis.contains(p),
    ensures
        scan_down(vis, p, i) == Some(vis[0]),
    decreases vis.len() - i,
{
    if 0 <= i < vis.len() {
        assert(vis.contains(vis[i]));
        lemma_down_miss(vis, p, i + 1);
    }
}

proof fn lemma_up_miss(vis: Seq<usize>, p: usize, i: int)
    requires
        vis.len() > 0,
        !vis.contains(p),
    ensures
        scan_up(vis, p, i) == Some(vis.last()),
    decreases i + 1,
{
    if 0 <= i < vis.len() {
        assert(vis.contains(vis[i]));
        lemma_up_miss(vis, p, i - 1);
    }
}

/// A selection that no visible tab holds recovers: moving down selects the
/// first visible tab and moving up the last.
pub proof fn lemma_recovery(vis: Seq<usize>, sel: Option<usize>)
    requires
        vis.len() > 0,
        sel is None || !vis.contains(sel->0),
    ensures
        step_down(vis, sel) == Some(vis[0]),
        step_up(vis, sel) == Some(vis.last()),
{
    if sel is Some {
        lemma_down_miss(vis, sel->0, 0);
        lemma_up_miss(vis, sel->0, vis.len() - 1);
    }
}

/// Appending a character and deleting it again restores the filter text,
/// and leaves the selection a reset under that text makes.
pub proof fn lemma_append_then_delete(
    items: Seq<Item>,
    f: Seq<char>,
    ignore_case: bool,
    sel: Option<usize>,
    c: char,
)
    ensures
        filter_after(Command::DeleteChar, filter_after(Command::Append(c), f)) == f,
        selection_after(
            Command::DeleteChar,
            items,
            filter_after(Command::Append(c), f),
            ignore_case,
            selection_after(Command::Append(c), items, f, ignore_case, sel),
        ) == first_of(visible_positions(items, f, ignore_case)),
{
    assert(f.push(c).drop_last() =~= f);
}

} // verus!
