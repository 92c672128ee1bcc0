//! How an incoming result list is arranged before it is shown.

use vstd::prelude::*;

use crate::backend::SearchResult;

verus! {

/// The most results that are kept of one list.
pub const MAX_RESULTS: usize = 10;

/// The test that picks the open windows out of a result list.
pub open spec fn is_window() -> spec_fn(SearchResult) -> bool {
    |r: SearchResult| r.is_window()
}

/// The test that picks out what is no open window.
pub open spec fn is_launch() -> spec_fn(SearchResult) -> bool {
    |r: SearchResult| !r.is_window()
}

/// The results in the order shown: open windows first, then what can be
/// launched, each group in the backend's order.
pub open spec fn windows_first(list: Seq<SearchResult>) -> Seq<SearchResult> {
    list.filter(is_window()) + list.filter(is_launch())
}

/// What is kept of an incoming result list: its first `MAX_RESULTS` in the
/// order shown.
pub open spec fn ranked(list: Seq<SearchResult>) -> Seq<SearchResult> {
    let ordered = windows_first(list);
    if ordered.len() <= MAX_RESULTS {
        ordered
    } else {
        ordered.take(MAX_RESULTS as int)
    }
}

/// Filtering a list with one more item at its end.
proof fn filter_push(list: Seq<SearchResult>, last: SearchResult, keep: spec_fn(SearchResult) -> bool)
    ensures
        list.push(last).filter(keep) == if keep(last) {
            list.filter(keep).push(last)
        } else {
            list.filter(keep)
        },
{
    reveal(Seq::filter);
    assert(list.push(last).drop_last() == list);
}

/// Arranges an incoming result list as it is shown, and cuts it to size.
pub fn rank(list: Vec<SearchResult>) -> (kept: Vec<SearchResult>)
    ensures
        kept@ == ranked(list@),
{
    let ghost all = list@;
    let mut windows: Vec<SearchResult> = Vec::new();
    let mut others: Vec<SearchResult> = Vec::new();
    proof {
        reveal(Seq::filter);
        assert(all.take(0).len() == 0);
    }
    for r in it: list
        invariant
            it.seq() == all,
            windows@ == all.take(it.index()).filter(is_window()),
            others@ == all.take(it.index()).filter(is_launch()),
    {
        proof {
            let before = all.take(it.index());
            assert(all.take(it.index() + 1) == before.push(r));
            filter_push(before, r, is_window());
            filter_push(before, r, is_launch());
        }
        if r.window.is_some() {
            windows.push(r);
        } else {
            others.push(r);
        }
    }
    assert(all.take(all.len() as int) == all);
    windows.truncate(MAX_RESULTS);
    let room = MAX_RESULTS - windows.len();
    others.truncate(room);
    windows.append(&mut others);
    windows
}

} // verus!
