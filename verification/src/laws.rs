//! What holds of the controller whatever it is sent, proved of its model.

use vstd::prelude::*;

use crate::backend::{LauncherEvent, RequestView, Response, SearchResult};
use crate::cli::Activation;
use crate::message::{CommandView, LayerEvent, Message};
use crate::model::{cycle_message, is_cycle, is_result_list, LauncherView, DEBOUNCE_MS};
use crate::results::{is_launch, is_window, ranked, windows_first, MAX_RESULTS};
use crate::surface::SurfaceState;

verus! {

/// Hiding resets the session in full: whatever the state before, afterwards
/// the query is empty, the first result is selected, switcher mode is off,
/// nothing is pending, no context menu is open and the surface is hidden.
pub proof fn dismiss_resets(s: LauncherView, now: u64)
    ensures
        s.dismiss(now).0.input_text == Seq::<char>::empty(),
        s.dismiss(now).0.focus_index == 0,
        !s.dismiss(now).0.switcher_mode,
        s.dismiss(now).0.pending_queue == Seq::<Message>::empty(),
        s.dismiss(now).0.context_menu is None,
        s.dismiss(now).0.surface_state == SurfaceState::Hidden,
        s.dismiss(now).0.last_hidden_at == now,
{
}

/// Each way of hiding the launcher is that one reset: the hide message while
/// no context menu is open, the loss of the keyboard, the backend's close,
/// and an activation while the launcher is not hidden.
pub proof fn every_hide_dismisses(s: LauncherView, now: u64)
    ensures
        s.context_menu is None ==> s.update(Message::Hide, now) == s.dismiss(now),
        s.update(Message::Layer(LayerEvent::Unfocused), now) == s.dismiss(now),
        s.update(Message::LauncherEvent(LauncherEvent::Response(Response::Close)), now)
            == s.dismiss(now),
        s.surface_state != SurfaceState::Hidden ==> s.activation(Activation::Activate, now)
            == s.dismiss(now),
{
}

/// The selection after `times` steps down.
pub open spec fn focus_next_times(s: LauncherView, times: nat) -> LauncherView
    decreases times,
{
    if times == 0 {
        s
    } else {
        focus_next_times(s, (times - 1) as nat).focus_next()
    }
}

/// Stepping down `times` times moves the selection by `times`, modulo the
/// number of results.
proof fn focus_next_times_adds(s: LauncherView, times: nat)
    requires
        s.results.len() > 0,
    ensures
        focus_next_times(s, times) == (LauncherView {
            focus_index: if times == 0 {
                s.focus_index
            } else {
                ((s.focus_index as int + times) % (s.results.len() as int)) as nat
            },
            ..s
        }),
    decreases times,
{
    if times > 1 {
        let n = s.results.len() as int;
        let f = s.focus_index as int;
        let k = times as int;
        focus_next_times_adds(s, (times - 1) as nat);
        assert(((f + k - 1) % n + 1) % n == (f + k) % n) by (nonlinear_arith)
            requires
                n > 0,
        ;
    } else if times == 1 {
        assert(focus_next_times(s, 0) == s);
    }
}

/// The selection wraps: with `n > 0` results and a result selected, `n` steps
/// down lead back to where they began.
pub proof fn focus_wraps(s: LauncherView)
    requires
        s.results.len() > 0,
        s.focus_index < s.results.len(),
    ensures
        focus_next_times(s, s.results.len()) == s,
{
    let n = s.results.len() as int;
    let f = s.focus_index as int;
    focus_next_times_adds(s, s.results.len());
    assert((f + n) % n == f) by (nonlinear_arith)
        requires
            0 <= f < n,
    ;
}

/// A step up undoes a step down, and a step down undoes a step up.
pub proof fn focus_previous_inverts_next(s: LauncherView)
    requires
        s.results.len() > 0,
        s.focus_index < s.results.len(),
    ensures
        s.focus_next().focus_previous() == s,
        s.focus_previous().focus_next() == s,
{
    let n = s.results.len() as int;
    let f = s.focus_index as int;
    assert(((f + 1) % n + n - 1) % n == f) by (nonlinear_arith)
        requires
            0 <= f < n,
    ;
    assert(((f + n - 1) % n + 1) % n == f) by (nonlinear_arith)
        requires
            0 <= f < n,
    ;
}

/// The two groups of a result list make up the list.
proof fn groups_make_up(list: Seq<SearchResult>)
    ensures
        windows_first(list).len() == list.len(),
    decreases list.len(),
{
    reveal(Seq::filter);
    if list.len() > 0 {
        groups_make_up(list.drop_last());
    }
}

/// Of a list longer than `MAX_RESULTS` exactly `MAX_RESULTS` results are
/// kept, and of a shorter one all.
pub proof fn ranked_cuts_to_size(list: Seq<SearchResult>)
    ensures
        ranked(list).len() == if list.len() > MAX_RESULTS {
            MAX_RESULTS as nat
        } else {
            list.len()
        },
{
    groups_make_up(list);
}

/// Among the results kept, every open window stands before everything that
/// is no open window.
pub proof fn ranked_puts_windows_first(list: Seq<SearchResult>, i: int, j: int)
    requires
        0 <= i < j < ranked(list).len(),
        ranked(list)[j].is_window(),
    ensures
        ranked(list)[i].is_window(),
{
    let windows = list.filter(is_window());
    let others = list.filter(is_launch());
    assert(ranked(list)[j] == windows_first(list)[j]);
    assert(ranked(list)[i] == windows_first(list)[i]);
    if j >= windows.len() {
        list.lemma_filter_pred(is_launch(), j - windows.len());
    }
    list.lemma_filter_pred(is_window(), i);
}

/// No message but a result list, applied on its own, changes the results.
proof fn handle_keeps_results(s: LauncherView, message: Message, now: u64)
    requires
        !is_result_list(message),
    ensures
        s.handle(message, now).0.results == s.results,
{
}

/// Applying pending messages among which there is no result list leaves the
/// results as they are.
proof fn drain_keeps_results(s: LauncherView, now: u64)
    requires
        s.no_results_pending(),
    ensures
        s.drain(now).0.results == s.results,
    decreases s.pending_queue.len(),
{
    if s.pending_queue.len() > 0 {
        let popped = s.without_oldest();
        let oldest = s.pending_queue[0];
        handle_keeps_results(popped, oldest, now);
        popped.handle_keeps_queue(oldest, now);
        let next = popped.handle(oldest, now).0;
        assert forall|i: int| 0 <= i < next.pending_queue.len() implies !is_result_list(
            #[trigger] next.pending_queue[i],
        ) by {
            assert(next.pending_queue[i] == s.pending_queue[i + 1]);
        }
        drain_keeps_results(next, now);
    }
}

/// A result list that is taken in becomes the results on show, arranged and
/// cut to size: windows first, each group in the backend's order, ten at the
/// most, whatever was shown before. This holds wherever no result list is
/// among the pending messages.
pub proof fn update_replaces_results(s: LauncherView, list: Vec<SearchResult>, now: u64)
    requires
        s.no_results_pending(),
        !(s.switcher_mode && list@.len() == 0),
    ensures
        s.update(Message::LauncherEvent(LauncherEvent::Response(Response::Update(list))), now).0.results
            == ranked(list@),
{
    let update = Message::LauncherEvent(LauncherEvent::Response(Response::Update(list)));
    let taken = s.handle(update, now).0;
    assert(taken.pending_queue == s.pending_queue);
    drain_keeps_results(taken, now);
}

/// In every state the controller can be in, a result list that is taken in
/// becomes the results on show, arranged and cut to size: only steps through
/// the results are ever pending.
pub proof fn update_always_replaces_results(s: LauncherView, list: Vec<SearchResult>, now: u64)
    requires
        s.wf(),
        !(s.switcher_mode && list@.len() == 0),
    ensures
        s.update(Message::LauncherEvent(LauncherEvent::Response(Response::Update(list))), now).0.results
            == ranked(list@),
        ranked(list@).len() == if list@.len() > MAX_RESULTS {
            MAX_RESULTS as nat
        } else {
            list@.len()
        },
{
    assert forall|i: int| 0 <= i < s.pending_queue.len() implies !is_result_list(
        #[trigger] s.pending_queue[i],
    ) by {
        assert(is_cycle(s.pending_queue[i]));
    }
    update_replaces_results(s, list, now);
    ranked_cuts_to_size(list@);
}

/// The controller starts in a state that is well formed.
pub proof fn initial_wf(now: u64)
    ensures
        LauncherView::initial(now).wf(),
{
}

/// No message, applied on its own, leads out of the well-formed states.
pub proof fn handle_keeps_wf(s: LauncherView, message: Message, now: u64)
    requires
        s.wf(),
    ensures
        s.handle(message, now).0.wf(),
{
    if let Message::LauncherEvent(LauncherEvent::Response(Response::Update(list))) = message {
        ranked_cuts_to_size(list@);
    }
}

/// Applying the pending messages does not lead out of the well-formed states.
pub proof fn drain_keeps_wf(s: LauncherView, now: u64)
    requires
        s.wf(),
    ensures
        s.drain(now).0.wf(),
    decreases s.pending_queue.len(),
{
    if s.pending_queue.len() > 0 {
        let popped = s.without_oldest();
        handle_keeps_wf(popped, s.pending_queue[0], now);
        popped.handle_keeps_queue(s.pending_queue[0], now);
        drain_keeps_wf(popped.handle(s.pending_queue[0], now).0, now);
    }
}

/// No message leads out of the well-formed states: at most `MAX_RESULTS`
/// results are on show, and a hidden launcher is not in switcher mode and has
/// nothing pending.
pub proof fn update_keeps_wf(s: LauncherView, message: Message, now: u64)
    requires
        s.wf(),
    ensures
        s.update(message, now).0.wf(),
{
    handle_keeps_wf(s, message, now);
    if s.accepts_update(message) {
        drain_keeps_wf(s.handle(message, now).0, now);
    }
}

/// No request of the session leads out of the well-formed states.
pub proof fn activation_keeps_wf(s: LauncherView, request: Activation, now: u64)
    requires
        s.wf(),
    ensures
        s.activation(request, now).0.wf(),
{
    if let Activation::ActivateAction(Some(command)) = request {
        let woken = if s.surface_state == SurfaceState::Hidden {
            LauncherView { surface_state: SurfaceState::WaitingToBeShown, ..s }
        } else {
            s
        };
        update_keeps_wf(woken, cycle_message(command), now);
    }
}

/// No message, applied on its own, creates the main surface or makes the
/// launcher wait to be shown.
proof fn handle_never_shows(s: LauncherView, message: Message, now: u64)
    ensures
        !s.handle(message, now).1.contains(CommandView::CreateMainSurface),
        s.handle(message, now).0.surface_state == SurfaceState::WaitingToBeShown
            ==> s.surface_state == SurfaceState::WaitingToBeShown,
{
    let issued = s.handle(message, now).1;
    if issued.contains(CommandView::CreateMainSurface) {
        let i = choose|i: int| 0 <= i < issued.len() && issued[i] == CommandView::CreateMainSurface;
        assert(issued[i] == CommandView::CreateMainSurface);
    }
}

/// Applying the pending messages neither creates the main surface nor makes
/// the launcher wait to be shown.
proof fn drain_never_shows(s: LauncherView, now: u64)
    ensures
        !s.drain(now).1.contains(CommandView::CreateMainSurface),
        s.drain(now).0.surface_state == SurfaceState::WaitingToBeShown ==> s.surface_state
            == SurfaceState::WaitingToBeShown,
    decreases s.pending_queue.len(),
{
    if s.pending_queue.len() > 0 {
        let popped = s.without_oldest();
        let (next, first) = popped.handle(s.pending_queue[0], now);
        handle_never_shows(popped, s.pending_queue[0], now);
        popped.handle_keeps_queue(s.pending_queue[0], now);
        drain_never_shows(next, now);
        let rest = next.drain(now).1;
        if (first + rest).contains(CommandView::CreateMainSurface) {
            let i = choose|i: int|
                0 <= i < (first + rest).len() && (first + rest)[i]
                    == CommandView::CreateMainSurface;
            if i < first.len() {
                assert(first[i] == CommandView::CreateMainSurface);
            } else {
                assert(rest[i - first.len()] == CommandView::CreateMainSurface);
            }
        }
    }
}

/// The main surface is created only on the arrival of a result list that is
/// taken in while the launcher waits to be shown; never while it is hidden,
/// and never before the list is in and the pending messages are applied: the
/// command is the last one issued, and the only one of its kind.
pub proof fn surface_created_only_after_results(s: LauncherView, message: Message, now: u64, i: int)
    requires
        0 <= i < s.update(message, now).1.len(),
        s.update(message, now).1[i] == CommandView::CreateMainSurface,
    ensures
        s.surface_state == SurfaceState::WaitingToBeShown,
        s.accepts_update(message),
        i == s.update(message, now).1.len() - 1,
        s.update(message, now).0.surface_state == SurfaceState::Visible,
{
    handle_never_shows(s, message, now);
    if s.accepts_update(message) {
        let taken = s.handle(message, now).0;
        drain_never_shows(taken, now);
        let issued = taken.drain(now).1;
        if i < issued.len() {
            assert(issued[i] == CommandView::CreateMainSurface);
        }
    } else {
        assert(s.handle(message, now).1[i] == CommandView::CreateMainSurface);
    }
}

/// No request of the session creates the main surface.
pub proof fn activation_never_shows(s: LauncherView, request: Activation, now: u64, i: int)
    requires
        0 <= i < s.activation(request, now).1.len(),
    ensures
        s.activation(request, now).1[i] != CommandView::CreateMainSurface,
{
    if let Activation::ActivateAction(Some(command)) = request {
        let woken = if s.surface_state == SurfaceState::Hidden {
            LauncherView { surface_state: SurfaceState::WaitingToBeShown, ..s }
        } else {
            s
        };
        if woken.switcher_mode {
            let cycle = cycle_message(command);
            handle_never_shows(woken, cycle, now);
            assert(woken.update(cycle, now).1[i] == s.activation(request, now).1[i]);
        }
    }
}

/// Pending messages are applied oldest first, and before the surface is
/// shown: with `first` and `second` pending, in this order, a result list
/// that is taken in is followed by `first`, then by `second`, and only then,
/// if the launcher still waits for it, by the showing of the main surface.
/// (Where `first` hides the launcher, `second` is dropped with the rest of
/// the session.)
pub proof fn pending_applied_in_order(
    s: LauncherView,
    list: Vec<SearchResult>,
    first: Message,
    second: Message,
    now: u64,
)
    requires
        s.pending_queue == seq![first, second],
        !(s.switcher_mode && list@.len() == 0),
    ensures
        ({
            let update = Message::LauncherEvent(LauncherEvent::Response(Response::Update(list)));
            let taken = LauncherView { results: ranked(list@), ..s };
            let (after_first, by_first) = (LauncherView {
                pending_queue: seq![second],
                ..taken
            }).handle(first, now);
            let (after_second, by_second) = (LauncherView {
                pending_queue: Seq::empty(),
                ..after_first
            }).handle(second, now);
            let (drained, issued) = if after_first.pending_queue.len() == 0 {
                (after_first, by_first)
            } else {
                (after_second, by_first + by_second)
            };
            s.update(update, now) == if drained.surface_state == SurfaceState::WaitingToBeShown {
                (
                    LauncherView { surface_state: SurfaceState::Visible, ..drained },
                    issued + seq![CommandView::CreateMainSurface],
                )
            } else {
                (drained, issued)
            }
        }),
{
    let taken = LauncherView { results: ranked(list@), ..s };
    let popped = taken.without_oldest();
    assert(popped.pending_queue == seq![second]);
    let (after_first, by_first) = popped.handle(first, now);
    popped.handle_keeps_queue(first, now);
    assert(taken.drain(now) == (after_first.drain(now).0, by_first + after_first.drain(now).1));
    if after_first.pending_queue.len() == 0 {
        assert(by_first + Seq::<CommandView>::empty() == by_first);
    } else {
        let last = after_first.without_oldest();
        assert(last.pending_queue == Seq::<Message>::empty());
        let (after_second, by_second) = last.handle(second, now);
        last.handle_keeps_queue(second, now);
        assert(after_second.drain(now) == (after_second, Seq::<CommandView>::empty()));
        assert(by_second + Seq::<CommandView>::empty() == by_second);
    }
}

/// An activation that reaches a hidden launcher less than `DEBOUNCE_MS`
/// after the last hide changes nothing and issues nothing.
pub proof fn early_activation_ignored(s: LauncherView, now: u64)
    requires
        s.surface_state == SurfaceState::Hidden,
        now - s.last_hidden_at < DEBOUNCE_MS,
    ensures
        s.activation(Activation::Activate, now) == (s, Seq::<CommandView>::empty()),
{
}

/// An activation that reaches a hidden launcher `DEBOUNCE_MS` after the last
/// hide, or later, makes it wait to be shown and searches for the empty
/// query; the surface itself is not created yet.
pub proof fn late_activation_waits(s: LauncherView, now: u64)
    requires
        s.surface_state == SurfaceState::Hidden,
        now - s.last_hidden_at >= DEBOUNCE_MS,
    ensures
        s.activation(Activation::Activate, now) == (
            LauncherView { surface_state: SurfaceState::WaitingToBeShown, ..s },
            s.send(RequestView::Search(Seq::empty())),
        ),
{
}

} // verus!
