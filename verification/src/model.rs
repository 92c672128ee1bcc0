//! The controller as mathematics: its state as a value, and each transition
//! as a function from a state and an input to the next state and the commands
//! issued on the way.

use vstd::prelude::*;

use crate::backend::{ContextOption, LauncherEvent, RequestView, Response, SearchResult};
use crate::cli::{Activation, LauncherCommands};
use crate::message::{
    text_of, CommandView, DesktopAction, DesktopEntry, KeyboardNav, LayerEvent, Message,
};
use crate::results::{ranked, MAX_RESULTS};
use crate::surface::SurfaceState;

verus! {

/// An activation that follows a hide by less than this many milliseconds is
/// taken for the echo of the click that hid the launcher, and dropped.
pub const DEBOUNCE_MS: u64 = 100;

/// The controller's state.
pub struct LauncherView {
    /// The query as typed so far.
    pub input_text: Seq<char>,
    /// Where the main surface stands.
    pub surface_state: SurfaceState,
    /// The results on show, best first.
    pub results: Seq<SearchResult>,
    /// The position of the selected result.
    pub focus_index: nat,
    /// Whether the backend has reported that it takes requests.
    pub backend_up: bool,
    /// The open context menu: the item it belongs to, and its options.
    pub context_menu: Option<(u32, Seq<ContextOption>)>,
    /// Where the pointer was last seen.
    pub cursor_position: Option<(i32, i32)>,
    /// Messages put off until the next result list is in.
    pub pending_queue: Seq<Message>,
    /// Whether the launcher is cycling through windows.
    pub switcher_mode: bool,
    /// The time of the last hide, in milliseconds.
    pub last_hidden_at: u64,
}

/// A state after a transition, and the commands the transition issued.
pub type Step = (LauncherView, Seq<CommandView>);

/// The first of the actions that has the given name, if any has.
pub open spec fn first_action_named(actions: Seq<DesktopAction>, name: Seq<char>) -> Option<
    DesktopAction,
>
    decreases actions.len(),
{
    if actions.len() == 0 {
        None
    } else if actions[0].name@ == name {
        Some(actions[0])
    } else {
        first_action_named(actions.drop_first(), name)
    }
}

/// The command line that a desktop entry resolves to, if any: that of its
/// first action with the given name, or the entry's own where no action is
/// named.
pub open spec fn command_line_of(entry: DesktopEntry, action_name: Option<String>) -> Option<
    Seq<char>,
> {
    match action_name {
        Some(name) => match first_action_named(entry.desktop_actions@, name@) {
            Some(action) => Some(action.command_line@),
            None => None,
        },
        None => text_of(entry.command_line),
    }
}

/// The message that carries out a cycling sub-command.
pub open spec fn cycle_message(command: LauncherCommands) -> Message {
    match command {
        LauncherCommands::AltTab => Message::AltTab,
        LauncherCommands::ShiftAltTab => Message::ShiftAltTab,
    }
}

/// Whether a message is a step through the results, forwards or backwards.
pub open spec fn is_cycle(message: Message) -> bool {
    message is AltTab || message is ShiftAltTab
}

/// Whether a message is a result list of the backend.
pub open spec fn is_result_list(message: Message) -> bool {
    message matches Message::LauncherEvent(LauncherEvent::Response(Response::Update(_)))
}

impl LauncherView {
    /// The state the controller starts in, at time `now`.
    pub open spec fn initial(now: u64) -> LauncherView {
        LauncherView {
            input_text: Seq::empty(),
            surface_state: SurfaceState::Hidden,
            results: Seq::empty(),
            focus_index: 0,
            backend_up: false,
            context_menu: None,
            cursor_position: None,
            pending_queue: Seq::empty(),
            switcher_mode: false,
            last_hidden_at: now,
        }
    }

    /// What holds of every state the controller can be in: no more than
    /// `MAX_RESULTS` results are on show, the selection is below that number,
    /// a hidden launcher is not in switcher mode and has nothing pending, and
    /// only steps through the results are ever pending.
    pub open spec fn wf(self) -> bool {
        &&& self.results.len() <= MAX_RESULTS
        &&& self.focus_index < MAX_RESULTS
        &&& self.surface_state == SurfaceState::Hidden ==> !self.switcher_mode
            && self.pending_queue.len() == 0
        &&& forall|i: int|
            0 <= i < self.pending_queue.len() ==> is_cycle(#[trigger] self.pending_queue[i])
    }

    /// Whether no result list is among the pending messages.
    pub open spec fn no_results_pending(self) -> bool {
        forall|i: int|
            0 <= i < self.pending_queue.len() ==> !is_result_list(#[trigger] self.pending_queue[i])
    }

    /// Sending a request: it goes out if the backend is up, and is dropped
    /// otherwise.
    pub open spec fn send(self, request: RequestView) -> Seq<CommandView> {
        if self.backend_up {
            seq![CommandView::Request(request)]
        } else {
            Seq::empty()
        }
    }

    /// Closing the context menu, if one is open.
    pub open spec fn close_menu(self) -> Step {
        if self.context_menu is Some {
            (LauncherView { context_menu: None, ..self }, seq![CommandView::DestroyPopup])
        } else {
            (self, Seq::empty())
        }
    }

    /// Showing the main surface.
    pub open spec fn show(self) -> Step {
        (
            LauncherView { surface_state: SurfaceState::Visible, ..self },
            seq![CommandView::CreateMainSurface],
        )
    }

    /// Hiding the launcher at time `now`: everything the session built up is
    /// reset, the backend is told, and what is on screen is destroyed.
    pub open spec fn dismiss(self, now: u64) -> Step {
        (
            LauncherView {
                input_text: Seq::empty(),
                surface_state: SurfaceState::Hidden,
                focus_index: 0,
                context_menu: None,
                pending_queue: Seq::empty(),
                switcher_mode: false,
                last_hidden_at: now,
                ..self
            },
            self.send(RequestView::Close) + (if self.surface_state == SurfaceState::Visible {
                seq![CommandView::DestroyMainSurface]
            } else {
                Seq::empty()
            }) + self.close_menu().1,
        )
    }

    /// Moving the selection one result down, wrapping at the end. Nothing
    /// moves while there are no results.
    pub open spec fn focus_next(self) -> LauncherView {
        if self.results.len() == 0 {
            self
        } else {
            LauncherView {
                focus_index: ((self.focus_index as int + 1) % (self.results.len() as int)) as nat,
                ..self
            }
        }
    }

    /// Moving the selection one result up, wrapping at the start. Nothing
    /// moves while there are no results.
    pub open spec fn focus_previous(self) -> LauncherView {
        if self.results.len() == 0 {
            self
        } else {
            LauncherView {
                focus_index: ((self.focus_index as int + self.results.len() - 1) % (
                self.results.len() as int)) as nat,
                ..self
            }
        }
    }

    /// Replacing the query by `text` and searching for it.
    pub open spec fn search(self, text: Seq<char>) -> Step {
        (LauncherView { input_text: text, ..self }, self.send(RequestView::Search(text)))
    }

    /// Activating the result at `index`, or the selected one: the backend is
    /// asked to activate it, and where there is no such result the launcher
    /// hides instead.
    pub open spec fn activate(self, index: Option<usize>, now: u64) -> Step {
        let at = match index {
            Some(i) => i as nat,
            None => self.focus_index,
        };
        if at < self.results.len() {
            (self, self.send(RequestView::Activate(self.results[at as int].id)))
        } else {
            self.dismiss(now)
        }
    }

    /// Taking in a result list: in switcher mode an empty list hides the
    /// launcher; any other list replaces the results.
    pub open spec fn take_results(self, list: Seq<SearchResult>, now: u64) -> Step {
        if self.switcher_mode && list.len() == 0 {
            self.dismiss(now)
        } else {
            (LauncherView { results: ranked(list), ..self }, Seq::empty())
        }
    }

    /// Whether `message` is a result list that is taken in rather than hiding
    /// the launcher.
    pub open spec fn accepts_update(self, message: Message) -> bool {
        message matches Message::LauncherEvent(LauncherEvent::Response(Response::Update(list)))
            && !(self.switcher_mode && list@.len() == 0)
    }

    /// One message applied on its own, at time `now`. Of a result list this
    /// is the taking in alone; see `update` for what follows it.
    pub open spec fn handle(self, message: Message, now: u64) -> Step {
        match message {
            Message::InputChanged(value) => self.search(value@),
            Message::Backspace => self.search(
                if self.input_text.len() > 0 {
                    self.input_text.drop_last()
                } else {
                    self.input_text
                },
            ),
            Message::TabPress => if self.switcher_mode {
                (self, Seq::empty())
            } else {
                (LauncherView { focus_index: 0, ..self }, seq![CommandView::FindFocused])
            },
            Message::CompleteFocusedId(row) => {
                let at = match row {
                    Some(i) => i as nat,
                    None => 0,
                };
                if at < self.results.len() {
                    (self, self.send(RequestView::Complete(self.results[at as int].id)))
                } else {
                    (self, Seq::empty())
                }
            },
            Message::Activate(index) => self.activate(index, now),
            Message::Context(index) => if self.context_menu is Some {
                self.close_menu()
            } else if index < self.results.len() {
                (self, self.send(RequestView::Context(self.results[index as int].id)))
            } else {
                (self, Seq::empty())
            },
            Message::MenuButton(id, option) => {
                let (closed, destroyed) = self.close_menu();
                (closed, self.send(RequestView::ActivateContext(id, option)) + destroyed)
            },
            Message::CloseContextMenu => self.close_menu(),
            Message::CursorMoved(x, y) => (
                LauncherView { cursor_position: Some((x, y)), ..self },
                Seq::empty(),
            ),
            Message::Hide => if self.context_menu is Some {
                self.close_menu()
            } else {
                self.dismiss(now)
            },
            Message::LauncherEvent(LauncherEvent::Started) => (
                LauncherView { backend_up: true, ..self },
                Seq::empty(),
            ),
            Message::LauncherEvent(LauncherEvent::ServiceIsClosed) => (
                self,
                self.send(RequestView::ServiceIsClosed),
            ),
            Message::LauncherEvent(LauncherEvent::Response(response)) => match response {
                Response::Close => self.dismiss(now),
                Response::Context { id, options } => if options@.len() == 0 {
                    (self, Seq::empty())
                } else {
                    (
                        LauncherView { context_menu: Some((id, options@)), ..self },
                        match self.cursor_position {
                            Some((x, y)) => seq![CommandView::CreatePopup { x, y }],
                            None => Seq::empty(),
                        },
                    )
                },
                Response::DesktopEntry { path, gpu_preference, action_name } => (
                    self,
                    seq![
                        CommandView::LoadDesktopEntry {
                            path: path@,
                            gpu_preference,
                            action_name: text_of(action_name),
                        },
                    ],
                ),
                Response::Update(list) => self.take_results(list@, now),
                Response::Fill(text) => self.search(text@),
            },
            Message::Layer(event) => match event {
                LayerEvent::Unfocused => self.dismiss(now),
                LayerEvent::Focused | LayerEvent::Done => (self, Seq::empty()),
            },
            Message::KeyboardNav(step) => match step {
                KeyboardNav::FocusNext => (self.focus_next(), Seq::empty()),
                KeyboardNav::FocusPrevious => (self.focus_previous(), Seq::empty()),
                KeyboardNav::Unfocus => {
                    let (cleared, sent) = self.search(Seq::empty());
                    (cleared, sent + seq![CommandView::Unfocus])
                },
                KeyboardNav::Other => (self, Seq::empty()),
            },
            Message::ActivationToken(token, command_line, gpu_preference) => (
                self,
                seq![
                    CommandView::Launch {
                        token: text_of(token),
                        command_line: command_line@,
                        gpu_preference,
                    },
                ],
            ),
            Message::AltTab => (self.focus_next(), Seq::empty()),
            Message::ShiftAltTab => (self.focus_previous(), Seq::empty()),
            Message::AltRelease => if self.switcher_mode {
                self.activate(None, now)
            } else {
                (self, Seq::empty())
            },
            Message::DesktopEntryLoaded { entry, gpu_preference, action_name } => match entry {
                Some(entry) => match command_line_of(entry, action_name) {
                    Some(command_line) => (
                        self,
                        seq![CommandView::RequestActivationToken { command_line, gpu_preference }],
                    ),
                    None => (self, Seq::empty()),
                },
                None => (self, Seq::empty()),
            },
        }
    }

    /// The state without the oldest pending message.
    pub open spec fn without_oldest(self) -> LauncherView {
        LauncherView { pending_queue: self.pending_queue.drop_first(), ..self }
    }

    /// The pending messages applied oldest first, each taken off the queue
    /// before it is applied, until the queue is empty.
    pub open spec fn drain(self, now: u64) -> Step
        decreases self.pending_queue.len(),
        via Self::drain_terminates
    {
        if self.pending_queue.len() == 0 {
            (self, Seq::empty())
        } else {
            let (next, first) = self.without_oldest().handle(self.pending_queue[0], now);
            let (last, rest) = next.drain(now);
            (last, first + rest)
        }
    }

    #[via_fn]
    proof fn drain_terminates(self, now: u64) {
        if self.pending_queue.len() != 0 {
            self.without_oldest().handle_keeps_queue(self.pending_queue[0], now);
        }
    }

    /// No message, applied on its own, changes the queue other than by
    /// emptying it.
    pub proof fn handle_keeps_queue(self, message: Message, now: u64)
        ensures
            ({
                let after = self.handle(message, now).0.pending_queue;
                after == self.pending_queue || after.len() == 0
            }),
    {
    }

    /// One message of the input stream, at time `now`. A result list that is
    /// taken in is followed by the pending messages, oldest first, and only
    /// then, if the launcher was waiting for it, by the showing of the main
    /// surface. Every other message is applied on its own.
    pub open spec fn update(self, message: Message, now: u64) -> Step {
        if self.accepts_update(message) {
            let (taken, _) = self.handle(message, now);
            let (drained, commands) = taken.drain(now);
            if drained.surface_state == SurfaceState::WaitingToBeShown {
                (drained.show().0, commands + drained.show().1)
            } else {
                (drained, commands)
            }
        } else {
            self.handle(message, now)
        }
    }

    /// Whether an activation at time `now` comes long enough after the last
    /// hide to be meant.
    pub open spec fn past_debounce(self, now: u64) -> bool {
        now - self.last_hidden_at >= DEBOUNCE_MS
    }

    /// A request of the session, at time `now`.
    pub open spec fn activation(self, request: Activation, now: u64) -> Step {
        match request {
            Activation::Activate => if self.surface_state != SurfaceState::Hidden {
                self.dismiss(now)
            } else if self.past_debounce(now) {
                (
                    LauncherView { surface_state: SurfaceState::WaitingToBeShown, ..self },
                    self.send(RequestView::Search(Seq::empty())),
                )
            } else {
                (self, Seq::empty())
            },
            Activation::Open => (self, Seq::empty()),
            Activation::ActivateAction(None) => (self, Seq::empty()),
            Activation::ActivateAction(Some(command)) => {
                let woken = if self.surface_state == SurfaceState::Hidden {
                    LauncherView { surface_state: SurfaceState::WaitingToBeShown, ..self }
                } else {
                    self
                };
                if woken.switcher_mode {
                    woken.update(cycle_message(command), now)
                } else {
                    (
                        LauncherView {
                            switcher_mode: true,
                            pending_queue: woken.pending_queue.push(cycle_message(command)),
                            ..woken
                        },
                        woken.send(RequestView::Search(Seq::empty())),
                    )
                }
            },
        }
    }
}

} // verus!
