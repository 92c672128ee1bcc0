//! The controller itself: the state it owns, and the two entry points through
//! which every event reaches it.

use std::collections::VecDeque;

use vstd::prelude::*;
use vstd::string::StrSliceExecFns;

use crate::backend::{
    ContextOption, LauncherEvent, Request, RequestView, Response, SearchResult,
};
use crate::cli::{Activation, LauncherCommands};
use crate::message::{
    command_views, text_of, Command, CommandView, DesktopEntry, KeyboardNav, LayerEvent, Message,
};
use crate::model::{
    command_line_of, first_action_named, is_cycle, LauncherView, DEBOUNCE_MS,
};
use crate::results::{rank, MAX_RESULTS};
use crate::surface::SurfaceState;

verus! {

/// The text without its last character; an empty text stays as it is.
fn without_last(text: &str) -> (rest: String)
    ensures
        rest@ == if text@.len() > 0 {
            text@.drop_last()
        } else {
            text@
        },
{
    let count = text.unicode_len();
    if count > 0 {
        text.substring_char(0, count - 1).to_owned()
    } else {
        text.to_owned()
    }
}

/// Whether `after` is `before` with commands that read `issued` at its end.
spec fn issues(before: Seq<Command>, after: Seq<Command>, issued: Seq<CommandView>) -> bool {
    command_views(after) == command_views(before) + issued
}

/// A list left as it is has had nothing issued.
proof fn nothing_issued(commands: Seq<Command>)
    ensures
        issues(commands, commands, Seq::empty()),
{
    assert(command_views(commands) =~= command_views(commands) + Seq::empty());
}

/// What was issued in two steps was issued in all.
proof fn issued_in_turn(
    start: Seq<Command>,
    middle: Seq<Command>,
    end: Seq<Command>,
    first: Seq<CommandView>,
    second: Seq<CommandView>,
)
    requires
        issues(start, middle, first),
        issues(middle, end, second),
    ensures
        issues(start, end, first + second),
{
    assert(command_views(end) =~= command_views(start) + (first + second));
}

/// Puts one command at the end of the list.
fn issue(commands: &mut Vec<Command>, command: Command)
    ensures
        issues(old(commands)@, final(commands)@, seq![command@]),
{
    commands.push(command);
    assert(command_views(commands@) =~= command_views(old(commands)@) + seq![command@]);
}

/// The command line that a desktop entry resolves to: that of its first
/// action named `action_name`, or its own where no action is named.
pub fn resolve_command_line(entry: DesktopEntry, action_name: Option<String>) -> (line: Option<
    String,
>)
    ensures
        text_of(line) == command_line_of(entry, action_name),
{
    match action_name {
        Some(name) => {
            let mut actions = entry.desktop_actions;
            let ghost all = actions@;
            let mut i: usize = 0;
            assert(all.skip(0) == all);
            while i < actions.len()
                invariant
                    actions@ == all,
                    all == entry.desktop_actions@,
                    action_name == Some(name),
                    i <= all.len(),
                    first_action_named(all, name@) == first_action_named(all.skip(i as int), name@),
                decreases all.len() - i,
            {
                assert(all.skip(i as int)[0] == all[i as int]);
                if actions[i].name == name {
                    let action = actions.swap_remove(i);
                    return Some(action.command_line);
                }
                assert(all.skip(i as int).drop_first() == all.skip(i + 1));
                i += 1;
            }
            None
        },
        None => entry.command_line,
    }
}

/// A step through the results, once more.
fn copy_of_cycle(step: &Message) -> (copy: Message)
    requires
        is_cycle(*step),
    ensures
        copy == *step,
{
    match step {
        Message::ShiftAltTab => Message::ShiftAltTab,
        _ => Message::AltTab,
    }
}

/// The launcher's controller.
#[derive(Debug)]
pub struct CosmicLauncher {
    input_value: String,
    surface_state: SurfaceState,
    launcher_items: Vec<SearchResult>,
    backend_up: bool,
    menu: Option<(u32, Vec<ContextOption>)>,
    cursor_position: Option<(i32, i32)>,
    focused: usize,
    last_hide: u64,
    alt_tab: bool,
    queue: VecDeque<Message>,
}

impl View for CosmicLauncher {
    type V = LauncherView;

    closed spec fn view(&self) -> LauncherView {
        LauncherView {
            input_text: self.input_value@,
            surface_state: self.surface_state,
            results: self.launcher_items@,
            focus_index: self.focused as nat,
            backend_up: self.backend_up,
            context_menu: match self.menu {
                Some((id, options)) => Some((id, options@)),
                None => None,
            },
            cursor_position: self.cursor_position,
            pending_queue: self.queue@,
            switcher_mode: self.alt_tab,
            last_hidden_at: self.last_hide,
        }
    }
}

impl Clone for CosmicLauncher {
    /// A controller in a state of its own that starts out as a copy of this
    /// one's.
    fn clone(&self) -> (copy: Self)
        ensures
            copy@.wf(),
            copy@.surface_state == self@.surface_state,
            copy@.focus_index == self@.focus_index,
            copy@.switcher_mode == self@.switcher_mode,
            copy@.backend_up == self@.backend_up,
            copy@.cursor_position == self@.cursor_position,
            copy@.last_hidden_at == self@.last_hidden_at,
            copy@.input_text == self@.input_text,
            copy@.results.len() == self@.results.len(),
            copy@.pending_queue == self@.pending_queue,
    {
        proof {
            use_type_invariant(self);
        }
        let mut queue: VecDeque<Message> = VecDeque::new();
        let mut at: usize = 0;
        while at < self.queue.len()
            invariant
                at <= self.queue@.len(),
                forall|i: int| 0 <= i < self.queue@.len() ==> is_cycle(#[trigger] self.queue@[i]),
                queue@ == self.queue@.take(at as int),
            decreases self.queue@.len() - at,
        {
            let step = copy_of_cycle(&self.queue[at]);
            queue.push_back(step);
            assert(queue@ == self.queue@.take(at + 1));
            at += 1;
        }
        assert(queue@ == self.queue@);
        CosmicLauncher {
            input_value: self.input_value.clone(),
            surface_state: self.surface_state,
            launcher_items: self.launcher_items.clone(),
            backend_up: self.backend_up,
            menu: self.menu.clone(),
            cursor_position: self.cursor_position,
            focused: self.focused,
            last_hide: self.last_hide,
            alt_tab: self.alt_tab,
            queue,
        }
    }
}

impl CosmicLauncher {
    /// Every controller is in a state that `LauncherView::wf` admits.
    #[verifier::type_invariant]
    pub closed spec fn valid(self) -> bool {
        &&& self.launcher_items@.len() <= MAX_RESULTS
        &&& self.focused < MAX_RESULTS
        &&& self.surface_state == SurfaceState::Hidden ==> !self.alt_tab && self.queue@.len() == 0
        &&& forall|i: int| 0 <= i < self.queue@.len() ==> is_cycle(#[trigger] self.queue@[i])
    }

    /// A controller at its start, at time `now`: hidden, with nothing typed,
    /// nothing found and no backend yet.
    pub fn init(now: u64) -> (launcher: Self)
        ensures
            launcher@ == LauncherView::initial(now),
            launcher@.wf(),
    {
        CosmicLauncher {
            input_value: String::new(),
            surface_state: SurfaceState::Hidden,
            launcher_items: Vec::new(),
            backend_up: false,
            menu: None,
            cursor_position: None,
            focused: 0,
            last_hide: now,
            alt_tab: false,
            queue: VecDeque::new(),
        }
    }

    /// The query as typed so far.
    pub fn input_value(&self) -> (text: &str)
        ensures
            text@ == self@.input_text,
    {
        self.input_value.as_str()
    }

    /// Where the main surface stands.
    pub fn surface_state(&self) -> (state: SurfaceState)
        ensures
            state == self@.surface_state,
    {
        self.surface_state
    }

    /// The results on show, best first.
    pub fn launcher_items(&self) -> (items: &Vec<SearchResult>)
        ensures
            items@ == self@.results,
    {
        &self.launcher_items
    }

    /// The position of the selected result.
    pub fn focused(&self) -> (index: usize)
        ensures
            index == self@.focus_index,
    {
        self.focused
    }

    /// Whether the launcher is cycling through windows.
    pub fn alt_tab(&self) -> (cycling: bool)
        ensures
            cycling == self@.switcher_mode,
    {
        self.alt_tab
    }

    /// The open context menu, if any: the item it belongs to, and its options.
    pub fn menu(&self) -> (menu: Option<(u32, &Vec<ContextOption>)>)
        ensures
            match menu {
                Some((id, options)) => self@.context_menu == Some((id, options@)),
                None => self@.context_menu is None,
            },
    {
        match &self.menu {
            Some((id, options)) => Some((*id, options)),
            None => None,
        }
    }

    /// Where the pointer was last seen.
    pub fn cursor_position(&self) -> (position: Option<(i32, i32)>)
        ensures
            position == self@.cursor_position,
    {
        self.cursor_position
    }

    /// Whether the backend has reported that it takes requests.
    pub fn backend_up(&self) -> (up: bool)
        ensures
            up == self@.backend_up,
    {
        self.backend_up
    }

    /// The time of the last hide, in milliseconds.
    pub fn last_hide(&self) -> (time: u64)
        ensures
            time == self@.last_hidden_at,
    {
        self.last_hide
    }

    /// How many messages are put off until the next result list is in.
    pub fn pending(&self) -> (count: usize)
        ensures
            count == self@.pending_queue.len(),
    {
        self.queue.len()
    }

    /// Sends a request to the backend, or drops it while the backend is not up.
    fn request(&self, request: Request, commands: &mut Vec<Command>)
        ensures
            issues(old(commands)@, final(commands)@, self@.send(request@)),
    {
        if self.backend_up {
            issue(commands, Command::Request(request));
        } else {
            proof {
                nothing_issued(commands@);
            }
        }
    }

    /// Closes the context menu, if one is open.
    fn close_menu(&mut self, commands: &mut Vec<Command>)
        ensures
            final(self)@ == old(self)@.close_menu().0,
            issues(old(commands)@, final(commands)@, old(self)@.close_menu().1),
    {
        proof {
            use_type_invariant(&*self);
        }
        if self.menu.is_some() {
            self.menu = None;
            issue(commands, Command::DestroyPopup);
        } else {
            proof {
                nothing_issued(commands@);
            }
        }
    }

    /// Shows the main surface.
    fn show(&mut self, commands: &mut Vec<Command>)
        ensures
            final(self)@ == old(self)@.show().0,
            issues(old(commands)@, final(commands)@, old(self)@.show().1),
    {
        proof {
            use_type_invariant(&*self);
        }
        self.surface_state = SurfaceState::Visible;
        issue(commands, Command::CreateMainSurface);
    }

    /// Hides the launcher at time `now` and resets what the session built up.
    fn dismiss(&mut self, now: u64, commands: &mut Vec<Command>)
        ensures
            final(self)@ == old(self)@.dismiss(now).0,
            issues(old(commands)@, final(commands)@, old(self)@.dismiss(now).1),
    {
        proof {
            use_type_invariant(&*self);
        }
        let ghost before = commands@;
        self.request(Request::Close, commands);
        let ghost told = commands@;
        if self.surface_state == SurfaceState::Visible {
            issue(commands, Command::DestroyMainSurface);
        }
        let ghost destroyed = commands@;
        self.close_menu(commands);
        self.input_value = String::new();
        self.focused = 0;
        self.alt_tab = false;
        self.queue = VecDeque::new();
        self.last_hide = now;
        self.surface_state = SurfaceState::Hidden;
        proof {
            let start = old(self)@;
            let surface = if start.surface_state == SurfaceState::Visible {
                seq![CommandView::DestroyMainSurface]
            } else {
                Seq::empty()
            };
            assert(command_views(destroyed) =~= command_views(told) + surface);
            assert(command_views(commands@) =~= command_views(before) + (start.send(
                RequestView::Close,
            ) + surface + start.close_menu().1));
            assert(self@ =~= start.dismiss(now).0);
        }
    }

    /// Moves the selection one result down, wrapping at the end.
    fn focus_next(&mut self)
        ensures
            final(self)@ == old(self)@.focus_next(),
    {
        proof {
            use_type_invariant(&*self);
        }
        let count = self.launcher_items.len();
        if count > 0 {
            self.focused = (self.focused + 1) % count;
        }
    }

    /// Moves the selection one result up, wrapping at the start.
    fn focus_previous(&mut self)
        ensures
            final(self)@ == old(self)@.focus_previous(),
    {
        proof {
            use_type_invariant(&*self);
        }
        let count = self.launcher_items.len();
        if count > 0 {
            self.focused = (self.focused + count - 1) % count;
        }
    }

    /// Replaces the query by `text` and searches for it.
    fn search(&mut self, text: String, commands: &mut Vec<Command>)
        ensures
            final(self)@ == old(self)@.search(text@).0,
            issues(old(commands)@, final(commands)@, old(self)@.search(text@).1),
    {
        proof {
            use_type_invariant(&*self);
        }
        let copy = text.clone();
        self.input_value = text;
        self.request(Request::Search(copy), commands);
    }

    /// Activates the result at `index`, or the selected one; hides the
    /// launcher where there is no such result.
    fn activate(&mut self, index: Option<usize>, now: u64, commands: &mut Vec<Command>)
        ensures
            final(self)@ == old(self)@.activate(index, now).0,
            issues(old(commands)@, final(commands)@, old(self)@.activate(index, now).1),
    {
        let at = match index {
            Some(i) => i,
            None => self.focused,
        };
        if at < self.launcher_items.len() {
            let id = self.launcher_items[at].id;
            self.request(Request::Activate(id), commands);
        } else {
            self.dismiss(now, commands);
        }
    }

    /// Takes in a result list: in switcher mode an empty list hides the
    /// launcher; any other list replaces the results.
    fn take_results(&mut self, list: Vec<SearchResult>, now: u64, commands: &mut Vec<Command>)
        ensures
            final(self)@ == old(self)@.take_results(list@, now).0,
            issues(old(commands)@, final(commands)@, old(self)@.take_results(list@, now).1),
    {
        proof {
            use_type_invariant(&*self);
        }
        if self.alt_tab && list.len() == 0 {
            self.dismiss(now, commands);
        } else {
            self.launcher_items = rank(list);
            proof {
                nothing_issued(commands@);
            }
        }
    }

    /// Whether `message` is a result list that will be taken in.
    fn accepts_update(&self, message: &Message) -> (accepted: bool)
        ensures
            accepted == self@.accepts_update(*message),
    {
        match message {
            Message::LauncherEvent(LauncherEvent::Response(Response::Update(list))) => !(
            self.alt_tab && list.len() == 0),
            _ => false,
        }
    }

    /// Applies one message on its own, at time `now`.
    fn handle(&mut self, message: Message, now: u64, commands: &mut Vec<Command>)
        ensures
            final(self)@ == old(self)@.handle(message, now).0,
            issues(old(commands)@, final(commands)@, old(self)@.handle(message, now).1),
    {
        proof {
            use_type_invariant(&*self);
            nothing_issued(commands@);
        }
        match message {
            Message::InputChanged(value) => self.search(value, commands),
            Message::Backspace => {
                let text = without_last(self.input_value.as_str());
                self.search(text, commands);
            },
            Message::TabPress => {
                if !self.alt_tab {
                    self.focused = 0;
                    issue(commands, Command::FindFocused);
                }
            },
            Message::CompleteFocusedId(row) => {
                let at = match row {
                    Some(i) => i,
                    None => 0,
                };
                if at < self.launcher_items.len() {
                    let id = self.launcher_items[at].id;
                    self.request(Request::Complete(id), commands);
                }
            },
            Message::Activate(index) => self.activate(index, now, commands),
            Message::Context(index) => {
                if self.menu.is_some() {
                    self.close_menu(commands);
                } else if index < self.launcher_items.len() {
                    let id = self.launcher_items[index].id;
                    self.request(Request::Context(id), commands);
                }
            },
            Message::MenuButton(id, option) => {
                self.request(Request::ActivateContext(id, option), commands);
                let ghost sent = commands@;
                self.close_menu(commands);
                proof {
                    issued_in_turn(
                        old(commands)@,
                        sent,
                        commands@,
                        old(self)@.send(RequestView::ActivateContext(id, option)),
                        old(self)@.close_menu().1,
                    );
                }
            },
            Message::CloseContextMenu => self.close_menu(commands),
            Message::CursorMoved(x, y) => {
                self.cursor_position = Some((x, y));
            },
            Message::Hide => {
                if self.menu.is_some() {
                    self.close_menu(commands);
                } else {
                    self.dismiss(now, commands);
                }
            },
            Message::LauncherEvent(LauncherEvent::Started) => {
                self.backend_up = true;
            },
            Message::LauncherEvent(LauncherEvent::ServiceIsClosed) => {
                self.request(Request::ServiceIsClosed, commands);
            },
            Message::LauncherEvent(LauncherEvent::Response(response)) => match response {
                Response::Close => self.dismiss(now, commands),
                Response::Context { id, options } => {
                    if options.len() != 0 {
                        self.menu = Some((id, options));
                        match self.cursor_position {
                            Some((x, y)) => issue(commands, Command::CreatePopup { x, y }),
                            None => {},
                        }
                    }
                },
                Response::DesktopEntry { path, gpu_preference, action_name } => {
                    issue(commands, Command::LoadDesktopEntry { path, gpu_preference, action_name });
                },
                Response::Update(list) => self.take_results(list, now, commands),
                Response::Fill(text) => self.search(text, commands),
            },
            Message::Layer(event) => match event {
                LayerEvent::Unfocused => self.dismiss(now, commands),
                LayerEvent::Focused | LayerEvent::Done => {},
            },
            Message::KeyboardNav(step) => match step {
                KeyboardNav::FocusNext => self.focus_next(),
                KeyboardNav::FocusPrevious => self.focus_previous(),
                KeyboardNav::Unfocus => {
                    self.search(String::new(), commands);
                    let ghost sent = commands@;
                    issue(commands, Command::Unfocus);
                    proof {
                        issued_in_turn(
                            old(commands)@,
                            sent,
                            commands@,
                            old(self)@.search(Seq::empty()).1,
                            seq![CommandView::Unfocus],
                        );
                    }
                },
                KeyboardNav::Other => {},
            },
            Message::ActivationToken(token, command_line, gpu_preference) => {
                issue(commands, Command::Launch { token, command_line, gpu_preference });
            },
            Message::AltTab => self.focus_next(),
            Message::ShiftAltTab => self.focus_previous(),
            Message::AltRelease => {
                if self.alt_tab {
                    self.activate(None, now, commands);
                }
            },
            Message::DesktopEntryLoaded { entry, gpu_preference, action_name } => {
                match entry {
                    Some(entry) => match resolve_command_line(entry, action_name) {
                        Some(command_line) => issue(
                            commands,
                            Command::RequestActivationToken { command_line, gpu_preference },
                        ),
                        None => {},
                    },
                    None => {},
                }
            },
        }
    }

    /// Takes the oldest pending message off the queue.
    fn next_pending(&mut self) -> (message: Message)
        requires
            old(self)@.pending_queue.len() > 0,
        ensures
            message == old(self)@.pending_queue[0],
            final(self)@ == old(self)@.without_oldest(),
    {
        proof {
            use_type_invariant(&*self);
        }
        let mut pending = VecDeque::new();
        std::mem::swap(&mut self.queue, &mut pending);
        let oldest = pending.pop_front();
        assert(pending@ == old(self)@.pending_queue.drop_first());
        self.queue = pending;
        oldest.unwrap()
    }

    /// Puts a message at the end of the queue.
    fn put_off(&mut self, message: Message)
        requires
            old(self)@.surface_state != SurfaceState::Hidden,
            is_cycle(message),
        ensures
            final(self)@ == (LauncherView {
                pending_queue: old(self)@.pending_queue.push(message),
                ..old(self)@
            }),
    {
        proof {
            use_type_invariant(&*self);
        }
        let mut pending = VecDeque::new();
        std::mem::swap(&mut self.queue, &mut pending);
        pending.push_back(message);
        self.queue = pending;
    }

    /// Applies one message of the input stream, at time `now`, and returns
    /// the commands to carry out, in order.
    ///
    /// A result list that is taken in is followed by the pending messages,
    /// oldest first, and only then, if the launcher was waiting for it, by the
    /// showing of the main surface.
    pub fn update(&mut self, message: Message, now: u64) -> (commands: Vec<Command>)
        ensures
            final(self)@ == old(self)@.update(message, now).0,
            command_views(commands@) == old(self)@.update(message, now).1,
            old(self)@.wf() && final(self)@.wf(),
    {
        proof {
            use_type_invariant(&*self);
        }
        let mut commands: Vec<Command> = Vec::new();
        assert(command_views(commands@) =~= Seq::empty());
        let follow_up = self.accepts_update(&message);
        self.handle(message, now, &mut commands);
        if follow_up {
            let ghost taken = self@;
            assert(command_views(commands@) =~= Seq::empty());
            assert(command_views(commands@) + taken.drain(now).1 =~= taken.drain(now).1);
            while self.queue.len() > 0
                invariant
                    self@.drain(now).0 == taken.drain(now).0,
                    command_views(commands@) + self@.drain(now).1 == taken.drain(now).1,
                decreases self@.pending_queue.len(),
            {
                let ghost full = self@;
                let ghost issued = commands@;
                let next = self.next_pending();
                let ghost popped = self@;
                self.handle(next, now, &mut commands);
                proof {
                    popped.handle_keeps_queue(next, now);
                    let first = popped.handle(next, now).1;
                    assert(full.drain(now).1 == first + self@.drain(now).1);
                    assert(command_views(commands@) + self@.drain(now).1 =~= command_views(issued)
                        + (first + self@.drain(now).1));
                }
            }
            assert(command_views(commands@) + Seq::empty() =~= command_views(commands@));
            if self.surface_state == SurfaceState::WaitingToBeShown {
                self.show(&mut commands);
            }
        }
        proof {
            use_type_invariant(&*self);
        }
        commands
    }

    /// Answers a request of the session, at time `now`, and returns the
    /// commands to carry out, in order.
    pub fn dbus_activation(&mut self, request: Activation, now: u64) -> (commands: Vec<Command>)
        ensures
            final(self)@ == old(self)@.activation(request, now).0,
            command_views(commands@) == old(self)@.activation(request, now).1,
            old(self)@.wf() && final(self)@.wf(),
    {
        proof {
            use_type_invariant(&*self);
        }
        let mut commands: Vec<Command> = Vec::new();
        assert(command_views(commands@) =~= Seq::empty());
        match request {
            Activation::Activate => {
                if self.surface_state != SurfaceState::Hidden {
                    self.dismiss(now, &mut commands);
                } else if now >= self.last_hide && now - self.last_hide >= DEBOUNCE_MS {
                    self.request(Request::Search(String::new()), &mut commands);
                    self.surface_state = SurfaceState::WaitingToBeShown;
                }
                assert(command_views(commands@) =~= old(self)@.activation(request, now).1);
                commands
            },
            Activation::Open => commands,
            Activation::ActivateAction(None) => commands,
            Activation::ActivateAction(Some(command)) => {
                if self.surface_state == SurfaceState::Hidden {
                    self.surface_state = SurfaceState::WaitingToBeShown;
                }
                let cycle = match command {
                    LauncherCommands::AltTab => Message::AltTab,
                    LauncherCommands::ShiftAltTab => Message::ShiftAltTab,
                };
                if self.alt_tab {
                    self.update(cycle, now)
                } else {
                    self.alt_tab = true;
                    self.request(Request::Search(String::new()), &mut commands);
                    self.put_off(cycle);
                    assert(command_views(commands@) =~= old(self)@.activation(request, now).1);
                    commands
                }
            },
        }
    }
}

} // verus!
