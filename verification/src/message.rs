//! What the controller is told, and what it asks its surroundings to do.

use vstd::prelude::*;

use crate::backend::{GpuPreference, LauncherEvent, Request, RequestView};

verus! {

/// What the windowing system reports of the main surface.
#[derive(Clone, Copy, Debug, PartialEq, Eq, Structural)]
pub enum LayerEvent {
    /// The surface has the keyboard.
    Focused,
    /// The surface lost the keyboard.
    Unfocused,
    /// The surface is gone.
    Done,
}

/// A keyboard navigation step.
#[derive(Clone, Copy, Debug, PartialEq, Eq, Structural)]
pub enum KeyboardNav {
    /// Select the next result.
    FocusNext,
    /// Select the previous result.
    FocusPrevious,
    /// Drop the query and take the focus off the input.
    Unfocus,
    /// Any other step; the launcher has no use for it.
    Other,
}

/// An additional action that a desktop entry offers.
#[derive(Clone, Debug, PartialEq, Eq)]
pub struct DesktopAction {
    /// The action's name within its entry.
    pub name: String,
    /// The command line that runs it.
    pub command_line: String,
}

/// What the launcher reads of a desktop entry.
#[derive(Clone, Debug, PartialEq, Eq)]
pub struct DesktopEntry {
    /// The entry's default command line.
    pub command_line: Option<String>,
    /// The entry's additional actions, in file order.
    pub desktop_actions: Vec<DesktopAction>,
}

/// One event in the controller's single stream of input.
#[derive(Clone, Debug, PartialEq, Eq)]
pub enum Message {
    /// The query was edited to this text.
    InputChanged(String),
    /// Backspace was pressed and no text field took it.
    Backspace,
    /// Tab was pressed.
    TabPress,
    /// The row that holds the input focus, as asked for after a Tab; `None`
    /// where the focus is on no result row.
    CompleteFocusedId(Option<usize>),
    /// Activate the result at this position, or the selected one.
    Activate(Option<usize>),
    /// Open or close the context menu of the result at this position.
    Context(usize),
    /// A context option (second) of an item (first) was chosen.
    MenuButton(u32, u32),
    /// Close the context menu.
    CloseContextMenu,
    /// The pointer moved to this point, in whole pixels.
    CursorMoved(i32, i32),
    /// Hide the launcher, or the context menu if one is open.
    Hide,
    /// The backend channel has news.
    LauncherEvent(LauncherEvent),
    /// The main surface has news.
    Layer(LayerEvent),
    /// A keyboard navigation step.
    KeyboardNav(KeyboardNav),
    /// The activation token asked for arrived (or none did), for this command
    /// line and adapter.
    ActivationToken(Option<String>, String, GpuPreference),
    /// Cycle forwards through the results.
    AltTab,
    /// Cycle backwards through the results.
    ShiftAltTab,
    /// The key that drives the cycling was released.
    AltRelease,
    /// The desktop entry asked for was read (or could not be).
    DesktopEntryLoaded {
        entry: Option<DesktopEntry>,
        gpu_preference: GpuPreference,
        action_name: Option<String>,
    },
}

/// What the controller asks of its surroundings, in the order issued.
#[derive(Clone, Debug, PartialEq, Eq)]
pub enum Command {
    /// Send this request to the backend.
    Request(Request),
    /// Create the main surface.
    CreateMainSurface,
    /// Destroy the main surface.
    DestroyMainSurface,
    /// Create the context popup, anchored at a 1x1 rectangle at this point.
    CreatePopup { x: i32, y: i32 },
    /// Destroy the context popup.
    DestroyPopup,
    /// Find the row that holds the input focus and report it back.
    FindFocused,
    /// Take the input focus off every widget.
    Unfocus,
    /// Read the desktop entry at `path` and report it back.
    LoadDesktopEntry { path: String, gpu_preference: GpuPreference, action_name: Option<String> },
    /// Ask for an activation token, then report it back with `command_line`.
    RequestActivationToken { command_line: String, gpu_preference: GpuPreference },
    /// Start `command_line`, then report that the launcher may hide.
    Launch { token: Option<String>, command_line: String, gpu_preference: GpuPreference },
}

/// A command, by what it says.
pub enum CommandView {
    Request(RequestView),
    CreateMainSurface,
    DestroyMainSurface,
    CreatePopup { x: i32, y: i32 },
    DestroyPopup,
    FindFocused,
    Unfocus,
    LoadDesktopEntry { path: Seq<char>, gpu_preference: GpuPreference, action_name: Option<Seq<char>> },
    RequestActivationToken { command_line: Seq<char>, gpu_preference: GpuPreference },
    Launch { token: Option<Seq<char>>, command_line: Seq<char>, gpu_preference: GpuPreference },
}

/// The text of an optional string.
pub open spec fn text_of(s: Option<String>) -> Option<Seq<char>> {
    match s {
        Some(s) => Some(s@),
        None => None,
    }
}

impl View for Command {
    type V = CommandView;

    open spec fn view(&self) -> CommandView {
        match *self {
            Command::Request(request) => CommandView::Request(request@),
            Command::CreateMainSurface => CommandView::CreateMainSurface,
            Command::DestroyMainSurface => CommandView::DestroyMainSurface,
            Command::CreatePopup { x, y } => CommandView::CreatePopup { x, y },
            Command::DestroyPopup => CommandView::DestroyPopup,
            Command::FindFocused => CommandView::FindFocused,
            Command::Unfocus => CommandView::Unfocus,
            Command::LoadDesktopEntry { path, gpu_preference, action_name } => {
                CommandView::LoadDesktopEntry {
                    path: path@,
                    gpu_preference,
                    action_name: text_of(action_name),
                }
            },
            Command::RequestActivationToken { command_line, gpu_preference } => {
                CommandView::RequestActivationToken { command_line: command_line@, gpu_preference }
            },
            Command::Launch { token, command_line, gpu_preference } => {
                CommandView::Launch {
                    token: text_of(token),
                    command_line: command_line@,
                    gpu_preference,
                }
            },
        }
    }
}

/// A list of commands, each by what it says.
pub open spec fn command_views(commands: Seq<Command>) -> Seq<CommandView> {
    commands.map_values(|c: Command| c@)
}

} // verus!
