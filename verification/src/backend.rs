//! The contract of the channel to the search backend: what the controller
//! sends, and what it is sent.

use vstd::prelude::*;

verus! {

/// Which graphics adapter an application asks to be started on.
#[derive(Clone, Copy, Debug, PartialEq, Eq, Structural)]
pub enum GpuPreference {
    /// The adapter the system marks as its default.
    Default,
    /// The first adapter that is not the default.
    NonDefault,
    /// The adapter at this position in the system's list.
    SpecificIdx(u32),
}

/// Where an icon is to be looked up.
#[derive(Clone, Debug, PartialEq, Eq)]
pub enum IconSource {
    /// By name or path.
    Name(String),
    /// By mime type.
    Mime(String),
}

/// One ranked answer of the backend to a search.
#[derive(Clone, Debug, PartialEq, Eq)]
pub struct SearchResult {
    /// The backend's identifier of the item.
    pub id: u32,
    /// Name or title.
    pub name: String,
    /// Description or subtitle.
    pub description: String,
    /// Icon of the item.
    pub icon: Option<IconSource>,
    /// Icon of the plugin that found the item.
    pub category_icon: Option<IconSource>,
    /// Set where the item is an open window rather than something to launch.
    pub window: Option<(u32, u32)>,
}

impl SearchResult {
    /// Whether the item stands for an open window.
    pub open spec fn is_window(self) -> bool {
        self.window is Some
    }
}

/// One entry of an item's context menu.
#[derive(Clone, Debug, PartialEq, Eq)]
pub struct ContextOption {
    /// Identifier, unique within the menu.
    pub id: u32,
    /// Label.
    pub name: String,
}

/// What the controller asks of the backend.
#[derive(Clone, Debug, PartialEq, Eq)]
pub enum Request {
    /// Search for this text.
    Search(String),
    /// Activate the item with this identifier.
    Activate(u32),
    /// Complete the query from the item with this identifier.
    Complete(u32),
    /// Send the context options of the item with this identifier.
    Context(u32),
    /// Run a context option (second) of an item (first).
    ActivateContext(u32, u32),
    /// The launcher was closed: release what the query held.
    Close,
    /// The backend's end of the channel is gone.
    ServiceIsClosed,
}

/// A request, by what it says.
pub enum RequestView {
    Search(Seq<char>),
    Activate(u32),
    Complete(u32),
    Context(u32),
    ActivateContext(u32, u32),
    Close,
    ServiceIsClosed,
}

impl View for Request {
    type V = RequestView;

    open spec fn view(&self) -> RequestView {
        match *self {
            Request::Search(text) => RequestView::Search(text@),
            Request::Activate(id) => RequestView::Activate(id),
            Request::Complete(id) => RequestView::Complete(id),
            Request::Context(id) => RequestView::Context(id),
            Request::ActivateContext(id, option) => RequestView::ActivateContext(id, option),
            Request::Close => RequestView::Close,
            Request::ServiceIsClosed => RequestView::ServiceIsClosed,
        }
    }
}

/// What the backend answers.
#[derive(Clone, Debug, PartialEq, Eq)]
pub enum Response {
    /// An action was performed; the launcher may close.
    Close,
    /// The context options of the item `id`.
    Context { id: u32, options: Vec<ContextOption> },
    /// A desktop entry is to be launched by the launcher itself.
    DesktopEntry { path: String, gpu_preference: GpuPreference, action_name: Option<String> },
    /// A new result list, replacing the one shown.
    Update(Vec<SearchResult>),
    /// Text to put in place of the query.
    Fill(String),
}

/// What arrives from the backend channel.
#[derive(Clone, Debug, PartialEq, Eq)]
pub enum LauncherEvent {
    /// The backend is up and takes requests from now on.
    Started,
    /// The backend closed its end.
    ServiceIsClosed,
    /// An answer of the backend.
    Response(Response),
}

} // verus!
