use cosmic_launcher::backend::{ContextOption, LauncherEvent, Request, Response, SearchResult};
use cosmic_launcher::cli::{Activation, LauncherCommands};
use cosmic_launcher::launcher::CosmicLauncher;
use cosmic_launcher::message::{Command, Message};
use cosmic_launcher::surface::SurfaceState;

fn launch_item(id: u32, name: &str) -> SearchResult {
    SearchResult {
        id,
        name: name.to_string(),
        description: format!("{name} description"),
        icon: None,
        category_icon: None,
        window: None,
    }
}

fn window_item(id: u32, name: &str) -> SearchResult {
    SearchResult { window: Some((0, id)), ..launch_item(id, name) }
}

fn update(list: Vec<SearchResult>) -> Message {
    Message::LauncherEvent(LauncherEvent::Response(Response::Update(list)))
}

fn started(now: u64) -> CosmicLauncher {
    let mut launcher = CosmicLauncher::init(now);
    assert!(launcher.update(Message::LauncherEvent(LauncherEvent::Started), now).is_empty());
    launcher
}

fn search(text: &str) -> Command {
    Command::Request(Request::Search(text.to_string()))
}

#[test]
fn basic_search_and_activate() {
    let mut launcher = started(0);
    assert_eq!(launcher.surface_state(), SurfaceState::Hidden);

    let commands = launcher.dbus_activation(Activation::Activate, 101);
    assert_eq!(commands, vec![search("")]);
    assert_eq!(launcher.surface_state(), SurfaceState::WaitingToBeShown);

    let r1 = launch_item(1, "R1");
    let r2 = launch_item(2, "R2");
    let commands = launcher.update(update(vec![r1.clone(), r2.clone()]), 150);
    assert_eq!(commands, vec![Command::CreateMainSurface]);
    assert_eq!(launcher.surface_state(), SurfaceState::Visible);
    assert_eq!(launcher.launcher_items(), &vec![r1, r2.clone()]);
    assert_eq!(launcher.focused(), 0);

    let commands = launcher.update(Message::InputChanged("a".to_string()), 200);
    assert_eq!(commands, vec![search("a")]);
    assert_eq!(launcher.input_value(), "a");

    let commands = launcher.update(update(vec![r2.clone()]), 250);
    assert!(commands.is_empty());
    assert_eq!(launcher.launcher_items(), &vec![r2]);
    assert_eq!(launcher.focused(), 0);

    let commands = launcher.update(Message::Activate(None), 300);
    assert_eq!(commands, vec![Command::Request(Request::Activate(2))]);
    assert_eq!(launcher.surface_state(), SurfaceState::Visible);
}

#[test]
fn empty_context_menu() {
    let mut launcher = started(0);
    launcher.dbus_activation(Activation::Activate, 500);
    launcher.update(update(vec![launch_item(7, "R1")]), 510);
    assert_eq!(launcher.surface_state(), SurfaceState::Visible);
    launcher.update(Message::CursorMoved(10, 20), 515);

    let commands = launcher.update(Message::Context(0), 520);
    assert_eq!(commands, vec![Command::Request(Request::Context(7))]);

    let reply = Message::LauncherEvent(LauncherEvent::Response(Response::Context {
        id: 7,
        options: Vec::new(),
    }));
    let commands = launcher.update(reply, 530);
    assert!(commands.is_empty());
    assert!(launcher.menu().is_none());
}

#[test]
fn switcher_cycling() {
    let mut launcher = started(0);

    let commands = launcher.dbus_activation(
        Activation::ActivateAction(Some(LauncherCommands::AltTab)),
        5,
    );
    assert_eq!(commands, vec![search("")]);
    assert!(launcher.alt_tab());
    assert_eq!(launcher.pending(), 1);
    assert_eq!(launcher.surface_state(), SurfaceState::WaitingToBeShown);

    let w1 = window_item(11, "W1");
    let w2 = window_item(12, "W2");
    let commands = launcher.update(update(vec![w1, w2]), 10);
    assert_eq!(commands, vec![Command::CreateMainSurface]);
    assert_eq!(launcher.surface_state(), SurfaceState::Visible);
    assert_eq!(launcher.focused(), 1);
    assert_eq!(launcher.pending(), 0);

    let commands = launcher.update(Message::AltRelease, 20);
    assert_eq!(commands, vec![Command::Request(Request::Activate(12))]);
}

#[test]
fn context_menu_opens_at_the_pointer() {
    let mut launcher = started(0);
    launcher.dbus_activation(Activation::Activate, 500);
    launcher.update(update(vec![launch_item(7, "R1")]), 510);
    launcher.update(Message::CursorMoved(10, 20), 515);
    let options = vec![ContextOption { id: 3, name: "Quit".to_string() }];
    let reply = Message::LauncherEvent(LauncherEvent::Response(Response::Context {
        id: 7,
        options: options.clone(),
    }));
    let commands = launcher.update(reply, 530);
    assert_eq!(commands, vec![Command::CreatePopup { x: 10, y: 20 }]);
    assert_eq!(launcher.menu(), Some((7, &options)));

    let commands = launcher.update(Message::MenuButton(7, 3), 540);
    assert_eq!(
        commands,
        vec![Command::Request(Request::ActivateContext(7, 3)), Command::DestroyPopup]
    );
    assert!(launcher.menu().is_none());
}
