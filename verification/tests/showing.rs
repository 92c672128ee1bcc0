use cosmic_launcher::backend::{
    ContextOption, IconSource, LauncherEvent, Response, SearchResult,
};
use cosmic_launcher::cli::{Activation, LauncherCommands};
use cosmic_launcher::launcher::CosmicLauncher;
use cosmic_launcher::message::{KeyboardNav, Message};
use cosmic_launcher::results::{rank, MAX_RESULTS};
use cosmic_launcher::rows::{
    ellipsize, lines, menu_entries, result_row, result_rows, shorten, shorten_lines, MenuEntry,
    SUBTITLE_COLUMNS, TITLE_COLUMNS,
};

fn item(id: u32, name: &str, description: &str) -> SearchResult {
    SearchResult {
        id,
        name: name.to_string(),
        description: description.to_string(),
        icon: Some(IconSource::Name(format!("icon-{id}"))),
        category_icon: Some(IconSource::Mime(format!("category-{id}"))),
        window: None,
    }
}

fn owned(list: &[&str]) -> Vec<String> {
    list.iter().map(|s| s.to_string()).collect()
}

#[test]
fn ranking_keeps_each_group_in_order() {
    let mut list = Vec::new();
    for id in 0..6 {
        let mut r = item(id, "n", "d");
        if id % 2 == 1 {
            r.window = Some((0, id));
        }
        list.push(r);
    }
    let kept: Vec<u32> = rank(list).iter().map(|r| r.id).collect();
    assert_eq!(kept, vec![1, 3, 5, 0, 2, 4]);
}

#[test]
fn ranking_cuts_to_size() {
    assert_eq!(MAX_RESULTS, 10);
    assert!(rank(Vec::new()).is_empty());
    let ten: Vec<SearchResult> = (0..10).map(|id| item(id, "n", "d")).collect();
    assert_eq!(rank(ten.clone()), ten);
    let eleven: Vec<SearchResult> = (0..11).map(|id| item(id, "n", "d")).collect();
    assert_eq!(rank(eleven), ten);

    let mut many = Vec::new();
    for id in 0..30 {
        let mut r = item(id, "n", "d");
        if id >= 15 {
            r.window = Some((0, id));
        }
        many.push(r);
    }
    let kept: Vec<u32> = rank(many).iter().map(|r| r.id).collect();
    assert_eq!(kept, (15..25).collect::<Vec<u32>>());
}

#[test]
fn a_text_is_cut_into_lines_as_the_standard_library_cuts_it() {
    let samples = [
        "",
        "one",
        "one\n",
        "one\ntwo",
        "one\r\ntwo\r\n",
        "\n",
        "\n\n",
        "\r\n",
        "\r",
        "a\r",
        "a\r\r\n",
        "a\n\rb",
        "a\n\n\nb\n",
        "\u{4f60}\u{597d}\n\u{5417}",
        "tab\tand space \n\r\n end",
    ];
    for sample in samples {
        let expected: Vec<String> = sample.lines().map(|line| line.to_string()).collect();
        assert_eq!(lines(sample), expected, "{sample:?}");
    }
}

#[test]
fn lines_by_example() {
    assert_eq!(lines(""), Vec::<String>::new());
    assert_eq!(lines("a\nb"), owned(&["a", "b"]));
    assert_eq!(lines("a\r\nb\n"), owned(&["a", "b"]));
    assert_eq!(lines("a\r"), owned(&["a\r"]));
    assert_eq!(lines("\n"), owned(&[""]));
}

#[test]
fn an_ellipsis_follows_what_does_not_fit() {
    assert_eq!(ellipsize("abcdef", 6, "abc", 5), "abc...");
    assert_eq!(ellipsize("abcdef", 6, "abc", 6), "abcdef");
    assert_eq!(ellipsize("abcdef", 0, "abc", 0), "abcdef");
    assert_eq!(ellipsize("", 1, "", 0), "...");
}

#[test]
fn a_line_that_fits_is_shown_whole() {
    let fits = "a".repeat(45);
    assert_eq!(shorten(&fits, TITLE_COLUMNS), fits);
    assert_eq!(shorten("", TITLE_COLUMNS), "");
    assert_eq!(shorten("short", 5), "short");
}

#[test]
fn a_line_that_is_too_wide_is_cut_by_columns() {
    let wide = "a".repeat(46);
    assert_eq!(shorten(&wide, TITLE_COLUMNS), format!("{}...", "a".repeat(45)));
    assert_eq!(shorten("abcdef", 3), "abc...");
    // each of these characters takes up two columns
    assert_eq!(shorten("\u{4f60}\u{597d}\u{5417}", 5), "\u{4f60}\u{597d}...");
    assert_eq!(shorten("\u{4f60}\u{597d}\u{5417}", 6), "\u{4f60}\u{597d}\u{5417}");
    let cjk = "\u{4f60}".repeat(31);
    assert_eq!(shorten(&cjk, SUBTITLE_COLUMNS), format!("{}...", "\u{4f60}".repeat(30)));
}

#[test]
fn every_line_is_shortened_on_its_own() {
    let text = format!("{}\nshort\r\n{}", "x".repeat(50), "y".repeat(45));
    assert_eq!(
        shorten_lines(&text, TITLE_COLUMNS),
        vec![format!("{}...", "x".repeat(45)), "short".to_string(), "y".repeat(45)]
    );
    assert!(shorten_lines("", TITLE_COLUMNS).is_empty());
}

#[test]
fn a_row_shows_the_name_first() {
    let row = result_row(&item(3, "Files", "Browse\nyour files"), 0, 2, 1, false);
    assert_eq!(row.title, owned(&["Files"]));
    assert_eq!(row.subtitle, owned(&["Browse", "your files"]));
    assert_eq!(row.icon, Some("icon-3".to_string()));
    assert_eq!(row.category_icon, Some("category-3".to_string()));
    assert_eq!(row.shortcut, 1);
    assert!(!row.focused);
    assert!(row.divider_below);
    assert_eq!(row.on_press, Message::Activate(Some(0)));
    assert_eq!(row.on_right_release, Message::Context(0));
}

#[test]
fn a_window_row_shows_the_description_first() {
    let mut window = item(3, "firefox", "Mozilla Firefox - Start page");
    window.window = Some((0, 3));
    window.icon = None;
    let row = result_row(&window, 9, 10, 9, true);
    assert_eq!(row.title, owned(&["Mozilla Firefox - Start page"]));
    assert_eq!(row.subtitle, owned(&["firefox"]));
    assert_eq!(row.icon, None);
    assert_eq!(row.category_icon, None);
    assert_eq!(row.shortcut, 0);
    assert!(row.focused);
    assert!(!row.divider_below);
    assert_eq!(row.on_press, Message::Activate(Some(9)));
    assert_eq!(row.on_right_release, Message::Context(9));
}

#[test]
fn the_rows_of_a_launcher() {
    let mut launcher = CosmicLauncher::init(0);
    assert!(result_rows(&launcher).is_empty());
    launcher.dbus_activation(Activation::Activate, 200);
    let list = vec![item(1, "One", "first"), item(2, "Two", "second"), item(3, "Three", "third")];
    launcher.update(Message::LauncherEvent(LauncherEvent::Response(Response::Update(list))), 201);
    launcher.update(Message::KeyboardNav(KeyboardNav::FocusNext), 202);
    let rows = result_rows(&launcher);
    assert_eq!(rows.len(), 3);
    assert_eq!(rows[1].title, owned(&["Two"]));
    assert_eq!(rows.iter().map(|row| row.shortcut).collect::<Vec<_>>(), vec![1, 2, 3]);
    assert_eq!(rows.iter().map(|row| row.focused).collect::<Vec<_>>(), vec![false, true, false]);
    assert_eq!(
        rows.iter().map(|row| row.divider_below).collect::<Vec<_>>(),
        vec![true, true, false]
    );
    assert!(rows.iter().all(|row| row.category_icon.is_some()));
}

#[test]
fn the_rows_in_switcher_mode_have_no_category_icon() {
    let mut launcher = CosmicLauncher::init(0);
    launcher.dbus_activation(Activation::ActivateAction(Some(LauncherCommands::AltTab)), 1);
    let mut w = item(1, "term", "Terminal");
    w.window = Some((0, 1));
    launcher.update(Message::LauncherEvent(LauncherEvent::Response(Response::Update(vec![w]))), 2);
    let rows = result_rows(&launcher);
    assert_eq!(rows.len(), 1);
    assert_eq!(rows[0].category_icon, None);
    assert_eq!(rows[0].icon, Some("icon-1".to_string()));
    assert_eq!(rows[0].title, owned(&["Terminal"]));
}

#[test]
fn the_entries_of_the_context_menu() {
    let mut launcher = CosmicLauncher::init(0);
    assert!(menu_entries(&launcher).is_empty());
    let options = vec![
        ContextOption { id: 4, name: "New window".to_string() },
        ContextOption { id: 7, name: "Quit".to_string() },
    ];
    launcher.update(
        Message::LauncherEvent(LauncherEvent::Response(Response::Context { id: 12, options })),
        1,
    );
    assert_eq!(
        menu_entries(&launcher),
        vec![
            MenuEntry { label: "New window".to_string(), on_press: Message::MenuButton(12, 4) },
            MenuEntry { label: "Quit".to_string(), on_press: Message::MenuButton(12, 7) },
        ]
    );
}

#[test]
fn what_is_shown_before_the_dots_is_a_start_of_the_line() {
    let samples = [
        "\u{644}\u{627}".repeat(60),
        "e\u{301}".repeat(50),
        format!("{}\u{4f60}tail", "a".repeat(44)),
        "\u{1f468}\u{200d}\u{1f469}\u{200d}\u{1f467}".repeat(20),
        "tab\there ".repeat(10),
    ];
    for sample in samples {
        let shown = shorten(&sample, TITLE_COLUMNS);
        let start = shown.strip_suffix("...").expect("the line is too wide to be shown whole");
        assert!(sample.starts_with(start), "{sample:?}");
        assert!(start.len() < sample.len());
    }
    assert_eq!(
        shorten(&format!("{}\u{4f60}tail", "a".repeat(44)), TITLE_COLUMNS),
        format!("{}...", "a".repeat(44))
    );
    assert_eq!(
        shorten(&"\u{644}\u{627}".repeat(60), TITLE_COLUMNS).chars().count(),
        TITLE_COLUMNS + 3
    );
}

#[test]
fn the_cut_keeps_the_longest_start_that_fits() {
    // one column each, then a character of two columns that no longer fits
    assert_eq!(shorten("abcd\u{4f60}ef", 5), "abcd...");
    // a mark of no width stays with the letter it follows
    assert_eq!(shorten("abcde\u{301}fgh", 5), "abcde\u{301}...");
    assert_eq!(shorten("abcdef", 0), "...");
    assert_eq!(shorten("\u{4f60}\u{597d}", 1), "...");
}
