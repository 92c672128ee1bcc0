//! What the renderer shows of the controller's state: one row per result,
//! with its two texts cut into lines that fit, and one entry per option of
//! the open context menu.

use unicode_truncate::UnicodeTruncateStr;
use unicode_width::UnicodeWidthStr;
use vstd::prelude::*;
use vstd::string::{StrSliceExecFns, StringExecFns};

use crate::backend::{IconSource, SearchResult};
use crate::launcher::CosmicLauncher;
use crate::message::{text_of, Message};

verus! {

/// The widest a line of a row's first text may be, in columns.
pub const TITLE_COLUMNS: usize = 45;

/// The widest a line of a row's second text may be, in columns.
pub const SUBTITLE_COLUMNS: usize = 60;

/// The number of columns that a text takes up on screen, as the crate
/// `unicode-width` counts them.
pub uninterp spec fn width_of(text: Seq<char>) -> usize;

/// The start of a text that is left when the crate `unicode-truncate` cuts
/// it at its end to fit a number of columns.
pub uninterp spec fn truncation_of(text: Seq<char>, columns: usize) -> Seq<char>;

/// `UnicodeWidthStr::width` of the crate `unicode-width`: the number of
/// columns that `text` takes up on screen. The contract gives that number its
/// name and claims nothing else of it.
#[verifier::external_body]
fn display_width(text: &str) -> (columns: usize)
    ensures
        columns == width_of(text@),
{
    text.width()
}

/// `UnicodeTruncateStr::unicode_truncate` of the crate `unicode-truncate`:
/// the start of `text` that is left when characters are removed from its end
/// until it fits `columns` columns. The contract gives that text its name, and
/// claims of it what the crate documents: that it is a start of `text`, that
/// it is at most `columns` columns wide, and that it is the longest such: no
/// longer start of `text` fits.
#[verifier::external_body]
fn truncate_to<'a>(text: &'a str, columns: usize) -> (start: &'a str)
    ensures
        start@ == truncation_of(text@, columns),
        longest_fit(text@, start@, columns),
{
    text.unicode_truncate(columns).0
}

/// Whether `start` is the longest start of `text` that takes up no more than
/// `columns` columns.
pub open spec fn longest_fit(text: Seq<char>, start: Seq<char>, columns: usize) -> bool {
    &&& start.is_prefix_of(text)
    &&& width_of(start) <= columns
    &&& forall|longer: int|
        start.len() < longer <= text.len() ==> width_of(#[trigger] text.take(longer)) > columns
}

/// A line as shown, given its width and its start that fits `limit` columns:
/// the line itself where it fits, else that start followed by three dots.
pub open spec fn ellipsized(line: Seq<char>, width: usize, start: Seq<char>, limit: usize) -> Seq<
    char,
> {
    if width > limit {
        start + "..."@
    } else {
        line
    }
}

/// A line as shown within `limit` columns.
pub open spec fn shortened(line: Seq<char>, limit: usize) -> Seq<char> {
    ellipsized(line, width_of(line), truncation_of(line, limit), limit)
}

/// Puts a line as it is shown, given its width and its start that fits
/// `limit` columns.
pub fn ellipsize(line: &str, width: usize, start: &str, limit: usize) -> (shown: String)
    ensures
        shown@ == ellipsized(line@, width, start@, limit),
{
    if width > limit {
        start.to_owned().concat("...")
    } else {
        line.to_owned()
    }
}

/// Puts a line as it is shown within `limit` columns. Of a line that is too
/// wide, what is shown before the dots is the longest start of the line that
/// fits.
pub fn shorten(line: &str, limit: usize) -> (shown: String)
    ensures
        shown@ == shortened(line@, limit),
        width_of(line@) > limit ==> longest_fit(line@, truncation_of(line@, limit), limit),
{
    let width = display_width(line);
    if width > limit {
        ellipsize(line, width, truncate_to(line, limit), limit)
    } else {
        ellipsize(line, width, line, limit)
    }
}

/// A line without the carriage return at its end, if it has one.
pub open spec fn without_return(line: Seq<char>) -> Seq<char> {
    if line.len() > 0 && line.last() == '\r' {
        line.drop_last()
    } else {
        line
    }
}

/// The lines of a text. A line ends at a line feed, or at a carriage return
/// followed by one; neither belongs to the line. What follows the last line
/// feed is a line of its own unless it is empty.
pub open spec fn lines_of(text: Seq<char>) -> Seq<Seq<char>>
    decreases text.len(),
{
    match text.index_of_first('\n') {
        Some(end) => if 0 <= end < text.len() {
            seq![without_return(text.take(end))] + lines_of(text.skip(end + 1))
        } else {
            Seq::empty()
        },
        None => if text.len() == 0 {
            Seq::empty()
        } else {
            seq![text]
        },
    }
}

/// A list of strings, each by its text.
pub open spec fn texts(strings: Seq<String>) -> Seq<Seq<char>> {
    strings.map_values(|s: String| s@)
}

/// Where the first line feed of `rest` stands, given that it is the first.
proof fn first_line_feed(rest: Seq<char>, at: int)
    requires
        0 <= at < rest.len(),
        rest[at] == '\n',
        forall|j: int| 0 <= j < at ==> rest[j] != '\n',
    ensures
        rest.index_of_first('\n') == Some(at),
{
    rest.index_of_first_ensures('\n');
    assert(rest.contains('\n'));
}

/// A text without a line feed has none that is its first.
proof fn no_line_feed(rest: Seq<char>)
    requires
        forall|j: int| 0 <= j < rest.len() ==> rest[j] != '\n',
    ensures
        rest.index_of_first('\n') is None,
{
    rest.index_of_first_ensures('\n');
}

/// Cuts a text into its lines.
pub fn lines(text: &str) -> (list: Vec<String>)
    ensures
        texts(list@) == lines_of(text@),
{
    let ghost all = text@;
    let count = text.unicode_len();
    let mut list: Vec<String> = Vec::new();
    let mut start: usize = 0;
    let mut at: usize = 0;
    let mut after_return = false;
    assert(all.skip(0) == all);
    assert(texts(list@) + lines_of(all) =~= lines_of(all));
    for c in it: text.chars()
        invariant
            it.seq() == all,
            all == text@,
            count == all.len(),
            at == it.index(),
            start <= at,
            forall|j: int| start <= j < at ==> all[j] != '\n',
            after_return == (at > start && all[at - 1] == '\r'),
            texts(list@) + lines_of(all.skip(start as int)) == lines_of(all),
    {
        if c == '\n' {
            let end = if after_return {
                at - 1
            } else {
                at
            };
            let line = text.substring_char(start, end).to_owned();
            proof {
                let rest = all.skip(start as int);
                first_line_feed(rest, at - start);
                assert(rest.take(at - start) == all.subrange(start as int, at as int));
                assert(without_return(rest.take(at - start)) == line@);
                assert(rest.skip(at - start + 1) == all.skip(at + 1));
                assert(texts(list@.push(line)) =~= texts(list@) + seq![line@]);
                assert(texts(list@.push(line)) + lines_of(all.skip(at + 1)) =~= texts(list@) + (
                seq![line@] + lines_of(all.skip(at + 1))));
            }
            list.push(line);
            start = at + 1;
        }
        after_return = c == '\r';
        at += 1;
    }
    proof {
        no_line_feed(all.skip(start as int));
    }
    if start < at {
        let line = text.substring_char(start, at).to_owned();
        proof {
            assert(all.skip(start as int) == all.subrange(start as int, at as int));
            assert(texts(list@.push(line)) =~= texts(list@) + seq![line@]);
        }
        list.push(line);
    } else {
        assert(texts(list@) + Seq::empty() =~= texts(list@));
    }
    list
}

/// The lines of a text, each as shown within `limit` columns.
pub open spec fn shortened_lines(text: Seq<char>, limit: usize) -> Seq<Seq<char>> {
    lines_of(text).map_values(|line: Seq<char>| shortened(line, limit))
}

/// Cuts a text into its lines and puts each as it is shown within `limit`
/// columns.
pub fn shorten_lines(text: &str, limit: usize) -> (list: Vec<String>)
    ensures
        texts(list@) == shortened_lines(text@, limit),
{
    let whole = lines(text);
    let mut list: Vec<String> = Vec::new();
    let mut at: usize = 0;
    while at < whole.len()
        invariant
            at <= whole.len(),
            texts(whole@) == lines_of(text@),
            list.len() == at,
            forall|j: int| 0 <= j < at ==> (#[trigger] list@[j])@ == shortened(whole@[j]@, limit),
        decreases whole.len() - at,
    {
        list.push(shorten(whole[at].as_str(), limit));
        at += 1;
    }
    assert(texts(list@) =~= shortened_lines(text@, limit)) by {
        assert forall|j: int| 0 <= j < list@.len() implies texts(list@)[j] == shortened_lines(
            text@,
            limit,
        )[j] by {
            assert(texts(whole@)[j] == whole@[j]@);
        }
    }
    list
}

/// The name under which an icon is looked up.
pub open spec fn icon_name(source: Option<IconSource>) -> Option<Seq<char>> {
    match source {
        Some(IconSource::Name(name)) => Some(name@),
        Some(IconSource::Mime(name)) => Some(name@),
        None => None,
    }
}

/// The name under which an icon is looked up.
fn name_of_icon(source: &Option<IconSource>) -> (name: Option<String>)
    ensures
        text_of(name) == icon_name(*source),
{
    match source {
        Some(IconSource::Name(name)) => Some(name.clone()),
        Some(IconSource::Mime(name)) => Some(name.clone()),
        None => None,
    }
}

/// One result as the renderer shows it.
#[derive(Clone, Debug, PartialEq, Eq)]
pub struct ResultRow {
    /// The lines of the text shown first.
    pub title: Vec<String>,
    /// The lines of the text shown below it.
    pub subtitle: Vec<String>,
    /// The icon of the plugin that found the result, where it is shown.
    pub category_icon: Option<String>,
    /// The icon of the result.
    pub icon: Option<String>,
    /// The digit that activates the result when pressed with Control.
    pub shortcut: usize,
    /// Whether the result is the selected one.
    pub focused: bool,
    /// Whether a divider follows the row.
    pub divider_below: bool,
    /// What pressing the row sends.
    pub on_press: Message,
    /// What releasing the right button over the row sends.
    pub on_right_release: Message,
}

/// A row, by what it says.
pub struct ResultRowView {
    pub title: Seq<Seq<char>>,
    pub subtitle: Seq<Seq<char>>,
    pub category_icon: Option<Seq<char>>,
    pub icon: Option<Seq<char>>,
    pub shortcut: int,
    pub focused: bool,
    pub divider_below: bool,
    pub on_press: Message,
    pub on_right_release: Message,
}

impl View for ResultRow {
    type V = ResultRowView;

    open spec fn view(&self) -> ResultRowView {
        ResultRowView {
            title: texts(self.title@),
            subtitle: texts(self.subtitle@),
            category_icon: text_of(self.category_icon),
            icon: text_of(self.icon),
            shortcut: self.shortcut as int,
            focused: self.focused,
            divider_below: self.divider_below,
            on_press: self.on_press,
            on_right_release: self.on_right_release,
        }
    }
}

/// The row of the result `item` at position `index` among `count` results,
/// while the result at `focused` is selected. An open window shows its
/// description first and its name below; anything else its name first. The
/// plugin's icon is left out in switcher mode. The digits 1 to 9 activate the
/// first nine rows and 0 the tenth. Every row but the last is followed by a
/// divider. Pressing the row activates the result at its position; releasing
/// the right button over it asks for that result's context menu.
pub open spec fn row_of(
    item: SearchResult,
    index: int,
    count: int,
    focused: int,
    switcher_mode: bool,
) -> ResultRowView {
    ResultRowView {
        title: shortened_lines(
            if item.is_window() {
                item.description@
            } else {
                item.name@
            },
            TITLE_COLUMNS,
        ),
        subtitle: shortened_lines(
            if item.is_window() {
                item.name@
            } else {
                item.description@
            },
            SUBTITLE_COLUMNS,
        ),
        category_icon: if switcher_mode {
            None
        } else {
            icon_name(item.category_icon)
        },
        icon: icon_name(item.icon),
        shortcut: (index + 1) % 10,
        focused: index == focused,
        divider_below: index + 1 != count,
        on_press: Message::Activate(Some(index as usize)),
        on_right_release: Message::Context(index as usize),
    }
}

/// Makes the row of one result.
pub fn result_row(
    item: &SearchResult,
    index: usize,
    count: usize,
    focused: usize,
    switcher_mode: bool,
) -> (row: ResultRow)
    requires
        index < count,
    ensures
        row@ == row_of(*item, index as int, count as int, focused as int, switcher_mode),
{
    let (first, second) = if item.window.is_some() {
        (&item.description, &item.name)
    } else {
        (&item.name, &item.description)
    };
    ResultRow {
        title: shorten_lines(first.as_str(), TITLE_COLUMNS),
        subtitle: shorten_lines(second.as_str(), SUBTITLE_COLUMNS),
        category_icon: if switcher_mode {
            None
        } else {
            name_of_icon(&item.category_icon)
        },
        icon: name_of_icon(&item.icon),
        shortcut: (index + 1) % 10,
        focused: index == focused,
        divider_below: index + 1 != count,
        on_press: Message::Activate(Some(index)),
        on_right_release: Message::Context(index),
    }
}

/// Makes the rows of the results on show, one per result and in their order.
pub fn result_rows(launcher: &CosmicLauncher) -> (rows: Vec<ResultRow>)
    ensures
        rows@.len() == launcher@.results.len(),
        forall|i: int|
            0 <= i < rows@.len() ==> (#[trigger] rows@[i])@ == row_of(
                launcher@.results[i],
                i,
                launcher@.results.len() as int,
                launcher@.focus_index as int,
                launcher@.switcher_mode,
            ),
{
    let items = launcher.launcher_items();
    let focused = launcher.focused();
    let switcher_mode = launcher.alt_tab();
    let mut rows: Vec<ResultRow> = Vec::new();
    let mut at: usize = 0;
    while at < items.len()
        invariant
            at <= items.len(),
            rows.len() == at,
            forall|i: int|
                0 <= i < at ==> (#[trigger] rows@[i])@ == row_of(
                    items@[i],
                    i,
                    items@.len() as int,
                    focused as int,
                    switcher_mode,
                ),
        decreases items.len() - at,
    {
        rows.push(result_row(&items[at], at, items.len(), focused, switcher_mode));
        at += 1;
    }
    rows
}

/// One option of the open context menu as the renderer shows it.
#[derive(Clone, Debug, PartialEq, Eq)]
pub struct MenuEntry {
    /// The option's label.
    pub label: String,
    /// What pressing the entry sends.
    pub on_press: Message,
}

/// Makes the entries of the open context menu, one per option and in their
/// order; pressing one sends the choice of that option for the menu's item.
/// Without an open menu there are none.
pub fn menu_entries(launcher: &CosmicLauncher) -> (entries: Vec<MenuEntry>)
    ensures
        match launcher@.context_menu {
            Some((item, options)) => {
                &&& entries@.len() == options.len()
                &&& forall|i: int|
                    0 <= i < options.len() ==> {
                        &&& (#[trigger] entries@[i]).label@ == options[i].name@
                        &&& entries@[i].on_press == Message::MenuButton(item, options[i].id)
                    }
            },
            None => entries@.len() == 0,
        },
{
    let mut entries: Vec<MenuEntry> = Vec::new();
    match launcher.menu() {
        Some((item, options)) => {
            let mut at: usize = 0;
            while at < options.len()
                invariant
                    at <= options.len(),
                    entries.len() == at,
                    forall|i: int|
                        0 <= i < at ==> {
                            &&& (#[trigger] entries@[i]).label@ == options@[i].name@
                            &&& entries@[i].on_press == Message::MenuButton(item, options@[i].id)
                        },
                decreases options.len() - at,
            {
                entries.push(
                    MenuEntry {
                        label: options[at].name.clone(),
                        on_press: Message::MenuButton(item, options[at].id),
                    },
                );
                at += 1;
            }
        },
        None => {},
    }
    entries
}

} // verus!
