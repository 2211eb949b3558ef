//! The state of the terminal interface: the messages it shows, the input
//! that is being typed, the mode of the keyboard, and how updates of the
//! engine and keys change them. Drawing is left to whoever owns the
//! terminal; this module says what is to be drawn.

use vstd::prelude::*;
use crate::agent::{TuiUpdate, UpdateView};
use crate::api::{Message, MessageView, ToolCall, ToolCallView};
use crate::text::{
    blank, concat, concat3, from_chars, is_blank, lines, owned, push_char, rows, same_str,
    spec_uppercase, split_lines, to_chars, uppercase, views,
};

pub mod diff;

verus! {

/// The mode of the keyboard.
#[derive(Clone, Copy, Debug, PartialEq, Eq, Structural)]
pub enum AppMode {
    Normal,
    Input,
    ScrollingMessages,
}

/// A key that was pressed.
#[derive(Clone, Copy, Debug, PartialEq, Eq, Structural)]
pub enum Key {
    Char(char),
    Enter,
    Backspace,
    Esc,
    Up,
    Down,
    PageUp,
    PageDown,
    Home,
    End,
    Other,
}

/// A message as the interface shows it.
#[derive(Clone, Debug)]
pub struct UiMessage {
    pub role: String,
    pub content: String,
    pub timestamp: String,
    pub tool_calls: Vec<String>,
}

/// A shown message as contracts see it.
pub struct UiMessageView {
    pub role: Seq<char>,
    pub content: Seq<char>,
    pub timestamp: Seq<char>,
    pub tool_calls: Seq<Seq<char>>,
}

impl View for UiMessage {
    type V = UiMessageView;

    open spec fn view(&self) -> UiMessageView {
        UiMessageView {
            role: self.role@,
            content: self.content@,
            timestamp: self.timestamp@,
            tool_calls: views(self.tool_calls@),
        }
    }
}

/// The views of a list of shown messages.
pub open spec fn ui_message_views(items: Seq<UiMessage>) -> Seq<UiMessageView> {
    items.map_values(|m: UiMessage| m@)
}

/// The state of the interface as contracts see it.
pub struct AppView {
    pub messages: Seq<UiMessageView>,
    pub input: Seq<char>,
    pub scroll: u16,
    pub should_quit: bool,
    pub mode: AppMode,
    pub status: Seq<char>,
    pub is_processing: bool,
}

/// The status of an interface that was just opened.
pub open spec fn ready_status() -> Seq<char> {
    "Ready. Press ? for help, Esc to toggle modes, Ctrl-C to quit."@
}

/// The status while the model works.
pub open spec fn thinking_status() -> Seq<char> {
    "🤔 AI is thinking... Please wait."@
}

/// The status when the model is done.
pub open spec fn done_status() -> Seq<char> {
    "✅ Done! Press 'i' to send another message."@
}

/// The status of the normal mode.
pub open spec fn normal_status() -> Seq<char> {
    "Normal mode - Press 'i' to input, 's' to scroll, '?' for help"@
}

/// The status of the input mode.
pub open spec fn input_status() -> Seq<char> {
    "📝 Input mode - Type your message, Enter to send, Esc to cancel"@
}

/// The status of the scroll mode.
pub open spec fn scroll_status() -> Seq<char> {
    "📜 Scroll mode - Use j/k or arrows to scroll, Esc to exit"@
}

/// The status that explains the keys.
pub open spec fn help_status() -> Seq<char> {
    "📚 Help: i=input s=scroll j/k=up/down Enter=send Esc=mode Ctrl-C=quit"@
}

/// The scroll position that shows the last of `count` messages.
pub open spec fn bottom(count: nat) -> u16 {
    if count == 0 {
        0
    } else {
        ((count - 1) % 65536) as u16
    }
}

/// The state after a message was added: it is the last one, and it is shown.
pub open spec fn with_message(s: AppView, m: UiMessageView) -> AppView {
    AppView { messages: s.messages.push(m), scroll: bottom(s.messages.len() + 1), ..s }
}

/// The state after the model started or stopped working.
pub open spec fn with_processing(s: AppView, processing: bool) -> AppView {
    AppView {
        is_processing: processing,
        status: if processing {
            thinking_status()
        } else {
            done_status()
        },
        ..s
    }
}

/// The names of the tools that a message calls, each behind a wrench.
pub open spec fn call_labels(calls: Option<Seq<ToolCallView>>) -> Seq<Seq<char>> {
    match calls {
        Some(list) => Seq::new(list.len(), |i: int| "🔧 "@ + list[i].function.name),
        None => Seq::empty(),
    }
}

/// A message of the conversation as it is shown.
pub open spec fn shown_message(m: MessageView, timestamp: Seq<char>) -> UiMessageView {
    UiMessageView {
        role: m.role,
        content: match m.content {
            Some(c) => c,
            None => Seq::empty(),
        },
        timestamp,
        tool_calls: call_labels(m.tool_calls),
    }
}

/// A note of a tool or of the system as it is shown.
pub open spec fn note(role: Seq<char>, content: Seq<char>, timestamp: Seq<char>) -> UiMessageView {
    UiMessageView { role, content, timestamp, tool_calls: Seq::empty() }
}

/// The state after an update of the engine, received at the time of the
/// stamp.
pub open spec fn updated(s: AppView, update: UpdateView, timestamp: Seq<char>) -> AppView {
    match update {
        UpdateView::Message(m) => with_message(s, shown_message(m, timestamp)),
        UpdateView::ToolStart { name, icon } => with_message(
            s,
            note("tool"@, icon + " "@ + name + "..."@, timestamp),
        ),
        UpdateView::ToolResult { name, result } => with_message(
            s,
            note("tool"@, "["@ + name + "] "@ + result, timestamp),
        ),
        UpdateView::Processing { message } => AppView { status: "⏳ "@ + message, ..s },
        UpdateView::Error { message } => with_processing(
            with_message(s, note("system"@, message, timestamp)),
            false,
        ),
        UpdateView::Complete => with_processing(s, false),
    }
}

/// The state after updates of the engine, all received at the time of the
/// stamp.
pub open spec fn all_updated(s: AppView, updates: Seq<UpdateView>, timestamp: Seq<char>) -> AppView
    decreases updates.len(),
{
    if updates.len() == 0 {
        s
    } else {
        updated(all_updated(s, updates.drop_last(), timestamp), updates.last(), timestamp)
    }
}

/// What a key does: the new state, and the input that is sent, if any.
///
/// Ctrl-C quits. While the model works, the input mode ignores every other
/// key. In normal mode `i` opens the input (unless the model works), `s`
/// opens scrolling and `?` explains the keys. In input mode Enter sends what
/// was typed, unless that is nothing; a character is typed; Backspace takes
/// the last one back; Esc leaves. In scroll mode `j`, `k`, the arrows, the
/// page keys, Home and End move over the messages; Esc leaves.
pub open spec fn keyed(s: AppView, key: Key, control: bool) -> (AppView, Option<Seq<char>>) {
    if key == Key::Char('c') && control {
        (AppView { should_quit: true, ..s }, None)
    } else if s.is_processing && s.mode == AppMode::Input {
        (s, None)
    } else {
        match s.mode {
            AppMode::Normal => (
                if key == Key::Char('i') {
                    if s.is_processing {
                        s
                    } else {
                        AppView { mode: AppMode::Input, status: input_status(), ..s }
                    }
                } else if key == Key::Char('s') {
                    AppView { mode: AppMode::ScrollingMessages, status: scroll_status(), ..s }
                } else if key == Key::Char('?') {
                    AppView { status: help_status(), ..s }
                } else {
                    s
                },
                None,
            ),
            AppMode::Input => match key {
                Key::Enter => if s.input.len() > 0 {
                    (
                        with_processing(
                            AppView { input: Seq::empty(), mode: AppMode::Normal, ..s },
                            true,
                        ),
                        Some(s.input),
                    )
                } else {
                    (s, None)
                },
                Key::Char(c) => (AppView { input: s.input.push(c), ..s }, None),
                Key::Backspace => (
                    AppView {
                        input: if s.input.len() > 0 {
                            s.input.drop_last()
                        } else {
                            s.input
                        },
                        ..s
                    },
                    None,
                ),
                Key::Esc => (AppView { mode: AppMode::Normal, status: normal_status(), ..s }, None),
                _ => (s, None),
            },
            AppMode::ScrollingMessages => (scrolled(s, key), None),
        }
    }
}

/// The smaller of a position and the last position.
pub open spec fn at_most(position: int, last: u16) -> u16 {
    if position < last {
        position as u16
    } else {
        last
    }
}

/// The state after a key in scroll mode.
pub open spec fn scrolled(s: AppView, key: Key) -> AppView {
    let last = bottom(s.messages.len());
    match key {
        Key::Char('j') | Key::Down => AppView { scroll: at_most(s.scroll + 1, last), ..s },
        Key::Char('k') | Key::Up => AppView {
            scroll: if s.scroll >= 1 {
                (s.scroll - 1) as u16
            } else {
                0
            },
            ..s
        },
        Key::PageDown => AppView { scroll: at_most(s.scroll + 10, last), ..s },
        Key::PageUp => AppView {
            scroll: if s.scroll >= 10 {
                (s.scroll - 10) as u16
            } else {
                0
            },
            ..s
        },
        Key::Home => AppView { scroll: 0, ..s },
        Key::End => AppView { scroll: last, ..s },
        Key::Esc => AppView { mode: AppMode::Normal, status: normal_status(), ..s },
        _ => s,
    }
}

/// The icon of a role.
pub open spec fn role_icon(role: Seq<char>) -> Seq<char> {
    if role == "user"@ {
        "👤"@
    } else if role == "assistant"@ {
        "🤖"@
    } else if role == "system"@ {
        "⚙️"@
    } else if role == "tool"@ {
        "🔧"@
    } else {
        "❓"@
    }
}

/// A row of the list of messages.
#[derive(Clone, Debug)]
pub enum UiRow {
    /// A line between two messages.
    Separator,
    /// The head of a message: the icon of its role; its role in upper case
    /// with the time; and the role, by which the head is coloured.
    Header { icon: String, title: String, role: String },
    /// A line of a message.
    Content(String),
    /// A tool that a message calls.
    ToolCall(String),
    /// The note that the model works.
    Processing,
}

/// A row as contracts see it.
pub enum RowView {
    Separator,
    Header { icon: Seq<char>, title: Seq<char>, role: Seq<char> },
    Content(Seq<char>),
    ToolCall(Seq<char>),
    Processing,
}

impl View for UiRow {
    type V = RowView;

    open spec fn view(&self) -> RowView {
        match self {
            UiRow::Separator => RowView::Separator,
            UiRow::Header { icon, title, role } => RowView::Header {
                icon: icon@,
                title: title@,
                role: role@,
            },
            UiRow::Content(t) => RowView::Content(t@),
            UiRow::ToolCall(t) => RowView::ToolCall(t@),
            UiRow::Processing => RowView::Processing,
        }
    }
}

/// The views of a list of rows.
pub open spec fn row_views(items: Seq<UiRow>) -> Seq<RowView> {
    items.map_values(|r: UiRow| r@)
}

/// The rows of the lines of a message that are not blank.
pub open spec fn content_rows(all: Seq<Seq<char>>) -> Seq<RowView>
    decreases all.len(),
{
    if all.len() == 0 {
        seq![]
    } else if is_blank(all.last()) {
        content_rows(all.drop_last())
    } else {
        content_rows(all.drop_last()).push(RowView::Content(all.last()))
    }
}

/// The rows of one message: its head, its lines, and the tools it calls.
pub open spec fn rows_of_message(m: UiMessageView) -> Seq<RowView> {
    seq![
        RowView::Header {
            icon: role_icon(m.role),
            title: spec_uppercase(m.role) + " ["@ + m.timestamp + "]"@,
            role: m.role,
        },
    ] + content_rows(lines(m.content)) + Seq::new(
        m.tool_calls.len(),
        |i: int| RowView::ToolCall(m.tool_calls[i]),
    )
}

/// The rows of messages, with a line between each two.
pub open spec fn rows_of_messages(messages: Seq<UiMessageView>) -> Seq<RowView>
    decreases messages.len(),
{
    if messages.len() == 0 {
        seq![]
    } else if messages.len() == 1 {
        rows_of_message(messages[0])
    } else {
        rows_of_messages(messages.drop_last()) + seq![RowView::Separator] + rows_of_message(
            messages.last(),
        )
    }
}

/// The rows of the list of messages; while the model works, a line and a
/// note of that follow.
pub open spec fn message_rows(s: AppView) -> Seq<RowView> {
    if s.is_processing {
        rows_of_messages(s.messages) + seq![RowView::Separator, RowView::Processing]
    } else {
        rows_of_messages(s.messages)
    }
}

/// The state of the terminal interface.
pub struct TuiApp {
    messages: Vec<UiMessage>,
    input: String,
    scroll: u16,
    should_quit: bool,
    mode: AppMode,
    status: String,
    is_processing: bool,
}

fn message_rows_of(m: &UiMessage) -> (out: Vec<UiRow>)
    ensures
        row_views(out@) == rows_of_message(m@),
{
    let icon = if same_str(m.role.as_str(), "user") {
        "👤"
    } else if same_str(m.role.as_str(), "assistant") {
        "🤖"
    } else if same_str(m.role.as_str(), "system") {
        "⚙️"
    } else if same_str(m.role.as_str(), "tool") {
        "🔧"
    } else {
        "❓"
    };
    let upper = uppercase(m.role.as_str());
    let head = concat3(upper.as_str(), " [", m.timestamp.as_str());
    let title = concat(head.as_str(), "]");
    let mut out: Vec<UiRow> = Vec::new();
    out.push(UiRow::Header { icon: owned(icon), title, role: m.role.clone() });
    let ghost first = row_views(out@);
    let chars = to_chars(m.content.as_str());
    let all = split_lines(chars.as_slice());
    let ghost list = rows(all@);
    let mut i: usize = 0;
    assert(list.take(0) =~= Seq::<Seq<char>>::empty());
    assert(row_views(out@) =~= first + content_rows(list.take(0)));
    while i < all.len()
        invariant
            i <= all.len(),
            list == rows(all@),
            row_views(out@) == first + content_rows(list.take(i as int)),
        decreases all.len() - i,
    {
        proof {
            let next = list.take(i + 1);
            assert(next.drop_last() =~= list.take(i as int));
            assert(next.last() == all@[i as int]@);
        }
        if !blank(all[i].as_slice()) {
            let ghost before = row_views(out@);
            out.push(UiRow::Content(from_chars(all[i].as_slice())));
            assert(row_views(out@) =~= before.push(RowView::Content(all@[i as int]@)));
            assert(row_views(out@) =~= first + content_rows(list.take(i as int)).push(
                RowView::Content(all@[i as int]@),
            ));
        }
        i += 1;
    }
    assert(list.take(all.len() as int) =~= list);
    let ghost second = row_views(out@);
    let mut j: usize = 0;
    while j < m.tool_calls.len()
        invariant
            j <= m.tool_calls.len(),
            out@.len() == second.len() + j,
            forall|k: int| 0 <= k < second.len() ==> (#[trigger] out@[k])@ == second[k],
            forall|k: int|
                second.len() <= k < second.len() + j ==> (#[trigger] out@[k])@ == RowView::ToolCall(
                    m.tool_calls@[k - second.len()]@,
                ),
        decreases m.tool_calls.len() - j,
    {
        out.push(UiRow::ToolCall(m.tool_calls[j].clone()));
        j += 1;
    }
    assert(row_views(out@) =~= second + Seq::new(
        m@.tool_calls.len(),
        |i: int| RowView::ToolCall(m@.tool_calls[i]),
    ));
    out
}

impl TuiApp {
    /// The state of the interface.
    pub closed spec fn view(&self) -> AppView {
        AppView {
            messages: ui_message_views(self.messages@),
            input: self.input@,
            scroll: self.scroll,
            should_quit: self.should_quit,
            mode: self.mode,
            status: self.status@,
            is_processing: self.is_processing,
        }
    }

    /// An interface without messages, ready for input.
    pub fn new() -> (app: Self)
        ensures
            app@ == (AppView {
                messages: Seq::empty(),
                input: Seq::empty(),
                scroll: 0,
                should_quit: false,
                mode: AppMode::Input,
                status: ready_status(),
                is_processing: false,
            }),
    {
        let app = TuiApp {
            messages: Vec::new(),
            input: String::new(),
            scroll: 0,
            should_quit: false,
            mode: AppMode::Input,
            status: owned("Ready. Press ? for help, Esc to toggle modes, Ctrl-C to quit."),
            is_processing: false,
        };
        assert(app@.messages =~= Seq::<UiMessageView>::empty());
        app
    }

    fn push_message(&mut self, message: UiMessage)
        ensures
            final(self)@ == with_message(old(self)@, message@),
    {
        let ghost before = ui_message_views(self.messages@);
        self.messages.push(message);
        assert(ui_message_views(self.messages@) =~= before.push(message@));
        let count = self.messages.len();
        self.scroll = if count == 0 {
            0
        } else {
            ((count - 1) % 65536) as u16
        };
    }

    /// Adds a message of the conversation, received at the time of the
    /// stamp, and shows it.
    pub fn add_message(&mut self, message: &Message, timestamp: &str)
        ensures
            final(self)@ == with_message(old(self)@, shown_message(message@, timestamp@)),
    {
        let content = match &message.content {
            Some(c) => c.clone(),
            None => String::new(),
        };
        let mut tool_calls: Vec<String> = Vec::new();
        match &message.tool_calls {
            Some(calls) => {
                let mut i: usize = 0;
                while i < calls.len()
                    invariant
                        i <= calls.len(),
                        tool_calls@.len() == i,
                        forall|k: int|
                            0 <= k < i ==> (#[trigger] tool_calls@[k])@ == "🔧 "@
                                + calls@[k]@.function.name,
                    decreases calls.len() - i,
                {
                    tool_calls.push(concat("🔧 ", calls[i].function.name.as_str()));
                    i += 1;
                }
            },
            None => {},
        }
        assert(views(tool_calls@) =~= call_labels(message@.tool_calls));
        self.push_message(
            UiMessage {
                role: message.role.clone(),
                content,
                timestamp: owned(timestamp),
                tool_calls,
            },
        );
    }

    /// Notes that the model started or stopped working.
    pub fn set_processing(&mut self, processing: bool)
        ensures
            final(self)@ == with_processing(old(self)@, processing),
    {
        self.is_processing = processing;
        if processing {
            self.status = owned("🤔 AI is thinking... Please wait.");
        } else {
            self.status = owned("✅ Done! Press 'i' to send another message.");
        }
    }

    /// Takes an update of the engine, received at the time of the stamp.
    pub fn process_update(&mut self, update: &TuiUpdate, timestamp: &str)
        ensures
            final(self)@ == updated(old(self)@, update@, timestamp@),
    {
        match update {
            TuiUpdate::Message(m) => {
                self.add_message(m, timestamp);
            },
            TuiUpdate::ToolStart { name, icon } => {
                let head = concat3(icon.as_str(), " ", name.as_str());
                let tool_calls: Vec<String> = Vec::new();
                assert(views(tool_calls@) =~= Seq::<Seq<char>>::empty());
                self.push_message(
                    UiMessage {
                        role: owned("tool"),
                        content: concat(head.as_str(), "..."),
                        timestamp: owned(timestamp),
                        tool_calls,
                    },
                );
            },
            TuiUpdate::ToolResult { name, result } => {
                let head = concat3("[", name.as_str(), "] ");
                let tool_calls: Vec<String> = Vec::new();
                assert(views(tool_calls@) =~= Seq::<Seq<char>>::empty());
                self.push_message(
                    UiMessage {
                        role: owned("tool"),
                        content: concat(head.as_str(), result.as_str()),
                        timestamp: owned(timestamp),
                        tool_calls,
                    },
                );
            },
            TuiUpdate::Processing { message } => {
                self.status = concat("⏳ ", message.as_str());
            },
            TuiUpdate::Error { message } => {
                let tool_calls: Vec<String> = Vec::new();
                assert(views(tool_calls@) =~= Seq::<Seq<char>>::empty());
                self.push_message(
                    UiMessage {
                        role: owned("system"),
                        content: message.clone(),
                        timestamp: owned(timestamp),
                        tool_calls,
                    },
                );
                self.set_processing(false);
            },
            TuiUpdate::Complete => {
                self.set_processing(false);
            },
        }
    }

    /// Takes the updates of the engine that have arrived, in their order.
    pub fn process_updates(&mut self, updates: &[TuiUpdate], timestamp: &str)
        ensures
            final(self)@ == all_updated(
                old(self)@,
                crate::agent::update_views(updates@),
                timestamp@,
            ),
    {
        let ghost all = crate::agent::update_views(updates@);
        let mut i: usize = 0;
        assert(all.take(0) =~= Seq::<UpdateView>::empty());
        while i < updates.len()
            invariant
                i <= updates.len(),
                all == crate::agent::update_views(updates@),
                self@ == all_updated(old(self)@, all.take(i as int), timestamp@),
            decreases updates.len() - i,
        {
            proof {
                let next = all.take(i + 1);
                assert(next.drop_last() =~= all.take(i as int));
                assert(next.last() == updates@[i as int]@);
            }
            self.process_update(&updates[i], timestamp);
            i += 1;
        }
        assert(all.take(updates.len() as int) =~= all);
    }

    /// What is being typed.
    pub fn get_input(&self) -> (input: &str)
        ensures
            input@ == self@.input,
    {
        self.input.as_str()
    }

    /// Drops what is being typed.
    pub fn clear_input(&mut self)
        ensures
            final(self)@ == (AppView { input: Seq::empty(), ..old(self)@ }),
    {
        self.input = String::new();
    }

    /// Whether the interface is to be closed.
    pub fn should_quit(&self) -> (b: bool)
        ensures
            b == self@.should_quit,
    {
        self.should_quit
    }

    /// Whether the model works.
    pub fn is_processing(&self) -> (b: bool)
        ensures
            b == self@.is_processing,
    {
        self.is_processing
    }

    /// The mode of the keyboard.
    pub fn mode(&self) -> (mode: AppMode)
        ensures
            mode == self@.mode,
    {
        self.mode
    }

    /// The status line.
    pub fn status(&self) -> (status: &str)
        ensures
            status@ == self@.status,
    {
        self.status.as_str()
    }

    /// The scroll position.
    pub fn scroll(&self) -> (scroll: u16)
        ensures
            scroll == self@.scroll,
    {
        self.scroll
    }

    /// The number of messages.
    pub fn message_count(&self) -> (n: usize)
        ensures
            n == self@.messages.len(),
    {
        self.messages.len()
    }

    fn last_position(&self) -> (last: u16)
        ensures
            last == bottom(self@.messages.len()),
    {
        let count = self.messages.len();
        if count == 0 {
            0
        } else {
            ((count - 1) % 65536) as u16
        }
    }

    fn handle_scroll_mode(&mut self, key: Key)
        ensures
            final(self)@ == scrolled(old(self)@, key),
    {
        let last = self.last_position();
        match key {
            Key::Char('j') | Key::Down => {
                self.scroll = if self.scroll < last {
                    self.scroll + 1
                } else {
                    last
                };
            },
            Key::Char('k') | Key::Up => {
                self.scroll = if self.scroll >= 1 {
                    self.scroll - 1
                } else {
                    0
                };
            },
            Key::PageDown => {
                self.scroll = if (self.scroll as u32) + 10 < last as u32 {
                    self.scroll + 10
                } else {
                    last
                };
            },
            Key::PageUp => {
                self.scroll = if self.scroll >= 10 {
                    self.scroll - 10
                } else {
                    0
                };
            },
            Key::Home => {
                self.scroll = 0;
            },
            Key::End => {
                self.scroll = last;
            },
            Key::Esc => {
                self.mode = AppMode::Normal;
                self.status = owned(
                    "Normal mode - Press 'i' to input, 's' to scroll, '?' for help",
                );
            },
            _ => {},
        }
    }

    /// Takes a key; `control` says whether Ctrl, and Ctrl alone, was held.
    /// Returns the input that is sent, if the key sent one. See [`keyed`].
    pub fn handle_key_event(&mut self, key: Key, control: bool) -> (sent: Option<String>)
        ensures
            final(self)@ == keyed(old(self)@, key, control).0,
            sent.deep_view() == keyed(old(self)@, key, control).1,
    {
        let is_c = match key {
            Key::Char('c') => true,
            _ => false,
        };
        if is_c && control {
            self.should_quit = true;
            return None;
        }
        let input_mode = match self.mode {
            AppMode::Input => true,
            _ => false,
        };
        if self.is_processing && input_mode {
            return None;
        }
        match self.mode {
            AppMode::Normal => {
                match key {
                    Key::Char('i') => {
                        if !self.is_processing {
                            self.mode = AppMode::Input;
                            self.status = owned(
                                "📝 Input mode - Type your message, Enter to send, Esc to cancel",
                            );
                        }
                    },
                    Key::Char('s') => {
                        self.mode = AppMode::ScrollingMessages;
                        self.status = owned(
                            "📜 Scroll mode - Use j/k or arrows to scroll, Esc to exit",
                        );
                    },
                    Key::Char('?') => {
                        self.status = owned(
                            "📚 Help: i=input s=scroll j/k=up/down Enter=send Esc=mode Ctrl-C=quit",
                        );
                    },
                    _ => {},
                }
                None
            },
            AppMode::Input => {
                match key {
                    Key::Enter => {
                        if !self.input.as_str().is_empty() {
                            let input = self.input.clone();
                            self.input = String::new();
                            self.mode = AppMode::Normal;
                            self.set_processing(true);
                            return Some(input);
                        }
                    },
                    Key::Char(c) => {
                        push_char(&mut self.input, c);
                    },
                    Key::Backspace => {
                        let chars = to_chars(self.input.as_str());
                        if chars.len() > 0 {
                            let kept = crate::text::slice_chars(
                                chars.as_slice(),
                                0,
                                chars.len() - 1,
                            );
                            assert(kept@ =~= chars@.drop_last());
                            self.input = from_chars(kept.as_slice());
                        }
                    },
                    Key::Esc => {
                        self.mode = AppMode::Normal;
                        self.status = owned(
                            "Normal mode - Press 'i' to input, 's' to scroll, '?' for help",
                        );
                    },
                    _ => {},
                }
                None
            },
            AppMode::ScrollingMessages => {
                self.handle_scroll_mode(key);
                None
            },
        }
    }

    /// The rows of the list of messages, from the first message on.
    pub fn draw_messages(&self) -> (out: Vec<UiRow>)
        ensures
            row_views(out@) == message_rows(self@),
    {
        let mut out: Vec<UiRow> = Vec::new();
        let ghost all = ui_message_views(self.messages@);
        let mut i: usize = 0;
        assert(all.take(0) =~= Seq::<UiMessageView>::empty());
        assert(row_views(out@) =~= Seq::<RowView>::empty());
        while i < self.messages.len()
            invariant
                i <= self.messages.len(),
                all == ui_message_views(self.messages@),
                row_views(out@) == rows_of_messages(all.take(i as int)),
            decreases self.messages.len() - i,
        {
            proof {
                let next = all.take(i + 1);
                assert(next.drop_last() =~= all.take(i as int));
                assert(next.last() == self.messages@[i as int]@);
                if i == 0 {
                    assert(next[0] == self.messages@[0]@);
                }
            }
            let ghost before = row_views(out@);
            if i > 0 {
                out.push(UiRow::Separator);
                assert(row_views(out@) =~= before + seq![RowView::Separator]);
            }
            let ghost middle = row_views(out@);
            let mut part = message_rows_of(&self.messages[i]);
            let ghost added = row_views(part@);
            out.append(&mut part);
            assert(row_views(out@) =~= middle + added);
            proof {
                if i == 0 {
                    assert(row_views(out@) =~= added);
                }
            }
            i += 1;
        }
        assert(all.take(self.messages.len() as int) =~= all);
        if self.is_processing {
            let ghost before = row_views(out@);
            out.push(UiRow::Separator);
            out.push(UiRow::Processing);
            assert(row_views(out@) =~= before + seq![RowView::Separator, RowView::Processing]);
        }
        out
    }

    /// The title of the list of messages.
    pub fn messages_title(&self) -> (title: String)
        ensures
            title@ == " Chat Messages ("@ + crate::text::decimal(self@.messages.len()) + " total) "@,
    {
        let number = crate::text::decimal_string(self.messages.len() as u64);
        concat3(" Chat Messages (", number.as_str(), " total) ")
    }

    /// The title of the input field.
    pub fn input_title(&self) -> (title: &'static str)
        ensures
            self@.is_processing ==> title@ == " Input (Disabled - Processing) "@,
            !self@.is_processing ==> title@ == " Input "@,
    {
        if self.is_processing {
            " Input (Disabled - Processing) "
        } else {
            " Input "
        }
    }

    /// Whether the cursor is shown in the input field.
    pub fn shows_cursor(&self) -> (b: bool)
        ensures
            b == (self@.mode == AppMode::Input && !self@.is_processing),
    {
        let input_mode = match self.mode {
            AppMode::Input => true,
            _ => false,
        };
        input_mode && !self.is_processing
    }

    /// The name of the mode as the status bar shows it.
    pub fn mode_indicator(&self) -> (text: &'static str)
        ensures
            text@ == match self@.mode {
                AppMode::Normal => "[NORMAL]"@,
                AppMode::Input => "[INPUT]"@,
                AppMode::ScrollingMessages => "[SCROLL]"@,
            },
    {
        match self.mode {
            AppMode::Normal => "[NORMAL]",
            AppMode::Input => "[INPUT]",
            AppMode::ScrollingMessages => "[SCROLL]",
        }
    }
}

impl Default for TuiApp {
    fn default() -> (app: Self)
        ensures
            app@.messages.len() == 0,
            app@.mode == AppMode::Input,
            !app@.is_processing,
    {
        TuiApp::new()
    }
}

} // verus!
