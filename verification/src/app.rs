//! The session: the list of countries, the filter over it, the selection,
//! the connection status, and the rules by which key presses and the
//! client's answers change them.
//!
//! The session never runs the client itself. A key press may ask for a
//! command (`Action`); whoever drives the session runs it and hands the
//! outcome back (`connect_finished`, `disconnect`, `refresh_status`).

use crate::event::Event;
use crate::event::KeyCode;
use crate::event::KeyEvent;
use crate::event::KeyEventKind;
use crate::filter::apply_filter;
use crate::filter::filtered_by;
use crate::filter::lemma_filter_keeps_all;
use crate::text::char_is_alphanumeric;
use crate::text::concat;
use crate::text::is_alphanumeric;
use crate::text::string_pop;
use crate::text::string_push;
use crate::text::without_last;
use crate::types::roster_view;
use crate::types::ConnectionStatus;
use crate::types::ConnectionStatusView;
use crate::types::Country;
use crate::types::CountryView;
use crate::widgets::list_selected;
use crate::widgets::list_state_default;
use crate::widgets::list_state_select;
use crate::widgets::scroll_content_length;
use crate::widgets::scroll_position;
use crate::widgets::scrollbar_content_length;
use crate::widgets::scrollbar_new;
use crate::widgets::scrollbar_position;
use ratatui::widgets::ListState;
use ratatui::widgets::ScrollbarState;
use vstd::prelude::*;
use vstd::string::StringExecFns;

verus! {

/// What the keys mean at the moment.
#[derive(Debug, Clone, Copy, PartialEq, Eq, Structural)]
pub enum InputMode {
    /// Keys move the selection and give commands.
    Normal,
    /// Keys edit the filter text.
    FilterEntry,
}

/// A note to the user that stays until the next key press.
#[derive(Debug, PartialEq, Eq)]
pub enum Message {
    Error(String),
    Success(String),
}

/// What a `Message` holds, as character sequences.
pub enum MessageView {
    Error(Seq<char>),
    Success(Seq<char>),
}

impl View for Message {
    type V = MessageView;

    open spec fn view(&self) -> MessageView {
        match *self {
            Message::Error(text) => MessageView::Error(text@),
            Message::Success(text) => MessageView::Success(text@),
        }
    }
}

/// A command for the client that the session asks its driver to run.
#[derive(Debug, PartialEq, Eq)]
pub enum Action {
    /// Connect to this country, then call `connect_finished`.
    Connect(Country),
    /// Disconnect, then call `disconnect`.
    Disconnect,
    /// Ask for the status, then call `refresh_status`.
    RefreshStatus,
}

/// What an `Action` holds, as character sequences.
pub enum ActionView {
    Connect(CountryView),
    Disconnect,
    RefreshStatus,
}

impl View for Action {
    type V = ActionView;

    open spec fn view(&self) -> ActionView {
        match *self {
            Action::Connect(country) => ActionView::Connect(country@),
            Action::Disconnect => ActionView::Disconnect,
            Action::RefreshStatus => ActionView::RefreshStatus,
        }
    }
}

/// The view of an optional message.
pub open spec fn message_view(message: Option<Message>) -> Option<MessageView> {
    match message {
        Some(message) => Some(message@),
        None => None,
    }
}

/// The view of an optional action.
pub open spec fn action_view(action: Option<Action>) -> Option<ActionView> {
    match action {
        Some(action) => Some(action@),
        None => None,
    }
}

/// The view of a command's outcome.
pub open spec fn outcome_view(outcome: Result<(), String>) -> Result<(), Seq<char>> {
    match outcome {
        Ok(_) => Ok(()),
        Err(text) => Err(text@),
    }
}

/// The view of a status query's outcome.
pub open spec fn status_outcome_view(outcome: Result<ConnectionStatus, String>) -> Result<
    ConnectionStatusView,
    Seq<char>,
> {
    match outcome {
        Ok(status) => Ok(status@),
        Err(text) => Err(text@),
    }
}

/// `index` brought back into a list of `len` items: the last index where it
/// lay beyond, itself otherwise. With no items there is nothing to bring it
/// back to, and it stays.
pub open spec fn clamped(index: nat, len: nat) -> nat {
    if len > 0 && index >= len {
        (len - 1) as nat
    } else {
        index
    }
}

/// Whether the key carries a character that is alphanumeric.
pub open spec fn key_is_alphanumeric(key: KeyEvent) -> bool {
    match key.code {
        KeyCode::Char(c) => is_alphanumeric(c),
        _ => false,
    }
}

/// The session.
pub struct App {
    /// Whether the session goes on.
    pub running: bool,
    /// Every country, as the client listed them.
    pub countries: Vec<Country>,
    /// The countries that pass the filter.
    pub filtered_countries: Vec<Country>,
    /// The index of the selected country among those that pass the filter.
    pub selected_index: usize,
    /// The connection status as last known.
    pub status: ConnectionStatus,
    /// The filter text.
    pub filter: String,
    /// The note for the user, if there is one.
    pub message: Option<Message>,
    /// What the keys mean at the moment.
    pub mode: InputMode,
    /// The scrollbar beside the list.
    pub scroll_state: ScrollbarState,
    /// The list's own record of the selection.
    pub list_state: ListState,
}

/// What a session holds, as mathematical values.
pub struct AppView {
    pub running: bool,
    pub countries: Seq<CountryView>,
    pub filtered_countries: Seq<CountryView>,
    pub selected_index: nat,
    pub status: ConnectionStatusView,
    pub filter: Seq<char>,
    pub message: Option<MessageView>,
    pub mode: InputMode,
    /// The number of items that the scrollbar was told of.
    pub scroll_length: nat,
    /// The position that the scrollbar was told of.
    pub scroll_position: nat,
    /// The index that the list widget was told is selected.
    pub list_selected: Option<nat>,
}

impl View for App {
    type V = AppView;

    open spec fn view(&self) -> AppView {
        AppView {
            running: self.running,
            countries: roster_view(self.countries@),
            filtered_countries: roster_view(self.filtered_countries@),
            selected_index: self.selected_index as nat,
            status: self.status@,
            filter: self.filter@,
            message: message_view(self.message),
            mode: self.mode,
            scroll_length: scroll_content_length(self.scroll_state) as nat,
            scroll_position: scroll_position(self.scroll_state) as nat,
            list_selected: match list_selected(self.list_state) {
                Some(index) => Some(index as nat),
                None => None,
            },
        }
    }
}

impl AppView {
    /// The selection points at a country, unless there is none to point at.
    pub open spec fn selection_in_range(self) -> bool {
        self.filtered_countries.len() > 0 ==> self.selected_index < self.filtered_countries.len()
    }

    /// The filtered list is what the filter text leaves of the countries.
    pub open spec fn filter_applied(self) -> bool {
        self.filtered_countries == filtered_by(self.countries, self.filter)
    }

    /// The list widget knows the selection and the scrollbar the number of
    /// countries shown.
    pub open spec fn widgets_follow(self) -> bool {
        &&& self.list_selected == Some(self.selected_index)
        &&& self.scroll_length == self.filtered_countries.len()
    }

    /// The session is consistent.
    pub open spec fn wf(self) -> bool {
        &&& self.selection_in_range()
        &&& self.filter_applied()
        &&& self.widgets_follow()
    }

    /// The session at its start: every country shown, the first selected,
    /// the status as reported, or disconnected where the query failed.
    pub open spec fn start(
        countries: Seq<CountryView>,
        status: Result<ConnectionStatusView, Seq<char>>,
    ) -> AppView {
        AppView {
            running: true,
            countries,
            filtered_countries: filtered_by(countries, Seq::empty()),
            selected_index: 0,
            status: match status {
                Ok(status) => status,
                Err(_) => ConnectionStatusView::Disconnected,
            },
            filter: Seq::empty(),
            message: None,
            mode: InputMode::Normal,
            scroll_length: filtered_by(countries, Seq::empty()).len(),
            scroll_position: 0,
            list_selected: Some(0nat),
        }
    }

    /// The session with the filter applied anew: the filtered list is
    /// computed from the countries and the filter text, the selection is
    /// brought back into it, and the widgets are told.
    pub open spec fn refiltered(self) -> AppView {
        let filtered = filtered_by(self.countries, self.filter);
        let selected = clamped(self.selected_index, filtered.len());
        AppView {
            filtered_countries: filtered,
            selected_index: selected,
            scroll_length: filtered.len(),
            list_selected: Some(selected),
            ..self
        }
    }

    /// The session with `filter` as its filter text, applied.
    pub open spec fn with_filter(self, filter: Seq<char>) -> AppView {
        (AppView { filter, ..self }).refiltered()
    }

    /// The session in `mode`.
    pub open spec fn in_mode(self, mode: InputMode) -> AppView {
        AppView { mode, ..self }
    }

    /// The session with `message` as its note.
    pub open spec fn noting(self, message: Option<MessageView>) -> AppView {
        AppView { message, ..self }
    }

    /// The session with `status` as its connection status.
    pub open spec fn with_status(self, status: ConnectionStatusView) -> AppView {
        AppView { status, ..self }
    }

    /// The session told to end.
    pub open spec fn stopped(self) -> AppView {
        AppView { running: false, ..self }
    }

    /// The selection one step up; at the top nothing changes.
    pub open spec fn moved_up(self) -> AppView {
        if self.selected_index > 0 {
            let selected = (self.selected_index - 1) as nat;
            AppView {
                selected_index: selected,
                scroll_position: selected,
                list_selected: Some(selected),
                ..self
            }
        } else {
            self
        }
    }

    /// The selection one step down; at the bottom, and beyond it, nothing
    /// changes.
    pub open spec fn moved_down(self) -> AppView {
        if self.selected_index + 1 < self.filtered_countries.len() {
            let selected = self.selected_index + 1;
            AppView {
                selected_index: selected,
                scroll_position: selected,
                list_selected: Some(selected),
                ..self
            }
        } else {
            self
        }
    }

    /// The wish to connect to the selected country. With no country shown
    /// it is an error and asks for nothing. Otherwise the status becomes
    /// `Connecting` and the driver is asked to connect to that country.
    pub open spec fn connect_requested(self) -> (AppView, Option<ActionView>) {
        if self.filtered_countries.len() == 0 {
            (self.noting(Some(MessageView::Error("No country selected"@))), None)
        } else {
            (
                self.with_status(ConnectionStatusView::Connecting),
                Some(ActionView::Connect(self.filtered_countries[self.selected_index as int])),
            )
        }
    }

    /// The outcome of connecting to `country`. Success is noted and asks
    /// for the status. Failure is noted with what the client said, and the
    /// status falls back to `Disconnected`.
    pub open spec fn connect_finished(self, country: CountryView, outcome: Result<(), Seq<char>>) -> (
        AppView,
        Option<ActionView>,
    ) {
        match outcome {
            Ok(_) => (
                self.noting(
                    Some(MessageView::Success("Connecting to "@ + country.display_name + "..."@)),
                ),
                Some(ActionView::RefreshStatus),
            ),
            Err(text) => (
                self.noting(Some(MessageView::Error("Failed to connect: "@ + text))).with_status(
                    ConnectionStatusView::Disconnected,
                ),
                None,
            ),
        }
    }

    /// The outcome of disconnecting. Success is noted and the status
    /// becomes `Disconnected`. Failure is noted and the status stays.
    pub open spec fn disconnect_finished(self, outcome: Result<(), Seq<char>>) -> AppView {
        match outcome {
            Ok(_) => self.noting(Some(MessageView::Success("Disconnected"@))).with_status(
                ConnectionStatusView::Disconnected,
            ),
            Err(text) => self.noting(Some(MessageView::Error("Failed to disconnect: "@ + text))),
        }
    }

    /// The outcome of a status query. A status replaces the one held.
    /// Failure is noted and the status stays.
    pub open spec fn status_refreshed(
        self,
        outcome: Result<ConnectionStatusView, Seq<char>>,
    ) -> AppView {
        match outcome {
            Ok(status) => self.with_status(status),
            Err(text) => self.noting(Some(MessageView::Error("Failed to get status: "@ + text))),
        }
    }

    /// What a key does while the filter is edited. Escape and Enter leave
    /// the mode. A character is appended to the filter text and Backspace
    /// removes its last one; either way the filter is applied anew. Up and
    /// Down leave the mode and move the selection. Other keys do nothing.
    pub open spec fn filter_key(self, code: KeyCode) -> AppView {
        match code {
            KeyCode::Esc => self.in_mode(InputMode::Normal),
            KeyCode::Enter => self.in_mode(InputMode::Normal),
            KeyCode::Char(c) => self.with_filter(self.filter.push(c)),
            KeyCode::Backspace => self.with_filter(without_last(self.filter)),
            KeyCode::Up => self.in_mode(InputMode::Normal).moved_up(),
            KeyCode::Down => self.in_mode(InputMode::Normal).moved_down(),
            _ => self,
        }
    }

    /// What a character does in normal mode. `q` and `Q` with no modifier
    /// held, and `c` and `C` with Control alone, end the session. `k` moves
    /// up and `j` down, whatever modifier is held. `d` and `D` with Control
    /// alone ask to disconnect, `r` and `R` with Control alone ask for the
    /// status. `/` starts editing the filter, whatever modifier is held.
    /// Any other alphanumeric character with no modifier held starts
    /// editing the filter, is appended to it, and the filter is applied
    /// anew. Everything else does nothing.
    pub open spec fn normal_char(self, c: char, key: KeyEvent, alphanumeric: bool) -> (
        AppView,
        Option<ActionView>,
    ) {
        let plain = key.modifiers.is_none();
        let control = key.modifiers.is_control();
        if ((c == 'q' || c == 'Q') && plain) || ((c == 'c' || c == 'C') && control) {
            (self.stopped(), None)
        } else if c == 'k' {
            (self.moved_up(), None)
        } else if c == 'j' {
            (self.moved_down(), None)
        } else if (c == 'd' || c == 'D') && control {
            (self, Some(ActionView::Disconnect))
        } else if (c == 'r' || c == 'R') && control {
            (self, Some(ActionView::RefreshStatus))
        } else if c == '/' {
            (self.in_mode(InputMode::FilterEntry), None)
        } else if plain && alphanumeric {
            (self.in_mode(InputMode::FilterEntry).with_filter(self.filter.push(c)), None)
        } else {
            (self, None)
        }
    }

    /// What a key does in normal mode. Escape ends the session. Up and
    /// Down move the selection. Enter asks to connect to the selected
    /// country. Backspace with no modifier held, where the filter text is
    /// not empty, starts editing the filter, removes its last character
    /// and applies it anew. Characters are decided by `normal_char`. Other
    /// keys do nothing.
    pub open spec fn normal_key(self, key: KeyEvent, alphanumeric: bool) -> (
        AppView,
        Option<ActionView>,
    ) {
        match key.code {
            KeyCode::Esc => (self.stopped(), None),
            KeyCode::Up => (self.moved_up(), None),
            KeyCode::Down => (self.moved_down(), None),
            KeyCode::Enter => self.connect_requested(),
            KeyCode::Backspace => if key.modifiers.is_none() && self.filter.len() > 0 {
                (
                    self.in_mode(InputMode::FilterEntry).with_filter(without_last(self.filter)),
                    None,
                )
            } else {
                (self, None)
            },
            KeyCode::Char(c) => self.normal_char(c, key, alphanumeric),
            _ => (self, None),
        }
    }

    /// What a key press does: the note is taken down first, whatever the
    /// key, and then the key is read as the mode says. `alphanumeric` says
    /// whether the key's character is a letter or a number.
    pub open spec fn key_pressed(self, key: KeyEvent, alphanumeric: bool) -> (
        AppView,
        Option<ActionView>,
    ) {
        let cleared = self.noting(None);
        match cleared.mode {
            InputMode::FilterEntry => (cleared.filter_key(key.code), None),
            InputMode::Normal => cleared.normal_key(key, alphanumeric),
        }
    }

    /// What an input event does: a key press is read as `key_pressed`
    /// says, and nothing else changes anything.
    pub open spec fn event_handled(self, event: Event, alphanumeric: bool) -> (
        AppView,
        Option<ActionView>,
    ) {
        match event {
            Event::Key(key) => if key.kind == KeyEventKind::Press {
                self.key_pressed(key, alphanumeric)
            } else {
                (self, None)
            },
            _ => (self, None),
        }
    }
}

/// Whether the event is a key press that carries an alphanumeric character.
pub open spec fn event_is_alphanumeric(event: Event) -> bool {
    match event {
        Event::Key(key) => key_is_alphanumeric(key),
        _ => false,
    }
}

impl App {
    /// The session at its start, from the countries that the client listed
    /// and the outcome of the first status query.
    pub fn new(countries: Vec<Country>, status: Result<ConnectionStatus, String>) -> (app: App)
        ensures
            app@ == AppView::start(roster_view(countries@), status_outcome_view(status)),
            app.countries == countries,
            app@.filtered_countries == roster_view(countries@),
            app@.wf(),
    {
        let filter = String::new();
        let filtered_countries = apply_filter(&countries, filter.as_str());
        proof {
            lemma_filter_keeps_all(roster_view(countries@), Seq::empty());
        }
        let scroll_state = scrollbar_position(scrollbar_new(filtered_countries.len()), 0);
        let mut list_state = list_state_default();
        list_state_select(&mut list_state, Some(0));
        let status = match status {
            Ok(status) => status,
            Err(_) => ConnectionStatus::Disconnected,
        };
        App {
            running: true,
            countries,
            filtered_countries,
            selected_index: 0,
            status,
            filter,
            message: None,
            mode: InputMode::Normal,
            scroll_state,
            list_state,
        }
    }

    /// Applies the filter anew.
    pub fn update_filter(&mut self)
        ensures
            final(self)@ == old(self)@.refiltered(),
            final(self)@.wf(),
    {
        self.filtered_countries = apply_filter(&self.countries, self.filter.as_str());
        if self.selected_index >= self.filtered_countries.len()
            && !self.filtered_countries.is_empty() {
            self.selected_index = self.filtered_countries.len() - 1;
        }
        self.scroll_state = scrollbar_content_length(
            self.scroll_state,
            self.filtered_countries.len(),
        );
        list_state_select(&mut self.list_state, Some(self.selected_index));
    }

    /// Takes in the outcome of a status query.
    pub fn refresh_status(&mut self, outcome: Result<ConnectionStatus, String>)
        ensures
            final(self)@ == old(self)@.status_refreshed(status_outcome_view(outcome)),
            old(self)@.wf() ==> final(self)@.wf(),
    {
        match outcome {
            Ok(status) => {
                self.status = status;
            },
            Err(text) => {
                self.message = Some(Message::Error(concat("Failed to get status: ", text.as_str())));
            },
        }
    }

    /// Acts on the wish to connect to the selected country.
    pub fn connect_selected(&mut self) -> (action: Option<Action>)
        requires
            old(self)@.selection_in_range(),
        ensures
            (final(self)@, action_view(action)) == old(self)@.connect_requested(),
            old(self)@.wf() ==> final(self)@.wf(),
    {
        if self.filtered_countries.is_empty() {
            self.message = Some(Message::Error(String::from_str("No country selected")));
            return None;
        }
        let country = self.filtered_countries[self.selected_index].clone();
        self.status = ConnectionStatus::Connecting;
        Some(Action::Connect(country))
    }

    /// Takes in the outcome of connecting to `country`.
    pub fn connect_finished(&mut self, country: &Country, outcome: Result<(), String>) -> (action:
        Option<Action>)
        ensures
            (final(self)@, action_view(action)) == old(self)@.connect_finished(
                country@,
                outcome_view(outcome),
            ),
            old(self)@.wf() ==> final(self)@.wf(),
    {
        match outcome {
            Ok(_) => {
                let mut text = concat("Connecting to ", country.display_name.as_str());
                text.append("...");
                self.message = Some(Message::Success(text));
                Some(Action::RefreshStatus)
            },
            Err(text) => {
                self.message = Some(Message::Error(concat("Failed to connect: ", text.as_str())));
                self.status = ConnectionStatus::Disconnected;
                None
            },
        }
    }

    /// Takes in the outcome of disconnecting.
    pub fn disconnect(&mut self, outcome: Result<(), String>)
        ensures
            final(self)@ == old(self)@.disconnect_finished(outcome_view(outcome)),
            old(self)@.wf() ==> final(self)@.wf(),
    {
        match outcome {
            Ok(_) => {
                self.message = Some(Message::Success(String::from_str("Disconnected")));
                self.status = ConnectionStatus::Disconnected;
            },
            Err(text) => {
                self.message = Some(
                    Message::Error(concat("Failed to disconnect: ", text.as_str())),
                );
            },
        }
    }

    /// Moves the selection one step up.
    pub fn move_up(&mut self)
        ensures
            final(self)@ == old(self)@.moved_up(),
            old(self)@.selection_in_range() ==> final(self)@.selection_in_range(),
            old(self)@.wf() ==> final(self)@.wf(),
    {
        if self.selected_index > 0 {
            self.selected_index -= 1;
            self.scroll_state = scrollbar_position(self.scroll_state, self.selected_index);
            list_state_select(&mut self.list_state, Some(self.selected_index));
        }
    }

    /// Moves the selection one step down.
    pub fn move_down(&mut self)
        ensures
            final(self)@ == old(self)@.moved_down(),
            old(self)@.selection_in_range() ==> final(self)@.selection_in_range(),
            old(self)@.wf() ==> final(self)@.wf(),
    {
        if !self.filtered_countries.is_empty() && self.selected_index
            < self.filtered_countries.len() - 1 {
            self.selected_index += 1;
            self.scroll_state = scrollbar_position(self.scroll_state, self.selected_index);
            list_state_select(&mut self.list_state, Some(self.selected_index));
        }
    }

    /// Ends the session.
    pub fn quit(&mut self)
        ensures
            final(self)@ == old(self)@.stopped(),
            old(self)@.wf() ==> final(self)@.wf(),
    {
        self.running = false;
    }

    /// Appends `c` to the filter text and applies the filter anew.
    fn type_char(&mut self, c: char)
        ensures
            final(self)@ == old(self)@.with_filter(old(self)@.filter.push(c)),
    {
        string_push(&mut self.filter, c);
        self.update_filter();
    }

    /// Removes the last character of the filter text and applies the
    /// filter anew.
    fn erase_char(&mut self)
        ensures
            final(self)@ == old(self)@.with_filter(without_last(old(self)@.filter)),
    {
        let _ = string_pop(&mut self.filter);
        self.update_filter();
    }

    /// Reads a key while the filter is edited.
    fn on_filter_key(&mut self, code: KeyCode)
        ensures
            final(self)@ == old(self)@.filter_key(code),
    {
        match code {
            KeyCode::Esc => {
                self.mode = InputMode::Normal;
            },
            KeyCode::Enter => {
                self.mode = InputMode::Normal;
            },
            KeyCode::Char(c) => {
                self.type_char(c);
            },
            KeyCode::Backspace => {
                self.erase_char();
            },
            KeyCode::Up => {
                self.mode = InputMode::Normal;
                self.move_up();
            },
            KeyCode::Down => {
                self.mode = InputMode::Normal;
                self.move_down();
            },
            _ => {},
        }
    }

    /// Reads a character in normal mode.
    fn on_normal_char(&mut self, c: char, key: KeyEvent, alphanumeric: bool) -> (action: Option<
        Action,
    >)
        ensures
            (final(self)@, action_view(action)) == old(self)@.normal_char(c, key, alphanumeric),
    {
        let plain = key.modifiers.holds_none();
        let control = key.modifiers.holds_control_only();
        if ((c == 'q' || c == 'Q') && plain) || ((c == 'c' || c == 'C') && control) {
            self.quit();
            None
        } else if c == 'k' {
            self.move_up();
            None
        } else if c == 'j' {
            self.move_down();
            None
        } else if (c == 'd' || c == 'D') && control {
            Some(Action::Disconnect)
        } else if (c == 'r' || c == 'R') && control {
            Some(Action::RefreshStatus)
        } else if c == '/' {
            self.mode = InputMode::FilterEntry;
            None
        } else if plain && alphanumeric {
            self.mode = InputMode::FilterEntry;
            self.type_char(c);
            None
        } else {
            None
        }
    }

    /// Reads a key in normal mode.
    fn on_normal_key(&mut self, key: KeyEvent, alphanumeric: bool) -> (action: Option<Action>)
        requires
            old(self)@.selection_in_range(),
        ensures
            (final(self)@, action_view(action)) == old(self)@.normal_key(key, alphanumeric),
    {
        match key.code {
            KeyCode::Esc => {
                self.quit();
                None
            },
            KeyCode::Up => {
                self.move_up();
                None
            },
            KeyCode::Down => {
                self.move_down();
                None
            },
            KeyCode::Enter => self.connect_selected(),
            KeyCode::Backspace => {
                if key.modifiers.holds_none() && !self.filter.as_str().is_empty() {
                    self.mode = InputMode::FilterEntry;
                    self.erase_char();
                }
                None
            },
            KeyCode::Char(c) => self.on_normal_char(c, key, alphanumeric),
            _ => None,
        }
    }

    /// Reads a key press, given whether its character is alphanumeric.
    pub fn apply_key(&mut self, key: KeyEvent, alphanumeric: bool) -> (action: Option<Action>)
        requires
            old(self)@.selection_in_range(),
        ensures
            (final(self)@, action_view(action)) == old(self)@.key_pressed(key, alphanumeric),
            final(self)@.selection_in_range(),
            old(self)@.wf() ==> final(self)@.wf(),
    {
        self.message = None;
        match self.mode {
            InputMode::FilterEntry => {
                self.on_filter_key(key.code);
                None
            },
            InputMode::Normal => self.on_normal_key(key, alphanumeric),
        }
    }

    /// Reads a key press.
    pub fn on_key_event(&mut self, key: KeyEvent) -> (action: Option<Action>)
        requires
            old(self)@.selection_in_range(),
        ensures
            (final(self)@, action_view(action)) == old(self)@.key_pressed(
                key,
                key_is_alphanumeric(key),
            ),
            final(self)@.selection_in_range(),
            old(self)@.wf() ==> final(self)@.wf(),
    {
        let alphanumeric = match key.code {
            KeyCode::Char(c) => char_is_alphanumeric(c),
            _ => false,
        };
        self.apply_key(key, alphanumeric)
    }

    /// Reads an input event: key presses count, nothing else does.
    pub fn handle_event(&mut self, event: Event) -> (action: Option<Action>)
        requires
            old(self)@.selection_in_range(),
        ensures
            (final(self)@, action_view(action)) == old(self)@.event_handled(
                event,
                event_is_alphanumeric(event),
            ),
            final(self)@.selection_in_range(),
            old(self)@.wf() ==> final(self)@.wf(),
    {
        match event {
            Event::Key(key) => {
                if key.kind == KeyEventKind::Press {
                    self.on_key_event(key)
                } else {
                    None
                }
            },
            _ => None,
        }
    }
}

} // verus!
