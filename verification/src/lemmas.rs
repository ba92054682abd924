//! What holds of the session whatever keys are pressed.

use crate::app::AppView;
use crate::app::InputMode;
use crate::app::MessageView;
use crate::event::KeyCode;
use crate::event::KeyEvent;
use crate::filter::lemma_filter_keeps_all;
use crate::types::ConnectionStatusView;
use crate::types::CountryView;
use vstd::prelude::*;

verus! {

/// The session after a run of key presses, each given with whether its
/// character is alphanumeric.
pub open spec fn after_keys(start: AppView, keys: Seq<(KeyEvent, bool)>) -> AppView
    decreases keys.len(),
{
    if keys.len() == 0 {
        start
    } else {
        after_keys(start, keys.drop_last()).key_pressed(keys.last().0, keys.last().1).0
    }
}

/// A key press leaves the selection within the filtered list.
pub proof fn lemma_key_keeps_selection_in_range(
    session: AppView,
    key: KeyEvent,
    alphanumeric: bool,
)
    requires
        session.selection_in_range(),
    ensures
        session.key_pressed(key, alphanumeric).0.selection_in_range(),
{
}

/// A key press leaves a consistent session consistent.
pub proof fn lemma_key_keeps_wf(session: AppView, key: KeyEvent, alphanumeric: bool)
    requires
        session.wf(),
    ensures
        session.key_pressed(key, alphanumeric).0.wf(),
{
}

/// Whatever keys are pressed, the selection stays within the filtered list
/// as long as that list is not empty, and a consistent session stays
/// consistent.
pub proof fn lemma_keys_keep_selection_in_range(start: AppView, keys: Seq<(KeyEvent, bool)>)
    requires
        start.selection_in_range(),
    ensures
        after_keys(start, keys).selection_in_range(),
        after_keys(start, keys).filtered_countries.len() > 0 ==> 0 <= after_keys(
            start,
            keys,
        ).selected_index < after_keys(start, keys).filtered_countries.len(),
        start.wf() ==> after_keys(start, keys).wf(),
    decreases keys.len(),
{
    if keys.len() > 0 {
        lemma_keys_keep_selection_in_range(start, keys.drop_last());
        let before = after_keys(start, keys.drop_last());
        lemma_key_keeps_selection_in_range(before, keys.last().0, keys.last().1);
        if start.wf() {
            lemma_key_keeps_wf(before, keys.last().0, keys.last().1);
        }
    }
}

/// The client's answers leave the selection and the filtered list alone.
pub proof fn lemma_outcomes_keep_selection(
    session: AppView,
    country: CountryView,
    outcome: Result<(), Seq<char>>,
    status: Result<ConnectionStatusView, Seq<char>>,
)
    ensures
        session.connect_finished(country, outcome).0.selected_index == session.selected_index,
        session.connect_finished(country, outcome).0.filtered_countries
            == session.filtered_countries,
        session.disconnect_finished(outcome).selected_index == session.selected_index,
        session.disconnect_finished(outcome).filtered_countries == session.filtered_countries,
        session.status_refreshed(status).selected_index == session.selected_index,
        session.status_refreshed(status).filtered_countries == session.filtered_countries,
        session.wf() ==> session.connect_finished(country, outcome).0.wf(),
        session.wf() ==> session.disconnect_finished(outcome).wf(),
        session.wf() ==> session.status_refreshed(status).wf(),
{
}

/// A session is consistent at its start, whatever the countries and the
/// status.
pub proof fn lemma_start_is_wf(
    countries: Seq<CountryView>,
    status: Result<ConnectionStatusView, Seq<char>>,
)
    ensures
        AppView::start(countries, status).wf(),
        AppView::start(countries, status).filtered_countries == countries,
{
    lemma_filter_keeps_all(countries, Seq::empty());
}

/// Whether the key asks to move the selection up in the session's mode:
/// the Up arrow in either mode, and `k` in normal mode.
pub open spec fn asks_up(session: AppView, key: KeyEvent) -> bool {
    key.code == KeyCode::Up || (session.mode == InputMode::Normal && key.code == KeyCode::Char(
        'k',
    ))
}

/// Whether the key asks to move the selection down in the session's mode:
/// the Down arrow in either mode, and `j` in normal mode.
pub open spec fn asks_down(session: AppView, key: KeyEvent) -> bool {
    key.code == KeyCode::Down || (session.mode == InputMode::Normal && key.code == KeyCode::Char(
        'j',
    ))
}

/// Moving up from the first country and moving down from the last one
/// leave the selection where it is; anywhere else they move it by one.
pub proof fn lemma_navigation_stops_at_ends(session: AppView, key: KeyEvent, alphanumeric: bool)
    ensures
        asks_up(session, key) && session.selected_index == 0 ==> session.key_pressed(
            key,
            alphanumeric,
        ).0.selected_index == 0,
        asks_up(session, key) && session.selected_index > 0 ==> session.key_pressed(
            key,
            alphanumeric,
        ).0.selected_index == session.selected_index - 1,
        asks_down(session, key) && session.selected_index + 1 == session.filtered_countries.len()
            ==> session.key_pressed(key, alphanumeric).0.selected_index == session.selected_index,
        asks_down(session, key) && session.selected_index + 1 < session.filtered_countries.len()
            ==> session.key_pressed(key, alphanumeric).0.selected_index == session.selected_index
            + 1,
{
}

/// A key press takes the note down before anything else: the only note
/// that can stand after it is the one that this very key put up, which is
/// the error of asking to connect with no country shown.
pub proof fn lemma_key_takes_note_down(session: AppView, key: KeyEvent, alphanumeric: bool)
    ensures
        session.key_pressed(key, alphanumeric).0.message is None || (session.mode
            == InputMode::Normal && key.code == KeyCode::Enter
            && session.filtered_countries.len() == 0 && session.key_pressed(
            key,
            alphanumeric,
        ).0.message == Some(MessageView::Error("No country selected"@))),
        session.key_pressed(key, alphanumeric) == session.noting(None).key_pressed(
            key,
            alphanumeric,
        ),
{
}

} // verus!
