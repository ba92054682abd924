//! What the screen says of the session: the caption of the filter box and
//! the rows of the list of countries, as texts ready to be drawn.

use crate::app::App;
use crate::app::AppView;
use crate::app::InputMode;
use crate::text::concat;
use crate::text::lowercase;
use crate::text::str_to_lowercase;
use crate::types::roster_view;
use crate::types::ConnectionStatus;
use crate::types::ConnectionStatusView;
use crate::types::Country;
use crate::types::CountryView;
use vstd::prelude::*;
use vstd::string::StringExecFns;

verus! {

/// The caption of the filter box: the text being edited between a slash
/// and a cursor, or the filter in force, or a hint where there is none.
pub open spec fn filter_caption_of(session: AppView) -> Seq<char> {
    if session.mode == InputMode::FilterEntry {
        "/"@ + session.filter + "_"@
    } else if session.filter.len() == 0 {
        "Type to filter countries"@
    } else {
        "Filter: "@ + session.filter
    }
}

/// Whether the status says that the connection goes to this country: it
/// names the country's display name, letter case set aside.
pub open spec fn is_connected_to(status: ConnectionStatusView, country: CountryView) -> bool {
    match status {
        ConnectionStatusView::Connected { country: name, city, server, ip } => lowercase(
            country.display_name,
        ) == lowercase(name),
        _ => false,
    }
}

/// The text of a row: a pointer in front of the selected country, two
/// spaces in front of any other, and a dot behind the one connected to.
pub open spec fn row_text_of(display_name: Seq<char>, selected: bool, connected: bool) -> Seq<
    char,
> {
    let front = if selected {
        "\u{25b6} "@
    } else {
        "  "@
    };
    if connected {
        front + display_name + " \u{25cf}"@
    } else {
        front + display_name
    }
}

/// One row of the list of countries.
#[derive(Debug, PartialEq, Eq)]
pub struct CountryRow {
    /// The text to draw.
    pub text: String,
    /// Whether this is the selected country.
    pub selected: bool,
    /// Whether the connection goes to this country.
    pub connected: bool,
}

/// What a `CountryRow` holds, as mathematical values.
pub struct CountryRowView {
    pub text: Seq<char>,
    pub selected: bool,
    pub connected: bool,
}

impl View for CountryRow {
    type V = CountryRowView;

    open spec fn view(&self) -> CountryRowView {
        CountryRowView { text: self.text@, selected: self.selected, connected: self.connected }
    }
}

/// The row that shows the country at `index` of the filtered list.
pub open spec fn row_of(session: AppView, index: int) -> CountryRowView {
    let country = session.filtered_countries[index];
    let selected = index == session.selected_index;
    let connected = is_connected_to(session.status, country);
    CountryRowView {
        text: row_text_of(country.display_name, selected, connected),
        selected,
        connected,
    }
}

/// The caption of the filter box.
pub fn filter_caption(app: &App) -> (caption: String)
    ensures
        caption@ == filter_caption_of(app@),
{
    match app.mode {
        InputMode::FilterEntry => {
            let mut caption = concat("/", app.filter.as_str());
            caption.append("_");
            caption
        },
        InputMode::Normal => {
            if app.filter.as_str().is_empty() {
                String::from_str("Type to filter countries")
            } else {
                concat("Filter: ", app.filter.as_str())
            }
        },
    }
}

/// Whether the status says that the connection goes to this country.
pub fn connected_to(status: &ConnectionStatus, country: &Country) -> (r: bool)
    ensures
        r == is_connected_to(status@, country@),
{
    match status {
        ConnectionStatus::Connected { country: name, city, server, ip } => {
            let shown = str_to_lowercase(country.display_name.as_str());
            let named = str_to_lowercase(name.as_str());
            shown == named
        },
        _ => false,
    }
}

/// The rows of the list of countries, one for each country that passes
/// the filter, in order.
pub fn country_rows(app: &App) -> (rows: Vec<CountryRow>)
    ensures
        rows@.len() == app@.filtered_countries.len(),
        forall|i: int| 0 <= i < rows@.len() ==> (#[trigger] rows@[i])@ == row_of(app@, i),
{
    let mut rows: Vec<CountryRow> = Vec::new();
    let mut i: usize = 0;
    while i < app.filtered_countries.len()
        invariant
            i <= app.filtered_countries.len(),
            rows@.len() == i,
            forall|j: int| 0 <= j < i ==> (#[trigger] rows@[j])@ == row_of(app@, j),
        decreases app.filtered_countries.len() - i,
    {
        let country = &app.filtered_countries[i];
        let selected = i == app.selected_index;
        let connected = connected_to(&app.status, country);
        let mut text = if selected {
            concat("\u{25b6} ", country.display_name.as_str())
        } else {
            concat("  ", country.display_name.as_str())
        };
        if connected {
            text.append(" \u{25cf}");
        }
        assert(roster_view(app.filtered_countries@)[i as int] == country@);
        rows.push(CountryRow { text, selected, connected });
        i += 1;
    }
    rows
}

} // verus!
