//! What the `nordvpn` command line client prints, read into values: the
//! list of countries, the status report, and the outcome of a command.

use crate::text::chars_of;
use crate::text::concat;
use crate::text::contains_chars;
use crate::text::lemma_line_holds_iff_text_holds;
use crate::text::lemma_split_lines_feed;
use crate::text::lemma_split_lines_grow;
use crate::text::line_end;
use crate::text::range_starts_with;
use crate::text::some_line_holds;
use crate::text::split_lines;
use crate::text::starts_with;
use crate::text::string_of;
use crate::text::trim;
use crate::text::trim_range;
use crate::types::optional_view;
use crate::types::roster_view;
use crate::types::ConnectionStatus;
use crate::types::ConnectionStatusView;
use crate::types::Country;
use crate::types::CountryView;
use vstd::prelude::*;

verus! {

/// The client, as far as its output is concerned.
pub struct NordVPN;

/// What one run of the client left behind.
pub struct CommandOutput {
    /// Whether the run ended with exit status zero.
    pub success: bool,
    /// What it wrote to standard output.
    pub stdout: String,
    /// What it wrote to standard error.
    pub stderr: String,
}

/// The countries that the lines name, in order: each line is trimmed, a
/// line that is then empty names none, and any other is an identifier.
pub open spec fn countries_of_lines(lines: Seq<Seq<char>>) -> Seq<CountryView>
    decreases lines.len(),
{
    if lines.len() == 0 {
        Seq::empty()
    } else {
        let before = countries_of_lines(lines.drop_last());
        let id = trim(lines.last());
        if id.len() == 0 {
            before
        } else {
            before.push(CountryView::of_name(id))
        }
    }
}

/// The countries that a listing names.
pub open spec fn countries_of(raw: Seq<char>) -> Seq<CountryView> {
    countries_of_lines(split_lines(raw))
}

/// The value that a trimmed line gives for `key`: where the line begins
/// with the key, what follows it, trimmed.
pub open spec fn value_after(line: Seq<char>, key: Seq<char>) -> Option<Seq<char>> {
    if starts_with(line, key) {
        Some(trim(line.skip(key.len() as int)))
    } else {
        None
    }
}

/// The value that a line gives for `key`.
pub open spec fn field_value(line: Seq<char>, key: Seq<char>) -> Option<Seq<char>> {
    value_after(trim(line), key)
}

/// The server that a line names: under `Server:`, or else under
/// `Hostname:`.
pub open spec fn server_value(line: Seq<char>) -> Option<Seq<char>> {
    match field_value(line, "Server:"@) {
        Some(value) => Some(value),
        None => field_value(line, "Hostname:"@),
    }
}

/// The value of the last line that gives one for `key`.
pub open spec fn last_value(lines: Seq<Seq<char>>, key: Seq<char>) -> Option<Seq<char>>
    decreases lines.len(),
{
    if lines.len() == 0 {
        None
    } else {
        match field_value(lines.last(), key) {
            Some(value) => Some(value),
            None => last_value(lines.drop_last(), key),
        }
    }
}

/// The server that the first line to name one names. Later lines that
/// name a server count for nothing, whether under the same key or under
/// the other one.
pub open spec fn first_server(lines: Seq<Seq<char>>) -> Option<Seq<char>>
    decreases lines.len(),
{
    if lines.len() == 0 {
        None
    } else {
        match first_server(lines.drop_last()) {
            Some(value) => Some(value),
            None => server_value(lines.last()),
        }
    }
}

/// The state that a status report describes. A report with a line that
/// holds `Status: Disconnected` means disconnected. Otherwise one with a
/// line that holds `Status: Connected`, and with a line that names a
/// country, means connected. Country, city and address each take the last
/// value that any line gives for them, wherever in the report the line
/// stands. The server takes the first value that any line gives under
/// `Server:` or `Hostname:`, also where one of the two keys comes twice.
/// Anything else means disconnected.
pub open spec fn status_of(raw: Seq<char>) -> ConnectionStatusView {
    let lines = split_lines(raw);
    if some_line_holds(lines, "Status: Disconnected"@) {
        ConnectionStatusView::Disconnected
    } else if some_line_holds(lines, "Status: Connected"@) {
        match last_value(lines, "Country:"@) {
            Some(country) => ConnectionStatusView::Connected {
                country,
                city: last_value(lines, "City:"@),
                server: first_server(lines),
                ip: last_value(lines, "IP:"@),
            },
            None => ConnectionStatusView::Disconnected,
        }
    } else {
        ConnectionStatusView::Disconnected
    }
}

/// The value that the trimmed line `v[start..end]` gives for `key`.
fn range_value(v: &Vec<char>, start: usize, end: usize, key: &Vec<char>) -> (r: Option<String>)
    requires
        start <= end <= v.len(),
    ensures
        optional_view(r) == value_after(v@.subrange(start as int, end as int), key@),
{
    if range_starts_with(v, start, end, key) {
        let (a, b) = trim_range(v, start + key.len(), end);
        assert(v@.subrange(start as int, end as int).skip(key@.len() as int) =~= v@.subrange(
            start + key@.len(),
            end as int,
        ));
        Some(string_of(v, a, b))
    } else {
        None
    }
}

/// Reads the line of `v` that starts at `start`, where `read` holds the
/// lines before it. Gives the bounds of the trimmed line, and the index at
/// which the line ends: that of its line feed, or the length of `v` where
/// it is the last line.
fn read_line(v: &Vec<char>, start: usize, Ghost(read): Ghost<Seq<Seq<char>>>) -> (r: (
    usize,
    usize,
    usize,
))
    requires
        start <= v.len(),
        split_lines(v@.take(start as int)) == read.push(Seq::empty()),
    ensures
        start <= r.0 <= r.1 <= r.2 <= v.len(),
        v@.subrange(r.0 as int, r.1 as int) == trim(v@.subrange(start as int, r.2 as int)),
        r.2 == v.len() ==> split_lines(v@) == read.push(v@.subrange(start as int, r.2 as int)),
        r.2 < v.len() ==> split_lines(v@.take(r.2 + 1)) == read.push(
            v@.subrange(start as int, r.2 as int),
        ).push(Seq::empty()),
{
    let end = line_end(v, start);
    let (a, b) = trim_range(v, start, end);
    proof {
        lemma_split_lines_grow(v@, read, start as int, end as int);
        if end == v.len() {
            assert(v@.take(end as int) =~= v@);
        } else {
            lemma_split_lines_feed(
                v@,
                read.push(v@.subrange(start as int, end as int)),
                end as int,
            );
        }
    }
    (a, b, end)
}

impl NordVPN {
    /// Reads the list of countries that the client prints, one identifier
    /// to a line. Blank lines are passed over; nothing else is, so an
    /// identifier that comes twice is listed twice.
    pub fn parse_roster(raw: &str) -> (countries: Vec<Country>)
        ensures
            roster_view(countries@) == countries_of(raw@),
    {
        let v = chars_of(raw);
        let mut countries: Vec<Country> = Vec::new();
        let mut start: usize = 0;
        let mut finished = false;
        let ghost mut read: Seq<Seq<char>> = Seq::empty();
        assert(v@.take(0) =~= Seq::<char>::empty());
        assert(roster_view(countries@) =~= Seq::<CountryView>::empty());
        while !finished
            invariant
                v@ == raw@,
                start <= v.len(),
                !finished ==> split_lines(v@.take(start as int)) == read.push(Seq::empty()),
                finished ==> split_lines(v@) == read,
                roster_view(countries@) == countries_of_lines(read),
            decreases v.len() - start + (if finished { 0int } else { 1int }),
        {
            let (a, b, end) = read_line(&v, start, Ghost(read));
            let ghost line = v@.subrange(start as int, end as int);
            let ghost before = countries@;
            if a < b {
                let country = Country::new(string_of(&v, a, b));
                countries.push(country);
                assert(roster_view(countries@) =~= roster_view(before).push(
                    CountryView::of_name(trim(line)),
                ));
            }
            proof {
                assert(read.push(line).drop_last() =~= read);
                read = read.push(line);
            }
            if end == v.len() {
                finished = true;
            } else {
                start = end + 1;
            }
        }
        countries
    }

    /// Reads a status report.
    pub fn parse_status(raw: &str) -> (status: ConnectionStatus)
        ensures
            status@ == status_of(raw@),
    {
        let v = chars_of(raw);
        proof {
            reveal_strlit("Status: Disconnected");
            reveal_strlit("Status: Connected");
            lemma_line_holds_iff_text_holds(raw@, "Status: Disconnected"@);
            lemma_line_holds_iff_text_holds(raw@, "Status: Connected"@);
        }
        if contains_chars(&v, &chars_of("Status: Disconnected")) {
            return ConnectionStatus::Disconnected;
        }
        if !contains_chars(&v, &chars_of("Status: Connected")) {
            return ConnectionStatus::Disconnected;
        }
        let country_key = chars_of("Country:");
        let city_key = chars_of("City:");
        let server_key = chars_of("Server:");
        let hostname_key = chars_of("Hostname:");
        let ip_key = chars_of("IP:");
        let mut country: Option<String> = None;
        let mut city: Option<String> = None;
        let mut server: Option<String> = None;
        let mut ip: Option<String> = None;
        let mut start: usize = 0;
        let mut finished = false;
        let ghost mut read: Seq<Seq<char>> = Seq::empty();
        assert(v@.take(0) =~= Seq::<char>::empty());
        while !finished
            invariant
                v@ == raw@,
                start <= v.len(),
                country_key@ == "Country:"@,
                city_key@ == "City:"@,
                server_key@ == "Server:"@,
                hostname_key@ == "Hostname:"@,
                ip_key@ == "IP:"@,
                !finished ==> split_lines(v@.take(start as int)) == read.push(Seq::empty()),
                finished ==> split_lines(v@) == read,
                optional_view(country) == last_value(read, "Country:"@),
                optional_view(city) == last_value(read, "City:"@),
                optional_view(server) == first_server(read),
                optional_view(ip) == last_value(read, "IP:"@),
            decreases v.len() - start + (if finished { 0int } else { 1int }),
        {
            let (a, b, end) = read_line(&v, start, Ghost(read));
            let ghost line = v@.subrange(start as int, end as int);
            match range_value(&v, a, b, &country_key) {
                Some(value) => {
                    country = Some(value);
                },
                None => {},
            }
            match range_value(&v, a, b, &city_key) {
                Some(value) => {
                    city = Some(value);
                },
                None => {},
            }
            if server.is_none() {
                server = match range_value(&v, a, b, &server_key) {
                    Some(value) => Some(value),
                    None => range_value(&v, a, b, &hostname_key),
                };
            }
            match range_value(&v, a, b, &ip_key) {
                Some(value) => {
                    ip = Some(value);
                },
                None => {},
            }
            proof {
                assert(read.push(line).drop_last() =~= read);
                read = read.push(line);
            }
            if end == v.len() {
                finished = true;
            } else {
                start = end + 1;
            }
        }
        match country {
            Some(country) => ConnectionStatus::Connected { country, city, server, ip },
            None => ConnectionStatus::Disconnected,
        }
    }

    /// The countries that a run of `nordvpn countries` listed, or, where the
    /// run failed, what it said of the failure.
    pub fn get_countries(output: &CommandOutput) -> (r: Result<Vec<Country>, String>)
        ensures
            match r {
                Ok(countries) => output.success && roster_view(countries@) == countries_of(
                    output.stdout@,
                ),
                Err(message) => !output.success && message@ == "Failed to get countries: "@
                    + output.stderr@,
            },
    {
        if !output.success {
            return Err(concat("Failed to get countries: ", output.stderr.as_str()));
        }
        Ok(Self::parse_roster(output.stdout.as_str()))
    }

    /// The state that a run of `nordvpn status` reported, or, where the run
    /// failed, what it said of the failure.
    pub fn get_status(output: &CommandOutput) -> (r: Result<ConnectionStatus, String>)
        ensures
            match r {
                Ok(status) => output.success && status@ == status_of(output.stdout@),
                Err(message) => !output.success && message@ == "Failed to get status: "@
                    + output.stderr@,
            },
    {
        if !output.success {
            return Err(concat("Failed to get status: ", output.stderr.as_str()));
        }
        Ok(Self::parse_status(output.stdout.as_str()))
    }

    /// Whether a run of `nordvpn connect` succeeded, and what it said where
    /// it did not.
    pub fn connect(output: &CommandOutput) -> (r: Result<(), String>)
        ensures
            match r {
                Ok(_) => output.success,
                Err(message) => !output.success && message@ == "Failed to connect: "@
                    + output.stderr@,
            },
    {
        if !output.success {
            return Err(concat("Failed to connect: ", output.stderr.as_str()));
        }
        Ok(())
    }

    /// Whether a run of `nordvpn disconnect` succeeded, and what it said
    /// where it did not.
    pub fn disconnect(output: &CommandOutput) -> (r: Result<(), String>)
        ensures
            match r {
                Ok(_) => output.success,
                Err(message) => !output.success && message@ == "Failed to disconnect: "@
                    + output.stderr@,
            },
    {
        if !output.success {
            return Err(concat("Failed to disconnect: ", output.stderr.as_str()));
        }
        Ok(())
    }
}

} // verus!
