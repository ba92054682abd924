use nordvpn_tui::nordvpn::CommandOutput;
use nordvpn_tui::nordvpn::NordVPN;
use nordvpn_tui::types::ConnectionStatus;
use nordvpn_tui::types::Country;

fn connected(country: &str, city: Option<&str>, server: Option<&str>, ip: Option<&str>) -> ConnectionStatus {
    ConnectionStatus::Connected {
        country: country.to_string(),
        city: city.map(|s| s.to_string()),
        server: server.map(|s| s.to_string()),
        ip: ip.map(|s| s.to_string()),
    }
}

fn output(success: bool, stdout: &str, stderr: &str) -> CommandOutput {
    CommandOutput { success, stdout: stdout.to_string(), stderr: stderr.to_string() }
}

#[test]
fn status_with_every_field() {
    let raw = "Status: Connected\nCountry: United_States\nCity: New_York\nHostname: us123.nordvpn.com\nIP: 1.2.3.4";
    assert_eq!(
        NordVPN::parse_status(raw),
        connected("United_States", Some("New_York"), Some("us123.nordvpn.com"), Some("1.2.3.4"))
    );
}

#[test]
fn status_without_marker_is_disconnected() {
    assert_eq!(NordVPN::parse_status(""), ConnectionStatus::Disconnected);
    assert_eq!(NordVPN::parse_status("hello\nworld\n"), ConnectionStatus::Disconnected);
    assert_eq!(
        NordVPN::parse_status("Country: France\nCity: Paris\n"),
        ConnectionStatus::Disconnected
    );
}

#[test]
fn status_markers_are_case_sensitive() {
    assert_eq!(
        NordVPN::parse_status("status: connected\nCountry: France\n"),
        ConnectionStatus::Disconnected
    );
    assert_eq!(
        NordVPN::parse_status("Status: Connected\ncountry: France\n"),
        ConnectionStatus::Disconnected
    );
}

#[test]
fn status_disconnected_marker_wins() {
    let raw = "Status: Connected\nCountry: France\nStatus: Disconnected\n";
    assert_eq!(NordVPN::parse_status(raw), ConnectionStatus::Disconnected);
    assert_eq!(NordVPN::parse_status("Status: Disconnected"), ConnectionStatus::Disconnected);
}

#[test]
fn status_connected_without_country_is_disconnected() {
    let raw = "Status: Connected\nCity: Paris\nIP: 9.9.9.9\n";
    assert_eq!(NordVPN::parse_status(raw), ConnectionStatus::Disconnected);
}

#[test]
fn status_with_country_only() {
    let raw = "Status: Connected\nCountry: France\n";
    assert_eq!(NordVPN::parse_status(raw), connected("France", None, None, None));
}

#[test]
fn status_keys_in_any_order() {
    let raw = "IP: 10.0.0.1\nCity: Lyon\nCountry: France\nStatus: Connected\nServer: fr1";
    assert_eq!(
        NordVPN::parse_status(raw),
        connected("France", Some("Lyon"), Some("fr1"), Some("10.0.0.1"))
    );
}

#[test]
fn status_last_occurrence_wins() {
    let raw = "Status: Connected\nCountry: France\nCountry: Spain\nCity: Paris\nCity: Madrid\nIP: 1.1.1.1\nIP: 2.2.2.2\n";
    assert_eq!(
        NordVPN::parse_status(raw),
        connected("Spain", Some("Madrid"), None, Some("2.2.2.2"))
    );
}

#[test]
fn status_server_and_hostname_share_a_field() {
    let first = "Status: Connected\nCountry: France\nServer: fr1\nHostname: fr2.example\n";
    assert_eq!(NordVPN::parse_status(first), connected("France", None, Some("fr1"), None));
    let second = "Status: Connected\nCountry: France\nHostname: fr2.example\nServer: fr1\n";
    assert_eq!(
        NordVPN::parse_status(second),
        connected("France", None, Some("fr2.example"), None)
    );
    let only = "Status: Connected\nCountry: France\nHostname: fr2.example\n";
    assert_eq!(
        NordVPN::parse_status(only),
        connected("France", None, Some("fr2.example"), None)
    );
}

#[test]
fn status_first_server_wins() {
    let raw = "Status: Connected\nCountry: Canada\nServer: a1\nHostname: b2";
    assert_eq!(NordVPN::parse_status(raw), connected("Canada", None, Some("a1"), None));
    let twice = "Status: Connected\nCountry: Canada\nServer: a1\nServer: a2\nCity: Toronto\nCity: Ottawa\n";
    assert_eq!(
        NordVPN::parse_status(twice),
        connected("Canada", Some("Ottawa"), Some("a1"), None)
    );
    let empty_first = "Status: Connected\nCountry: Canada\nServer:\nHostname: b2\n";
    assert_eq!(NordVPN::parse_status(empty_first), connected("Canada", None, Some(""), None));
}

#[test]
fn get_status_takes_the_first_server() {
    let raw = "Status: Connected\nCountry: Canada\nServer: a1\nHostname: b2";
    assert_eq!(
        NordVPN::get_status(&output(true, raw, "")),
        Ok(connected("Canada", None, Some("a1"), None))
    );
}

#[test]
fn status_values_and_lines_are_trimmed() {
    let raw = "  Status: Connected  \r\n\t Country:   United Kingdom \t\r\n   City:London\r\nIP:\r\n";
    assert_eq!(
        NordVPN::parse_status(raw),
        connected("United Kingdom", Some("London"), None, Some(""))
    );
}

#[test]
fn status_key_must_start_the_line() {
    let raw = "Status: Connected\nCountry: France\nCurrent City: Paris\nMy IP: 1.2.3.4\n";
    assert_eq!(NordVPN::parse_status(raw), connected("France", None, None, None));
}

#[test]
fn roster_drops_blank_lines() {
    assert_eq!(
        NordVPN::parse_roster("united_states\n\ncanada\n"),
        vec![
            Country { name: "united_states".to_string(), display_name: "united states".to_string() },
            Country { name: "canada".to_string(), display_name: "canada".to_string() },
        ]
    );
}

#[test]
fn roster_of_nothing_is_empty() {
    assert_eq!(NordVPN::parse_roster(""), Vec::<Country>::new());
    assert_eq!(NordVPN::parse_roster("\n \n\t\r\n"), Vec::<Country>::new());
}

#[test]
fn roster_trims_and_keeps_order_and_duplicates() {
    let listed = NordVPN::parse_roster("  spain \r\nnew_zealand\r\nspain\nitaly");
    let names: Vec<&str> = listed.iter().map(|c| c.name.as_str()).collect();
    assert_eq!(names, vec!["spain", "new_zealand", "spain", "italy"]);
    let shown: Vec<&str> = listed.iter().map(|c| c.display_name.as_str()).collect();
    assert_eq!(shown, vec!["spain", "new zealand", "spain", "italy"]);
}

#[test]
fn country_new_replaces_every_underscore() {
    let c = Country::new("bosnia_and_herzegovina".to_string());
    assert_eq!(c.name, "bosnia_and_herzegovina");
    assert_eq!(c.display_name, "bosnia and herzegovina");
    assert_eq!(c.to_string(), "bosnia and herzegovina");
    let plain = Country::new("france".to_string());
    assert_eq!(plain.display_name, "france");
    assert_eq!(plain.clone(), plain);
}

#[test]
fn status_to_string_formats() {
    assert_eq!(ConnectionStatus::Disconnected.to_string(), "Disconnected");
    assert_eq!(ConnectionStatus::Connecting.to_string(), "Connecting...");
    assert_eq!(connected("France", None, None, None).to_string(), "Connected to France");
    assert_eq!(
        connected("France", Some("Paris"), None, Some("1.2.3.4")).to_string(),
        "Connected to Paris, France"
    );
    assert_eq!(
        connected("France", None, Some("fr1"), None).to_string(),
        "Connected to France (fr1)"
    );
    assert_eq!(
        connected("France", Some("Paris"), Some("fr1"), None).to_string(),
        "Connected to Paris, France (fr1)"
    );
    let status = connected("France", Some("Paris"), Some("fr1"), None);
    assert_eq!(status.clone(), status);
}

#[test]
fn get_countries_reads_a_successful_run() {
    let listed = NordVPN::get_countries(&output(true, "france\nunited_kingdom\n", "ignored"));
    assert_eq!(
        listed,
        Ok(vec![
            Country::new("france".to_string()),
            Country::new("united_kingdom".to_string()),
        ])
    );
}

#[test]
fn get_countries_reports_a_failed_run() {
    let listed = NordVPN::get_countries(&output(false, "france\n", "daemon unreachable"));
    assert_eq!(listed, Err("Failed to get countries: daemon unreachable".to_string()));
}

#[test]
fn get_status_reads_a_successful_run() {
    let status = NordVPN::get_status(&output(true, "Status: Connected\nCountry: Japan\n", ""));
    assert_eq!(status, Ok(connected("Japan", None, None, None)));
    let other = NordVPN::get_status(&output(true, "nothing to see", ""));
    assert_eq!(other, Ok(ConnectionStatus::Disconnected));
}

#[test]
fn get_status_reports_a_failed_run() {
    let status = NordVPN::get_status(&output(false, "Status: Connected\nCountry: Japan\n", "boom"));
    assert_eq!(status, Err("Failed to get status: boom".to_string()));
}

#[test]
fn connect_and_disconnect_report_the_run() {
    assert_eq!(NordVPN::connect(&output(true, "", "")), Ok(()));
    assert_eq!(
        NordVPN::connect(&output(false, "", "not logged in")),
        Err("Failed to connect: not logged in".to_string())
    );
    assert_eq!(NordVPN::disconnect(&output(true, "", "")), Ok(()));
    assert_eq!(
        NordVPN::disconnect(&output(false, "", "busy")),
        Err("Failed to disconnect: busy".to_string())
    );
}

#[test]
fn white_space_is_the_unicode_set() {
    let each = [
        '\u{9}', '\u{a}', '\u{b}', '\u{c}', '\u{d}', '\u{20}', '\u{85}', '\u{a0}', '\u{1680}',
        '\u{2000}', '\u{2001}', '\u{2002}', '\u{2003}', '\u{2004}', '\u{2005}', '\u{2006}',
        '\u{2007}', '\u{2008}', '\u{2009}', '\u{200a}', '\u{2028}', '\u{2029}', '\u{202f}',
        '\u{205f}', '\u{3000}',
    ];
    for c in each {
        let raw = format!("{}spain{}", c, c);
        let listed = NordVPN::parse_roster(&raw);
        assert_eq!(listed.len(), 1);
        assert_eq!(listed[0].name, "spain");
    }
    for c in ['\u{8}', '\u{e}', '\u{1f}', '\u{21}', '\u{84}', '\u{86}', '\u{180e}', '\u{1fff}', '\u{200b}', '\u{2027}', '\u{202a}', '\u{2060}', '\u{feff}', '\u{2fff}', '\u{3001}'] {
        let raw = format!("{}spain{}", c, c);
        let listed = NordVPN::parse_roster(&raw);
        assert_eq!(listed.len(), 1);
        assert_eq!(listed[0].name, raw);
    }
}
