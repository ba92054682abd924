//! The values that the session shows: a country that can be connected to,
//! and the state of the connection.

use crate::text::concat;
use crate::text::replace_underscores;
use crate::text::spaced;
use vstd::prelude::*;
use vstd::string::StringExecFns;

verus! {

/// A country as the client lists it.
#[derive(Debug, PartialEq, Eq)]
pub struct Country {
    /// The identifier that the client prints and takes.
    pub name: String,
    /// The name shown to the user.
    pub display_name: String,
}

/// What a `Country` holds, as character sequences.
pub struct CountryView {
    pub name: Seq<char>,
    pub display_name: Seq<char>,
}

impl CountryView {
    /// The country with identifier `name`: it is shown under that
    /// identifier with spaces in place of underscores.
    pub open spec fn of_name(name: Seq<char>) -> CountryView {
        CountryView { name, display_name: spaced(name) }
    }
}

impl View for Country {
    type V = CountryView;

    open spec fn view(&self) -> CountryView {
        CountryView { name: self.name@, display_name: self.display_name@ }
    }
}

impl Clone for Country {
    fn clone(&self) -> (c: Country)
        ensures
            c == *self,
    {
        Country { name: self.name.clone(), display_name: self.display_name.clone() }
    }
}

impl Country {
    /// The country with identifier `name`.
    pub fn new(name: String) -> (c: Country)
        ensures
            c.name == name,
            c@ == CountryView::of_name(name@),
    {
        let display_name = replace_underscores(name.as_str());
        Country { name, display_name }
    }

    /// The text that stands for the country on screen: its display name.
    pub fn to_string(&self) -> (s: String)
        ensures
            s@ == self@.display_name,
    {
        self.display_name.clone()
    }
}

/// The views of a list of countries, in order.
pub open spec fn roster_view(countries: Seq<Country>) -> Seq<CountryView> {
    countries.map_values(|c: Country| c@)
}

/// The state of the connection.
#[derive(Debug, PartialEq, Eq)]
pub enum ConnectionStatus {
    Connected { country: String, city: Option<String>, server: Option<String>, ip: Option<String> },
    Disconnected,
    Connecting,
}

/// What a `ConnectionStatus` holds, as character sequences.
pub enum ConnectionStatusView {
    Connected {
        country: Seq<char>,
        city: Option<Seq<char>>,
        server: Option<Seq<char>>,
        ip: Option<Seq<char>>,
    },
    Disconnected,
    Connecting,
}

/// The characters of an optional string.
pub open spec fn optional_view(s: Option<String>) -> Option<Seq<char>> {
    match s {
        Some(s) => Some(s@),
        None => None,
    }
}

impl View for ConnectionStatus {
    type V = ConnectionStatusView;

    open spec fn view(&self) -> ConnectionStatusView {
        match *self {
            ConnectionStatus::Connected { country, city, server, ip } => {
                ConnectionStatusView::Connected {
                    country: country@,
                    city: optional_view(city),
                    server: optional_view(server),
                    ip: optional_view(ip),
                }
            },
            ConnectionStatus::Disconnected => ConnectionStatusView::Disconnected,
            ConnectionStatus::Connecting => ConnectionStatusView::Connecting,
        }
    }
}

impl Clone for ConnectionStatus {
    fn clone(&self) -> (s: ConnectionStatus)
        ensures
            s == *self,
    {
        match self {
            ConnectionStatus::Connected { country, city, server, ip } => {
                ConnectionStatus::Connected {
                    country: country.clone(),
                    city: clone_optional(city),
                    server: clone_optional(server),
                    ip: clone_optional(ip),
                }
            },
            ConnectionStatus::Disconnected => ConnectionStatus::Disconnected,
            ConnectionStatus::Connecting => ConnectionStatus::Connecting,
        }
    }
}

/// A copy of an optional string.
pub fn clone_optional(s: &Option<String>) -> (r: Option<String>)
    ensures
        r == *s,
{
    match s {
        Some(s) => Some(s.clone()),
        None => None,
    }
}

impl ConnectionStatusView {
    /// The line that describes the state: the place, city first where one
    /// is known, then the server in brackets where one is known.
    pub open spec fn text(self) -> Seq<char> {
        match self {
            ConnectionStatusView::Connected { country, city, server, ip } => {
                let place = match city {
                    Some(city) => "Connected to "@ + city + ", "@ + country,
                    None => "Connected to "@ + country,
                };
                match server {
                    Some(server) => place + " ("@ + server + ")"@,
                    None => place,
                }
            },
            ConnectionStatusView::Disconnected => "Disconnected"@,
            ConnectionStatusView::Connecting => "Connecting..."@,
        }
    }
}

impl ConnectionStatus {
    /// The line that describes the state.
    pub fn to_string(&self) -> (s: String)
        ensures
            s@ == self@.text(),
    {
        match self {
            ConnectionStatus::Connected { country, city, server, ip } => {
                let mut s = match city {
                    Some(city) => {
                        let mut s = concat("Connected to ", city.as_str());
                        s.append(", ");
                        s.append(country.as_str());
                        s
                    },
                    None => concat("Connected to ", country.as_str()),
                };
                match server {
                    Some(server) => {
                        s.append(" (");
                        s.append(server.as_str());
                        s.append(")");
                    },
                    None => {},
                }
                s
            },
            ConnectionStatus::Disconnected => String::from_str("Disconnected"),
            ConnectionStatus::Connecting => String::from_str("Connecting..."),
        }
    }
}

} // verus!
