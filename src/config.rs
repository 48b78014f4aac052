//! The dashboard's configuration: the feed key and the monitored stations.
use vstd::prelude::*;
use vstd::string::*;

verus! {

/// One monitored line at one stop.
#[derive(Debug, Clone)]
pub struct Station {
    pub line_ref: String,
    pub stop_point_ref: String,
    pub name: String,
}

/// The persisted configuration.
#[derive(Debug, Clone)]
pub struct Config {
    pub api_key: String,
    pub stations: Vec<Station>,
}

/// `s` is the station `line`, `stop`, `name`.
pub open spec fn station_is(s: Station, line: Seq<char>, stop: Seq<char>, name: Seq<char>) -> bool {
    s.line_ref@ == line && s.stop_point_ref@ == stop && s.name@ == name
}

/// The example stations that the default configuration ships.
pub open spec fn default_stations(s: Seq<Station>) -> bool {
    &&& s.len() == 4
    &&& station_is(s[0], "C01378"@, "A463226"@, "Michel Bizot (8) (Balard)"@)
    &&& station_is(s[1], "C02251"@, "A23512"@, "Wattignies - Gravelle (77) (Gare de Lyon)"@)
    &&& station_is(s[2], "C01119"@, "A23512"@, "Wattignies - Gravelle (87) (Invalides)"@)
    &&& station_is(
        s[3],
        "C01743"@,
        "A473907"@,
        "Luxembourg (RER B) (Robinson • Saint-Rémy-lès-Chevreuse)"@,
    )
}

impl Station {
    /// A station from its line, stop point and display name.
    pub fn new(line_ref: &str, stop_point_ref: &str, name: &str) -> (r: Station)
        ensures
            station_is(r, line_ref@, stop_point_ref@, name@),
    {
        Station {
            line_ref: String::from_str(line_ref),
            stop_point_ref: String::from_str(stop_point_ref),
            name: String::from_str(name),
        }
    }
}

impl Default for Config {
    /// No feed key, and four example stations of the Paris network.
    fn default() -> (r: Config)
        ensures
            r.api_key@.len() == 0,
            default_stations(r.stations@),
    {
        let stations = vec![
            Station::new("C01378", "A463226", "Michel Bizot (8) (Balard)"),
            Station::new("C02251", "A23512", "Wattignies - Gravelle (77) (Gare de Lyon)"),
            Station::new("C01119", "A23512", "Wattignies - Gravelle (87) (Invalides)"),
            Station::new(
                "C01743",
                "A473907",
                "Luxembourg (RER B) (Robinson • Saint-Rémy-lès-Chevreuse)",
            ),
        ];
        Config { api_key: String::new(), stations }
    }
}

} // verus!
