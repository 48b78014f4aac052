//! Flat per-station timetable: the departures and service alerts of one
//! configured station, as the board reads them.
use vstd::prelude::*;
use vstd::string::*;

verus! {

/// Running state of a departure as reported by the feed.
#[derive(Debug, Clone)]
pub enum DepartureStatus {
    OnTime,
    Delayed,
    Other(String),
}

/// The status that a raw feed token denotes: `onTime`, `delayed`, or
/// anything else kept verbatim.
pub open spec fn status_of(raw: String) -> DepartureStatus {
    if raw@ == "onTime"@ {
        DepartureStatus::OnTime
    } else if raw@ == "delayed"@ {
        DepartureStatus::Delayed
    } else {
        DepartureStatus::Other(raw)
    }
}

impl DepartureStatus {
    /// Reads the feed's departure status token.
    pub fn from_feed(raw: &String) -> (r: DepartureStatus)
        ensures
            r == status_of(*raw),
    {
        proof {
            reveal_strlit("onTime");
            reveal_strlit("delayed");
            assert("onTime"@[0] != "delayed"@[0]);
        }
        let on_time = String::from_str("onTime");
        let delayed = String::from_str("delayed");
        if raw.eq(&on_time) {
            DepartureStatus::OnTime
        } else if raw.eq(&delayed) {
            DepartureStatus::Delayed
        } else {
            DepartureStatus::Other(raw.clone())
        }
    }
}

/// One upcoming service at a stop.
#[derive(Debug, Clone)]
pub struct ScheduledDeparture {
    pub direction_label: String,
    /// Expected departure instant, in seconds since the Unix epoch.
    pub expected_departure_time: i64,
    pub status: DepartureStatus,
    pub has_feature_flag: bool,
}

/// One service alert of a station.
#[derive(Debug, Clone)]
pub struct ServiceAlert {
    pub channel_label: String,
    pub message_text: String,
}

/// The departures and alerts of one configured station.
#[derive(Debug, Clone)]
pub struct StationTimetable {
    pub departures: Vec<ScheduledDeparture>,
    pub alerts: Vec<ServiceAlert>,
}

impl StationTimetable {
    /// The alert shown for the station: the first one, if any.
    pub fn shown_alert(&self) -> (r: Option<&ServiceAlert>)
        ensures
            self.alerts@.len() == 0 ==> r is None,
            self.alerts@.len() > 0 ==> r == Some(&self.alerts@[0]),
    {
        if self.alerts.len() == 0 {
            None
        } else {
            Some(&self.alerts[0])
        }
    }
}

} // verus!
