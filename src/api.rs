//! Records of the transit feed, in the nesting of its wire schema, and their
//! flattening into per-station timetables.
use vstd::prelude::*;

use crate::timetable::{status_of, DepartureStatus, ScheduledDeparture, ServiceAlert, StationTimetable};

verus! {

/// A wrapped text value of the feed.
#[derive(Debug, Clone, Default)]
pub struct Value {
    pub value: String,
}

/// The stop event of a journey at the monitored stop.
#[derive(Debug, Clone, Default)]
pub struct MonitoredCall {
    /// RFC 3339 timestamp.
    pub expected_departure_time: String,
    pub departure_status: String,
}

/// One monitored vehicle journey.
#[derive(Debug, Clone, Default)]
pub struct Departure {
    pub direction_name: Vec<Value>,
    pub monitored_call: MonitoredCall,
    pub vehicle_feature_ref: Vec<String>,
}

#[derive(Debug, Clone, Default)]
pub struct MonitoredStopVisit {
    pub monitored_vehicle_journey: Departure,
}

#[derive(Debug, Clone, Default)]
pub struct StopMonitoringDelivery {
    pub monitored_stop_visit: Vec<MonitoredStopVisit>,
}

#[derive(Debug, Clone, Default)]
pub struct ServiceDelivery {
    pub stop_monitoring_delivery: Vec<StopMonitoringDelivery>,
}

#[derive(Debug, Clone, Default)]
pub struct Siri {
    pub service_delivery: ServiceDelivery,
}

/// A stop-monitoring response.
#[derive(Debug, Clone, Default)]
pub struct DepartureData {
    pub siri: Siri,
}

/// A general-message response.
#[derive(Debug, Clone, Default)]
pub struct GeneralMessageData {
    pub siri: SiriB,
}

#[derive(Debug, Clone, Default)]
pub struct SiriB {
    pub service_delivery: ServiceDeliveryB,
}

#[derive(Debug, Clone, Default)]
pub struct ServiceDeliveryB {
    pub general_message_delivery: Vec<GeneralMessageDelivery>,
}

#[derive(Debug, Clone, Default)]
pub struct GeneralMessageDelivery {
    pub info_message: Vec<InfoMessage>,
}

#[derive(Debug, Clone, Default)]
pub struct InfoMessage {
    pub info_channel_ref: Value,
    pub info_channel_content: Content,
}

#[derive(Debug, Clone, Default)]
pub struct Content {
    pub message: Vec<Message>,
}

#[derive(Debug, Clone, Default)]
pub struct Message {
    pub message_text: Value,
}

/// Both responses of every configured station, in station order.
#[derive(Debug, Clone, Default)]
pub struct CollectedData {
    pub departure_data_list: Vec<DepartureData>,
    pub general_message_data_list: Vec<GeneralMessageData>,
}

/// Why a feed response cannot be flattened.
#[derive(Clone, Copy, Debug, PartialEq, Eq, Structural)]
pub enum FeedError {
    /// The response holds no delivery.
    NoDelivery,
    /// A journey has no direction name.
    MissingDirection,
    /// A journey's expected departure time is not an RFC 3339 timestamp.
    BadTimestamp,
    /// The first info message of a response has no message text.
    MissingMessage,
    /// The two response lists differ in length.
    LengthMismatch,
}

/// The instant, in seconds since the Unix epoch, that chrono reads from an
/// RFC 3339 timestamp, or `None` where it rejects the text.
pub uninterp spec fn rfc3339_seconds_of(text: Seq<char>) -> Option<i64>;

/// Relies on chrono's `DateTime::parse_from_rfc3339` and `timestamp`: the
/// result depends on the text alone.
#[verifier::external_body]
fn parse_rfc3339(text: &str) -> (r: Option<i64>)
    ensures
        r == rfc3339_seconds_of(text@),
{
    chrono::DateTime::parse_from_rfc3339(text).ok().map(|t| t.timestamp())
}

/// The flat departure of one journey.
pub open spec fn departure_of(j: Departure) -> Result<ScheduledDeparture, FeedError> {
    if j.direction_name@.len() == 0 {
        Err(FeedError::MissingDirection)
    } else if rfc3339_seconds_of(j.monitored_call.expected_departure_time@) is None {
        Err(FeedError::BadTimestamp)
    } else {
        Ok(
            ScheduledDeparture {
                direction_label: j.direction_name@[0].value,
                expected_departure_time: rfc3339_seconds_of(
                    j.monitored_call.expected_departure_time@,
                )->Some_0,
                status: status_of(j.monitored_call.departure_status),
                has_feature_flag: j.vehicle_feature_ref@.len() > 0,
            },
        )
    }
}

/// The flat departures of a list of visits, or the error of the first
/// faulty one.
pub open spec fn visits_of(visits: Seq<MonitoredStopVisit>) -> Result<
    Seq<ScheduledDeparture>,
    FeedError,
>
    decreases visits.len(),
{
    if visits.len() == 0 {
        Ok(Seq::empty())
    } else {
        match visits_of(visits.drop_last()) {
            Err(e) => Err(e),
            Ok(done) => match departure_of(visits.last().monitored_vehicle_journey) {
                Err(e) => Err(e),
                Ok(d) => Ok(done.push(d)),
            },
        }
    }
}

/// The departures of a stop-monitoring response: those of its first
/// delivery.
pub open spec fn departures_of(d: DepartureData) -> Result<Seq<ScheduledDeparture>, FeedError> {
    if d.siri.service_delivery.stop_monitoring_delivery@.len() == 0 {
        Err(FeedError::NoDelivery)
    } else {
        visits_of(d.siri.service_delivery.stop_monitoring_delivery@[0].monitored_stop_visit@)
    }
}

/// The flat alert of one info message.
pub open spec fn alert_of(m: InfoMessage) -> Result<ServiceAlert, FeedError> {
    if m.info_channel_content.message@.len() == 0 {
        Err(FeedError::MissingMessage)
    } else {
        Ok(
            ServiceAlert {
                channel_label: m.info_channel_ref.value,
                message_text: m.info_channel_content.message@[0].message_text.value,
            },
        )
    }
}

/// The alerts of a general-message response: the first info message of its
/// first delivery, if there is one. Later info messages and later deliveries
/// are not read, so they can cause no error.
pub open spec fn alerts_of(g: GeneralMessageData) -> Result<Seq<ServiceAlert>, FeedError> {
    if g.siri.service_delivery.general_message_delivery@.len() == 0 {
        Err(FeedError::NoDelivery)
    } else {
        let messages = g.siri.service_delivery.general_message_delivery@[0].info_message@;
        if messages.len() == 0 {
            Ok(Seq::empty())
        } else {
            match alert_of(messages[0]) {
                Err(e) => Err(e),
                Ok(a) => Ok(seq![a]),
            }
        }
    }
}

/// The first fault of one station's pair of responses, if any.
pub open spec fn station_fault_of(d: DepartureData, g: GeneralMessageData) -> Option<FeedError> {
    match departures_of(d) {
        Err(e) => Some(e),
        Ok(_) => match alerts_of(g) {
            Err(e) => Some(e),
            Ok(_) => None,
        },
    }
}

/// `t` is the timetable that a faultless pair of responses gives.
pub open spec fn timetable_from(t: StationTimetable, d: DepartureData, g: GeneralMessageData) -> bool {
    &&& departures_of(d) == Ok::<Seq<ScheduledDeparture>, FeedError>(t.departures@)
    &&& alerts_of(g) == Ok::<Seq<ServiceAlert>, FeedError>(t.alerts@)
}

/// Prefixes: an error among the first `k` visits is the error of all visits.
proof fn lemma_visits_prefix_error(visits: Seq<MonitoredStopVisit>, k: int)
    requires
        0 <= k <= visits.len(),
        visits_of(visits.take(k)) is Err,
    ensures
        visits_of(visits) == visits_of(visits.take(k)),
    decreases visits.len() - k,
{
    if k < visits.len() {
        assert(visits.take(k + 1).drop_last() =~= visits.take(k));
        lemma_visits_prefix_error(visits, k + 1);
    } else {
        assert(visits.take(k) =~= visits);
    }
}

impl Departure {
    /// The flat departure of this journey: its first direction name, its
    /// parsed expected time, its status and whether it lists a vehicle
    /// feature.
    pub fn to_scheduled(&self) -> (r: Result<ScheduledDeparture, FeedError>)
        ensures
            r == departure_of(*self),
    {
        if self.direction_name.len() == 0 {
            return Err(FeedError::MissingDirection);
        }
        match parse_rfc3339(self.monitored_call.expected_departure_time.as_str()) {
            None => Err(FeedError::BadTimestamp),
            Some(t) => Ok(
                ScheduledDeparture {
                    direction_label: self.direction_name[0].value.clone(),
                    expected_departure_time: t,
                    status: DepartureStatus::from_feed(&self.monitored_call.departure_status),
                    has_feature_flag: self.vehicle_feature_ref.len() > 0,
                },
            ),
        }
    }
}

impl InfoMessage {
    /// The flat alert of this message: its channel and its first text.
    pub fn to_alert(&self) -> (r: Result<ServiceAlert, FeedError>)
        ensures
            r == alert_of(*self),
    {
        if self.info_channel_content.message.len() == 0 {
            Err(FeedError::MissingMessage)
        } else {
            Ok(
                ServiceAlert {
                    channel_label: self.info_channel_ref.value.clone(),
                    message_text: self.info_channel_content.message[0].message_text.value.clone(),
                },
            )
        }
    }
}

impl DepartureData {
    /// The departures of the first delivery, in feed order.
    pub fn departures(&self) -> (r: Result<Vec<ScheduledDeparture>, FeedError>)
        ensures
            match r {
                Ok(v) => departures_of(*self) == Ok::<Seq<ScheduledDeparture>, FeedError>(v@),
                Err(e) => departures_of(*self) == Err::<Seq<ScheduledDeparture>, FeedError>(e),
            },
    {
        let deliveries = &self.siri.service_delivery.stop_monitoring_delivery;
        if deliveries.len() == 0 {
            return Err(FeedError::NoDelivery);
        }
        let visits = &deliveries[0].monitored_stop_visit;
        assert(departures_of(*self) == visits_of(visits@));
        let mut out: Vec<ScheduledDeparture> = Vec::new();
        let mut i: usize = 0;
        while i < visits.len()
            invariant
                i <= visits@.len(),
                departures_of(*self) == visits_of(visits@),
                visits_of(visits@.take(i as int)) == Ok::<Seq<ScheduledDeparture>, FeedError>(
                    out@,
                ),
            decreases visits@.len() - i,
        {
            assert(visits@.take(i + 1).drop_last() =~= visits@.take(i as int));
            match visits[i].monitored_vehicle_journey.to_scheduled() {
                Err(e) => {
                    proof {
                        assert(visits@.take(i + 1).last() == visits@[i as int]);
                        assert(visits_of(visits@.take(i + 1)) == Err::<Seq<ScheduledDeparture>, FeedError>(e));
                        lemma_visits_prefix_error(visits@, i + 1);
                    }
                    return Err(e);
                },
                Ok(d) => {
                    out.push(d);
                },
            }
            i = i + 1;
        }
        assert(visits@.take(i as int) =~= visits@);
        Ok(out)
    }
}

impl GeneralMessageData {
    /// The alert of the first delivery: its first info message, if any.
    /// Only that message can fail for a missing text; the rest are not read.
    pub fn alerts(&self) -> (r: Result<Vec<ServiceAlert>, FeedError>)
        ensures
            match r {
                Ok(v) => alerts_of(*self) == Ok::<Seq<ServiceAlert>, FeedError>(v@),
                Err(e) => alerts_of(*self) == Err::<Seq<ServiceAlert>, FeedError>(e),
            },
    {
        let deliveries = &self.siri.service_delivery.general_message_delivery;
        if deliveries.len() == 0 {
            return Err(FeedError::NoDelivery);
        }
        let messages = &deliveries[0].info_message;
        let mut out: Vec<ServiceAlert> = Vec::new();
        if messages.len() > 0 {
            match messages[0].to_alert() {
                Err(e) => {
                    return Err(e);
                },
                Ok(a) => {
                    out.push(a);
                },
            }
        }
        assert(out@ =~= alerts_of(*self)->Ok_0);
        Ok(out)
    }
}

impl CollectedData {
    /// One timetable per station, in station order; the first fault, station
    /// by station and departures before alerts, ends the flattening.
    pub fn timetables(&self) -> (r: Result<Vec<StationTimetable>, FeedError>)
        ensures
            match r {
                Ok(v) => {
                    &&& self.departure_data_list@.len() == self.general_message_data_list@.len()
                    &&& v@.len() == self.departure_data_list@.len()
                    &&& forall|i: int|
                        0 <= i < v@.len() ==> timetable_from(
                            #[trigger] v@[i],
                            self.departure_data_list@[i],
                            self.general_message_data_list@[i],
                        )
                },
                Err(e) => {
                    ||| (self.departure_data_list@.len() != self.general_message_data_list@.len()
                        && e == FeedError::LengthMismatch)
                    ||| (self.departure_data_list@.len() == self.general_message_data_list@.len()
                        && exists|i: int|
                        0 <= i < self.departure_data_list@.len() && station_fault_of(
                            self.departure_data_list@[i],
                            self.general_message_data_list@[i],
                        ) == Some(e) && forall|j: int|
                            0 <= j < i ==> station_fault_of(
                                #[trigger] self.departure_data_list@[j],
                                self.general_message_data_list@[j],
                            ) is None)
                },
            },
    {
        let n = self.departure_data_list.len();
        if n != self.general_message_data_list.len() {
            return Err(FeedError::LengthMismatch);
        }
        let mut out: Vec<StationTimetable> = Vec::new();
        let mut i: usize = 0;
        while i < n
            invariant
                i <= n,
                n == self.departure_data_list@.len(),
                n == self.general_message_data_list@.len(),
                out@.len() == i,
                forall|k: int|
                    0 <= k < i ==> timetable_from(
                        #[trigger] out@[k],
                        self.departure_data_list@[k],
                        self.general_message_data_list@[k],
                    ),
                forall|j: int|
                    0 <= j < i ==> station_fault_of(
                        #[trigger] self.departure_data_list@[j],
                        self.general_message_data_list@[j],
                    ) is None,
            decreases n - i,
        {
            let departures = match self.departure_data_list[i].departures() {
                Err(e) => {
                    return Err(e);
                },
                Ok(v) => v,
            };
            let alerts = match self.general_message_data_list[i].alerts() {
                Err(e) => {
                    return Err(e);
                },
                Ok(v) => v,
            };
            out.push(StationTimetable { departures, alerts });
            i = i + 1;
        }
        Ok(out)
    }
}

} // verus!
