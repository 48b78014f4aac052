use nezumi_p::api::{
    CollectedData, Content, Departure, DepartureData, FeedError, GeneralMessageData,
    GeneralMessageDelivery, InfoMessage, Message, MonitoredCall, MonitoredStopVisit,
    ServiceDelivery, ServiceDeliveryB, Siri, SiriB, StopMonitoringDelivery, Value,
};
use nezumi_p::board::board_frame;
use nezumi_p::config::{Config, Station};
use nezumi_p::layout::Region;
use nezumi_p::timetable::DepartureStatus;

fn value(s: &str) -> Value {
    Value { value: s.to_string() }
}

fn journey(direction: &str, time: &str, status: &str, features: usize) -> MonitoredStopVisit {
    let direction_name = if direction.is_empty() { vec![] } else { vec![value(direction)] };
    MonitoredStopVisit {
        monitored_vehicle_journey: Departure {
            direction_name,
            monitored_call: MonitoredCall {
                expected_departure_time: time.to_string(),
                departure_status: status.to_string(),
            },
            vehicle_feature_ref: vec!["lowFloor".to_string(); features],
        },
    }
}

fn departures(deliveries: Vec<Vec<MonitoredStopVisit>>) -> DepartureData {
    DepartureData {
        siri: Siri {
            service_delivery: ServiceDelivery {
                stop_monitoring_delivery: deliveries
                    .into_iter()
                    .map(|v| StopMonitoringDelivery { monitored_stop_visit: v })
                    .collect(),
            },
        },
    }
}

fn info(channel: &str, texts: &[&str]) -> InfoMessage {
    InfoMessage {
        info_channel_ref: value(channel),
        info_channel_content: Content {
            message: texts.iter().map(|t| Message { message_text: value(t) }).collect(),
        },
    }
}

fn messages(deliveries: Vec<Vec<InfoMessage>>) -> GeneralMessageData {
    GeneralMessageData {
        siri: SiriB {
            service_delivery: ServiceDeliveryB {
                general_message_delivery: deliveries
                    .into_iter()
                    .map(|m| GeneralMessageDelivery { info_message: m })
                    .collect(),
            },
        },
    }
}

#[test]
fn flattens_first_delivery() {
    let data = departures(vec![
        vec![
            journey("Balard", "2024-05-01T12:00:00Z", "onTime", 0),
            journey("Créteil", "2024-05-01T14:30:00+02:00", "delayed", 2),
        ],
        vec![journey("Ignored", "2024-05-01T12:00:00Z", "onTime", 0)],
    ]);
    let flat = data.departures().unwrap();
    assert_eq!(flat.len(), 2);
    assert_eq!(flat[0].direction_label, "Balard");
    assert_eq!(flat[0].expected_departure_time, 1_714_564_800);
    assert!(matches!(flat[0].status, DepartureStatus::OnTime));
    assert!(!flat[0].has_feature_flag);
    assert_eq!(flat[1].direction_label, "Créteil");
    assert_eq!(flat[1].expected_departure_time, 1_714_566_600);
    assert!(matches!(flat[1].status, DepartureStatus::Delayed));
    assert!(flat[1].has_feature_flag);
}

#[test]
fn departure_errors() {
    assert_eq!(departures(vec![]).departures().unwrap_err(), FeedError::NoDelivery);
    let no_direction = departures(vec![vec![journey("", "2024-05-01T12:00:00Z", "onTime", 0)]]);
    assert_eq!(no_direction.departures().unwrap_err(), FeedError::MissingDirection);
    let bad_time = departures(vec![vec![
        journey("Balard", "2024-05-01T12:00:00Z", "onTime", 0),
        journey("Balard", "noon", "onTime", 0),
        journey("", "noon", "onTime", 0),
    ]]);
    assert_eq!(bad_time.departures().unwrap_err(), FeedError::BadTimestamp);
    assert!(departures(vec![vec![]]).departures().unwrap().is_empty());
}

#[test]
fn alerts_of_first_delivery() {
    let data = messages(vec![
        vec![info("Perturbation", &["Trafic interrompu", "second"]), info("Info", &["Travaux"])],
        vec![info("Ignored", &["not read"])],
    ]);
    let alerts = data.alerts().unwrap();
    assert_eq!(alerts.len(), 1);
    assert_eq!(alerts[0].channel_label, "Perturbation");
    assert_eq!(alerts[0].message_text, "Trafic interrompu");
    assert_eq!(messages(vec![]).alerts().unwrap_err(), FeedError::NoDelivery);
    assert_eq!(messages(vec![vec![info("Info", &[])]]).alerts().unwrap_err(), FeedError::MissingMessage);
    assert!(messages(vec![vec![]]).alerts().unwrap().is_empty());
}

#[test]
fn later_info_messages_are_not_read() {
    let data = messages(vec![vec![info("Perturbation", &["Trafic interrompu"]), info("Info", &[])]]);
    let alerts = data.alerts().unwrap();
    assert_eq!(alerts.len(), 1);
    assert_eq!(alerts[0].message_text, "Trafic interrompu");
    let collected = CollectedData {
        departure_data_list: vec![departures(vec![vec![]])],
        general_message_data_list: vec![data],
    };
    let store = collected.timetables().unwrap();
    assert_eq!(store[0].shown_alert().unwrap().channel_label, "Perturbation");
}

#[test]
fn timetables_per_station() {
    let collected = CollectedData {
        departure_data_list: vec![
            departures(vec![vec![journey("Balard", "2024-05-01T12:00:00Z", "onTime", 0)]]),
            departures(vec![vec![]]),
        ],
        general_message_data_list: vec![messages(vec![vec![]]), messages(vec![vec![info("Info", &["Travaux"])]])],
    };
    let store = collected.timetables().unwrap();
    assert_eq!(store.len(), 2);
    assert_eq!(store[0].departures.len(), 1);
    assert!(store[0].shown_alert().is_none());
    assert!(store[1].departures.is_empty());
    assert_eq!(store[1].shown_alert().unwrap().message_text, "Travaux");

    let mismatch = CollectedData { departure_data_list: vec![departures(vec![vec![]])], general_message_data_list: vec![] };
    assert_eq!(mismatch.timetables().unwrap_err(), FeedError::LengthMismatch);

    let faulty = CollectedData {
        departure_data_list: vec![departures(vec![vec![]]), departures(vec![])],
        general_message_data_list: vec![messages(vec![vec![info("Info", &[])]]), messages(vec![vec![]])],
    };
    assert_eq!(faulty.timetables().unwrap_err(), FeedError::MissingMessage);
}

#[test]
fn frame_for_selected_station() {
    let data = departures(vec![vec![
        journey("Balard", "2024-05-01T12:30:00Z", "onTime", 0),
        journey("Balard", "2024-05-01T13:30:00Z", "cancelled", 1),
    ]]);
    let store = CollectedData {
        departure_data_list: vec![data],
        general_message_data_list: vec![messages(vec![vec![]])],
    }
    .timetables()
    .unwrap();
    let now = 1_714_564_800;
    let rows = board_frame(&store[0], now, 60, Region { x: 40, y: 1, width: 60, height: 50 });
    assert_eq!(rows.len(), 2);
    assert_eq!(rows[0].countdown.proximity_ratio, 50);
    assert!(rows[0].countdown.display_text.ends_with(" ON TIME"));
    assert_eq!(rows[1].countdown.proximity_ratio, 100);
    assert!(rows[1].countdown.display_text.ends_with(" cancelled"));
    assert_eq!(rows[1].footer_glyphs, "/˳˳_˳˳][˳˳_˳˳][˳˳_˳˳][˳˳_˳˳][˳˳_˳˳][˳˳_˳˳][˳˳_˳˳\\");
    assert_eq!(rows[0].zones.frame, Region { x: 41, y: 2, width: 58, height: 6 });
}

#[test]
fn default_config_has_four_stations() {
    let cfg = Config::default();
    assert_eq!(cfg.api_key, "");
    assert_eq!(cfg.stations.len(), 4);
    assert_eq!(cfg.stations[0].line_ref, "C01378");
    assert_eq!(cfg.stations[0].stop_point_ref, "A463226");
    assert_eq!(cfg.stations[3].name, "Luxembourg (RER B) (Robinson • Saint-Rémy-lès-Chevreuse)");
    let s = Station::new("C1", "A2", "Name");
    assert_eq!(s.name, "Name");
}
