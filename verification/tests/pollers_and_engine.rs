use skywatch::models::Severity;
use skywatch::pollers::mesh_nodes::{
    i64_field_value, identifier_text, is_online, normalize_node, normalize_nodes, online_for_age, IntegerField,
    MeshNodeFields, MESH_POLL_INTERVAL_SECS,
};
use skywatch::pollers::nws_alerts::{truncate_description, NwsAlertProperties, NwsAlertsPoller};
use skywatch::pollers::usgs_quakes::{onset_from_millis, onset_text_or_empty, UsgsQuakeProperties, UsgsQuakesPoller};
use skywatch::services::{CycleAction, CycleEvent, CyclePhase, FeedKind, PollCycle};

fn s(x: &str) -> Option<String> {
    Some(x.to_string())
}

fn alert() -> NwsAlertProperties {
    NwsAlertProperties {
        id: s("urn:oid:2.49.0.1.840.0.1"),
        event: s("Flood Warning"),
        headline: s("Flood Warning issued May 1"),
        description: s("Water rising."),
        severity: s("Severe"),
        certainty: s("Likely"),
        onset: s("2024-05-01T10:00:00-05:00"),
        effective: s("2024-05-01T09:00:00-05:00"),
        expires: s("2024-05-02T10:00:00-05:00"),
        ends: s("2024-05-03T10:00:00-05:00"),
        area_desc: s("Harris, TX"),
        url: s("https://api.weather.gov/alerts/urn:oid:2.49.0.1.840.0.1"),
    }
}

#[test]
fn nws_poller_identity() {
    let p = NwsAlertsPoller::new();
    assert_eq!(p.name(), "NWS Active Alerts");
    assert_eq!(p.source_key(), "nws");
    assert_eq!(p.interval_secs(), 60);
}

#[test]
fn nws_alert_normalizes_to_event() {
    let e = NwsAlertsPoller::normalize(&alert()).unwrap();
    assert_eq!(e.source, "nws");
    assert_eq!(e.source_id, "urn:oid:2.49.0.1.840.0.1");
    assert_eq!(e.event_type, "weather_alert");
    assert_eq!(e.severity, Severity::Severe);
    assert_eq!(e.title, "Flood Warning issued May 1");
    assert_eq!(e.description.as_deref(), Some("Water rising."));
    assert_eq!(e.onset_at.as_deref(), Some("2024-05-01T10:00:00-05:00"));
    assert_eq!(e.expires_at.as_deref(), Some("2024-05-02T10:00:00-05:00"));
    assert_eq!(e.area_desc.as_deref(), Some("Harris, TX"));
    assert_eq!(e.url.as_deref(), Some("https://api.weather.gov/alerts/urn:oid:2.49.0.1.840.0.1"));
    assert!(e.is_active);
}

#[test]
fn nws_alert_without_id_is_skipped() {
    let p = NwsAlertProperties { id: None, ..alert() };
    assert!(NwsAlertsPoller::normalize(&p).is_none());
}

#[test]
fn nws_alert_fallbacks() {
    let p = NwsAlertProperties {
        headline: None,
        onset: None,
        expires: None,
        severity: None,
        certainty: s("Observed"),
        description: None,
        ..alert()
    };
    let e = NwsAlertsPoller::normalize(&p).unwrap();
    assert_eq!(e.title, "Flood Warning");
    assert_eq!(e.onset_at.as_deref(), Some("2024-05-01T09:00:00-05:00"));
    assert_eq!(e.expires_at.as_deref(), Some("2024-05-03T10:00:00-05:00"));
    assert_eq!(e.severity, Severity::Moderate);
    assert_eq!(e.description, None);
    let p = NwsAlertProperties { headline: None, event: None, effective: None, onset: None, ..alert() };
    let e = NwsAlertsPoller::normalize(&p).unwrap();
    assert_eq!(e.title, "Unknown Alert");
    assert_eq!(e.onset_at, None);
}

#[test]
fn long_descriptions_are_cut() {
    let long = "x".repeat(2500);
    let cut = truncate_description(&long);
    assert_eq!(cut, format!("{}...", &long[..2000]));
    assert_eq!(cut.len(), 2003);
    let exact = "y".repeat(2000);
    assert_eq!(truncate_description(&exact), exact);
    let p = NwsAlertProperties { description: Some(long.clone()), ..alert() };
    let e = NwsAlertsPoller::normalize(&p).unwrap();
    assert_eq!(e.description.unwrap(), cut);
}

#[test]
fn usgs_poller_identity() {
    let p = UsgsQuakesPoller::new();
    assert_eq!(p.name(), "USGS Earthquakes");
    assert_eq!(p.source_key(), "usgs");
    assert_eq!(p.interval_secs(), 300);
}

#[test]
fn quake_onset_from_milliseconds() {
    assert_eq!(onset_from_millis(0), "1970-01-01T00:00:00+00:00");
    assert_eq!(onset_from_millis(1_700_000_000_123), "2023-11-14T22:13:20.123+00:00");
    assert_eq!(onset_from_millis(-2000), "1969-12-31T23:59:58+00:00");
    // A time before the epoch that is not whole seconds hands chrono a wrapped
    // nanosecond count, which it rejects: the onset is then empty.
    assert_eq!(onset_from_millis(-1), "");
    assert_eq!(onset_from_millis(-1500), "");
    // Out of chrono's range: no onset text.
    assert_eq!(onset_from_millis(i64::MAX), "");
    assert_eq!(onset_from_millis(i64::MIN), "");
}

#[test]
fn quake_normalizes_to_event() {
    let p = UsgsQuakeProperties {
        id: s("us7000abcd"),
        title: s("M 5.1 - 20 km SW of Somewhere"),
        place: s("20 km SW of Somewhere"),
        url: s("https://earthquake.usgs.gov/earthquakes/eventpage/us7000abcd"),
        time_ms: Some(1_700_000_000_000),
    };
    let e = UsgsQuakesPoller::normalize(&p, Severity::Severe).unwrap();
    assert_eq!(e.source, "usgs");
    assert_eq!(e.source_id, "us7000abcd");
    assert_eq!(e.event_type, "earthquake");
    assert_eq!(e.severity, Severity::Severe);
    assert_eq!(e.title, "M 5.1 - 20 km SW of Somewhere");
    assert_eq!(e.description.as_deref(), Some("20 km SW of Somewhere"));
    assert_eq!(e.area_desc.as_deref(), Some("20 km SW of Somewhere"));
    assert_eq!(e.onset_at.as_deref(), Some("2023-11-14T22:13:20+00:00"));
    assert_eq!(e.expires_at, None);
    assert!(e.is_active);
}

#[test]
fn quake_fallbacks_and_skips() {
    let p = UsgsQuakeProperties { id: s("x"), title: None, place: None, url: None, time_ms: None };
    let e = UsgsQuakesPoller::normalize(&p, Severity::Minor).unwrap();
    assert_eq!(e.title, "Unknown Earthquake");
    assert_eq!(e.onset_at, None);
    let p = UsgsQuakeProperties { id: None, ..p };
    assert!(UsgsQuakesPoller::normalize(&p, Severity::Minor).is_none());
}

fn int_field(signed: Option<i64>, unsigned: Option<u64>, text: Option<&str>) -> IntegerField {
    IntegerField { signed, unsigned, text: text.map(|t| t.to_string()) }
}

#[test]
fn integer_fields_in_every_form() {
    assert_eq!(i64_field_value(&int_field(Some(-4), Some(9), Some("7"))), Some(-4));
    assert_eq!(i64_field_value(&int_field(None, Some(9), Some("7"))), Some(9));
    assert_eq!(i64_field_value(&int_field(None, Some(u64::MAX), None)), Some(-1));
    assert_eq!(i64_field_value(&int_field(None, None, Some("12345"))), Some(12345));
    assert_eq!(i64_field_value(&int_field(None, None, Some("-12"))), Some(-12));
    assert_eq!(i64_field_value(&int_field(None, None, Some("12.5"))), None);
    assert_eq!(i64_field_value(&int_field(None, None, Some("99999999999999999999"))), None);
    assert_eq!(i64_field_value(&int_field(None, None, None)), None);
}

const NOW_SECS: i64 = 1_714_564_800; // 2024-05-01T12:00:00Z

#[test]
fn nodes_heard_within_the_hour_are_online() {
    assert!(is_online(&s("2024-05-01T11:30:00Z"), NOW_SECS, 0));
    assert!(is_online(&s("2024-05-01T11:00:00.5Z"), NOW_SECS, 0));
    assert!(!is_online(&s("2024-05-01T11:00:00Z"), NOW_SECS, 0));
    assert!(!is_online(&s("2024-04-30T12:00:00Z"), NOW_SECS, 0));
    assert!(is_online(&s("2024-05-01T07:30:00-04:00"), NOW_SECS, 0));
    assert!(is_online(&s("2024-05-01T13:00:00Z"), NOW_SECS, 0));
    assert!(!is_online(&s("yesterday"), NOW_SECS, 0));
    assert!(!is_online(&None, NOW_SECS, 0));
}

fn node() -> MeshNodeFields {
    MeshNodeFields {
        node_id_text: None,
        node_id_signed: None,
        node_id_unsigned: None,
        node_id_hex: s("!a1b2c3d4"),
        long_name: None,
        short_name: s("AB"),
        hardware_model: s("HELTEC_V3"),
        role: s("CLIENT"),
        firmware_version: s("2.3.4"),
        battery_level: Some(87),
        uptime: int_field(None, None, Some("3600")),
        updated_at: s("2024-05-01T11:59:00Z"),
    }
}

#[test]
fn node_identifier_forms() {
    assert!(normalize_node(&node(), NOW_SECS, 0).is_none());
    let n = MeshNodeFields { node_id_text: s("abc"), node_id_signed: Some(1), ..node() };
    assert_eq!(normalize_node(&n, NOW_SECS, 0).unwrap().node_id, "abc");
    let n = MeshNodeFields { node_id_signed: Some(-2712847316), node_id_unsigned: Some(5), ..node() };
    assert_eq!(normalize_node(&n, NOW_SECS, 0).unwrap().node_id, "-2712847316");
    let n = MeshNodeFields { node_id_unsigned: Some(u64::MAX), ..node() };
    assert_eq!(normalize_node(&n, NOW_SECS, 0).unwrap().node_id, "18446744073709551615");
}

#[test]
fn node_record_fields() {
    let n = MeshNodeFields { node_id_signed: Some(2712847316), ..node() };
    let r = normalize_node(&n, NOW_SECS, 0).unwrap();
    assert_eq!(r.node_id, "2712847316");
    assert_eq!(r.long_name, "Unknown");
    assert_eq!(r.node_id_hex.as_deref(), Some("!a1b2c3d4"));
    assert_eq!(r.short_name.as_deref(), Some("AB"));
    assert_eq!(r.hardware_model.as_deref(), Some("HELTEC_V3"));
    assert_eq!(r.role.as_deref(), Some("CLIENT"));
    assert_eq!(r.firmware_version.as_deref(), Some("2.3.4"));
    assert_eq!(r.battery_level, Some(87));
    assert_eq!(r.uptime_seconds, Some(3600));
    assert!(r.is_online);
    assert_eq!(r.last_heard_at.as_deref(), Some("2024-05-01T11:59:00Z"));
    let n = MeshNodeFields { long_name: s("Base Station"), updated_at: None, ..n };
    let r = normalize_node(&n, NOW_SECS, 0).unwrap();
    assert_eq!(r.long_name, "Base Station");
    assert!(!r.is_online);
}

fn drive(cycle: &mut PollCycle, events: &[CycleEvent]) -> Vec<CycleAction> {
    events.iter().map(|e| cycle.advance(*e)).collect()
}

#[test]
fn events_cycle_stores_expires_and_records() {
    let mut cycle = PollCycle::new(FeedKind::Events, 60);
    assert_eq!(cycle.pending_action(), CycleAction::Fetch);
    let actions = drive(
        &mut cycle,
        &[
            CycleEvent::Fetched(3),
            CycleEvent::Stored { new_row: true },
            CycleEvent::StoreFailed,
            CycleEvent::Stored { new_row: false },
            CycleEvent::Done,
            CycleEvent::Done,
            CycleEvent::Done,
            CycleEvent::Done,
        ],
    );
    assert_eq!(
        actions,
        vec![
            CycleAction::Store(0),
            CycleAction::Store(1),
            CycleAction::Store(2),
            CycleAction::Expire,
            CycleAction::RefreshStats,
            CycleAction::RecordSuccess { fetched: 3, stored: 1 },
            CycleAction::Sleep(60),
            CycleAction::Fetch,
        ]
    );
    assert_eq!(cycle.phase, CyclePhase::Fetching);
}

#[test]
fn mesh_cycle_counts_every_successful_store() {
    let mut cycle = PollCycle::new(FeedKind::MeshNodes, 300);
    let actions = drive(
        &mut cycle,
        &[
            CycleEvent::Fetched(2),
            CycleEvent::Stored { new_row: false },
            CycleEvent::Stored { new_row: false },
            CycleEvent::Done,
            CycleEvent::Done,
        ],
    );
    assert_eq!(
        actions,
        vec![
            CycleAction::Store(0),
            CycleAction::Store(1),
            CycleAction::RecordSuccess { fetched: 2, stored: 2 },
            CycleAction::Sleep(300),
            CycleAction::Fetch,
        ]
    );
}

#[test]
fn failed_fetch_records_failure_and_sleeps() {
    let mut cycle = PollCycle::new(FeedKind::Events, 60);
    let actions = drive(&mut cycle, &[CycleEvent::FetchFailed, CycleEvent::Done, CycleEvent::Done]);
    assert_eq!(actions, vec![CycleAction::RecordFailure, CycleAction::Sleep(60), CycleAction::Fetch]);
}

#[test]
fn empty_feed_still_expires() {
    let mut cycle = PollCycle::new(FeedKind::Events, 60);
    let actions = drive(&mut cycle, &[CycleEvent::Fetched(0), CycleEvent::Done]);
    assert_eq!(actions, vec![CycleAction::Expire, CycleAction::RefreshStats]);
}

#[test]
fn unexpected_outcomes_are_ignored() {
    let mut cycle = PollCycle::new(FeedKind::Events, 60);
    assert_eq!(cycle.advance(CycleEvent::Done), CycleAction::Fetch);
    assert_eq!(cycle.advance(CycleEvent::Stored { new_row: true }), CycleAction::Fetch);
    assert_eq!(cycle.stored, 0);
}

#[test]
fn multibyte_description_cut_on_a_boundary() {
    let d = format!("{}{}", "a".repeat(1998), "éé tail");
    assert!(d.is_char_boundary(2000));
    let cut = truncate_description(&d);
    assert_eq!(cut, format!("{}é...", "a".repeat(1998)));
    assert_eq!(cut.len(), 2003);
}

#[test]
fn well_formedness_check() {
    let cycle = PollCycle::new(FeedKind::Events, 60);
    assert!(cycle.is_well_formed());
    let bad = PollCycle { phase: CyclePhase::Storing(4), fetched: 3, ..cycle };
    assert!(!bad.is_well_formed());
    let bad = PollCycle { stored: 2, fetched: 1, ..cycle };
    assert!(!bad.is_well_formed());
    let bad = PollCycle { kind: FeedKind::MeshNodes, phase: CyclePhase::Expiring, ..cycle };
    assert!(!bad.is_well_formed());
}

#[test]
fn multibyte_description_cut_before_a_split_character() {
    let d = format!("{}{}", "a".repeat(1999), "é tail");
    assert!(!d.is_char_boundary(2000));
    let cut = truncate_description(&d);
    assert_eq!(cut, format!("{}...", "a".repeat(1999)));
    assert_eq!(cut.len(), 2002);
    let p = NwsAlertProperties { description: Some(d), ..alert() };
    assert_eq!(NwsAlertsPoller::normalize(&p).unwrap().description.unwrap(), cut);
}

#[test]
fn chrono_accepts_the_stated_range() {
    for secs in [-8_000_000_000_000i64, 0, 8_000_000_000_000] {
        assert!(chrono::DateTime::from_timestamp(secs, 999_999_999).is_some());
    }
    assert!(chrono::DateTime::from_timestamp(0, 2_000_000_000).is_none());
}

#[test]
fn onset_text_defaults_to_empty() {
    assert_eq!(onset_text_or_empty(None), "");
    assert_eq!(onset_text_or_empty(s("2024-05-01T00:00:00+00:00")), "2024-05-01T00:00:00+00:00");
}

#[test]
fn online_threshold_is_one_hour() {
    assert!(online_for_age(Some(0)));
    assert!(online_for_age(Some(3599)));
    assert!(!online_for_age(Some(3600)));
    assert!(online_for_age(Some(-30)));
    assert!(!online_for_age(None));
}

#[test]
fn integer_text_syntax() {
    for (t, v) in [("+5", Some(5)), ("-0", Some(0)), ("007", Some(7)), ("-9223372036854775808", Some(i64::MIN)),
                   ("9223372036854775808", None), ("-", None), ("+", None), ("", None), (" 5", None),
                   ("5 ", None), ("+-5", None), ("1_000", None), ("٣", None)] {
        assert_eq!(i64_field_value(&int_field(None, None, Some(t))), v, "{t:?}");
    }
}

#[test]
fn alert_batch_keeps_feed_order_and_skips() {
    let features = vec![
        Some(NwsAlertProperties { id: s("a"), ..alert() }),
        None,
        Some(NwsAlertProperties { id: None, ..alert() }),
        Some(NwsAlertProperties { id: s("b"), ..alert() }),
    ];
    let out = NwsAlertsPoller::normalize_all(&features);
    let kept: Vec<(usize, String)> = out.iter().map(|(i, e)| (*i, e.source_id.clone())).collect();
    assert_eq!(kept, vec![(0, "a".to_string()), (3, "b".to_string())]);
}

#[test]
fn quake_batch_keeps_feed_order_and_skips() {
    let quake = |id: Option<&str>| UsgsQuakeProperties { id: id.map(|x| x.to_string()), title: None, place: None, url: None, time_ms: None };
    let features = vec![
        None,
        Some((quake(Some("q1")), Severity::Extreme)),
        Some((quake(None), Severity::Minor)),
        Some((quake(Some("q2")), Severity::Minor)),
    ];
    let out = UsgsQuakesPoller::normalize_all(&features);
    assert_eq!(out.len(), 2);
    assert_eq!((out[0].0, out[0].1.source_id.as_str(), out[0].1.severity), (1, "q1", Severity::Extreme));
    assert_eq!((out[1].0, out[1].1.source_id.as_str(), out[1].1.severity), (3, "q2", Severity::Minor));
}

#[test]
fn node_batch_keeps_feed_order_and_skips() {
    let nodes = vec![
        MeshNodeFields { node_id_text: s("n1"), ..node() },
        node(),
        MeshNodeFields { node_id_unsigned: Some(42), ..node() },
    ];
    let out = normalize_nodes(&nodes, NOW_SECS, 0);
    let kept: Vec<(usize, String)> = out.iter().map(|(i, n)| (*i, n.node_id.clone())).collect();
    assert_eq!(kept, vec![(0, "n1".to_string()), (2, "42".to_string())]);
}

#[test]
fn identifier_text_forms() {
    assert_eq!(identifier_text(&s("abc"), Some(1), Some(1)), s("abc"));
    assert_eq!(identifier_text(&None, Some(-12), Some(3)), s("-12"));
    assert_eq!(identifier_text(&None, None, Some(u64::MAX)), Some(u64::MAX.to_string()));
    assert_eq!(identifier_text(&None, None, None), None);
}

#[test]
fn mesh_poll_interval() {
    assert_eq!(MESH_POLL_INTERVAL_SECS, 300);
}
