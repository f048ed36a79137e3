use skywatch::db::{active_events_query, expire_events_sql};
use skywatch::models::{DashboardStats, EventRecord, FeedHealth, Severity, SourceCount, TypeCount};
use skywatch::routes::{render_events_feed, render_feed_health, render_stats_panel};

fn escape(s: &str) -> String {
    s.replace('&', "&amp;")
        .replace('<', "&lt;")
        .replace('>', "&gt;")
        .replace('"', "&quot;")
}

/// The event card exactly as the dashboard handler formats it.
fn expected_card(e: &EventRecord) -> String {
    let severity_class = e.severity.css_class();
    let source_badge = match e.source.as_str() {
        "nws" => r#"<span class="badge badge-nws">NWS</span>"#,
        "usgs" => r#"<span class="badge badge-usgs">USGS</span>"#,
        _ => r#"<span class="badge">{source}</span>"#,
    };
    let area = e.area_desc.as_deref().unwrap_or("—");
    let onset = e
        .onset_at
        .as_deref()
        .map(|s| {
            let mut end = s.len().min(16);
            while !s.is_char_boundary(end) {
                end -= 1;
            }
            &s[..end]
        })
        .unwrap_or("—");
    format!(
        r#"<div class="event-card {severity_class}">
                <div class="event-header">
                    {source_badge}
                    <span class="event-severity">{severity}</span>
                    <span class="event-time">{onset}</span>
                </div>
                <div class="event-title">{title}</div>
                <div class="event-area">{area}</div>
            </div>"#,
        severity_class = severity_class,
        source_badge = source_badge,
        severity = e.severity.as_str().to_uppercase(),
        onset = onset,
        title = escape(&e.title),
        area = escape(area),
    )
}

fn event(source: &str, severity: Severity, title: &str, onset: Option<&str>, area: Option<&str>) -> EventRecord {
    EventRecord {
        source: source.to_string(),
        source_id: "id-1".to_string(),
        event_type: "weather_alert".to_string(),
        severity,
        title: title.to_string(),
        description: None,
        url: None,
        onset_at: onset.map(|s| s.to_string()),
        expires_at: None,
        area_desc: area.map(|s| s.to_string()),
        is_active: true,
    }
}

#[test]
fn empty_feed_says_no_active_events() {
    assert_eq!(render_events_feed(&Vec::new()), r#"<div class="event-card">No active events</div>"#);
}

#[test]
fn feed_cards_match_the_dashboard_format() {
    let events = vec![
        event("nws", Severity::Severe, "Tornado Warning <issued>", Some("2024-05-01T12:34:56-05:00"), Some("Harris, TX & more")),
        event("usgs", Severity::Minor, "M 2.7 - 10 km N of \"Town\"", Some("2024-05-01"), None),
        event("airnow", Severity::Unknown, "AQI", None, Some("Denver")),
    ];
    let expected: String = events.iter().map(expected_card).collect();
    assert_eq!(render_events_feed(&events), expected);
}

#[test]
fn feed_card_shows_first_sixteen_bytes_of_onset() {
    let events = vec![event("nws", Severity::Extreme, "t", Some("2024-05-01T12:34:56Z"), None)];
    let html = render_events_feed(&events);
    assert!(html.contains(r#"<span class="event-time">2024-05-01T12:34</span>"#));
    assert!(html.contains(r#"<span class="event-severity">EXTREME</span>"#));
    assert!(html.contains(r#"<div class="event-area">—</div>"#));
    assert_eq!(html, expected_card(&events[0]));
}

#[test]
fn feed_card_clips_onset_before_a_split_character() {
    let onset = "2024-05-01T€€rest";
    assert!(!onset.is_char_boundary(16));
    let events = vec![event("usgs", Severity::Minor, "t", Some(onset), None)];
    let html = render_events_feed(&events);
    assert!(html.contains(r#"<span class="event-time">2024-05-01T€</span>"#));
    assert_eq!(html, expected_card(&events[0]));
}

#[test]
fn feed_card_with_multibyte_onset_on_a_boundary() {
    let onset = "2024-05-01ééé—rest";
    assert!(onset.is_char_boundary(16));
    let events = vec![event("nws", Severity::Minor, "t", Some(onset), Some("a"))];
    assert_eq!(render_events_feed(&events), expected_card(&events[0]));
}

fn expected_stats(stats: &DashboardStats) -> String {
    let mut html = String::new();
    html.push_str(&format!(
        r#"<div class="stat-grid">
            <div class="stat-card stat-total">
                <div class="stat-number">{}</div>
                <div class="stat-label">Active Events</div>
            </div>
            <div class="stat-card severity-extreme">
                <div class="stat-number">{}</div>
                <div class="stat-label">Extreme</div>
            </div>
            <div class="stat-card severity-severe">
                <div class="stat-number">{}</div>
                <div class="stat-label">Severe</div>
            </div>
            <div class="stat-card severity-moderate">
                <div class="stat-number">{}</div>
                <div class="stat-label">Moderate</div>
            </div>
            <div class="stat-card severity-minor">
                <div class="stat-number">{}</div>
                <div class="stat-label">Minor</div>
            </div>
        </div>"#,
        stats.total_active,
        stats.extreme_count,
        stats.severe_count,
        stats.moderate_count,
        stats.minor_count,
    ));
    if !stats.by_source.is_empty() {
        html.push_str(r#"<div class="stat-section"><h3>By Source</h3>"#);
        for sc in &stats.by_source {
            html.push_str(&format!(
                r#"<div class="stat-row"><span class="stat-key">{}</span><span class="stat-val">{}</span></div>"#,
                sc.source.to_uppercase(),
                sc.count
            ));
        }
        html.push_str("</div>");
    }
    if !stats.by_type.is_empty() {
        html.push_str(r#"<div class="stat-section"><h3>By Type</h3>"#);
        for tc in &stats.by_type {
            html.push_str(&format!(
                r#"<div class="stat-row"><span class="stat-key">{}</span><span class="stat-val">{}</span></div>"#,
                escape(&tc.event_type),
                tc.count
            ));
        }
        html.push_str("</div>");
    }
    html
}

#[test]
fn stats_panel_without_breakdowns() {
    let stats = DashboardStats::default();
    let html = render_stats_panel(&stats);
    assert_eq!(html, expected_stats(&stats));
    assert!(!html.contains("By Source") && !html.contains("By Type"));
}

#[test]
fn stats_panel_with_breakdowns() {
    let stats = DashboardStats {
        total_active: 42,
        extreme_count: 1,
        severe_count: 12,
        moderate_count: 20,
        minor_count: -3,
        by_source: vec![
            SourceCount { source: "nws".to_string(), count: 30 },
            SourceCount { source: "usgs".to_string(), count: 12 },
        ],
        by_type: vec![TypeCount { event_type: "weather_<alert>".to_string(), count: 30 }],
    };
    let html = render_stats_panel(&stats);
    assert_eq!(html, expected_stats(&stats));
    assert!(html.contains(r#"<span class="stat-key">NWS</span><span class="stat-val">30</span>"#));
    assert!(html.contains("weather_&lt;alert&gt;"));
}

fn expected_feeds(feeds: &[FeedHealth]) -> String {
    let mut html = String::new();
    for feed in feeds {
        let status_class = if feed.last_error.is_some() { "feed-error" } else { "feed-ok" };
        let last_ok = feed.last_success_at.as_deref().unwrap_or("never");
        let error_text = feed.last_error.as_deref().unwrap_or("—");
        html.push_str(&format!(
            r#"<div class="feed-card {status_class}">
                <div class="feed-name">{}</div>
                <div class="feed-detail">Last OK: {last_ok}</div>
                <div class="feed-detail">Polls: {} | Errors: {}</div>
                <div class="feed-error-text">{error_text}</div>
            </div>"#,
            feed.source.to_uppercase(),
            feed.poll_count,
            feed.error_count,
        ));
    }
    if feeds.is_empty() {
        html.push_str(r#"<div class="feed-card">No feeds registered yet — waiting for first poll</div>"#);
    }
    html
}

#[test]
fn feed_health_empty() {
    assert_eq!(
        render_feed_health(&Vec::new()),
        r#"<div class="feed-card">No feeds registered yet — waiting for first poll</div>"#
    );
}

#[test]
fn feed_health_cards() {
    let feeds = vec![
        FeedHealth {
            source: "nws".to_string(),
            last_poll_at: Some("2024-05-01T00:01:00Z".to_string()),
            last_success_at: Some("2024-05-01T00:01:00Z".to_string()),
            last_error: None,
            event_count: 0,
            poll_count: 10,
            error_count: 0,
        },
        FeedHealth {
            source: "flmesh".to_string(),
            last_poll_at: Some("2024-05-01T00:02:00Z".to_string()),
            last_success_at: None,
            last_error: Some("HTTP 503 Service Unavailable".to_string()),
            event_count: 0,
            poll_count: 3,
            error_count: 3,
        },
    ];
    let html = render_feed_health(&feeds);
    assert_eq!(html, expected_feeds(&feeds));
    assert!(html.contains("feed-card feed-error"));
    assert!(html.contains("Last OK: never"));
    assert!(html.contains("FLMESH"));
}

#[test]
fn expire_sql_without_active_ids() {
    assert_eq!(
        expire_events_sql(0),
        "UPDATE events SET is_active = 0 WHERE source = ?1 AND is_active = 1"
    );
}

#[test]
fn expire_sql_lists_one_placeholder_per_active_id() {
    assert_eq!(
        expire_events_sql(1),
        "UPDATE events SET is_active = 0 WHERE source = ?1 AND is_active = 1 AND source_id NOT IN (?2)"
    );
    assert_eq!(
        expire_events_sql(3),
        "UPDATE events SET is_active = 0 WHERE source = ?1 AND is_active = 1 AND source_id NOT IN (?2, ?3, ?4)"
    );
    let placeholders: Vec<String> = (0..12).map(|i| format!("?{}", i + 2)).collect();
    assert_eq!(
        expire_events_sql(12),
        format!(
            "UPDATE events SET is_active = 0 WHERE source = ?1 AND is_active = 1 AND source_id NOT IN ({})",
            placeholders.join(", ")
        )
    );
}

const BASE: &str = "SELECT id, source, source_id, event_type, severity, title, description, url,
                onset_at, expires_at, detected_at,
                latitude, longitude, area_desc, geometry_json,
                metadata, is_active
         FROM events WHERE is_active = 1";

#[test]
fn active_events_query_without_filters() {
    assert_eq!(active_events_query(100, None, None), format!("{BASE} ORDER BY onset_at DESC LIMIT 100"));
}

#[test]
fn active_events_query_with_filters() {
    assert_eq!(
        active_events_query(5, Some("nws"), None),
        format!("{BASE} AND source = ?1 ORDER BY onset_at DESC LIMIT 5")
    );
    assert_eq!(
        active_events_query(5, None, Some("severe")),
        format!("{BASE} AND severity = ?1 ORDER BY onset_at DESC LIMIT 5")
    );
    assert_eq!(
        active_events_query(0, Some("usgs"), Some("minor")),
        format!("{BASE} AND source = ?1 AND severity = ?2 ORDER BY onset_at DESC LIMIT 0")
    );
}
