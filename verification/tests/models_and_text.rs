use skywatch::models::Severity;
use skywatch::pollers::nws_alerts::NwsAlertsPoller;
use skywatch::routes::{cache_is_fresh, html_escape, EventFilters};
use skywatch::db::upsert_was_insert;
use skywatch::text::{clip_to_bytes, push_decimal, push_decimal_i64};
use skywatch::config::Config;

const ALL: [Severity; 5] = [
    Severity::Extreme,
    Severity::Severe,
    Severity::Moderate,
    Severity::Minor,
    Severity::Unknown,
];

#[test]
fn severity_labels() {
    assert_eq!(Severity::Extreme.as_str(), "extreme");
    assert_eq!(Severity::Severe.as_str(), "severe");
    assert_eq!(Severity::Moderate.as_str(), "moderate");
    assert_eq!(Severity::Minor.as_str(), "minor");
    assert_eq!(Severity::Unknown.as_str(), "unknown");
}

#[test]
fn severity_round_trips_through_label() {
    for s in ALL {
        assert_eq!(Severity::from_str(s.as_str()), s);
    }
}

#[test]
fn severity_labels_are_distinct() {
    for a in ALL {
        for b in ALL {
            assert_eq!(a == b, a.as_str() == b.as_str());
        }
    }
}

#[test]
fn severity_parsing_ignores_case() {
    assert_eq!(Severity::from_str("EXTREME"), Severity::Extreme);
    assert_eq!(Severity::from_str("Severe"), Severity::Severe);
    assert_eq!(Severity::from_str("mOdErAtE"), Severity::Moderate);
    assert_eq!(Severity::from_str("MINOR"), Severity::Minor);
}

#[test]
fn severity_unknown_labels() {
    assert_eq!(Severity::from_str(""), Severity::Unknown);
    assert_eq!(Severity::from_str("critical"), Severity::Unknown);
    assert_eq!(Severity::from_str(" extreme"), Severity::Unknown);
    assert_eq!(Severity::from_str("unknown"), Severity::Unknown);
}

#[test]
fn severity_from_lowercase_label_is_case_sensitive() {
    assert_eq!(Severity::from_lowercase_label("minor"), Severity::Minor);
    assert_eq!(Severity::from_lowercase_label("Minor"), Severity::Unknown);
}

#[test]
fn severity_css_class_is_prefixed_label() {
    for s in ALL {
        assert_eq!(s.css_class(), format!("severity-{}", s.as_str()));
    }
}

#[test]
fn severity_colors() {
    assert_eq!(Severity::Extreme.color(), "#dc2626");
    assert_eq!(Severity::Severe.color(), "#ea580c");
    assert_eq!(Severity::Moderate.color(), "#ca8a04");
    assert_eq!(Severity::Minor.color(), "#2563eb");
    assert_eq!(Severity::Unknown.color(), "#6b7280");
}

#[test]
fn nws_severity_mapping() {
    assert_eq!(NwsAlertsPoller::map_severity(Some("Extreme"), None), Severity::Extreme);
    assert_eq!(NwsAlertsPoller::map_severity(Some("Severe"), Some("Unlikely")), Severity::Severe);
    assert_eq!(NwsAlertsPoller::map_severity(Some("Moderate"), None), Severity::Moderate);
    assert_eq!(NwsAlertsPoller::map_severity(Some("Minor"), Some("Observed")), Severity::Minor);
}

#[test]
fn nws_severity_falls_back_to_certainty() {
    assert_eq!(NwsAlertsPoller::map_severity(Some("Unknown"), Some("Observed")), Severity::Moderate);
    assert_eq!(NwsAlertsPoller::map_severity(None, Some("Likely")), Severity::Moderate);
    assert_eq!(NwsAlertsPoller::map_severity(None, Some("Possible")), Severity::Unknown);
    assert_eq!(NwsAlertsPoller::map_severity(Some("extreme"), None), Severity::Unknown);
    assert_eq!(NwsAlertsPoller::map_severity(None, None), Severity::Unknown);
}

fn chained_replace_escape(s: &str) -> String {
    s.replace('&', "&amp;")
        .replace('<', "&lt;")
        .replace('>', "&gt;")
        .replace('"', "&quot;")
}

#[test]
fn html_escape_entities() {
    assert_eq!(html_escape("a<b>&\"c'"), "a&lt;b&gt;&amp;&quot;c'");
    assert_eq!(html_escape("&amp;"), "&amp;amp;");
    assert_eq!(html_escape(""), "");
}

#[test]
fn html_escape_matches_chained_replace() {
    for s in ["Tornado <Warning> & \"Watch\"", "Café — “quoted” <i>", "<<>>&&\"\"", "plain"] {
        assert_eq!(html_escape(s), chained_replace_escape(s));
    }
}

#[test]
fn html_escape_leaves_plain_text() {
    let s = "Harris County, TX; Fort Bend County (ünïcode)";
    assert_eq!(html_escape(s), s);
}

#[test]
fn html_escape_output_has_no_markup() {
    let out = html_escape("<script>alert(\"x\")</script>");
    assert!(!out.contains('<') && !out.contains('>') && !out.contains('"'));
}

#[test]
fn decimal_rendering() {
    let cases: [i64; 6] = [0, 7, -7, 3005, i64::MAX, i64::MIN];
    for n in cases {
        let mut s = String::new();
        push_decimal_i64(&mut s, n);
        assert_eq!(s, n.to_string());
    }
    let mut s = String::from("x=");
    push_decimal(&mut s, u64::MAX);
    assert_eq!(s, format!("x={}", u64::MAX));
}

#[test]
fn listen_address_joins_address_and_port() {
    let config = Config {
        database: "./data/skywatch.db".to_string(),
        address: "0.0.0.0".to_string(),
        port: 3005,
        no_nws: false,
        no_usgs: false,
        no_mesh: false,
        log_level: "info".to_string(),
    };
    assert_eq!(config.listen_address(), "0.0.0.0:3005");
    let config = Config { address: "127.0.0.1".to_string(), port: 0, ..config };
    assert_eq!(config.listen_address(), "127.0.0.1:0");
}

#[test]
fn feed_limit_defaults_to_one_hundred() {
    assert_eq!(EventFilters::default().effective_limit(), 100);
    let filters = EventFilters { limit: Some(5), ..EventFilters::default() };
    assert_eq!(filters.effective_limit(), 5);
}

#[test]
fn mesh_cache_freshness() {
    assert!(!cache_is_fresh(None));
    assert!(cache_is_fresh(Some(0)));
    assert!(cache_is_fresh(Some(59)));
    assert!(!cache_is_fresh(Some(60)));
}

#[test]
fn html_escape_distributes_over_concatenation() {
    let (a, b) = ("x < y & ", "\"z\" > w");
    assert_eq!(html_escape(&format!("{a}{b}")), format!("{}{}", html_escape(a), html_escape(b)));
}

#[test]
fn clipping_keeps_whole_characters() {
    assert_eq!(clip_to_bytes("short", 16), "short");
    assert_eq!(clip_to_bytes("2024-05-01T12:34:56Z", 16), "2024-05-01T12:34");
    // 'é' takes two bytes: byte 17 falls inside the ninth one, which is dropped.
    assert_eq!(clip_to_bytes("ééééééééé", 17), "éééééééé");
    assert_eq!(clip_to_bytes("ééééééééé", 16), "éééééééé");
    assert_eq!(clip_to_bytes("€", 2), "");
    assert_eq!(clip_to_bytes("", 0), "");
}

fn unescape(t: &str) -> String {
    t.replace("&quot;", "\"").replace("&gt;", ">").replace("&lt;", "<").replace("&amp;", "&")
}

#[test]
fn html_escape_round_trips_through_unescaping() {
    for s in ["&quot;", "&amp;lt;", "a<b>&\"c'", "&&&<<>>\"\"", "Café — “quoted”", ""] {
        assert_eq!(unescape(&html_escape(s)), s);
    }
}

#[test]
fn severity_parsing_survives_upper_casing() {
    for s in ALL {
        assert_eq!(Severity::from_str(&s.as_str().to_uppercase()), s);
    }
    assert_eq!(Severity::from_str(&"Moderate".to_uppercase()), Severity::from_str("Moderate"));
}

#[test]
fn upsert_reports_new_rows_only() {
    assert!(upsert_was_insert(false, 1));
    assert!(!upsert_was_insert(true, 1));
    assert!(!upsert_was_insert(false, 0));
}
