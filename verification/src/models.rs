//! The normalized data model shared by pollers, storage and the dashboard.

use vstd::prelude::*;
use vstd::utf8::*;
use crate::text::{
    ascii_lower, ascii_lower_char, ascii_upper, ascii_upper_char, str_eq, to_lowercase,
    unicode_lowercase,
};

verus! {

/// Severity levels, ordered from most to least critical.
#[derive(Debug, Clone, Copy, PartialEq, Eq, Structural)]
pub enum Severity {
    Extreme,
    Severe,
    Moderate,
    Minor,
    Unknown,
}

/// The severity named by an already lower-cased label; anything that is not one
/// of the four known labels is `Unknown`.
pub open spec fn severity_of_label(s: Seq<char>) -> Severity {
    if s == "extreme"@ {
        Severity::Extreme
    } else if s == "severe"@ {
        Severity::Severe
    } else if s == "moderate"@ {
        Severity::Moderate
    } else if s == "minor"@ {
        Severity::Minor
    } else {
        Severity::Unknown
    }
}

impl Severity {
    /// The lower-case label stored in the database and shown on the dashboard.
    pub open spec fn label(self) -> Seq<char> {
        match self {
            Severity::Extreme => "extreme"@,
            Severity::Severe => "severe"@,
            Severity::Moderate => "moderate"@,
            Severity::Minor => "minor"@,
            Severity::Unknown => "unknown"@,
        }
    }

    /// The CSS class used by the dashboard for this severity.
    pub open spec fn css_label(self) -> Seq<char> {
        match self {
            Severity::Extreme => "severity-extreme"@,
            Severity::Severe => "severity-severe"@,
            Severity::Moderate => "severity-moderate"@,
            Severity::Minor => "severity-minor"@,
            Severity::Unknown => "severity-unknown"@,
        }
    }

    /// The map-marker colour for this severity.
    pub open spec fn color_label(self) -> Seq<char> {
        match self {
            Severity::Extreme => "#dc2626"@,
            Severity::Severe => "#ea580c"@,
            Severity::Moderate => "#ca8a04"@,
            Severity::Minor => "#2563eb"@,
            Severity::Unknown => "#6b7280"@,
        }
    }

    pub fn as_str(&self) -> (r: &'static str)
        ensures
            r@ == self.label(),
    {
        match self {
            Severity::Extreme => "extreme",
            Severity::Severe => "severe",
            Severity::Moderate => "moderate",
            Severity::Minor => "minor",
            Severity::Unknown => "unknown",
        }
    }

    /// Reads a severity label case-insensitively; unknown labels give `Unknown`.
    pub fn from_str(s: &str) -> (r: Severity)
        ensures
            r == severity_of_label(unicode_lowercase(s@)),
            is_ascii_chars(s@) ==> r == severity_of_label(ascii_lower(s@)),
    {
        let lowered = to_lowercase(s);
        Severity::from_lowercase_label(lowered.as_str())
    }

    /// Reads an already lower-cased label; unknown labels give `Unknown`.
    pub fn from_lowercase_label(s: &str) -> (r: Severity)
        ensures
            r == severity_of_label(s@),
    {
        if str_eq(s, "extreme") {
            Severity::Extreme
        } else if str_eq(s, "severe") {
            Severity::Severe
        } else if str_eq(s, "moderate") {
            Severity::Moderate
        } else if str_eq(s, "minor") {
            Severity::Minor
        } else {
            Severity::Unknown
        }
    }

    /// CSS class for dashboard rendering.
    pub fn css_class(&self) -> (r: &'static str)
        ensures
            r@ == self.css_label(),
    {
        match self {
            Severity::Extreme => "severity-extreme",
            Severity::Severe => "severity-severe",
            Severity::Moderate => "severity-moderate",
            Severity::Minor => "severity-minor",
            Severity::Unknown => "severity-unknown",
        }
    }

    /// Map marker color.
    pub fn color(&self) -> (r: &'static str)
        ensures
            r@ == self.color_label(),
    {
        match self {
            Severity::Extreme => "#dc2626",
            Severity::Severe => "#ea580c",
            Severity::Moderate => "#ca8a04",
            Severity::Minor => "#2563eb",
            Severity::Unknown => "#6b7280",
        }
    }
}

/// Reading back the label of a severity gives that severity: every label is
/// lower-case ASCII, so `from_str(as_str(s)) == s` for every severity `s`.
pub proof fn lemma_label_round_trip(s: Severity)
    ensures
        is_ascii_chars(s.label()),
        ascii_lower(s.label()) == s.label(),
        severity_of_label(ascii_lower(s.label())) == s,
{
    reveal_strlit("extreme");
    reveal_strlit("severe");
    reveal_strlit("moderate");
    reveal_strlit("minor");
    reveal_strlit("unknown");
    assert(ascii_lower(s.label()) =~= s.label());
    assert("extreme"@.len() == 7 && "severe"@.len() == 6 && "moderate"@.len() == 8);
    assert("minor"@.len() == 5 && "unknown"@.len() == 7);
    assert("unknown"@[0] != "extreme"@[0]);
}

/// Distinct severities have distinct labels.
pub proof fn lemma_labels_distinct(a: Severity, b: Severity)
    requires
        a != b,
    ensures
        a.label() != b.label(),
{
    lemma_label_round_trip(a);
    lemma_label_round_trip(b);
}

/// Label lookup ignores ASCII case: upper-casing a text first (as
/// `to_uppercase` does to ASCII text) names the same severity.
pub proof fn lemma_label_case_insensitive(s: Seq<char>)
    ensures
        is_ascii_chars(s) ==> is_ascii_chars(ascii_upper(s)),
        severity_of_label(ascii_lower(ascii_upper(s))) == severity_of_label(ascii_lower(s)),
{
    assert forall|i: int| 0 <= i < s.len() implies ascii_lower_char(ascii_upper_char(s[i]))
        == ascii_lower_char(s[i]) && (s[i] <= '\u{7f}' ==> ascii_upper_char(s[i]) <= '\u{7f}') by {
        let c = s[i];
        if 'a' <= c && c <= 'z' {
            assert(ascii_upper_char(c) as u32 == (c as u32) - 32);
        }
    }
    assert(ascii_lower(ascii_upper(s)) =~= ascii_lower(s));
    if is_ascii_chars(s) {
        assert forall|i: int| 0 <= i < ascii_upper(s).len() implies '\0' <= #[trigger] ascii_upper(
            s,
        )[i] <= '\u{7f}' by {
            assert(s[i] <= '\u{7f}');
        }
    }
}

/// Every CSS class is `severity-` followed by the severity's label.
pub proof fn lemma_css_class_is_prefixed_label(s: Severity)
    ensures
        s.css_label() == "severity-"@ + s.label(),
{
    reveal_strlit("severity-");
    reveal_strlit("extreme");
    reveal_strlit("severe");
    reveal_strlit("moderate");
    reveal_strlit("minor");
    reveal_strlit("unknown");
    reveal_strlit("severity-extreme");
    reveal_strlit("severity-severe");
    reveal_strlit("severity-moderate");
    reveal_strlit("severity-minor");
    reveal_strlit("severity-unknown");
    assert(s.css_label() =~= "severity-"@ + s.label());
}

/// The plain-valued part of a normalized event that every poller produces and
/// the dashboard reads: everything but the coordinates, the raw geometry and the
/// source-specific metadata, which stay with the caller.
#[derive(Debug, Clone)]
pub struct EventRecord {
    pub source: String,
    pub source_id: String,
    pub event_type: String,
    pub severity: Severity,
    pub title: String,
    pub description: Option<String>,
    pub url: Option<String>,
    pub onset_at: Option<String>,
    pub expires_at: Option<String>,
    pub area_desc: Option<String>,
    pub is_active: bool,
}

/// Dashboard statistics.
#[derive(Debug, Clone, Default)]
pub struct DashboardStats {
    pub total_active: i64,
    pub extreme_count: i64,
    pub severe_count: i64,
    pub moderate_count: i64,
    pub minor_count: i64,
    pub by_source: Vec<SourceCount>,
    pub by_type: Vec<TypeCount>,
}

#[derive(Debug, Clone)]
pub struct SourceCount {
    pub source: String,
    pub count: i64,
}

#[derive(Debug, Clone)]
pub struct TypeCount {
    pub event_type: String,
    pub count: i64,
}

/// Feed health info for the status panel.
#[derive(Debug, Clone)]
pub struct FeedHealth {
    pub source: String,
    pub last_poll_at: Option<String>,
    pub last_success_at: Option<String>,
    pub last_error: Option<String>,
    pub event_count: i64,
    pub poll_count: i64,
    pub error_count: i64,
}

} // verus!
