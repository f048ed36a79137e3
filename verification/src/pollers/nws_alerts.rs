//! National Weather Service active alerts.

use vstd::prelude::*;
use vstd::string::*;
use vstd::utf8::*;
use crate::models::{EventRecord, Severity};
use crate::text::{
    boundary_at_or_before, clip_bytes, clip_to_bytes, clone_opt, lemma_clip_bytes_prefix, lemma_encode_utf8_concat,
    opt_str_view, opt_view, owned,
};

verus! {

/// The longest stored description, in UTF-8 bytes, before it is cut.
pub const DESCRIPTION_LIMIT: usize = 2000;

/// Polls the NWS active-alerts feed.
pub struct NwsAlertsPoller;

/// The properties of one NWS alert feature, as plain values: each field holds
/// the string found under the named key, when there is one.
#[derive(Debug, Clone)]
pub struct NwsAlertProperties {
    /// `id`
    pub id: Option<String>,
    /// `event`
    pub event: Option<String>,
    /// `headline`
    pub headline: Option<String>,
    /// `description`
    pub description: Option<String>,
    /// `severity`
    pub severity: Option<String>,
    /// `certainty`
    pub certainty: Option<String>,
    /// `onset`
    pub onset: Option<String>,
    /// `effective`
    pub effective: Option<String>,
    /// `expires`
    pub expires: Option<String>,
    /// `ends`
    pub ends: Option<String>,
    /// `areaDesc`
    pub area_desc: Option<String>,
    /// `@id`
    pub url: Option<String>,
}

/// Our severity for an NWS severity and certainty: a known NWS severity maps
/// to ours; otherwise an observed or likely event is moderate, anything else
/// unknown.
pub open spec fn nws_severity(severity: Option<Seq<char>>, certainty: Option<Seq<char>>) -> Severity {
    if severity == Some("Extreme"@) {
        Severity::Extreme
    } else if severity == Some("Severe"@) {
        Severity::Severe
    } else if severity == Some("Moderate"@) {
        Severity::Moderate
    } else if severity == Some("Minor"@) {
        Severity::Minor
    } else if certainty == Some("Observed"@) || certainty == Some("Likely"@) {
        Severity::Moderate
    } else {
        Severity::Unknown
    }
}

/// A stored description: the text itself, or, when it is longer than the limit,
/// its longest prefix of at most `DESCRIPTION_LIMIT` bytes followed by `...`.
pub open spec fn stored_description(d: Seq<char>) -> Seq<char> {
    if encode_utf8(d).len() > DESCRIPTION_LIMIT {
        clip_bytes(d, DESCRIPTION_LIMIT as nat) + "..."@
    } else {
        d
    }
}

/// Stored descriptions are bounded: a description longer than the limit is
/// kept as its bytes up to the last character boundary within the limit plus
/// `...`, so it never exceeds the limit by more than three bytes, and what is
/// kept is a prefix of the description; a shorter one is kept as it is.
pub proof fn lemma_stored_description_bounded(d: Seq<char>)
    ensures
        encode_utf8(stored_description(d)).len() <= DESCRIPTION_LIMIT + 3,
        encode_utf8(d).len() <= DESCRIPTION_LIMIT ==> stored_description(d) == d,
        encode_utf8(d).len() > DESCRIPTION_LIMIT ==> encode_utf8(stored_description(d))
            == encode_utf8(d).subrange(
            0,
            boundary_at_or_before(encode_utf8(d), DESCRIPTION_LIMIT as nat) as int,
        ) + encode_utf8("..."@),
        encode_utf8(d).len() > DESCRIPTION_LIMIT ==> stored_description(d) == d.take(
            clip_bytes(d, DESCRIPTION_LIMIT as nat).len() as int,
        ) + "..."@,
{
    lemma_clip_bytes_prefix(d, DESCRIPTION_LIMIT as nat);
    if encode_utf8(d).len() > DESCRIPTION_LIMIT {
        reveal_strlit("...");
        is_ascii_chars_encode_utf8("..."@);
        lemma_encode_utf8_concat(clip_bytes(d, DESCRIPTION_LIMIT as nat), "..."@);
    }
}

/// The first of two optional values that is present.
pub open spec fn first_present(a: Option<Seq<char>>, b: Option<Seq<char>>) -> Option<Seq<char>> {
    match a {
        Some(x) => Some(x),
        None => b,
    }
}

/// The title of an alert: its headline, else its event name, else a fixed text.
pub open spec fn alert_title(p: NwsAlertProperties) -> Seq<char> {
    match p.headline {
        Some(h) => h@,
        None => match p.event {
            Some(e) => e@,
            None => "Unknown Alert"@,
        },
    }
}

/// `e` is the event that the alert `p` normalizes to.
pub open spec fn is_alert_event(p: NwsAlertProperties, e: EventRecord) -> bool {
    &&& p.id is Some
    &&& e.source@ == "nws"@
    &&& e.source_id@ == p.id->0@
    &&& e.event_type@ == "weather_alert"@
    &&& e.severity == nws_severity(opt_view(p.severity), opt_view(p.certainty))
    &&& e.title@ == alert_title(p)
    &&& opt_view(e.description) == match p.description {
        Some(d) => Some(stored_description(d@)),
        None => None,
    }
    &&& opt_view(e.url) == opt_view(p.url)
    &&& opt_view(e.onset_at) == first_present(opt_view(p.onset), opt_view(p.effective))
    &&& opt_view(e.expires_at) == first_present(opt_view(p.expires), opt_view(p.ends))
    &&& opt_view(e.area_desc) == opt_view(p.area_desc)
    &&& e.is_active
}

/// The severity of a normalized alert is read from the alert's own severity
/// text when it is exactly one of the four NWS words; any other severity text,
/// or none at all, falls back to the certainty: an observed or likely alert is
/// moderate, anything else unknown.
pub proof fn lemma_alert_severity(p: NwsAlertProperties, e: EventRecord)
    requires
        is_alert_event(p, e),
    ensures
        p.severity matches Some(s) && s@ == "Extreme"@ ==> e.severity == Severity::Extreme,
        p.severity matches Some(s) && s@ == "Severe"@ ==> e.severity == Severity::Severe,
        p.severity matches Some(s) && s@ == "Moderate"@ ==> e.severity == Severity::Moderate,
        p.severity matches Some(s) && s@ == "Minor"@ ==> e.severity == Severity::Minor,
        !(p.severity matches Some(s) && (s@ == "Extreme"@ || s@ == "Severe"@ || s@ == "Moderate"@
            || s@ == "Minor"@)) ==> e.severity == if p.certainty matches Some(c) && (c@
            == "Observed"@ || c@ == "Likely"@) {
            Severity::Moderate
        } else {
            Severity::Unknown
        },
{
    reveal_strlit("Extreme");
    reveal_strlit("Severe");
    reveal_strlit("Moderate");
    reveal_strlit("Minor");
    assert("Extreme"@.len() == 7 && "Severe"@.len() == 6 && "Moderate"@.len() == 8
        && "Minor"@.len() == 5);
}

/// The text fields of a normalized alert, field by field: the title is the
/// headline, else the event name, else `Unknown Alert`; the onset is the
/// alert's onset, else its effective time; the expiry is its expires time,
/// else its end; the link and the area are the alert's own, absent when it
/// has none; a description is present exactly when the alert has one, and a
/// description of at most `DESCRIPTION_LIMIT` bytes is kept whole.
pub proof fn lemma_alert_fields(p: NwsAlertProperties, e: EventRecord)
    requires
        is_alert_event(p, e),
    ensures
        e.source_id@ == p.id->0@,
        p.headline matches Some(h) ==> e.title@ == h@,
        p.headline is None ==> (p.event matches Some(ev) ==> e.title@ == ev@),
        p.headline is None && p.event is None ==> e.title@ == "Unknown Alert"@,
        e.onset_at is Some <==> (p.onset is Some || p.effective is Some),
        p.onset matches Some(o) ==> e.onset_at->0@ == o@,
        p.onset is None ==> (p.effective matches Some(ef) ==> e.onset_at->0@ == ef@),
        e.expires_at is Some <==> (p.expires is Some || p.ends is Some),
        p.expires matches Some(x) ==> e.expires_at->0@ == x@,
        p.expires is None ==> (p.ends matches Some(en) ==> e.expires_at->0@ == en@),
        e.url is Some <==> p.url is Some,
        p.url matches Some(u) ==> e.url->0@ == u@,
        e.area_desc is Some <==> p.area_desc is Some,
        p.area_desc matches Some(a) ==> e.area_desc->0@ == a@,
        e.description is Some <==> p.description is Some,
        p.description matches Some(d) ==> (encode_utf8(d@).len() <= DESCRIPTION_LIMIT
            ==> e.description->0@ == d@),
{
    if let Some(d) = p.description {
        lemma_stored_description_bounded(d@);
    }
}

/// An alert feature is kept when it has properties and they carry an id.
pub open spec fn alert_kept(feature: Option<NwsAlertProperties>) -> bool {
    match feature {
        Some(p) => p.id is Some,
        None => false,
    }
}

/// The positions of the kept alert features, in feed order.
pub open spec fn kept_alerts(features: Seq<Option<NwsAlertProperties>>) -> Seq<usize>
    decreases features.len(),
{
    if features.len() == 0 {
        seq![]
    } else {
        kept_alerts(features.drop_last()) + if alert_kept(features.last()) {
            seq![(features.len() - 1) as usize]
        } else {
            seq![]
        }
    }
}

fn first_present_of(a: &Option<String>, b: &Option<String>) -> (r: Option<String>)
    ensures
        opt_view(r) == first_present(opt_view(*a), opt_view(*b)),
{
    match a {
        Some(x) => Some(x.clone()),
        None => clone_opt(b),
    }
}

/// Cuts a description longer than the limit.
pub fn truncate_description(d: &str) -> (r: String)
    ensures
        r@ == stored_description(d@),
{
    if d.as_bytes().len() > DESCRIPTION_LIMIT {
        let mut r = owned(clip_to_bytes(d, DESCRIPTION_LIMIT));
        r.append("...");
        r
    } else {
        owned(d)
    }
}

impl NwsAlertsPoller {
    pub fn new() -> Self {
        NwsAlertsPoller
    }

    /// Human-readable name of this feed.
    pub fn name(&self) -> (r: &'static str)
        ensures
            r@ == "NWS Active Alerts"@,
    {
        "NWS Active Alerts"
    }

    /// Source key used in the events table.
    pub fn source_key(&self) -> (r: &'static str)
        ensures
            r@ == "nws"@,
    {
        "nws"
    }

    /// How often to poll, in seconds.
    pub fn interval_secs(&self) -> (r: u64)
        ensures
            r == 60,
    {
        60
    }

    /// Map NWS severity string to our normalized severity.
    pub fn map_severity(nws_severity_text: Option<&str>, nws_certainty: Option<&str>) -> (r: Severity)
        ensures
            r == nws_severity(opt_str_view(nws_severity_text), opt_str_view(nws_certainty)),
    {
        match nws_severity_text {
            Some(s) if crate::text::str_eq(s, "Extreme") => Severity::Extreme,
            Some(s) if crate::text::str_eq(s, "Severe") => Severity::Severe,
            Some(s) if crate::text::str_eq(s, "Moderate") => Severity::Moderate,
            Some(s) if crate::text::str_eq(s, "Minor") => Severity::Minor,
            _ => {
                // Fall back to certainty if severity is unknown
                match nws_certainty {
                    Some(c) if crate::text::str_eq(c, "Observed") || crate::text::str_eq(
                        c,
                        "Likely",
                    ) => Severity::Moderate,
                    _ => Severity::Unknown,
                }
            },
        }
    }

    /// Normalizes one alert; alerts without an id are skipped (`None`).
    pub fn normalize(p: &NwsAlertProperties) -> (r: Option<EventRecord>)
        ensures
            r is Some <==> p.id is Some,
            r matches Some(e) ==> is_alert_event(*p, e),
    {
        let source_id = match &p.id {
            Some(id) => id.clone(),
            None => {
                return None;
            },
        };
        let title = match &p.headline {
            Some(h) => h.clone(),
            None => match &p.event {
                Some(e) => e.clone(),
                None => owned("Unknown Alert"),
            },
        };
        let description = match &p.description {
            Some(d) => Some(truncate_description(d.as_str())),
            None => None,
        };
        let severity = NwsAlertsPoller::map_severity(
            match &p.severity {
                Some(s) => Some(s.as_str()),
                None => None,
            },
            match &p.certainty {
                Some(c) => Some(c.as_str()),
                None => None,
            },
        );
        let e = EventRecord {
            source: owned("nws"),
            source_id,
            event_type: owned("weather_alert"),
            severity,
            title,
            description,
            url: clone_opt(&p.url),
            onset_at: first_present_of(&p.onset, &p.effective),
            expires_at: first_present_of(&p.expires, &p.ends),
            area_desc: clone_opt(&p.area_desc),
            is_active: true,
        };
        Some(e)
    }

    /// Normalizes a feed of alert features (`None`: a feature without
    /// properties), in feed order, skipping features without properties or
    /// without an id. Each result carries the position of its feature.
    pub fn normalize_all(features: &Vec<Option<NwsAlertProperties>>) -> (r: Vec<(usize, EventRecord)>)
        ensures
            r@.len() == kept_alerts(features@).len(),
            forall|k: int|
                0 <= k < r@.len() ==> {
                    &&& #[trigger] r@[k].0 == kept_alerts(features@)[k]
                    &&& r@[k].0 < features@.len()
                    &&& is_alert_event(features@[r@[k].0 as int]->0, r@[k].1)
                },
    {
        let mut out: Vec<(usize, EventRecord)> = Vec::new();
        for i in 0..features.len()
            invariant
                out@.len() == kept_alerts(features@.take(i as int)).len(),
                forall|k: int|
                    0 <= k < out@.len() ==> {
                        &&& #[trigger] out@[k].0 == kept_alerts(features@.take(i as int))[k]
                        &&& out@[k].0 < i
                        &&& is_alert_event(features@[out@[k].0 as int]->0, out@[k].1)
                    },
        {
            assert(features@.take(i + 1).drop_last() =~= features@.take(i as int));
            assert(features@.take(i + 1).last() == features@[i as int]);
            if let Some(p) = &features[i] {
                if let Some(e) = NwsAlertsPoller::normalize(p) {
                    out.push((i, e));
                }
            }
        }
        assert(features@.take(features@.len() as int) =~= features@);
        out
    }
}

} // verus!
