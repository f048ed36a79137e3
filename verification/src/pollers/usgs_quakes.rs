//! USGS Earthquake Hazards Program: real-time GeoJSON feed of M2.5+ quakes.

use vstd::prelude::*;
use vstd::string::*;
use crate::models::{EventRecord, Severity};
use crate::text::{clone_opt, opt_view, owned};

verus! {

/// Polls the USGS earthquake feed.
pub struct UsgsQuakesPoller;

/// The fields of one USGS earthquake feature that the normalization reads,
/// as plain values.
#[derive(Debug, Clone)]
pub struct UsgsQuakeProperties {
    /// The feature's `id`.
    pub id: Option<String>,
    /// `properties.title`
    pub title: Option<String>,
    /// `properties.place`
    pub place: Option<String>,
    /// `properties.url`
    pub url: Option<String>,
    /// `properties.time`: milliseconds since the Unix epoch.
    pub time_ms: Option<i64>,
}

/// What `DateTime::<Utc>::from_timestamp(secs, nanos)` followed by `to_rfc3339`
/// gives: `None` when chrono rejects the instant, else its RFC 3339 text.
pub uninterp spec fn utc_rfc3339(secs: i64, nanos: u32) -> Option<Seq<char>>;

/// `chrono::DateTime::<Utc>::from_timestamp` then `DateTime::to_rfc3339`.
/// Claims: the result is the name above applied to the arguments; chrono
/// rejects a nanosecond count of two billion or more (its leap-second limit)
/// and accepts any sub-second nanosecond count with a seconds value within
/// eight trillion of the epoch (well inside its years -262143 to 262142).
/// Exactly which seconds values are in range, and the text, are left to the
/// name.
#[verifier::external_body]
fn format_utc_timestamp(secs: i64, nanos: u32) -> (r: Option<String>)
    ensures
        opt_view(r) == utc_rfc3339(secs, nanos),
        nanos >= 2_000_000_000 ==> r is None,
        nanos < 1_000_000_000 && -8_000_000_000_000 <= secs <= 8_000_000_000_000 ==> r is Some,
{
    chrono::DateTime::from_timestamp(secs, nanos).map(|dt| dt.to_rfc3339())
}

/// Whole seconds of a millisecond count, rounded toward zero (Rust's `/`).
pub open spec fn millis_secs(ms: i64) -> int {
    if ms >= 0 {
        ms / 1000
    } else {
        -((-ms) / 1000)
    }
}

/// The nanosecond argument handed to chrono for a millisecond count: the
/// remainder (with the sign of `ms`, Rust's `%`) times a million, wrapped into
/// 32 bits (`as u32`).
pub open spec fn millis_nanos(ms: i64) -> int {
    let rem = ms - 1000 * millis_secs(ms);
    if rem >= 0 {
        rem * 1_000_000
    } else {
        rem * 1_000_000 + 0x1_0000_0000
    }
}

/// The onset text for a formatted instant: the text, or empty text when the
/// instant could not be formatted.
pub open spec fn text_or_empty(formatted: Option<Seq<char>>) -> Seq<char> {
    match formatted {
        Some(t) => t,
        None => Seq::empty(),
    }
}

/// The onset text of a quake time: its RFC 3339 form, or empty text when
/// chrono rejects it.
pub open spec fn quake_onset(ms: i64) -> Seq<char> {
    text_or_empty(utc_rfc3339(millis_secs(ms) as i64, millis_nanos(ms) as u32))
}

/// The title of a quake: its own title, or a fixed text.
pub open spec fn quake_title(p: UsgsQuakeProperties) -> Seq<char> {
    match p.title {
        Some(t) => t@,
        None => "Unknown Earthquake"@,
    }
}

/// `e` is the event that quake `p`, of the given severity, normalizes to.
pub open spec fn is_quake_event(p: UsgsQuakeProperties, severity: Severity, e: EventRecord) -> bool {
    &&& p.id is Some
    &&& e.source@ == "usgs"@
    &&& e.source_id@ == p.id->0@
    &&& e.event_type@ == "earthquake"@
    &&& e.severity == severity
    &&& e.title@ == quake_title(p)
    &&& opt_view(e.description) == opt_view(p.place)
    &&& opt_view(e.url) == opt_view(p.url)
    &&& opt_view(e.onset_at) == match p.time_ms {
        Some(ms) => Some(quake_onset(ms)),
        None => None,
    }
    &&& e.expires_at is None
    &&& opt_view(e.area_desc) == opt_view(p.place)
    &&& e.is_active
}

/// A normalized quake links to the feature's own `url` (none when the feature
/// has none), while its description and area are the feature's `place`: the
/// link never comes from the place text, whatever the two hold.
pub proof fn lemma_quake_link_and_place(p: UsgsQuakeProperties, severity: Severity, e: EventRecord)
    requires
        is_quake_event(p, severity, e),
    ensures
        e.url is Some <==> p.url is Some,
        p.url matches Some(u) ==> e.url->0@ == u@,
        e.description is Some <==> p.place is Some,
        p.place matches Some(pl) ==> e.description->0@ == pl@ && e.area_desc is Some
            && e.area_desc->0@ == pl@,
        p.place is None ==> e.area_desc is None,
{
}

/// The other fields of a normalized quake: its title is the feature's title,
/// else `Unknown Earthquake`; its severity is the one it was given; it has an
/// onset exactly when the feature has a time, and that onset is the time's
/// RFC 3339 text; it never expires and is active.
pub proof fn lemma_quake_fields(p: UsgsQuakeProperties, severity: Severity, e: EventRecord)
    requires
        is_quake_event(p, severity, e),
    ensures
        e.source_id@ == p.id->0@,
        p.title matches Some(t) ==> e.title@ == t@,
        p.title is None ==> e.title@ == "Unknown Earthquake"@,
        e.severity == severity,
        e.onset_at is Some <==> p.time_ms is Some,
        p.time_ms matches Some(ms) ==> e.onset_at->0@ == quake_onset(ms),
        e.expires_at is None,
        e.is_active,
{
}

/// A quake feature is kept when it has properties and an id.
pub open spec fn quake_kept(feature: Option<(UsgsQuakeProperties, Severity)>) -> bool {
    match feature {
        Some(f) => f.0.id is Some,
        None => false,
    }
}

/// The positions of the kept quake features, in feed order.
pub open spec fn kept_quakes(features: Seq<Option<(UsgsQuakeProperties, Severity)>>) -> Seq<usize>
    decreases features.len(),
{
    if features.len() == 0 {
        seq![]
    } else {
        kept_quakes(features.drop_last()) + if quake_kept(features.last()) {
            seq![(features.len() - 1) as usize]
        } else {
            seq![]
        }
    }
}

/// The onset text for the result of formatting an instant: the text, or
/// empty text when there is none.
pub fn onset_text_or_empty(formatted: Option<String>) -> (r: String)
    ensures
        r@ == text_or_empty(opt_view(formatted)),
{
    match formatted {
        Some(t) => t,
        None => String::new(),
    }
}

/// The RFC 3339 onset of a quake time in milliseconds since the epoch; empty
/// when chrono rejects the instant. A time within eight trillion seconds of
/// the epoch that is not before it, or is a whole number of seconds, always
/// has one; a time before the epoch that is not a whole number of seconds
/// hands chrono a wrapped nanosecond count, so its onset is empty.
pub fn onset_from_millis(ms: i64) -> (r: String)
    ensures
        r@ == quake_onset(ms),
        (ms >= 0 || (ms as int) % 1000 == 0) && -8_000_000_000_000_000 <= ms
            <= 8_000_000_000_000_000 ==> r@ == utc_rfc3339(
            millis_secs(ms) as i64,
            millis_nanos(ms) as u32,
        )->0,
        ms < 0 && (ms as int) % 1000 != 0 ==> r@ == Seq::<char>::empty(),
{
    let secs: i64 = ms / 1000;
    let rem: i64 = ms % 1000;
    assert(secs == millis_secs(ms));
    assert(rem == ms - 1000 * millis_secs(ms));
    proof {
        if ms < 0 {
            assert(((ms as int) % 1000 == 0) == (rem == 0)) by (nonlinear_arith)
                requires
                    secs * 1000 + rem == ms,
                    -1000 < rem <= 0,
            ;
        }
    }
    let nanos: u32 = if rem >= 0 {
        (rem * 1_000_000) as u32
    } else {
        (rem * 1_000_000 + 0x1_0000_0000) as u32
    };
    onset_text_or_empty(format_utc_timestamp(secs, nanos))
}

impl UsgsQuakesPoller {
    pub fn new() -> Self {
        UsgsQuakesPoller
    }

    /// Human-readable name of this feed.
    pub fn name(&self) -> (r: &'static str)
        ensures
            r@ == "USGS Earthquakes"@,
    {
        "USGS Earthquakes"
    }

    /// Source key used in the events table.
    pub fn source_key(&self) -> (r: &'static str)
        ensures
            r@ == "usgs"@,
    {
        "usgs"
    }

    /// How often to poll, in seconds: matches the USGS update cadence.
    pub fn interval_secs(&self) -> (r: u64)
        ensures
            r == 300,
    {
        300
    }

    /// Normalizes one quake of the given severity; quakes without an id are
    /// skipped (`None`).
    pub fn normalize(p: &UsgsQuakeProperties, severity: Severity) -> (r: Option<EventRecord>)
        ensures
            r is Some <==> p.id is Some,
            r matches Some(e) ==> is_quake_event(*p, severity, e),
    {
        let source_id = match &p.id {
            Some(id) => id.clone(),
            None => {
                return None;
            },
        };
        let title = match &p.title {
            Some(t) => t.clone(),
            None => owned("Unknown Earthquake"),
        };
        let onset_at = match p.time_ms {
            Some(ms) => Some(onset_from_millis(ms)),
            None => None,
        };
        Some(
            EventRecord {
                source: owned("usgs"),
                source_id,
                event_type: owned("earthquake"),
                severity,
                title,
                description: clone_opt(&p.place),
                url: clone_opt(&p.url),
                onset_at,
                expires_at: None,
                area_desc: clone_opt(&p.place),
                is_active: true,
            },
        )
    }

    /// Normalizes a feed of quake features, each with the severity of its
    /// magnitude (`None`: a feature without properties), in feed order,
    /// skipping features without properties or without an id. Each result
    /// carries the position of its feature.
    pub fn normalize_all(features: &Vec<Option<(UsgsQuakeProperties, Severity)>>) -> (r: Vec<(usize, EventRecord)>)
        ensures
            r@.len() == kept_quakes(features@).len(),
            forall|k: int|
                0 <= k < r@.len() ==> {
                    &&& #[trigger] r@[k].0 == kept_quakes(features@)[k]
                    &&& r@[k].0 < features@.len()
                    &&& is_quake_event(
                        (features@[r@[k].0 as int]->0).0,
                        (features@[r@[k].0 as int]->0).1,
                        r@[k].1,
                    )
                },
    {
        let mut out: Vec<(usize, EventRecord)> = Vec::new();
        for i in 0..features.len()
            invariant
                out@.len() == kept_quakes(features@.take(i as int)).len(),
                forall|k: int|
                    0 <= k < out@.len() ==> {
                        &&& #[trigger] out@[k].0 == kept_quakes(features@.take(i as int))[k]
                        &&& out@[k].0 < i
                        &&& is_quake_event(
                            (features@[out@[k].0 as int]->0).0,
                            (features@[out@[k].0 as int]->0).1,
                            out@[k].1,
                        )
                    },
        {
            assert(features@.take(i + 1).drop_last() =~= features@.take(i as int));
            assert(features@.take(i + 1).last() == features@[i as int]);
            if let Some(f) = &features[i] {
                if let Some(e) = UsgsQuakesPoller::normalize(&f.0, f.1) {
                    out.push((i, e));
                }
            }
        }
        assert(features@.take(features@.len() as int) =~= features@);
        out
    }
}

} // verus!
