//! Dashboard rendering: HTML fragments served to the HTMX front end.

use vstd::prelude::*;
use vstd::string::*;
use vstd::std_specs::iter::IteratorSpec;
use vstd::utf8::*;
use crate::models::{
    lemma_css_class_is_prefixed_label, lemma_label_round_trip, DashboardStats, EventRecord,
    FeedHealth, SourceCount, TypeCount,
};
use crate::text::{
    ascii_upper, clip_bytes, clip_to_bytes, decimal_int, push_char, push_decimal_i64, str_eq,
    to_uppercase, unicode_uppercase,
};

verus! {

broadcast use vstd::string::group_string_axioms;

/// The HTML entity that replaces one character, or the character itself.
pub open spec fn escape_char(c: char) -> Seq<char> {
    if c == '&' {
        seq!['&', 'a', 'm', 'p', ';']
    } else if c == '<' {
        seq!['&', 'l', 't', ';']
    } else if c == '>' {
        seq!['&', 'g', 't', ';']
    } else if c == '"' {
        seq!['&', 'q', 'u', 'o', 't', ';']
    } else {
        seq![c]
    }
}

/// A text with `&`, `<`, `>` and `"` replaced by their HTML entities.
pub open spec fn escaped(s: Seq<char>) -> Seq<char>
    decreases s.len(),
{
    if s.len() == 0 {
        seq![]
    } else {
        escaped(s.drop_last()) + escape_char(s.last())
    }
}

/// Escapes `&`, `<`, `>` and `"` for safe inclusion in HTML.
pub fn html_escape(s: &str) -> (r: String)
    ensures
        r@ == escaped(s@),
{
    let mut out = String::new();
    for c in it: s.chars()
        invariant
            it.seq() == s@,
            out@ == escaped(s@.take(it.index() as int)),
    {
        assert(c == s@[it.index() as int]);
        assert(s@.take(it.index() + 1).drop_last() =~= s@.take(it.index() as int));
        assert(s@.take(it.index() + 1).last() == c);
        let ghost before = out@;
        proof {
            reveal_strlit("&amp;");
            reveal_strlit("&lt;");
            reveal_strlit("&gt;");
            reveal_strlit("&quot;");
            assert("&amp;"@ =~= seq!['&', 'a', 'm', 'p', ';']);
            assert("&lt;"@ =~= seq!['&', 'l', 't', ';']);
            assert("&gt;"@ =~= seq!['&', 'g', 't', ';']);
            assert("&quot;"@ =~= seq!['&', 'q', 'u', 'o', 't', ';']);
        }
        if c == '&' {
            out.append("&amp;");
        } else if c == '<' {
            out.append("&lt;");
        } else if c == '>' {
            out.append("&gt;");
        } else if c == '"' {
            out.append("&quot;");
        } else {
            push_char(&mut out, c);
        }
        assert(out@ =~= before + escape_char(c));
    }
    assert(s@.take(s@.len() as int) =~= s@);
    out
}

pub const BADGE_NWS: &'static str = "<span class=\"badge badge-nws\">NWS</span>";
pub const BADGE_USGS: &'static str = "<span class=\"badge badge-usgs\">USGS</span>";
pub const BADGE_OTHER: &'static str = "<span class=\"badge\">{source}</span>";
pub const NO_VALUE: &'static str = "\u{2014}";
pub const NO_EVENTS: &'static str = "<div class=\"event-card\">No active events</div>";
pub const CARD_OPEN: &'static str = "<div class=\"event-card ";
pub const CARD_HEADER: &'static str = "\">\n                <div class=\"event-header\">\n                    ";
pub const CARD_SEVERITY: &'static str = "\n                    <span class=\"event-severity\">";
pub const CARD_TIME: &'static str = "</span>\n                    <span class=\"event-time\">";
pub const CARD_TITLE: &'static str = "</span>\n                </div>\n                <div class=\"event-title\">";
pub const CARD_AREA: &'static str = "</div>\n                <div class=\"event-area\">";
pub const CARD_CLOSE: &'static str = "</div>\n            </div>";

/// The source badge of an event card. Sources other than NWS and USGS get a
/// plain badge whose text is the literal placeholder `{source}`.
pub open spec fn source_badge(source: Seq<char>) -> Seq<char> {
    if source == "nws"@ {
        BADGE_NWS@
    } else if source == "usgs"@ {
        BADGE_USGS@
    } else {
        BADGE_OTHER@
    }
}

/// An onset time as shown on a card: at most its first 16 bytes, cut at a
/// character boundary (date, hour and minute of an RFC 3339 stamp), or a dash
/// when there is none.
pub open spec fn onset_text(onset: Option<String>) -> Seq<char> {
    match onset {
        Some(s) => clip_bytes(s@, 16),
        None => NO_VALUE@,
    }
}

/// An area description as shown on a card, or a dash when there is none.
pub open spec fn area_text(area: Option<String>) -> Seq<char> {
    match area {
        Some(s) => s@,
        None => NO_VALUE@,
    }
}

/// The HTML card of one event in the feed.
pub open spec fn event_card(e: EventRecord) -> Seq<char> {
    CARD_OPEN@ + e.severity.css_label() + CARD_HEADER@ + source_badge(e.source@) + CARD_SEVERITY@
        + ascii_upper(e.severity.label()) + CARD_TIME@ + onset_text(e.onset_at) + CARD_TITLE@
        + escaped(e.title@) + CARD_AREA@ + escaped(area_text(e.area_desc)) + CARD_CLOSE@
}

pub open spec fn event_cards(events: Seq<EventRecord>) -> Seq<char>
    decreases events.len(),
{
    if events.len() == 0 {
        seq![]
    } else {
        event_cards(events.drop_last()) + event_card(events.last())
    }
}

/// The event feed partial: one card per event, in order, or a single
/// "No active events" card when there are none.
pub open spec fn events_feed_markup(events: Seq<EventRecord>) -> Seq<char> {
    if events.len() == 0 {
        NO_EVENTS@
    } else {
        event_cards(events)
    }
}

/// An event card: the severity's CSS class (`severity-` and its label), the
/// NWS or USGS badge by source (a plain placeholder badge for any other
/// source), the upper-cased severity label, the first 16 bytes of the onset,
/// the escaped title and the escaped area, with a dash for a missing onset or
/// area.
pub proof fn lemma_event_card_layout(e: EventRecord)
    ensures
        event_card(e) == CARD_OPEN@ + "severity-"@ + e.severity.label() + CARD_HEADER@ + (if e.source@
            == "nws"@ {
            BADGE_NWS@
        } else if e.source@ == "usgs"@ {
            BADGE_USGS@
        } else {
            BADGE_OTHER@
        }) + CARD_SEVERITY@ + ascii_upper(e.severity.label()) + CARD_TIME@ + (match e.onset_at {
            Some(o) => clip_bytes(o@, 16),
            None => "\u{2014}"@,
        }) + CARD_TITLE@ + escaped(e.title@) + CARD_AREA@ + (match e.area_desc {
            Some(a) => escaped(a@),
            None => "\u{2014}"@,
        }) + CARD_CLOSE@,
{
    lemma_css_class_is_prefixed_label(e.severity);
    reveal_strlit("\u{2014}");
    lemma_escaped_plain_text(NO_VALUE@);
}

/// The event feed shows one card per event, in the order given, and a single
/// "No active events" card when there are none.
pub proof fn lemma_events_feed_in_order(events: Seq<EventRecord>)
    ensures
        events_feed_markup(events) == if events.len() == 0 {
            NO_EVENTS@
        } else {
            events.map_values(|e: EventRecord| event_card(e)).flatten()
        },
{
    lemma_event_cards_in_order(events);
}

proof fn lemma_event_cards_in_order(events: Seq<EventRecord>)
    ensures
        event_cards(events) == events.map_values(|e: EventRecord| event_card(e)).flatten(),
    decreases events.len(),
{
    let f = |e: EventRecord| event_card(e);
    if events.len() > 0 {
        lemma_event_cards_in_order(events.drop_last());
        assert(events.map_values(f) =~= events.drop_last().map_values(f).push(f(events.last())));
        events.drop_last().map_values(f).lemma_flatten_push(f(events.last()));
    } else {
        assert(events.map_values(f) =~= Seq::<Seq<char>>::empty());
    }
}

fn source_badge_of(source: &str) -> (r: &'static str)
    ensures
        r@ == source_badge(source@),
{
    if str_eq(source, "nws") {
        BADGE_NWS
    } else if str_eq(source, "usgs") {
        BADGE_USGS
    } else {
        BADGE_OTHER
    }
}

fn onset_display(onset: &Option<String>) -> (r: &str)
    ensures
        r@ == onset_text(*onset),
{
    match onset {
        Some(s) => clip_to_bytes(s.as_str(), 16),
        None => NO_VALUE,
    }
}

/// Appends the card of one event.
pub fn render_event_card(out: &mut String, e: &EventRecord)
    ensures
        final(out)@ == old(out)@ + event_card(*e),
{
    let ghost start = out@;
    let upper = to_uppercase(e.severity.as_str());
    proof {
        lemma_label_round_trip(e.severity);
    }
    out.append(CARD_OPEN);
    out.append(e.severity.css_class());
    out.append(CARD_HEADER);
    out.append(source_badge_of(e.source.as_str()));
    out.append(CARD_SEVERITY);
    out.append(upper.as_str());
    out.append(CARD_TIME);
    out.append(onset_display(&e.onset_at));
    out.append(CARD_TITLE);
    let title = html_escape(e.title.as_str());
    out.append(title.as_str());
    out.append(CARD_AREA);
    let area = match &e.area_desc {
        Some(a) => a.as_str(),
        None => NO_VALUE,
    };
    let area_escaped = html_escape(area);
    out.append(area_escaped.as_str());
    out.append(CARD_CLOSE);
    assert(out@ =~= start + event_card(*e));
}

/// HTMX partial: the event feed for a list of events.
pub fn render_events_feed(events: &Vec<EventRecord>) -> (r: String)
    ensures
        r@ == events_feed_markup(events@),
{
    let mut html = String::new();
    for i in 0..events.len()
        invariant
            html@ == event_cards(events@.take(i as int)),
    {
        assert(events@.take(i + 1).drop_last() =~= events@.take(i as int));
        render_event_card(&mut html, &events[i]);
    }
    assert(events@.take(events@.len() as int) =~= events@);
    if events.len() == 0 {
        html.append(NO_EVENTS);
        assert(html@ =~= NO_EVENTS@);
    }
    html
}

pub const STATS_TOTAL: &'static str = "<div class=\"stat-grid\">\n            <div class=\"stat-card stat-total\">\n                <div class=\"stat-number\">";
pub const STATS_EXTREME: &'static str = "</div>\n                <div class=\"stat-label\">Active Events</div>\n            </div>\n            <div class=\"stat-card severity-extreme\">\n                <div class=\"stat-number\">";
pub const STATS_SEVERE: &'static str = "</div>\n                <div class=\"stat-label\">Extreme</div>\n            </div>\n            <div class=\"stat-card severity-severe\">\n                <div class=\"stat-number\">";
pub const STATS_MODERATE: &'static str = "</div>\n                <div class=\"stat-label\">Severe</div>\n            </div>\n            <div class=\"stat-card severity-moderate\">\n                <div class=\"stat-number\">";
pub const STATS_MINOR: &'static str = "</div>\n                <div class=\"stat-label\">Moderate</div>\n            </div>\n            <div class=\"stat-card severity-minor\">\n                <div class=\"stat-number\">";
pub const STATS_CLOSE: &'static str = "</div>\n                <div class=\"stat-label\">Minor</div>\n            </div>\n        </div>";
pub const SECTION_BY_SOURCE: &'static str = "<div class=\"stat-section\"><h3>By Source</h3>";
pub const SECTION_BY_TYPE: &'static str = "<div class=\"stat-section\"><h3>By Type</h3>";
pub const SECTION_END: &'static str = "</div>";
pub const ROW_KEY: &'static str = "<div class=\"stat-row\"><span class=\"stat-key\">";
pub const ROW_VALUE: &'static str = "</span><span class=\"stat-val\">";
pub const ROW_END: &'static str = "</span></div>";

pub open spec fn source_row(sc: SourceCount) -> Seq<char> {
    ROW_KEY@ + unicode_uppercase(sc.source@) + ROW_VALUE@ + decimal_int(sc.count as int) + ROW_END@
}

pub open spec fn type_row(tc: TypeCount) -> Seq<char> {
    ROW_KEY@ + escaped(tc.event_type@) + ROW_VALUE@ + decimal_int(tc.count as int) + ROW_END@
}

pub open spec fn source_rows(rows: Seq<SourceCount>) -> Seq<char>
    decreases rows.len(),
{
    if rows.len() == 0 {
        seq![]
    } else {
        source_rows(rows.drop_last()) + source_row(rows.last())
    }
}

pub open spec fn type_rows(rows: Seq<TypeCount>) -> Seq<char>
    decreases rows.len(),
{
    if rows.len() == 0 {
        seq![]
    } else {
        type_rows(rows.drop_last()) + type_row(rows.last())
    }
}

/// The five headline counters.
pub open spec fn stat_grid(st: DashboardStats) -> Seq<char> {
    STATS_TOTAL@ + decimal_int(st.total_active as int) + STATS_EXTREME@ + decimal_int(
        st.extreme_count as int,
    ) + STATS_SEVERE@ + decimal_int(st.severe_count as int) + STATS_MODERATE@ + decimal_int(
        st.moderate_count as int,
    ) + STATS_MINOR@ + decimal_int(st.minor_count as int) + STATS_CLOSE@
}

/// The stats panel: the counters, then a "By Source" section and a "By Type"
/// section, each present only when it has rows.
pub open spec fn stats_panel_markup(st: DashboardStats) -> Seq<char> {
    stat_grid(st) + (if st.by_source@.len() > 0 {
        SECTION_BY_SOURCE@ + source_rows(st.by_source@) + SECTION_END@
    } else {
        seq![]
    }) + (if st.by_type@.len() > 0 {
        SECTION_BY_TYPE@ + type_rows(st.by_type@) + SECTION_END@
    } else {
        seq![]
    })
}

/// The markup of one "By Type" row: the escaped type, then its count.
pub open spec fn type_row_markup() -> spec_fn(TypeCount) -> Seq<char> {
    |tc: TypeCount|
        ROW_KEY@ + escaped(tc.event_type@) + ROW_VALUE@ + decimal_int(tc.count as int) + ROW_END@
}

/// The markup of one "By Source" row: the upper-cased source, then its count.
pub open spec fn source_row_markup() -> spec_fn(SourceCount) -> Seq<char> {
    |sc: SourceCount|
        ROW_KEY@ + unicode_uppercase(sc.source@) + ROW_VALUE@ + decimal_int(sc.count as int)
            + ROW_END@
}

/// The "By Type" rows are one row per entry, in the order given: the `k`-th
/// row shows the escaped type and the count of the `k`-th entry.
pub proof fn lemma_type_rows_in_order(rows: Seq<TypeCount>)
    ensures
        type_rows(rows) == rows.map_values(type_row_markup()).flatten(),
    decreases rows.len(),
{
    if rows.len() > 0 {
        lemma_type_rows_in_order(rows.drop_last());
        let f = type_row_markup();
        assert(rows.map_values(f) =~= rows.drop_last().map_values(f).push(f(rows.last())));
        rows.drop_last().map_values(f).lemma_flatten_push(f(rows.last()));
    } else {
        assert(rows.map_values(type_row_markup()) =~= Seq::<Seq<char>>::empty());
    }
}

/// The "By Source" rows are one row per entry, in the order given: the `k`-th
/// row shows the upper-cased source and the count of the `k`-th entry.
pub proof fn lemma_source_rows_in_order(rows: Seq<SourceCount>)
    ensures
        source_rows(rows) == rows.map_values(source_row_markup()).flatten(),
    decreases rows.len(),
{
    if rows.len() > 0 {
        lemma_source_rows_in_order(rows.drop_last());
        let f = source_row_markup();
        assert(rows.map_values(f) =~= rows.drop_last().map_values(f).push(f(rows.last())));
        rows.drop_last().map_values(f).lemma_flatten_push(f(rows.last()));
    } else {
        assert(rows.map_values(source_row_markup()) =~= Seq::<Seq<char>>::empty());
    }
}

/// The stats panel is the five counters in order (total, extreme, severe,
/// moderate, minor), then, when there are any, a "By Source" section with one
/// row per source entry and a "By Type" section with one row per type entry,
/// each in the order given.
pub proof fn lemma_stats_panel_layout(st: DashboardStats)
    ensures
        stats_panel_markup(st) == STATS_TOTAL@ + decimal_int(st.total_active as int)
            + STATS_EXTREME@ + decimal_int(st.extreme_count as int) + STATS_SEVERE@ + decimal_int(
            st.severe_count as int,
        ) + STATS_MODERATE@ + decimal_int(st.moderate_count as int) + STATS_MINOR@ + decimal_int(
            st.minor_count as int,
        ) + STATS_CLOSE@ + (if st.by_source@.len() > 0 {
            SECTION_BY_SOURCE@ + st.by_source@.map_values(source_row_markup()).flatten()
                + SECTION_END@
        } else {
            seq![]
        }) + (if st.by_type@.len() > 0 {
            SECTION_BY_TYPE@ + st.by_type@.map_values(type_row_markup()).flatten() + SECTION_END@
        } else {
            seq![]
        }),
{
    lemma_source_rows_in_order(st.by_source@);
    lemma_type_rows_in_order(st.by_type@);
}

/// HTMX partial: the stats panel.
pub fn render_stats_panel(stats: &DashboardStats) -> (r: String)
    ensures
        r@ == stats_panel_markup(*stats),
{
    let mut html = String::new();
    html.append(STATS_TOTAL);
    push_decimal_i64(&mut html, stats.total_active);
    html.append(STATS_EXTREME);
    push_decimal_i64(&mut html, stats.extreme_count);
    html.append(STATS_SEVERE);
    push_decimal_i64(&mut html, stats.severe_count);
    html.append(STATS_MODERATE);
    push_decimal_i64(&mut html, stats.moderate_count);
    html.append(STATS_MINOR);
    push_decimal_i64(&mut html, stats.minor_count);
    html.append(STATS_CLOSE);
    assert(html@ =~= stat_grid(*stats));
    let ghost grid = html@;
    if stats.by_source.len() > 0 {
        html.append(SECTION_BY_SOURCE);
        let ghost head = html@;
        for i in 0..stats.by_source.len()
            invariant
                html@ == head + source_rows(stats.by_source@.take(i as int)),
        {
            assert(stats.by_source@.take(i + 1).drop_last() =~= stats.by_source@.take(i as int));
            let sc = &stats.by_source[i];
            let upper = to_uppercase(sc.source.as_str());
            html.append(ROW_KEY);
            html.append(upper.as_str());
            html.append(ROW_VALUE);
            push_decimal_i64(&mut html, sc.count);
            html.append(ROW_END);
            assert(html@ =~= head + source_rows(stats.by_source@.take(i + 1)));
        }
        assert(stats.by_source@.take(stats.by_source@.len() as int) =~= stats.by_source@);
        html.append(SECTION_END);
    }
    assert(html@ =~= grid + (if stats.by_source@.len() > 0 {
        SECTION_BY_SOURCE@ + source_rows(stats.by_source@) + SECTION_END@
    } else {
        seq![]
    }));
    let ghost with_sources = html@;
    if stats.by_type.len() > 0 {
        html.append(SECTION_BY_TYPE);
        let ghost head = html@;
        for i in 0..stats.by_type.len()
            invariant
                html@ == head + type_rows(stats.by_type@.take(i as int)),
        {
            assert(stats.by_type@.take(i + 1).drop_last() =~= stats.by_type@.take(i as int));
            let tc = &stats.by_type[i];
            let key = html_escape(tc.event_type.as_str());
            html.append(ROW_KEY);
            html.append(key.as_str());
            html.append(ROW_VALUE);
            push_decimal_i64(&mut html, tc.count);
            html.append(ROW_END);
            assert(html@ =~= head + type_rows(stats.by_type@.take(i + 1)));
        }
        assert(stats.by_type@.take(stats.by_type@.len() as int) =~= stats.by_type@);
        html.append(SECTION_END);
    }
    assert(html@ =~= stats_panel_markup(*stats));
    html
}

pub const FEED_OPEN: &'static str = "<div class=\"feed-card ";
pub const FEED_NAME: &'static str = "\">\n                <div class=\"feed-name\">";
pub const FEED_LAST_OK: &'static str = "</div>\n                <div class=\"feed-detail\">Last OK: ";
pub const FEED_POLLS: &'static str = "</div>\n                <div class=\"feed-detail\">Polls: ";
pub const FEED_ERRORS: &'static str = " | Errors: ";
pub const FEED_ERROR_TEXT: &'static str = "</div>\n                <div class=\"feed-error-text\">";
pub const FEED_CLOSE: &'static str = "</div>\n            </div>";
pub const FEED_STATUS_ERROR: &'static str = "feed-error";
pub const FEED_STATUS_OK: &'static str = "feed-ok";
pub const NEVER: &'static str = "never";
pub const NO_FEEDS: &'static str = "<div class=\"feed-card\">No feeds registered yet \u{2014} waiting for first poll</div>";

/// The status class of a feed: an error ever recorded marks it as failing.
pub open spec fn feed_status_class(f: FeedHealth) -> Seq<char> {
    if f.last_error is Some {
        FEED_STATUS_ERROR@
    } else {
        FEED_STATUS_OK@
    }
}

pub open spec fn last_ok_text(f: FeedHealth) -> Seq<char> {
    match f.last_success_at {
        Some(s) => s@,
        None => NEVER@,
    }
}

pub open spec fn error_text(f: FeedHealth) -> Seq<char> {
    match f.last_error {
        Some(s) => s@,
        None => NO_VALUE@,
    }
}

/// The status card of one feed.
pub open spec fn feed_card(f: FeedHealth) -> Seq<char> {
    FEED_OPEN@ + feed_status_class(f) + FEED_NAME@ + unicode_uppercase(f.source@) + FEED_LAST_OK@
        + last_ok_text(f) + FEED_POLLS@ + decimal_int(f.poll_count as int) + FEED_ERRORS@
        + decimal_int(f.error_count as int) + FEED_ERROR_TEXT@ + error_text(f) + FEED_CLOSE@
}

pub open spec fn feed_cards(feeds: Seq<FeedHealth>) -> Seq<char>
    decreases feeds.len(),
{
    if feeds.len() == 0 {
        seq![]
    } else {
        feed_cards(feeds.drop_last()) + feed_card(feeds.last())
    }
}

/// The feed health partial: one card per feed, or a waiting notice when no
/// feed has reported yet.
pub open spec fn feed_health_markup(feeds: Seq<FeedHealth>) -> Seq<char> {
    if feeds.len() == 0 {
        NO_FEEDS@
    } else {
        feed_cards(feeds)
    }
}

/// A feed card's status class is `feed-error` exactly when the feed has a
/// recorded last error and `feed-ok` otherwise, whatever its last success
/// holds; the card then names the upper-cased source, the last success (or
/// `never`), the poll and error counts, and the last error (or a dash).
pub proof fn lemma_feed_card_layout(f: FeedHealth)
    ensures
        feed_card(f) == FEED_OPEN@ + (if f.last_error is Some {
            "feed-error"@
        } else {
            "feed-ok"@
        }) + FEED_NAME@ + unicode_uppercase(f.source@) + FEED_LAST_OK@ + (match f.last_success_at {
            Some(s) => s@,
            None => "never"@,
        }) + FEED_POLLS@ + decimal_int(f.poll_count as int) + FEED_ERRORS@ + decimal_int(
            f.error_count as int,
        ) + FEED_ERROR_TEXT@ + (match f.last_error {
            Some(s) => s@,
            None => "\u{2014}"@,
        }) + FEED_CLOSE@,
{
}

/// The feed health panel shows one card per feed, in the order given, and a
/// waiting notice when no feed has reported yet.
pub proof fn lemma_feed_health_in_order(feeds: Seq<FeedHealth>)
    ensures
        feed_health_markup(feeds) == if feeds.len() == 0 {
            NO_FEEDS@
        } else {
            feeds.map_values(|f: FeedHealth| feed_card(f)).flatten()
        },
{
    lemma_feed_cards_in_order(feeds);
}

proof fn lemma_feed_cards_in_order(feeds: Seq<FeedHealth>)
    ensures
        feed_cards(feeds) == feeds.map_values(|f: FeedHealth| feed_card(f)).flatten(),
    decreases feeds.len(),
{
    let g = |f: FeedHealth| feed_card(f);
    if feeds.len() > 0 {
        lemma_feed_cards_in_order(feeds.drop_last());
        assert(feeds.map_values(g) =~= feeds.drop_last().map_values(g).push(g(feeds.last())));
        feeds.drop_last().map_values(g).lemma_flatten_push(g(feeds.last()));
    } else {
        assert(feeds.map_values(g) =~= Seq::<Seq<char>>::empty());
    }
}

/// Appends the status card of one feed.
pub fn render_feed_card(out: &mut String, feed: &FeedHealth)
    ensures
        final(out)@ == old(out)@ + feed_card(*feed),
{
    let ghost before = out@;
    let status_class = if feed.last_error.is_some() {
        FEED_STATUS_ERROR
    } else {
        FEED_STATUS_OK
    };
    let last_ok = match &feed.last_success_at {
        Some(s) => s.as_str(),
        None => NEVER,
    };
    let error_text = match &feed.last_error {
        Some(s) => s.as_str(),
        None => NO_VALUE,
    };
    let name = to_uppercase(feed.source.as_str());
    out.append(FEED_OPEN);
    out.append(status_class);
    out.append(FEED_NAME);
    out.append(name.as_str());
    out.append(FEED_LAST_OK);
    out.append(last_ok);
    out.append(FEED_POLLS);
    push_decimal_i64(out, feed.poll_count);
    out.append(FEED_ERRORS);
    push_decimal_i64(out, feed.error_count);
    out.append(FEED_ERROR_TEXT);
    out.append(error_text);
    out.append(FEED_CLOSE);
    assert(out@ =~= before + feed_card(*feed));
}

/// HTMX partial: feed health.
pub fn render_feed_health(feeds: &Vec<FeedHealth>) -> (r: String)
    ensures
        r@ == feed_health_markup(feeds@),
{
    let mut html = String::new();
    for i in 0..feeds.len()
        invariant
            html@ == feed_cards(feeds@.take(i as int)),
    {
        assert(feeds@.take(i + 1).drop_last() =~= feeds@.take(i as int));
        render_feed_card(&mut html, &feeds[i]);
    }
    assert(feeds@.take(feeds@.len() as int) =~= feeds@);
    if feeds.len() == 0 {
        html.append(NO_FEEDS);
        assert(html@ =~= NO_FEEDS@);
    }
    html
}


/// A character that HTML escaping rewrites.
pub open spec fn is_markup_char(c: char) -> bool {
    c == '&' || c == '<' || c == '>' || c == '"'
}

/// Escaping works character by character: escaping a concatenation is the
/// concatenation of the escapings.
pub proof fn lemma_escaped_concat(a: Seq<char>, b: Seq<char>)
    ensures
        escaped(a + b) == escaped(a) + escaped(b),
    decreases b.len(),
{
    if b.len() == 0 {
        assert(a + b =~= a);
        assert(escaped(b) =~= seq![]);
        assert(escaped(a) + escaped(b) =~= escaped(a));
    } else {
        lemma_escaped_concat(a, b.drop_last());
        assert((a + b).drop_last() =~= a + b.drop_last());
        assert((a + b).last() == b.last());
        assert(escaped(a + b) =~= escaped(a) + escaped(b));
    }
}

/// Escaped text holds no `<`, `>` or `"`: it cannot open or close a tag or
/// end an attribute value.
pub proof fn lemma_escaped_has_no_markup(s: Seq<char>)
    ensures
        forall|i: int|
            0 <= i < escaped(s).len() ==> {
                let c = #[trigger] escaped(s)[i];
                c != '<' && c != '>' && c != '"'
            },
    decreases s.len(),
{
    if s.len() > 0 {
        lemma_escaped_has_no_markup(s.drop_last());
        let prefix = escaped(s.drop_last());
        let tail = escape_char(s.last());
        assert(escaped(s) == prefix + tail);
        assert forall|i: int| 0 <= i < escaped(s).len() implies {
            let c = #[trigger] escaped(s)[i];
            c != '<' && c != '>' && c != '"'
        } by {
            if i < prefix.len() {
                assert(escaped(s)[i] == prefix[i]);
            } else {
                assert(escaped(s)[i] == tail[i - prefix.len()]);
            }
        }
    }
}

/// Text without `&`, `<`, `>` and `"` is left unchanged.
pub proof fn lemma_escaped_plain_text(s: Seq<char>)
    requires
        forall|i: int| 0 <= i < s.len() ==> !is_markup_char(#[trigger] s[i]),
    ensures
        escaped(s) == s,
    decreases s.len(),
{
    if s.len() > 0 {
        lemma_escaped_plain_text(s.drop_last());
        assert(!is_markup_char(s[s.len() - 1]));
        assert(s.drop_last().push(s.last()) =~= s);
        assert(escaped(s) =~= s);
    }
}

/// The text with every occurrence of `pat` replaced by `rep`, scanning from
/// the left without overlaps, as `str::replace` does.
pub open spec fn replace_all(s: Seq<char>, pat: Seq<char>, rep: Seq<char>) -> Seq<char>
    decreases s.len(),
{
    if s.len() == 0 {
        seq![]
    } else if 0 < pat.len() <= s.len() && s.take(pat.len() as int) == pat {
        rep + replace_all(s.skip(pat.len() as int), pat, rep)
    } else {
        seq![s[0]] + replace_all(s.drop_first(), pat, rep)
    }
}

/// The entity that escaping writes for `"`, `>`, `<` and `&`, in the order in
/// which unescaping replaces them back.
pub open spec fn stage_char(k: nat) -> char {
    if k == 0 {
        '"'
    } else if k == 1 {
        '>'
    } else if k == 2 {
        '<'
    } else {
        '&'
    }
}

/// Undoing the escaping: `&quot;`, `&gt;`, `&lt;` and then `&amp;` replaced by
/// the characters they stand for.
pub open spec fn unescaped(t: Seq<char>) -> Seq<char> {
    replace_all(
        replace_all(
            replace_all(
                replace_all(t, escape_char(stage_char(0)), seq![stage_char(0)]),
                escape_char(stage_char(1)),
                seq![stage_char(1)],
            ),
            escape_char(stage_char(2)),
            seq![stage_char(2)],
        ),
        escape_char(stage_char(3)),
        seq![stage_char(3)],
    )
}

/// A character as it stands after the first `k` unescaping replacements.
spec fn partly_unescaped_char(c: char, k: nat) -> Seq<char> {
    if (c == '"' && k >= 1) || (c == '>' && k >= 2) || (c == '<' && k >= 3) || (c == '&'
        && k >= 4) {
        seq![c]
    } else {
        escape_char(c)
    }
}

/// An escaped text as it stands after the first `k` unescaping replacements.
spec fn partly_unescaped(s: Seq<char>, k: nat) -> Seq<char>
    decreases s.len(),
{
    if s.len() == 0 {
        seq![]
    } else {
        partly_unescaped_char(s[0], k) + partly_unescaped(s.drop_first(), k)
    }
}

proof fn lemma_replace_skips_plain(x: Seq<char>, r: Seq<char>, pat: Seq<char>, rep: Seq<char>)
    requires
        pat.len() > 0,
        pat[0] == '&',
        forall|i: int| 0 <= i < x.len() ==> x[i] != '&',
    ensures
        replace_all(x + r, pat, rep) == x + replace_all(r, pat, rep),
    decreases x.len(),
{
    if x.len() > 0 {
        let xr = x + r;
        assert(xr[0] == x[0]);
        if pat.len() <= xr.len() {
            assert(xr.take(pat.len() as int)[0] != pat[0]);
        }
        assert(xr.drop_first() =~= x.drop_first() + r);
        lemma_replace_skips_plain(x.drop_first(), r, pat, rep);
        assert(seq![x[0]] + x.drop_first() =~= x);
        assert(replace_all(xr, pat, rep) =~= x + replace_all(r, pat, rep));
    } else {
        assert(x + r =~= r);
    }
}

proof fn lemma_replace_skips_other_entity(
    x: Seq<char>,
    r: Seq<char>,
    pat: Seq<char>,
    rep: Seq<char>,
)
    requires
        pat.len() >= 2,
        pat[0] == '&',
        x.len() >= 2,
        x[0] == '&',
        x[1] != pat[1],
        forall|i: int| 1 <= i < x.len() ==> x[i] != '&',
    ensures
        replace_all(x + r, pat, rep) == x + replace_all(r, pat, rep),
{
    let xr = x + r;
    if pat.len() <= xr.len() {
        assert(xr.take(pat.len() as int)[1] != pat[1]);
    }
    assert(xr.drop_first() =~= x.drop_first() + r);
    lemma_replace_skips_plain(x.drop_first(), r, pat, rep);
    assert(seq![x[0]] + x.drop_first() =~= x);
    assert(replace_all(xr, pat, rep) =~= x + replace_all(r, pat, rep));
}

proof fn lemma_replace_at_match(r: Seq<char>, pat: Seq<char>, rep: Seq<char>)
    requires
        pat.len() > 0,
    ensures
        replace_all(pat + r, pat, rep) == rep + replace_all(r, pat, rep),
{
    let pr = pat + r;
    assert(pr.take(pat.len() as int) =~= pat);
    assert(pr.skip(pat.len() as int) =~= r);
}

proof fn lemma_unescape_stage(s: Seq<char>, k: nat)
    requires
        k < 4,
    ensures
        replace_all(partly_unescaped(s, k), escape_char(stage_char(k)), seq![stage_char(k)])
            == partly_unescaped(s, k + 1),
    decreases s.len(),
{
    let pat = escape_char(stage_char(k));
    let rep = seq![stage_char(k)];
    if s.len() > 0 {
        let c = s[0];
        let b = partly_unescaped_char(c, k);
        let rest = partly_unescaped(s.drop_first(), k);
        lemma_unescape_stage(s.drop_first(), k);
        if c == stage_char(k) {
            lemma_replace_at_match(rest, pat, rep);
        } else if b.len() == 1 {
            lemma_replace_skips_plain(b, rest, pat, rep);
        } else {
            lemma_replace_skips_other_entity(b, rest, pat, rep);
        }
    }
}

proof fn lemma_partly_unescaped_start(s: Seq<char>)
    ensures
        partly_unescaped(s, 0) == escaped(s),
    decreases s.len(),
{
    if s.len() > 0 {
        lemma_partly_unescaped_start(s.drop_first());
        lemma_escaped_concat(seq![s[0]], s.drop_first());
        assert(seq![s[0]] + s.drop_first() =~= s);
        assert(seq![s[0]].drop_last() =~= Seq::<char>::empty());
        assert(seq![s[0]].last() == s[0]);
        assert(escaped(Seq::<char>::empty()) =~= Seq::<char>::empty());
        assert(escaped(seq![s[0]]) =~= escape_char(s[0]));
    }
}

proof fn lemma_partly_unescaped_end(s: Seq<char>)
    ensures
        partly_unescaped(s, 4) == s,
    decreases s.len(),
{
    if s.len() > 0 {
        lemma_partly_unescaped_end(s.drop_first());
        assert(seq![s[0]] + s.drop_first() =~= s);
    }
}

/// Escaping loses nothing: replacing `&quot;`, `&gt;`, `&lt;` and then `&amp;`
/// back in the escaped text gives the text that was escaped.
pub proof fn lemma_unescape_round_trip(s: Seq<char>)
    ensures
        unescaped(escaped(s)) == s,
{
    lemma_partly_unescaped_start(s);
    lemma_unescape_stage(s, 0);
    lemma_unescape_stage(s, 1);
    lemma_unescape_stage(s, 2);
    lemma_unescape_stage(s, 3);
    lemma_partly_unescaped_end(s);
}

/// How long a proxied copy of the mesh node list is served from cache.
pub const MESH_CACHE_SECS: u64 = 60;

/// Whether a cached copy fetched `age_secs` seconds ago is recent enough to
/// serve; `None` means nothing is cached yet.
pub fn cache_is_fresh(age_secs: Option<u64>) -> (r: bool)
    ensures
        r == (age_secs matches Some(a) && a < MESH_CACHE_SECS),
{
    match age_secs {
        Some(a) => a < MESH_CACHE_SECS,
        None => false,
    }
}

/// Query filters of the event feed.
#[derive(Debug, Clone, Default)]
pub struct EventFilters {
    pub source: Option<String>,
    pub severity: Option<String>,
    pub limit: Option<usize>,
}

pub const DEFAULT_FEED_LIMIT: usize = 100;

impl EventFilters {
    /// The row limit of the feed: the requested one, else 100.
    pub fn effective_limit(&self) -> (r: usize)
        ensures
            r == match self.limit {
                Some(l) => l,
                None => DEFAULT_FEED_LIMIT,
            },
    {
        match self.limit {
            Some(l) => l,
            None => DEFAULT_FEED_LIMIT,
        }
    }
}

} // verus!
