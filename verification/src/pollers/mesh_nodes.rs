//! FL Mesh node positions: device records rather than normalized events.

use vstd::prelude::*;
use vstd::string::*;
use crate::text::{clone_opt, decimal, decimal_int, digit_char, opt_view, owned, push_decimal, push_decimal_i64};

verus! {

/// How often the mesh node list is polled, in seconds.
pub const MESH_POLL_INTERVAL_SECS: u64 = 300;

/// How many seconds since last update before a node is considered offline.
pub const OFFLINE_THRESHOLD_SECS: i64 = 3600;

/// The fields of one node record of the FL Mesh API that the normalization
/// reads, as plain values. A field that the API may send in several JSON
/// forms is split into one option per form.
#[derive(Debug, Clone)]
pub struct MeshNodeFields {
    /// `node_id` when it is a string.
    pub node_id_text: Option<String>,
    /// `node_id` when it is an integer that fits in `i64`.
    pub node_id_signed: Option<i64>,
    /// `node_id` when it is a non-negative integer that fits in `u64`.
    pub node_id_unsigned: Option<u64>,
    pub node_id_hex: Option<String>,
    pub long_name: Option<String>,
    pub short_name: Option<String>,
    /// `hardware_model_name`
    pub hardware_model: Option<String>,
    /// `role_name`
    pub role: Option<String>,
    pub firmware_version: Option<String>,
    /// `battery_level` when it is an integer that fits in `i64`.
    pub battery_level: Option<i64>,
    /// `uptime_seconds` in its integer and string forms.
    pub uptime: IntegerField,
    /// `updated_at`
    pub updated_at: Option<String>,
}

/// A JSON field that should hold an integer, in each form it may take.
#[derive(Debug, Clone)]
pub struct IntegerField {
    /// The value when it is an integer that fits in `i64`.
    pub signed: Option<i64>,
    /// The value when it is a non-negative integer that fits in `u64`.
    pub unsigned: Option<u64>,
    /// The value when it is a string.
    pub text: Option<String>,
}

/// A mesh node parsed from the FL Mesh API (its plain-valued part).
#[derive(Debug, Clone)]
pub struct MeshNodeRecord {
    pub node_id: String,
    pub node_id_hex: Option<String>,
    pub long_name: String,
    pub short_name: Option<String>,
    pub hardware_model: Option<String>,
    pub role: Option<String>,
    pub firmware_version: Option<String>,
    pub battery_level: Option<i64>,
    pub uptime_seconds: Option<i64>,
    pub is_online: bool,
    pub last_heard_at: Option<String>,
}

/// A nonempty run of ASCII decimal digits.
pub open spec fn is_decimal_digits(d: Seq<char>) -> bool {
    d.len() > 0 && forall|i: int| 0 <= i < d.len() ==> '0' <= #[trigger] d[i] && d[i] <= '9'
}

/// The value of a run of ASCII decimal digits.
pub open spec fn digits_value(d: Seq<char>) -> int
    decreases d.len(),
{
    if d.len() == 0 {
        0
    } else {
        digits_value(d.drop_last()) * 10 + (d.last() as int - 48)
    }
}

/// The decimal text of a natural number is a run of ASCII digits whose value
/// is that number, with no leading zero (but for zero itself).
pub proof fn lemma_decimal_reads_back(n: nat)
    ensures
        is_decimal_digits(decimal(n)),
        digits_value(decimal(n)) == n,
        decimal(n)[0] == '0' ==> n == 0,
    decreases n,
{
    let last = n % 10;
    assert(digit_char(last) as int == 48 + last);
    if n >= 10 {
        lemma_decimal_reads_back(n / 10);
        let d = decimal(n / 10);
        assert(decimal(n).drop_last() =~= d);
        assert(decimal(n)[0] == d[0]);
        assert(digits_value(decimal(n)) == digits_value(d) * 10 + last);
        assert((n / 10) * 10 + last == n) by (nonlinear_arith)
            requires
                last == n % 10,
        ;
    } else {
        assert(decimal(n).drop_last() =~= Seq::<char>::empty());
        assert(digits_value(Seq::<char>::empty()) == 0);
    }
}

/// What `str::parse::<i64>` gives for a text: an optional `+` or `-` sign
/// followed by one or more ASCII digits, read in base ten, when the value is
/// in range; `None` for anything else (empty text, other characters,
/// whitespace, overflow).
pub open spec fn parse_i64_text(s: Seq<char>) -> Option<i64> {
    let signed = s.len() > 0 && (s[0] == '-' || s[0] == '+');
    let body = if signed {
        s.drop_first()
    } else {
        s
    };
    let value = if s.len() > 0 && s[0] == '-' {
        -digits_value(body)
    } else {
        digits_value(body)
    };
    if is_decimal_digits(body) && i64::MIN <= value <= i64::MAX {
        Some(value as i64)
    } else {
        None
    }
}

/// Reading back the decimal text of an `i64` as `str::parse::<i64>` does gives
/// that integer: an identifier or count written out in decimal is read
/// unchanged.
pub proof fn lemma_decimal_parses_back(i: i64)
    ensures
        parse_i64_text(decimal_int(i as int)) == Some(i),
{
    if i < 0 {
        lemma_decimal_reads_back((-i) as nat);
        assert((seq!['-'] + decimal((-i) as nat)).drop_first() =~= decimal((-i) as nat));
    } else {
        lemma_decimal_reads_back(i as nat);
        assert('0' <= decimal(i as nat)[0]);
    }
}

/// `str::parse::<i64>`, with the error dropped. Claims what std documents for
/// `i64`'s `FromStr`: an optional `+` or `-` sign followed by only ASCII
/// digits, base ten, within range; any other text is an error.
#[verifier::external_body]
fn parse_i64(s: &str) -> (r: Option<i64>)
    ensures
        r == parse_i64_text(s@),
{
    s.parse::<i64>().ok()
}

/// Whole seconds from the instant written in RFC 3339 as `stamp` to the UTC
/// instant `now_secs` seconds and `now_nanos` nanoseconds after the epoch, as
/// chrono computes them; `None` when either instant is rejected.
pub uninterp spec fn rfc3339_age(now_secs: i64, now_nanos: u32, stamp: Seq<char>) -> Option<i64>;

/// `chrono::DateTime::from_timestamp` for now, `DateTime::parse_from_rfc3339`
/// for the stamp, then their difference's `TimeDelta::num_seconds`. Claims
/// that the result is the name above applied to the arguments, and that a
/// nanosecond count of two billion or more for now is rejected by
/// `from_timestamp`. The RFC 3339 grammar and the arithmetic are left to the
/// name.
#[verifier::external_body]
fn seconds_since_rfc3339(now_secs: i64, now_nanos: u32, stamp: &str) -> (r: Option<i64>)
    ensures
        r == rfc3339_age(now_secs, now_nanos, stamp@),
        now_nanos >= 2_000_000_000 ==> r is None,
{
    let now = chrono::DateTime::from_timestamp(now_secs, now_nanos)?;
    let then = chrono::DateTime::parse_from_rfc3339(stamp).ok()?;
    Some((now - then.with_timezone(&chrono::Utc)).num_seconds())
}

/// A `u64` read as `i64` with two's-complement wrap-around (`as i64`).
pub open spec fn wrap_to_i64(u: u64) -> i64 {
    if u <= i64::MAX {
        u as i64
    } else {
        (u - 0x1_0000_0000_0000_0000) as i64
    }
}

/// The integer value of a field: its signed form, else its unsigned form
/// wrapped into `i64`, else its text parsed as `i64`.
pub open spec fn integer_value(f: IntegerField) -> Option<i64> {
    match f.signed {
        Some(i) => Some(i),
        None => match f.unsigned {
            Some(u) => Some(wrap_to_i64(u)),
            None => match f.text {
                Some(t) => parse_i64_text(t@),
                None => None,
            },
        },
    }
}

/// The identifier of a node: its string form, else the decimal text of its
/// signed or unsigned integer form; `None` when there is none.
pub open spec fn node_identifier(f: MeshNodeFields) -> Option<Seq<char>> {
    identifier_of(opt_view(f.node_id_text), f.node_id_signed, f.node_id_unsigned)
}

/// An identifier field that the API sends as a string or as an integer: its
/// string form, else the decimal text of its signed or unsigned integer form.
pub open spec fn identifier_of(text: Option<Seq<char>>, signed: Option<i64>, unsigned: Option<u64>) -> Option<Seq<char>> {
    match text {
        Some(s) => Some(s),
        None => match signed {
            Some(i) => Some(decimal_int(i as int)),
            None => match unsigned {
                Some(u) => Some(decimal(u as nat)),
                None => None,
            },
        },
    }
}

/// The text of an identifier field given in its string, signed-integer and
/// unsigned-integer forms (node ids, neighbour ids).
pub fn identifier_text(text: &Option<String>, signed: Option<i64>, unsigned: Option<u64>) -> (r: Option<String>)
    ensures
        opt_view(r) == identifier_of(opt_view(*text), signed, unsigned),
{
    match text {
        Some(s) => Some(s.clone()),
        None => match signed {
            Some(i) => {
                let mut s = String::new();
                push_decimal_i64(&mut s, i);
                assert(s@ =~= decimal_int(i as int));
                Some(s)
            },
            None => match unsigned {
                Some(u) => {
                    let mut s = String::new();
                    push_decimal(&mut s, u);
                    assert(s@ =~= decimal(u as nat));
                    Some(s)
                },
                None => None,
            },
        },
    }
}

/// A node is online when it was updated less than an hour before now.
pub open spec fn node_online_at(updated_at: Option<String>, now_secs: i64, now_nanos: u32) -> bool {
    match updated_at {
        Some(s) => online_at_age(rfc3339_age(now_secs, now_nanos, s@)),
        None => false,
    }
}

/// `n` is the node record that the fields `f` normalize to at the given instant.
pub open spec fn is_node_record(f: MeshNodeFields, now_secs: i64, now_nanos: u32, n: MeshNodeRecord) -> bool {
    &&& node_identifier(f) == Some(n.node_id@)
    &&& opt_view(n.node_id_hex) == opt_view(f.node_id_hex)
    &&& n.long_name@ == match f.long_name {
        Some(l) => l@,
        None => "Unknown"@,
    }
    &&& opt_view(n.short_name) == opt_view(f.short_name)
    &&& opt_view(n.hardware_model) == opt_view(f.hardware_model)
    &&& opt_view(n.role) == opt_view(f.role)
    &&& opt_view(n.firmware_version) == opt_view(f.firmware_version)
    &&& n.battery_level == f.battery_level
    &&& n.uptime_seconds == integer_value(f.uptime)
    &&& n.is_online == node_online_at(f.updated_at, now_secs, now_nanos)
    &&& opt_view(n.last_heard_at) == opt_view(f.updated_at)
}

/// A normalized node's uptime is the uptime field's integer in whichever form
/// it arrives: the signed integer when there is one, else the unsigned integer
/// wrapped into `i64` (congruent to it modulo 2^64), else the text read as an
/// `i64`; it is absent only when no form gives a value.
pub proof fn lemma_node_uptime(f: MeshNodeFields, now_secs: i64, now_nanos: u32, n: MeshNodeRecord)
    requires
        is_node_record(f, now_secs, now_nanos, n),
    ensures
        f.uptime.signed matches Some(i) ==> n.uptime_seconds == Some(i),
        f.uptime.signed is None ==> (f.uptime.unsigned matches Some(u) ==> n.uptime_seconds
            matches Some(v) && (v == u || v + 0x1_0000_0000_0000_0000 == u)),
        f.uptime.signed is None && f.uptime.unsigned is None ==> (f.uptime.text matches Some(t)
            ==> n.uptime_seconds == parse_i64_text(t@)),
        f.uptime.signed is None && f.uptime.unsigned is None && f.uptime.text is None
            ==> n.uptime_seconds is None,
{
}

/// The identity and status of a normalized node: its id is the string form
/// of `node_id` when there is one, else the decimal text of its signed or
/// unsigned integer form; its long name falls back to `Unknown`; it is online
/// exactly when its update time is known and less than an hour
/// (`OFFLINE_THRESHOLD_SECS`) before now, and it was last heard at that time.
pub proof fn lemma_node_identity_and_status(
    f: MeshNodeFields,
    now_secs: i64,
    now_nanos: u32,
    n: MeshNodeRecord,
)
    requires
        is_node_record(f, now_secs, now_nanos, n),
    ensures
        f.node_id_text matches Some(t) ==> n.node_id@ == t@,
        f.node_id_text is None ==> (f.node_id_signed matches Some(i) ==> n.node_id@ == decimal_int(
            i as int,
        )),
        f.node_id_text is None && f.node_id_signed is None ==> (f.node_id_unsigned matches Some(u)
            ==> n.node_id@ == decimal(u as nat)),
        f.long_name matches Some(l) ==> n.long_name@ == l@,
        f.long_name is None ==> n.long_name@ == "Unknown"@,
        f.updated_at is None ==> !n.is_online,
        f.updated_at matches Some(s) ==> (n.is_online <==> (rfc3339_age(now_secs, now_nanos, s@)
            matches Some(age) && age < 3600)),
        n.last_heard_at is Some <==> f.updated_at is Some,
        f.updated_at matches Some(s) ==> n.last_heard_at->0@ == s@,
        n.battery_level == f.battery_level,
{
}

/// The positions of the nodes that have an identifier, in feed order.
pub open spec fn kept_nodes(nodes: Seq<MeshNodeFields>) -> Seq<usize>
    decreases nodes.len(),
{
    if nodes.len() == 0 {
        seq![]
    } else {
        kept_nodes(nodes.drop_last()) + if node_identifier(nodes.last()) is Some {
            seq![(nodes.len() - 1) as usize]
        } else {
            seq![]
        }
    }
}

fn wrap_u64(u: u64) -> (r: i64)
    ensures
        r == wrap_to_i64(u),
{
    if u <= 0x7fff_ffff_ffff_ffff {
        u as i64
    } else {
        let excess: u64 = u - 0x8000_0000_0000_0000;
        (excess as i64) - 0x7fff_ffff_ffff_ffff - 1
    }
}

/// The integer value of a JSON field that may hold an integer in several forms.
pub fn i64_field_value(f: &IntegerField) -> (r: Option<i64>)
    ensures
        r == integer_value(*f),
{
    match f.signed {
        Some(i) => Some(i),
        None => match f.unsigned {
            Some(u) => Some(wrap_u64(u)),
            None => match &f.text {
                Some(t) => parse_i64(t.as_str()),
                None => None,
            },
        },
    }
}

/// Whether a node whose last update is `age` whole seconds old counts as
/// online: it must be known and under an hour.
pub open spec fn online_at_age(age: Option<i64>) -> bool {
    match age {
        Some(a) => a < OFFLINE_THRESHOLD_SECS,
        None => false,
    }
}

/// Whether a node whose last update is `age` whole seconds old (`None`: no
/// readable update time) counts as online.
pub fn online_for_age(age: Option<i64>) -> (r: bool)
    ensures
        r == online_at_age(age),
{
    match age {
        Some(a) => a < OFFLINE_THRESHOLD_SECS,
        None => false,
    }
}

/// Whether a node last updated at `updated_at` counts as online at the instant
/// `now_secs`.`now_nanos` (seconds and nanoseconds after the epoch).
pub fn is_online(updated_at: &Option<String>, now_secs: i64, now_nanos: u32) -> (r: bool)
    ensures
        r == node_online_at(*updated_at, now_secs, now_nanos),
{
    match updated_at {
        Some(s) => online_for_age(seconds_since_rfc3339(now_secs, now_nanos, s.as_str())),
        None => false,
    }
}

/// Normalizes one node at the instant `now_secs`.`now_nanos`; nodes without an
/// identifier are skipped (`None`).
pub fn normalize_node(f: &MeshNodeFields, now_secs: i64, now_nanos: u32) -> (r: Option<MeshNodeRecord>)
    ensures
        r is Some <==> node_identifier(*f) is Some,
        r matches Some(n) ==> is_node_record(*f, now_secs, now_nanos, n),
{
    let node_id = match identifier_text(&f.node_id_text, f.node_id_signed, f.node_id_unsigned) {
        Some(id) => id,
        None => {
            return None;
        },
    };
    let long_name = match &f.long_name {
        Some(l) => l.clone(),
        None => owned("Unknown"),
    };
    Some(
        MeshNodeRecord {
            node_id,
            node_id_hex: clone_opt(&f.node_id_hex),
            long_name,
            short_name: clone_opt(&f.short_name),
            hardware_model: clone_opt(&f.hardware_model),
            role: clone_opt(&f.role),
            firmware_version: clone_opt(&f.firmware_version),
            battery_level: f.battery_level,
            uptime_seconds: i64_field_value(&f.uptime),
            is_online: is_online(&f.updated_at, now_secs, now_nanos),
            last_heard_at: clone_opt(&f.updated_at),
        },
    )
}

/// Normalizes a feed of nodes at the instant `now_secs`.`now_nanos`, in feed
/// order, skipping nodes without an identifier. Each result carries the
/// position of its node.
pub fn normalize_nodes(nodes: &Vec<MeshNodeFields>, now_secs: i64, now_nanos: u32) -> (r: Vec<(usize, MeshNodeRecord)>)
    ensures
        r@.len() == kept_nodes(nodes@).len(),
        forall|k: int|
            0 <= k < r@.len() ==> {
                &&& #[trigger] r@[k].0 == kept_nodes(nodes@)[k]
                &&& r@[k].0 < nodes@.len()
                &&& is_node_record(nodes@[r@[k].0 as int], now_secs, now_nanos, r@[k].1)
            },
{
    let mut out: Vec<(usize, MeshNodeRecord)> = Vec::new();
    for i in 0..nodes.len()
        invariant
            out@.len() == kept_nodes(nodes@.take(i as int)).len(),
            forall|k: int|
                0 <= k < out@.len() ==> {
                    &&& #[trigger] out@[k].0 == kept_nodes(nodes@.take(i as int))[k]
                    &&& out@[k].0 < i
                    &&& is_node_record(nodes@[out@[k].0 as int], now_secs, now_nanos, out@[k].1)
                },
    {
        assert(nodes@.take(i + 1).drop_last() =~= nodes@.take(i as int));
        assert(nodes@.take(i + 1).last() == nodes@[i as int]);
        if let Some(n) = normalize_node(&nodes[i], now_secs, now_nanos) {
            out.push((i, n));
        }
    }
    assert(nodes@.take(nodes@.len() as int) =~= nodes@);
    out
}

} // verus!
