//! Telemetry encoder and submission policy.
//!
//! A measurement snapshot becomes a text payload of newline-separated lines,
//! one line per present quantity, each tagged with the node's name and
//! firmware version: `<measurement>,<tags> <field>=<value>`. Floating
//! quantities render with two decimals, count quantities as an unsigned
//! integer with a `u` suffix. An absent quantity produces no line, so the
//! payload of an all-absent snapshot is empty — and it is still submitted.
//!
//! Submission itself (connect, send, receive) is the transport's business and
//! happens outside this crate; here stand the pieces the submitter computes:
//! the payload, the endpoint URL, the authorization header value, and the
//! classification of the response status, where exactly one status code
//! counts as success.

use vstd::prelude::*;

use crate::aggregator::{merged, recorded, Measurements, GAS_WARM_UP_TICKS};
use crate::textfmt::{dec_chars, fixed2_chars, push_decimal, push_fixed2};

verus! {

/// The one response status code that counts as a successful submission.
pub const SUCCESS_STATUS: u16 = 204;

/// Bound on the response-body prefix kept for diagnosis after a failed
/// submission; the rest of the body is drained unread.
pub const DIAGNOSTIC_BUFFER_LEN: usize = 1024;

/// The tag set every payload line carries: node name and firmware version.
pub open spec fn tags_chars(name: Seq<char>, version: Seq<char>) -> Seq<char> {
    "name="@ + name + ",fw_version="@ + version
}

/// One payload line: measurement prefix, the tag set, and the single
/// `field=value` pair.
pub open spec fn line_chars(
    prefix: Seq<char>,
    name: Seq<char>,
    version: Seq<char>,
    field: Seq<char>,
    value: Seq<char>,
) -> Seq<char> {
    prefix + tags_chars(name, version) + field + value
}

/// The rendered field value: two decimals for a milli-unit quantity, a
/// `u`-suffixed unsigned count for a count quantity.
pub open spec fn value_chars(milli: Option<i64>, count: Option<u16>) -> Seq<char> {
    match (milli, count) {
        (Some(v), _) => fixed2_chars(v as int),
        (None, Some(c)) => dec_chars(c as nat) + "u"@,
        (None, None) => Seq::<char>::empty(),
    }
}

/// The temperature line: degrees Celsius with two decimals.
pub open spec fn temperature_line(name: Seq<char>, version: Seq<char>, milli: int) -> Seq<char> {
    line_chars("temperature,"@, name, version, " celsius="@, fixed2_chars(milli))
}

/// The humidity line: percent relative humidity with two decimals.
pub open spec fn humidity_line(name: Seq<char>, version: Seq<char>, milli: int) -> Seq<char> {
    line_chars("humidity,"@, name, version, " percent="@, fixed2_chars(milli))
}

/// The illuminance line: lux with two decimals.
pub open spec fn illuminance_line(name: Seq<char>, version: Seq<char>, milli: int) -> Seq<char> {
    line_chars("illumination,"@, name, version, " lux="@, fixed2_chars(milli))
}

/// The CO2-equivalent line: parts per million as an unsigned count.
pub open spec fn co2eq_line(name: Seq<char>, version: Seq<char>, ppm: u16) -> Seq<char> {
    line_chars("co2,sensor_type=mox,"@, name, version, " ppm="@, dec_chars(ppm as nat) + "u"@)
}

/// The TVOC line: parts per billion as an unsigned count.
pub open spec fn tvoc_line(name: Seq<char>, version: Seq<char>, ppb: u16) -> Seq<char> {
    line_chars("tvoc,"@, name, version, " ppb="@, dec_chars(ppb as nat) + "u"@)
}

/// The payload's lines in their fixed order — temperature, humidity,
/// illuminance, CO2 equivalent, TVOC — with one line per present quantity and
/// none for an absent one.
pub open spec fn payload_lines(
    m: Measurements,
    name: Seq<char>,
    version: Seq<char>,
) -> Seq<Seq<char>> {
    let lines: Seq<Seq<char>> = Seq::empty();
    let lines = match m.temperature_millicelsius {
        Some(t) => lines.push(temperature_line(name, version, t as int)),
        None => lines,
    };
    let lines = match m.humidity_millipercent {
        Some(h) => lines.push(humidity_line(name, version, h as int)),
        None => lines,
    };
    let lines = match m.illuminance_millilux {
        Some(l) => lines.push(illuminance_line(name, version, l as int)),
        None => lines,
    };
    let lines = match m.co2eq_ppm {
        Some(c) => lines.push(co2eq_line(name, version, c)),
        None => lines,
    };
    match m.tvoc_ppb {
        Some(t) => lines.push(tvoc_line(name, version, t)),
        None => lines,
    }
}

/// Lines joined by single newlines: no trailing newline, and the empty
/// sequence of lines gives the empty payload.
pub open spec fn join_lines(lines: Seq<Seq<char>>) -> Seq<char>
    decreases lines.len(),
{
    if lines.len() == 0 {
        Seq::empty()
    } else if lines.len() == 1 {
        lines[0]
    } else {
        join_lines(lines.drop_last()) + "\n"@ + lines.last()
    }
}

/// The complete wire payload for a snapshot.
pub open spec fn payload_chars(m: Measurements, name: Seq<char>, version: Seq<char>) -> Seq<char> {
    join_lines(payload_lines(m, name, version))
}

/// Appending one line extends the joined text by a newline and that line —
/// except for the first line, which stands alone.
proof fn lemma_join_push(lines: Seq<Seq<char>>, line: Seq<char>)
    ensures
        join_lines(lines.push(line)) == (if lines.len() == 0 {
            line
        } else {
            join_lines(lines) + "\n"@ + line
        }),
{
    let pushed = lines.push(line);
    assert(pushed.drop_last() =~= lines);
    assert(pushed.last() == line);
    if lines.len() == 0 {
        assert(pushed[0] == line);
    }
}

/// Appends the tag set to `out`.
fn push_tags(out: &mut String, name: &str, version: &str)
    ensures
        final(out)@ == old(out)@ + tags_chars(name@, version@),
{
    out.append("name=");
    out.append(name);
    out.append(",fw_version=");
    out.append(version);
    proof {
        assert(out@ =~= old(out)@ + tags_chars(name@, version@));
    }
}

/// Appends one payload line: measurement name and tags, then the single
/// `field=value` pair. A two-decimal field when `milli` is given, a
/// `u`-suffixed count when `count` is given.
fn push_line(
    out: &mut String,
    prefix: &str,
    name: &str,
    version: &str,
    field: &str,
    milli: Option<i64>,
    count: Option<u16>,
)
    requires
        match milli {
            Some(v) => v != i64::MIN,
            None => true,
        },
    ensures
        final(out)@ == old(out)@ + line_chars(
            prefix@,
            name@,
            version@,
            field@,
            value_chars(milli, count),
        ),
{
    out.append(prefix);
    push_tags(out, name, version);
    out.append(field);
    match (milli, count) {
        (Some(v), _) => {
            push_fixed2(out, v);
        },
        (None, Some(c)) => {
            push_decimal(out, c as u64);
            out.append("u");
        },
        (None, None) => {},
    }
    proof {
        assert(out@ =~= old(out)@ + line_chars(
            prefix@,
            name@,
            version@,
            field@,
            value_chars(milli, count),
        ));
    }
}

/// Builds the wire payload for a snapshot: one tagged line per present
/// quantity in the fixed field order, newline-separated, empty when every
/// quantity is absent.
pub fn encode_payload(m: &Measurements, name: &str, version: &str) -> (payload: String)
    ensures
        payload@ == payload_chars(*m, name@, version@),
{
    let mut out = String::new();
    let mut has_line: bool = false;
    let ghost mut lines: Seq<Seq<char>> = Seq::empty();
    proof {
        assert(out@ =~= Seq::<char>::empty());
    }

    if let Some(t) = m.temperature_millicelsius {
        if has_line {
            out.append("\n");
        }
        push_line(&mut out, "temperature,", name, version, " celsius=", Some(t as i64), None);
        proof {
            if !has_line {
                assert(Seq::<char>::empty() + temperature_line(name@, version@, t as int) =~= temperature_line(name@, version@, t as int));
            }
            lemma_join_push(lines, temperature_line(name@, version@, t as int));
            lines = lines.push(temperature_line(name@, version@, t as int));
            assert(out@ == join_lines(lines));
        }
        has_line = true;
    }
    assert(out@ == join_lines(lines));
    assert(has_line == (lines.len() > 0));
    if let Some(h) = m.humidity_millipercent {
        if has_line {
            out.append("\n");
        }
        push_line(&mut out, "humidity,", name, version, " percent=", Some(h as i64), None);
        proof {
            if !has_line {
                assert(Seq::<char>::empty() + humidity_line(name@, version@, h as int) =~= humidity_line(name@, version@, h as int));
            }
            lemma_join_push(lines, humidity_line(name@, version@, h as int));
            lines = lines.push(humidity_line(name@, version@, h as int));
            assert(out@ == join_lines(lines));
        }
        has_line = true;
    }
    assert(out@ == join_lines(lines));
    assert(has_line == (lines.len() > 0));
    if let Some(l) = m.illuminance_millilux {
        if has_line {
            out.append("\n");
        }
        push_line(&mut out, "illumination,", name, version, " lux=", Some(l as i64), None);
        proof {
            if !has_line {
                assert(Seq::<char>::empty() + illuminance_line(name@, version@, l as int) =~= illuminance_line(name@, version@, l as int));
            }
            lemma_join_push(lines, illuminance_line(name@, version@, l as int));
            lines = lines.push(illuminance_line(name@, version@, l as int));
            assert(out@ == join_lines(lines));
        }
        has_line = true;
    }
    assert(out@ == join_lines(lines));
    assert(has_line == (lines.len() > 0));
    if let Some(c) = m.co2eq_ppm {
        if has_line {
            out.append("\n");
        }
        push_line(&mut out, "co2,sensor_type=mox,", name, version, " ppm=", None, Some(c));
        proof {
            if !has_line {
                assert(Seq::<char>::empty() + co2eq_line(name@, version@, c) =~= co2eq_line(name@, version@, c));
            }
            lemma_join_push(lines, co2eq_line(name@, version@, c));
            lines = lines.push(co2eq_line(name@, version@, c));
            assert(out@ == join_lines(lines));
        }
        has_line = true;
    }
    assert(out@ == join_lines(lines));
    assert(has_line == (lines.len() > 0));
    if let Some(t) = m.tvoc_ppb {
        if has_line {
            out.append("\n");
        }
        push_line(&mut out, "tvoc,", name, version, " ppb=", None, Some(t));
        proof {
            if !has_line {
                assert(Seq::<char>::empty() + tvoc_line(name@, version@, t) =~= tvoc_line(name@, version@, t));
            }
            lemma_join_push(lines, tvoc_line(name@, version@, t));
            lines = lines.push(tvoc_line(name@, version@, t));
            assert(out@ == join_lines(lines));
        }
        has_line = true;
    }
    assert(out@ == join_lines(lines));
    assert(has_line == (lines.len() > 0));
    proof {
        assert(lines =~= payload_lines(*m, name@, version@));
    }
    out
}

/// The backend host with trailing slashes removed, so that appending the
/// endpoint path never doubles a separator.
pub open spec fn trimmed_host(host: Seq<char>) -> Seq<char>
    decreases host.len(),
{
    if host.len() > 0 && host.last() == '/' {
        trimmed_host(host.drop_last())
    } else {
        host
    }
}

/// The write endpoint: the trimmed host, the fixed path, and the organization
/// and bucket identifiers as query parameters.
pub open spec fn write_url_chars(host: Seq<char>, org: Seq<char>, bucket: Seq<char>) -> Seq<char> {
    trimmed_host(host) + "/api/v2/write?org="@ + org + "&bucket="@ + bucket
}

/// Builds the write endpoint URL for the given backend parameters.
pub fn write_url(host: &str, org: &str, bucket: &str) -> (url: String)
    ensures
        url@ == write_url_chars(host@, org@, bucket@),
{
    let host_len = host.unicode_len();
    let mut end = host_len;
    proof {
        assert(host@.take(host_len as int) =~= host@);
    }
    while end > 0 && host.get_char(end - 1) == '/'
        invariant
            end <= host_len,
            host_len == host@.len(),
            trimmed_host(host@) == trimmed_host(host@.take(end as int)),
        decreases end,
    {
        proof {
            assert(host@.take(end as int).drop_last() =~= host@.take(end - 1));
            assert(host@.take(end as int).last() == '/');
        }
        end = end - 1;
    }
    proof {
        if end > 0 {
            assert(host@.take(end as int).last() != '/');
        } else {
            assert(host@.take(0) =~= Seq::<char>::empty());
        }
        assert(trimmed_host(host@) == host@.take(end as int));
    }
    let mut url = String::new();
    let trimmed = host.substring_char(0, end);
    url.append(trimmed);
    url.append("/api/v2/write?org=");
    url.append(org);
    url.append("&bucket=");
    url.append(bucket);
    proof {
        assert(url@ =~= write_url_chars(host@, org@, bucket@));
    }
    url
}

/// The authorization header value: the token scheme word, a space, and the
/// configured API token.
pub fn authorization_value(token: &str) -> (value: String)
    ensures
        value@ == "Token "@ + token@,
{
    let mut value = String::new();
    value.append("Token ");
    value.append(token);
    value
}

/// Classifies a response status: exactly one status code counts as success,
/// every other one is a reportable failure whose body prefix is kept for
/// diagnosis.
pub fn is_success_status(status: u16) -> (success: bool)
    ensures
        success <==> status == SUCCESS_STATUS,
{
    status == SUCCESS_STATUS
}

/// Gas readings taken before the warm-up threshold never reach a submitted
/// payload: a fast-schedule cycle on an early tick leaves the payload of the
/// shared snapshot exactly as it was, whatever the reading returned.
pub proof fn lemma_warm_up_never_submitted(
    m: Measurements,
    gas_installed: bool,
    ticks: u64,
    reading: Option<(u16, u16)>,
    name: Seq<char>,
    version: Seq<char>,
)
    requires
        ticks < GAS_WARM_UP_TICKS,
    ensures
        payload_chars(recorded(m, gas_installed, ticks, reading), name, version) == payload_chars(
            m,
            name,
            version,
        ),
{
}

/// A gas reading taken on or after the warm-up tick does reach the payload:
/// once recorded, the snapshot's encoded lines contain the CO2-equivalent line
/// and the TVOC line for exactly that reading.
pub proof fn lemma_warmed_up_reading_submitted(
    m: Measurements,
    ticks: u64,
    reading: (u16, u16),
    name: Seq<char>,
    version: Seq<char>,
)
    requires
        ticks >= GAS_WARM_UP_TICKS,
    ensures
        payload_lines(recorded(m, true, ticks, Some(reading)), name, version).contains(
            co2eq_line(name, version, reading.0),
        ),
        payload_lines(recorded(m, true, ticks, Some(reading)), name, version).contains(
            tvoc_line(name, version, reading.1),
        ),
{
    let rm = recorded(m, true, ticks, Some(reading));
    let with_gas = payload_lines(rm, name, version);
    assert(with_gas[with_gas.len() - 1] == tvoc_line(name, version, reading.1));
    assert(with_gas[with_gas.len() - 2] == co2eq_line(name, version, reading.0));
    assert(with_gas.contains(tvoc_line(name, version, reading.1)));
    assert(with_gas.contains(co2eq_line(name, version, reading.0)));
}

/// With no sensor installed at all, the node still runs every cycle: neither
/// schedule's write path ever changes the all-absent snapshot, and every
/// submission carries the empty payload.
pub proof fn lemma_no_sensors_empty_payload(
    m: Measurements,
    temp_humi_read: Option<(i32, i32)>,
    lux_read: Option<u32>,
    ticks: u64,
    reading: Option<(u16, u16)>,
    name: Seq<char>,
    version: Seq<char>,
)
    requires
        m.all_absent(),
    ensures
        merged(m, false, false, temp_humi_read, lux_read) == m,
        recorded(m, false, ticks, reading) == m,
        payload_chars(m, name, version) == Seq::<char>::empty(),
{
}

/// An all-absent snapshot — in particular the one left behind right after a
/// submission — encodes to the empty payload: no lines at all.
pub proof fn lemma_absent_payload_empty(m: Measurements, name: Seq<char>, version: Seq<char>)
    requires
        m.all_absent(),
    ensures
        payload_chars(m, name, version) == Seq::<char>::empty(),
{
}

} // verus!
