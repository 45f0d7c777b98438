//! The ClickHouse HTTP interface: a statement travels to the server in the
//! `query` parameter of a request URL.

use vstd::prelude::*;

use crate::sql::{
    escape_single_quotes, insert_sql, insert_statement, push_char, quote, quoted, quotes_escaped,
};

verus! {

/// What one character of a statement becomes in a request URL:
/// a space becomes `+`, a single quote `%27`, a newline `%0A`;
/// every other character stands for itself.
pub open spec fn encoded_char(c: char) -> Seq<char> {
    if c == ' ' {
        seq!['+']
    } else if c == '\'' {
        seq!['%', '2', '7']
    } else if c == '\n' {
        seq!['%', '0', 'A']
    } else {
        seq![c]
    }
}

/// A statement as it stands in a request URL: each character encoded in turn.
pub open spec fn url_encoded(s: Seq<char>) -> Seq<char>
    decreases s.len(),
{
    if s.len() == 0 {
        Seq::empty()
    } else {
        url_encoded(s.drop_last()) + encoded_char(s.last())
    }
}

/// Encodes a statement for the `query` parameter of a request URL:
/// spaces become `+`, single quotes `%27` and newlines `%0A`.
pub fn urlencoding(s: &str) -> (res: String)
    ensures
        res@ == url_encoded(s@),
{
    let mut out = String::new();
    for c in it: s.chars()
        invariant
            it.seq() == s@,
            out@ == url_encoded(s@.take(it.index())),
    {
        proof {
            reveal_strlit("+");
            reveal_strlit("%27");
            reveal_strlit("%0A");
        }
        let ghost i = it.index();
        assert(s@.take(i + 1).drop_last() =~= s@.take(i));
        assert(s@.take(i + 1).last() == c);
        if c == ' ' {
            out.append("+");
        } else if c == '\'' {
            out.append("%27");
        } else if c == '\n' {
            out.append("%0A");
        } else {
            push_char(&mut out, c);
        }
    }
    assert(s@.take(s@.len() as int) =~= s@);
    out
}

/// No space, single quote or newline occurs in the text.
pub open spec fn url_safe(s: Seq<char>) -> bool {
    forall|i: int| 0 <= i < s.len() ==> #[trigger] s[i] != ' ' && s[i] != '\'' && s[i] != '\n'
}

/// An encoded statement holds no space, single quote or newline, whatever
/// the statement held: the three characters that would break the URL.
pub proof fn lemma_url_encoded_is_safe(s: Seq<char>)
    ensures
        url_safe(url_encoded(s)),
    decreases s.len(),
{
    if s.len() > 0 {
        lemma_url_encoded_is_safe(s.drop_last());
        let head = url_encoded(s.drop_last());
        let tail = encoded_char(s.last());
        assert(url_safe(tail));
        assert forall|i: int| 0 <= i < (head + tail).len() implies #[trigger] (head + tail)[i] != ' '
            && (head + tail)[i] != '\'' && (head + tail)[i] != '\n' by {
            if i < head.len() {
                assert((head + tail)[i] == head[i]);
            } else {
                assert((head + tail)[i] == tail[i - head.len()]);
            }
        }
    }
}

/// Every character other than space, single quote and newline stands for
/// itself in an encoded statement; those three become `+`, `%27` and `%0A`.
pub proof fn lemma_encoded_char_cases(c: char)
    ensures
        c != ' ' && c != '\'' && c != '\n' ==> encoded_char(c) == seq![c],
        c == ' ' ==> encoded_char(c) == seq!['+'],
        c == '\'' ==> encoded_char(c) == seq!['%', '2', '7'],
        c == '\n' ==> encoded_char(c) == seq!['%', '0', 'A'],
{
}

/// Encoding works piece by piece: the encoding of two texts one after the
/// other is the two encodings one after the other.
pub proof fn lemma_url_encoded_concat(a: Seq<char>, b: Seq<char>)
    ensures
        url_encoded(a + b) == url_encoded(a) + url_encoded(b),
    decreases b.len(),
{
    if b.len() == 0 {
        assert(a + b =~= a);
        assert(url_encoded(b) =~= Seq::<char>::empty());
        assert(url_encoded(a) + url_encoded(b) =~= url_encoded(a));
    } else {
        lemma_url_encoded_concat(a, b.drop_last());
        assert((a + b).drop_last() =~= a + b.drop_last());
        assert((a + b).last() == b.last());
        assert(url_encoded(a + b) =~= url_encoded(a) + url_encoded(b));
    }
}

/// The text a server reads back from an encoded statement: `%27` is a
/// single quote, `%0A` a newline, `+` a space, any other character itself.
pub open spec fn url_decoded(t: Seq<char>) -> Seq<char>
    decreases t.len(),
{
    if t.len() == 0 {
        Seq::empty()
    } else if t.len() >= 3 && t[t.len() - 3] == '%' && t[t.len() - 2] == '2' && t.last() == '7' {
        url_decoded(t.subrange(0, t.len() - 3)).push('\'')
    } else if t.len() >= 3 && t[t.len() - 3] == '%' && t[t.len() - 2] == '0' && t.last() == 'A' {
        url_decoded(t.subrange(0, t.len() - 3)).push('\n')
    } else if t.last() == '+' {
        url_decoded(t.drop_last()).push(' ')
    } else {
        url_decoded(t.drop_last()).push(t.last())
    }
}

/// Neither `+` nor `%` occurs in the text.
pub open spec fn free_of_escapes(s: Seq<char>) -> bool {
    forall|i: int| 0 <= i < s.len() ==> #[trigger] s[i] != '+' && s[i] != '%'
}

/// In the encoding of a text without `%`, no `%` stands in the last two places.
proof fn lemma_encoded_tail_has_no_percent(s: Seq<char>)
    requires
        free_of_escapes(s),
    ensures
        url_encoded(s).len() >= 1 ==> url_encoded(s).last() != '%',
        url_encoded(s).len() >= 2 ==> url_encoded(s)[url_encoded(s).len() - 2] != '%',
    decreases s.len(),
{
    if s.len() > 0 {
        let init = s.drop_last();
        assert(free_of_escapes(init)) by {
            assert forall|i: int| 0 <= i < init.len() implies #[trigger] init[i] != '+' && init[i] != '%' by {
                assert(init[i] == s[i]);
            }
        }
        lemma_encoded_tail_has_no_percent(init);
        let u = url_encoded(init);
        let p = encoded_char(s.last());
        assert(s.last() == s[s.len() - 1]);
        let t = u + p;
        assert(url_encoded(s) == t);
        if p.len() == 1 {
            assert(t.last() == p[0]);
            if t.len() >= 2 {
                assert(t[t.len() - 2] == u.last());
            }
        } else {
            assert(t.last() == p[2]);
            assert(t[t.len() - 2] == p[1]);
        }
    }
}

/// Encoding loses nothing: the server reads back exactly the statement
/// that was encoded, whenever the statement holds no `+` and no `%`
/// (which the encoding leaves as they are).
pub proof fn lemma_url_decoded_encoded(s: Seq<char>)
    requires
        free_of_escapes(s),
    ensures
        url_decoded(url_encoded(s)) == s,
    decreases s.len(),
{
    if s.len() > 0 {
        let init = s.drop_last();
        let c = s.last();
        assert(c == s[s.len() - 1]);
        assert(free_of_escapes(init)) by {
            assert forall|i: int| 0 <= i < init.len() implies #[trigger] init[i] != '+' && init[i] != '%' by {
                assert(init[i] == s[i]);
            }
        }
        lemma_url_decoded_encoded(init);
        lemma_encoded_tail_has_no_percent(init);
        let u = url_encoded(init);
        let t = url_encoded(s);
        assert(t == u + encoded_char(c));
        if c == ' ' {
            assert(t =~= u.push('+'));
            assert(t.drop_last() =~= u);
        } else if c == '\'' {
            assert(t =~= u + seq!['%', '2', '7']);
            assert(t.subrange(0, t.len() - 3) =~= u);
        } else if c == '\n' {
            assert(t =~= u + seq!['%', '0', 'A']);
            assert(t.subrange(0, t.len() - 3) =~= u);
        } else {
            assert(t =~= u.push(c));
            assert(t.drop_last() =~= u);
            if t.len() >= 3 {
                assert(t[t.len() - 3] == u[u.len() - 2]);
            }
        }
        assert(url_decoded(t) =~= s);
    }
}

/// The URL of a request that carries `sql` to the server at `base_url`.
pub open spec fn request_url(base_url: Seq<char>, sql: Seq<char>) -> Seq<char> {
    base_url + "/?query="@ + url_encoded(sql)
}

/// The URL that sends a statement to the ClickHouse HTTP interface at
/// `base_url`, as both reads and writes use it.
pub fn query_url(base_url: &str, sql: &str) -> (res: String)
    ensures
        res@ == request_url(base_url@, sql@),
{
    let encoded = urlencoding(sql);
    let mut out = String::from_str(base_url);
    out.append("/?query=");
    out.append(encoded.as_str());
    out
}

/// A request URL is the base verbatim, then `/?query=`, then the encoded
/// statement, nothing more.
pub proof fn lemma_request_url_parts(base_url: Seq<char>, sql: Seq<char>)
    ensures
        request_url(base_url, sql).len() == base_url.len() + 8 + url_encoded(sql).len(),
        request_url(base_url, sql).take(base_url.len() as int) == base_url,
        request_url(base_url, sql).subrange(base_url.len() as int, base_url.len() + 8int) == seq![
            '/',
            '?',
            'q',
            'u',
            'e',
            'r',
            'y',
            '=',
        ],
        request_url(base_url, sql).skip(base_url.len() + 8int) == url_encoded(sql),
{
    reveal_strlit("/?query=");
    let u = request_url(base_url, sql);
    assert(u.take(base_url.len() as int) =~= base_url);
    assert(u.subrange(base_url.len() as int, base_url.len() + 8int) =~= seq![
        '/',
        '?',
        'q',
        'u',
        'e',
        'r',
        'y',
        '=',
    ]);
    assert(u.skip(base_url.len() + 8int) =~= url_encoded(sql));
}

/// A request URL holds no space, single quote or newline when its base
/// holds none, whatever the statement it carries.
pub proof fn lemma_request_url_is_safe(base_url: Seq<char>, sql: Seq<char>)
    requires
        url_safe(base_url),
    ensures
        url_safe(request_url(base_url, sql)),
{
    reveal_strlit("/?query=");
    lemma_url_encoded_is_safe(sql);
    let marker = "/?query="@;
    let enc = url_encoded(sql);
    assert(url_safe(marker));
    let url = base_url + marker + enc;
    assert forall|i: int| 0 <= i < url.len() implies #[trigger] url[i] != ' ' && url[i] != '\''
        && url[i] != '\n' by {
        if i < base_url.len() {
            assert(url[i] == base_url[i]);
        } else if i < base_url.len() + marker.len() {
            assert(url[i] == marker[i - base_url.len()]);
        } else {
            assert(url[i] == enc[i - base_url.len() - marker.len()]);
        }
    }
}

/// A text as an owned string.
fn owned(s: &str) -> (res: String)
    ensures
        res@ == s@,
{
    String::from_str(s)
}

/// Statement that stores one raw sensor reading. The numeric columns arrive
/// as the text of the number.
pub fn sensor_data_insert_sql(
    timestamp: &str,
    spindle_id: &str,
    rpm: &str,
    vibration_amplitude: &str,
    temperature: &str,
    twist_per_meter: &str,
) -> (res: String)
    ensures
        res@ == insert_sql(
            "spindle_system.spindle_sensor_data"@,
            "timestamp, spindle_id, rpm, vibration_amplitude, temperature, twist_per_meter"@,
            seq![
                quoted(timestamp@),
                quoted(spindle_id@),
                rpm@,
                vibration_amplitude@,
                temperature@,
                twist_per_meter@,
            ],
        ),
{
    let mut values: Vec<String> = Vec::new();
    values.push(quote(timestamp));
    values.push(quote(spindle_id));
    values.push(owned(rpm));
    values.push(owned(vibration_amplitude));
    values.push(owned(temperature));
    values.push(owned(twist_per_meter));
    assert(values@.map_values(|v: String| v@) =~= seq![
        quoted(timestamp@),
        quoted(spindle_id@),
        rpm@,
        vibration_amplitude@,
        temperature@,
        twist_per_meter@,
    ]);
    insert_statement(
        "spindle_system.spindle_sensor_data",
        "timestamp, spindle_id, rpm, vibration_amplitude, temperature, twist_per_meter",
        &values,
    )
}

/// Statement that stores one vibration analysis. The numeric columns arrive
/// as the text of the number.
pub fn vibration_analysis_insert_sql(
    timestamp: &str,
    spindle_id: &str,
    critical_rpm: &str,
    unbalance_response: &str,
    oil_film_stiffness_x: &str,
    oil_film_stiffness_y: &str,
    oil_film_damping_x: &str,
    oil_film_damping_y: &str,
    whirl_ratio: &str,
    eccentricity_ratio: &str,
    vibration_x: &str,
    vibration_y: &str,
    total_displacement: &str,
    phase_angle: &str,
) -> (res: String)
    ensures
        res@ == insert_sql(
            "spindle_system.vibration_analysis"@,
            "timestamp, spindle_id, critical_rpm, unbalance_response, oil_film_stiffness_x, oil_film_stiffness_y, oil_film_damping_x, oil_film_damping_y, whirl_ratio, eccentricity_ratio, vibration_x, vibration_y, total_displacement, phase_angle"@,
            seq![
                quoted(timestamp@),
                quoted(spindle_id@),
                critical_rpm@,
                unbalance_response@,
                oil_film_stiffness_x@,
                oil_film_stiffness_y@,
                oil_film_damping_x@,
                oil_film_damping_y@,
                whirl_ratio@,
                eccentricity_ratio@,
                vibration_x@,
                vibration_y@,
                total_displacement@,
                phase_angle@,
            ],
        ),
{
    let mut values: Vec<String> = Vec::new();
    values.push(quote(timestamp));
    values.push(quote(spindle_id));
    values.push(owned(critical_rpm));
    values.push(owned(unbalance_response));
    values.push(owned(oil_film_stiffness_x));
    values.push(owned(oil_film_stiffness_y));
    values.push(owned(oil_film_damping_x));
    values.push(owned(oil_film_damping_y));
    values.push(owned(whirl_ratio));
    values.push(owned(eccentricity_ratio));
    values.push(owned(vibration_x));
    values.push(owned(vibration_y));
    values.push(owned(total_displacement));
    values.push(owned(phase_angle));
    assert(values@.map_values(|v: String| v@) =~= seq![
        quoted(timestamp@),
        quoted(spindle_id@),
        critical_rpm@,
        unbalance_response@,
        oil_film_stiffness_x@,
        oil_film_stiffness_y@,
        oil_film_damping_x@,
        oil_film_damping_y@,
        whirl_ratio@,
        eccentricity_ratio@,
        vibration_x@,
        vibration_y@,
        total_displacement@,
        phase_angle@,
    ]);
    insert_statement(
        "spindle_system.vibration_analysis",
        "timestamp, spindle_id, critical_rpm, unbalance_response, oil_film_stiffness_x, oil_film_stiffness_y, oil_film_damping_x, oil_film_damping_y, whirl_ratio, eccentricity_ratio, vibration_x, vibration_y, total_displacement, phase_angle",
        &values,
    )
}

/// Statement that stores one yarn quality prediction. The numeric columns
/// arrive as the text of the number.
pub fn yarn_quality_insert_sql(
    timestamp: &str,
    spindle_id: &str,
    predicted_uniformity: &str,
    predicted_strength: &str,
    twist_variance: &str,
    vibration_impact_factor: &str,
) -> (res: String)
    ensures
        res@ == insert_sql(
            "spindle_system.yarn_quality"@,
            "timestamp, spindle_id, predicted_uniformity, predicted_strength, twist_variance, vibration_impact_factor"@,
            seq![
                quoted(timestamp@),
                quoted(spindle_id@),
                predicted_uniformity@,
                predicted_strength@,
                twist_variance@,
                vibration_impact_factor@,
            ],
        ),
{
    let mut values: Vec<String> = Vec::new();
    values.push(quote(timestamp));
    values.push(quote(spindle_id));
    values.push(owned(predicted_uniformity));
    values.push(owned(predicted_strength));
    values.push(owned(twist_variance));
    values.push(owned(vibration_impact_factor));
    assert(values@.map_values(|v: String| v@) =~= seq![
        quoted(timestamp@),
        quoted(spindle_id@),
        predicted_uniformity@,
        predicted_strength@,
        twist_variance@,
        vibration_impact_factor@,
    ]);
    insert_statement(
        "spindle_system.yarn_quality",
        "timestamp, spindle_id, predicted_uniformity, predicted_strength, twist_variance, vibration_impact_factor",
        &values,
    )
}

/// Statement that stores one alert. The message has its single quotes
/// escaped; the other text columns stand as given. The numeric columns
/// arrive as the text of the number.
pub fn alert_insert_sql(
    timestamp: &str,
    spindle_id: &str,
    alert_type: &str,
    severity: &str,
    message: &str,
    value: &str,
    threshold: &str,
) -> (res: String)
    ensures
        res@ == insert_sql(
            "spindle_system.alerts"@,
            "timestamp, spindle_id, alert_type, severity, message, value, threshold"@,
            seq![
                quoted(timestamp@),
                quoted(spindle_id@),
                quoted(alert_type@),
                quoted(severity@),
                quoted(quotes_escaped(message@)),
                value@,
                threshold@,
            ],
        ),
{
    let escaped = escape_single_quotes(message);
    let mut values: Vec<String> = Vec::new();
    values.push(quote(timestamp));
    values.push(quote(spindle_id));
    values.push(quote(alert_type));
    values.push(quote(severity));
    values.push(quote(escaped.as_str()));
    values.push(owned(value));
    values.push(owned(threshold));
    assert(values@.map_values(|v: String| v@) =~= seq![
        quoted(timestamp@),
        quoted(spindle_id@),
        quoted(alert_type@),
        quoted(severity@),
        quoted(quotes_escaped(message@)),
        value@,
        threshold@,
    ]);
    insert_statement(
        "spindle_system.alerts",
        "timestamp, spindle_id, alert_type, severity, message, value, threshold",
        &values,
    )
}

} // verus!
