//! The queries behind the read endpoints of the HTTP API.

use vstd::prelude::*;

use serde_json::Value;

use crate::sql::{default_limit, param_or, recent_rows_query, recent_rows_sql};

verus! {

/// Answer of `POST /api/simulate`: the vibration analysis, the yarn quality
/// prediction and the alerts computed for one simulated reading.
pub struct SimulationResponse<V, Y, A> {
    pub vibration: V,
    pub yarn_quality: Y,
    pub alerts: Vec<A>,
}

/// Query of `GET /api/sensor-data`: the newest raw sensor readings.
pub fn sensor_data_query(spindle_id: Option<&str>, limit: Option<&str>) -> (res: String)
    ensures
        res@ == recent_rows_sql(
            "spindle_system.spindle_sensor_data"@,
            param_or(spindle_id, Seq::empty()),
            param_or(limit, default_limit()),
        ),
{
    recent_rows_query("spindle_system.spindle_sensor_data", spindle_id, limit)
}

/// Query of `GET /api/vibration-analysis`: the newest vibration analyses.
pub fn vibration_analysis_query(spindle_id: Option<&str>, limit: Option<&str>) -> (res: String)
    ensures
        res@ == recent_rows_sql(
            "spindle_system.vibration_analysis"@,
            param_or(spindle_id, Seq::empty()),
            param_or(limit, default_limit()),
        ),
{
    recent_rows_query("spindle_system.vibration_analysis", spindle_id, limit)
}

/// Query of `GET /api/yarn-quality`: the newest yarn quality predictions.
pub fn yarn_quality_query(spindle_id: Option<&str>, limit: Option<&str>) -> (res: String)
    ensures
        res@ == recent_rows_sql(
            "spindle_system.yarn_quality"@,
            param_or(spindle_id, Seq::empty()),
            param_or(limit, default_limit()),
        ),
{
    recent_rows_query("spindle_system.yarn_quality", spindle_id, limit)
}

/// Query of `GET /api/alerts`: the newest alerts of all spindles.
pub fn alerts_query(limit: Option<&str>) -> (res: String)
    ensures
        res@ == recent_rows_sql(
            "spindle_system.alerts"@,
            Seq::empty(),
            param_or(limit, default_limit()),
        ),
{
    recent_rows_query("spindle_system.alerts", None, limit)
}

/// Query of `GET /api/spindle-list`: every spindle that has sent a reading, in order.
pub fn spindle_list_query() -> (res: String)
    ensures
        res@
            == "SELECT DISTINCT spindle_id FROM spindle_system.spindle_sensor_data ORDER BY spindle_id FORMAT JSON"@,
{
    String::from_str(
        "SELECT DISTINCT spindle_id FROM spindle_system.spindle_sensor_data ORDER BY spindle_id FORMAT JSON",
    )
}

/// The fixed text of the latest-row query before the spindle id.
pub open spec fn latest_query_head() -> Seq<char> {
    "SELECT s.*, v.*, y.* FROM spindle_system.spindle_sensor_data s LEFT JOIN spindle_system.vibration_analysis v ON s.spindle_id = v.spindle_id AND s.timestamp = v.timestamp LEFT JOIN spindle_system.yarn_quality y ON s.spindle_id = y.spindle_id AND s.timestamp = y.timestamp WHERE s.spindle_id = '"@
}

/// The fixed text of the latest-row query after the spindle id.
pub open spec fn latest_query_tail() -> Seq<char> {
    "' ORDER BY s.timestamp DESC LIMIT 1 FORMAT JSON"@
}

/// The latest-row query of one spindle.
pub open spec fn latest_sql(spindle_id: Seq<char>) -> Seq<char> {
    latest_query_head() + spindle_id + latest_query_tail()
}

/// The spindle id stands verbatim, whole, in the latest-row query, between
/// the same fixed texts for every id.
pub proof fn lemma_latest_sql_holds_id(spindle_id: Seq<char>)
    ensures
        ({
            let fixed = latest_sql(Seq::empty());
            let q = latest_sql(spindle_id);
            let h = latest_query_head().len();
            &&& q.len() == fixed.len() + spindle_id.len()
            &&& q.take(h as int) == fixed.take(h as int)
            &&& q.subrange(h as int, h + spindle_id.len() as int) == spindle_id
            &&& q.skip(h + spindle_id.len() as int) == fixed.skip(h as int)
            &&& fixed.take(h as int).last() == '\''
            &&& fixed.skip(h as int)[0] == '\''
        }),
{
    reveal_strlit("SELECT s.*, v.*, y.* FROM spindle_system.spindle_sensor_data s LEFT JOIN spindle_system.vibration_analysis v ON s.spindle_id = v.spindle_id AND s.timestamp = v.timestamp LEFT JOIN spindle_system.yarn_quality y ON s.spindle_id = y.spindle_id AND s.timestamp = y.timestamp WHERE s.spindle_id = '");
    reveal_strlit("' ORDER BY s.timestamp DESC LIMIT 1 FORMAT JSON");
    let head = latest_query_head();
    let tail = latest_query_tail();
    let h = head.len();
    let fixed = latest_sql(Seq::empty());
    let q = latest_sql(spindle_id);
    assert(fixed =~= head + tail);
    assert(fixed.take(h as int) =~= head);
    assert(fixed.skip(h as int) =~= tail);
    assert(q.take(h as int) =~= head);
    assert(q.subrange(h as int, h + spindle_id.len() as int) =~= spindle_id);
    assert(q.skip(h + spindle_id.len() as int) =~= tail);
}

/// Query of `GET /api/latest/{spindle_id}`: the newest reading of one spindle
/// joined with the analysis and prediction made at the same instant.
pub fn latest_query(spindle_id: &str) -> (res: String)
    ensures
        res@ == latest_query_head() + spindle_id@ + latest_query_tail(),
        res@ == latest_sql(spindle_id@),
{
    let mut out = String::from_str(
        "SELECT s.*, v.*, y.* FROM spindle_system.spindle_sensor_data s LEFT JOIN spindle_system.vibration_analysis v ON s.spindle_id = v.spindle_id AND s.timestamp = v.timestamp LEFT JOIN spindle_system.yarn_quality y ON s.spindle_id = y.spindle_id AND s.timestamp = y.timestamp WHERE s.spindle_id = '",
    );
    out.append(spindle_id);
    out.append("' ORDER BY s.timestamp DESC LIMIT 1 FORMAT JSON");
    out
}

#[verifier::external_type_specification]
#[verifier::external_body]
pub struct ExJsonValue(Value);

/// The JSON value that a text parses to, `None` when the text is not one
/// JSON document.
pub uninterp spec fn json_parse(text: Seq<char>) -> Option<Value>;

/// The JSON object with the single entry `key: text`, the text as a JSON string.
pub uninterp spec fn json_entry_object(key: Seq<char>, text: Seq<char>) -> Value;

/// Parses a text as one JSON document.
///
/// Trusted: `serde_json::from_str::<Value>`, which parses the whole text
/// (trailing whitespace allowed, anything else after the document refused)
/// and reports malformed input as an error, not a panic; its outcome
/// depends on the text alone. What value a document parses to is named,
/// not stated.
#[verifier::external_body]
fn parse_json(text: &str) -> (res: Option<Value>)
    ensures
        res == json_parse(text@),
{
    serde_json::from_str::<Value>(text).ok()
}

/// A JSON object with one entry.
///
/// Trusted: `serde_json::Value`'s `FromIterator<(K, V)>`, which collects
/// the pairs into `Value::Object`; here the one pair `key: text`, the
/// text converted to `Value::String`. The value is named, not stated.
#[verifier::external_body]
fn entry_object(key: &str, text: &str) -> (res: Value)
    ensures
        res == json_entry_object(key@, text@),
{
    Value::from_iter([(key, text)])
}

/// The answer body of a read endpoint from the body the server sent: the
/// body itself when it is JSON, else an object that carries the body as the
/// string `data`.
pub fn query_response_body(body: &str) -> (res: Value)
    ensures
        res == match json_parse(body@) {
            Some(v) => v,
            None => json_entry_object("data"@, body@),
        },
{
    match parse_json(body) {
        Some(v) => v,
        None => entry_object("data", body),
    }
}

} // verus!
