//! Which alerts a sensor reading raises, and in what order.
//!
//! A reading is judged on four counts: vibration amplitude, twist
//! variance, closeness of the speed to the critical speed, and temperature.
//! Vibration, twist and temperature each have a warning and a critical
//! threshold; a reading past the critical one raises a critical alert only.
//! Running near the critical speed always raises a critical alert.

use vstd::prelude::*;

verus! {

/// How a measured quantity stands against its two thresholds.
#[derive(Clone, Copy, Debug, PartialEq, Eq, Structural)]
pub enum Level {
    Normal,
    Warning,
    Critical,
}

/// The kind of condition an alert reports.
#[derive(Clone, Copy, Debug, PartialEq, Eq, Structural)]
pub enum AlertKind {
    VibrationOverload,
    TwistUneven,
    CriticalSpeed,
    TemperatureHigh,
}

/// How urgent an alert is.
#[derive(Clone, Copy, Debug, PartialEq, Eq, Structural)]
pub enum Severity {
    Warning,
    Critical,
}

/// One alert that a reading raises.
#[derive(Clone, Copy, Debug, PartialEq, Eq, Structural)]
pub struct PlannedAlert {
    pub kind: AlertKind,
    pub severity: Severity,
}

/// The name under which an alert of a kind is stored and published.
pub open spec fn alert_type_name(kind: AlertKind) -> Seq<char> {
    match kind {
        AlertKind::VibrationOverload => "vibration_overload"@,
        AlertKind::TwistUneven => "twist_uneven"@,
        AlertKind::CriticalSpeed => "critical_speed"@,
        AlertKind::TemperatureHigh => "temperature_high"@,
    }
}

/// The name under which a severity is stored and published.
pub open spec fn severity_name(severity: Severity) -> Seq<char> {
    match severity {
        Severity::Warning => "warning"@,
        Severity::Critical => "critical"@,
    }
}

/// The alerts that a quantity of a kind raises at a level: none when
/// normal, else one of that kind with the matching severity.
pub open spec fn alerts_at_level(kind: AlertKind, level: Level) -> Seq<PlannedAlert> {
    match level {
        Level::Normal => Seq::empty(),
        Level::Warning => seq![PlannedAlert { kind, severity: Severity::Warning }],
        Level::Critical => seq![PlannedAlert { kind, severity: Severity::Critical }],
    }
}

/// The alerts a reading raises, in the order they are reported: vibration,
/// twist, critical speed, temperature.
pub open spec fn planned_alerts(
    vibration: Level,
    twist: Level,
    near_critical_speed: bool,
    temperature: Level,
) -> Seq<PlannedAlert> {
    alerts_at_level(AlertKind::VibrationOverload, vibration) + alerts_at_level(
        AlertKind::TwistUneven,
        twist,
    ) + (if near_critical_speed {
        seq![PlannedAlert { kind: AlertKind::CriticalSpeed, severity: Severity::Critical }]
    } else {
        Seq::empty()
    }) + alerts_at_level(AlertKind::TemperatureHigh, temperature)
}

impl Level {
    /// The level of a quantity from the outcome of its two threshold tests;
    /// the critical threshold decides first.
    pub fn from_thresholds(past_critical: bool, past_warning: bool) -> (level: Level)
        ensures
            past_critical ==> level == Level::Critical,
            !past_critical && past_warning ==> level == Level::Warning,
            !past_critical && !past_warning ==> level == Level::Normal,
    {
        if past_critical {
            Level::Critical
        } else if past_warning {
            Level::Warning
        } else {
            Level::Normal
        }
    }
}

impl AlertKind {
    /// The name under which an alert of this kind is stored and published.
    pub fn alert_type(&self) -> (name: &'static str)
        ensures
            name@ == alert_type_name(*self),
    {
        match self {
            AlertKind::VibrationOverload => "vibration_overload",
            AlertKind::TwistUneven => "twist_uneven",
            AlertKind::CriticalSpeed => "critical_speed",
            AlertKind::TemperatureHigh => "temperature_high",
        }
    }
}

impl Severity {
    /// The name under which this severity is stored and published.
    pub fn name(&self) -> (name: &'static str)
        ensures
            name@ == severity_name(*self),
    {
        match self {
            Severity::Warning => "warning",
            Severity::Critical => "critical",
        }
    }
}

/// Appends the alert, if any, that a quantity of a kind raises at a level.
fn push_level_alert(alerts: &mut Vec<PlannedAlert>, kind: AlertKind, level: Level)
    ensures
        final(alerts)@ == old(alerts)@ + alerts_at_level(kind, level),
{
    match level {
        Level::Normal => {},
        Level::Warning => alerts.push(PlannedAlert { kind, severity: Severity::Warning }),
        Level::Critical => alerts.push(PlannedAlert { kind, severity: Severity::Critical }),
    }
    assert(final(alerts)@ =~= old(alerts)@ + alerts_at_level(kind, level));
}

/// The alerts that a reading raises, in the order they are reported:
/// vibration, twist, critical speed, temperature.
pub fn plan_alerts(vibration: Level, twist: Level, near_critical_speed: bool, temperature: Level) -> (alerts: Vec<PlannedAlert>)
    ensures
        alerts@ == planned_alerts(vibration, twist, near_critical_speed, temperature),
{
    let mut alerts: Vec<PlannedAlert> = Vec::new();
    push_level_alert(&mut alerts, AlertKind::VibrationOverload, vibration);
    push_level_alert(&mut alerts, AlertKind::TwistUneven, twist);
    let ghost before = alerts@;
    if near_critical_speed {
        alerts.push(PlannedAlert { kind: AlertKind::CriticalSpeed, severity: Severity::Critical });
    }
    assert(alerts@ =~= before + (if near_critical_speed {
        seq![PlannedAlert { kind: AlertKind::CriticalSpeed, severity: Severity::Critical }]
    } else {
        Seq::<PlannedAlert>::empty()
    }));
    push_level_alert(&mut alerts, AlertKind::TemperatureHigh, temperature);
    assert(alerts@ =~= planned_alerts(vibration, twist, near_critical_speed, temperature));
    alerts
}

/// Each kind and each severity has a name of its own, so a stored alert
/// tells its kind and severity apart.
pub proof fn lemma_names_are_distinct(k1: AlertKind, k2: AlertKind, s1: Severity, s2: Severity)
    ensures
        alert_type_name(k1) == alert_type_name(k2) ==> k1 == k2,
        severity_name(s1) == severity_name(s2) ==> s1 == s2,
{
    reveal_strlit("vibration_overload");
    reveal_strlit("twist_uneven");
    reveal_strlit("critical_speed");
    reveal_strlit("temperature_high");
    reveal_strlit("warning");
    reveal_strlit("critical");
    if alert_type_name(k1) == alert_type_name(k2) && k1 != k2 {
        assert(alert_type_name(k1)[0] == alert_type_name(k2)[0]);
        assert(alert_type_name(k1).len() == alert_type_name(k2).len());
        assert(alert_type_name(k1)[1] == alert_type_name(k2)[1]);
    }
    if severity_name(s1) == severity_name(s2) && s1 != s2 {
        assert(severity_name(s1)[0] == severity_name(s2)[0]);
    }
}

/// Place of a kind in the order in which a reading's alerts are reported:
/// vibration, twist, critical speed, temperature.
pub open spec fn report_rank(kind: AlertKind) -> int {
    match kind {
        AlertKind::VibrationOverload => 0,
        AlertKind::TwistUneven => 1,
        AlertKind::CriticalSpeed => 2,
        AlertKind::TemperatureHigh => 3,
    }
}

/// Number of the four counts on which a reading is out of bounds.
pub open spec fn counts_out_of_bounds(
    vibration: Level,
    twist: Level,
    near_critical_speed: bool,
    temperature: Level,
) -> nat {
    (if vibration != Level::Normal { 1nat } else { 0nat }) + (if twist != Level::Normal {
        1nat
    } else {
        0nat
    }) + (if near_critical_speed { 1nat } else { 0nat }) + (if temperature != Level::Normal {
        1nat
    } else {
        0nat
    })
}

/// A reading raises exactly one alert on each count on which it is out of
/// bounds and none on the others; no two alerts of a reading are of the
/// same kind; a reading raises an alert of a kind exactly when that count is
/// out of bounds; the alerts come in the order vibration, twist, critical
/// speed, temperature; an alert on the critical speed is always critical;
/// and an alert on vibration, twist or temperature is critical exactly when
/// that quantity is past its critical threshold (a warning otherwise).
pub proof fn lemma_one_alert_per_count(
    vibration: Level,
    twist: Level,
    near_critical_speed: bool,
    temperature: Level,
)
    ensures
        ({
            let alerts = planned_alerts(vibration, twist, near_critical_speed, temperature);
            &&& alerts.len() == counts_out_of_bounds(
                vibration,
                twist,
                near_critical_speed,
                temperature,
            )
            &&& forall|i: int, j: int|
                0 <= i < j < alerts.len() ==> #[trigger] alerts[i].kind != #[trigger] alerts[j].kind
            &&& forall|i: int|
                0 <= i < alerts.len() ==> {
                    let a = #[trigger] alerts[i];
                    &&& a.kind == AlertKind::CriticalSpeed ==> a.severity == Severity::Critical
                    &&& a.kind == AlertKind::VibrationOverload ==> (a.severity == Severity::Critical
                        <==> vibration == Level::Critical)
                    &&& a.kind == AlertKind::TwistUneven ==> (a.severity == Severity::Critical
                        <==> twist == Level::Critical)
                    &&& a.kind == AlertKind::TemperatureHigh ==> (a.severity == Severity::Critical
                        <==> temperature == Level::Critical)
                }
            &&& (exists|i: int|
                0 <= i < alerts.len() && #[trigger] alerts[i].kind == AlertKind::CriticalSpeed)
                <==> near_critical_speed
            &&& (exists|i: int|
                0 <= i < alerts.len() && #[trigger] alerts[i].kind == AlertKind::VibrationOverload)
                <==> vibration != Level::Normal
            &&& (exists|i: int|
                0 <= i < alerts.len() && #[trigger] alerts[i].kind == AlertKind::TwistUneven)
                <==> twist != Level::Normal
            &&& (exists|i: int|
                0 <= i < alerts.len() && #[trigger] alerts[i].kind == AlertKind::TemperatureHigh)
                <==> temperature != Level::Normal
            &&& forall|i: int, j: int|
                0 <= i < j < alerts.len() ==> report_rank(#[trigger] alerts[i].kind) < report_rank(
                    #[trigger] alerts[j].kind,
                )
        }),
{
    let a = alerts_at_level(AlertKind::VibrationOverload, vibration);
    let b = alerts_at_level(AlertKind::TwistUneven, twist);
    let c: Seq<PlannedAlert> = if near_critical_speed {
        seq![PlannedAlert { kind: AlertKind::CriticalSpeed, severity: Severity::Critical }]
    } else {
        Seq::empty()
    };
    let d = alerts_at_level(AlertKind::TemperatureHigh, temperature);
    let alerts = planned_alerts(vibration, twist, near_critical_speed, temperature);
    assert(alerts == a + b + c + d);
    // Each alert's kind tells which of the four parts it came from.
    assert forall|i: int| 0 <= i < alerts.len() implies {
        let k = #[trigger] alerts[i].kind;
        &&& (k == AlertKind::VibrationOverload <==> i < a.len())
        &&& (k == AlertKind::TwistUneven <==> a.len() <= i < a.len() + b.len())
        &&& (k == AlertKind::CriticalSpeed <==> a.len() + b.len() <= i < a.len() + b.len()
            + c.len())
        &&& (k == AlertKind::TemperatureHigh <==> a.len() + b.len() + c.len() <= i)
    } by {
        if i < a.len() {
            assert(alerts[i] == a[i]);
        } else if i < a.len() + b.len() {
            assert(alerts[i] == b[i - a.len()]);
        } else if i < a.len() + b.len() + c.len() {
            assert(alerts[i] == c[i - a.len() - b.len()]);
        } else {
            assert(alerts[i] == d[i - a.len() - b.len() - c.len()]);
        }
    }
    if near_critical_speed {
        let k = a.len() + b.len();
        assert(alerts[k as int].kind == AlertKind::CriticalSpeed);
    }
    if vibration != Level::Normal {
        assert(alerts[0].kind == AlertKind::VibrationOverload);
    }
    if twist != Level::Normal {
        let k = a.len();
        assert(alerts[k as int].kind == AlertKind::TwistUneven);
    }
    if temperature != Level::Normal {
        let k = a.len() + b.len() + c.len();
        assert(alerts[k as int].kind == AlertKind::TemperatureHigh);
    }
}

} // verus!
