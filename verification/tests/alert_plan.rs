use spindle_backend::alert::{plan_alerts, AlertKind, Level, PlannedAlert, Severity};

fn alert(kind: AlertKind, severity: Severity) -> PlannedAlert {
    PlannedAlert { kind, severity }
}

#[test]
fn quiet_reading_raises_nothing() {
    assert!(plan_alerts(Level::Normal, Level::Normal, false, Level::Normal).is_empty());
}

#[test]
fn alerts_come_in_fixed_order() {
    let alerts = plan_alerts(Level::Warning, Level::Critical, true, Level::Warning);
    assert_eq!(
        alerts,
        vec![
            alert(AlertKind::VibrationOverload, Severity::Warning),
            alert(AlertKind::TwistUneven, Severity::Critical),
            alert(AlertKind::CriticalSpeed, Severity::Critical),
            alert(AlertKind::TemperatureHigh, Severity::Warning),
        ]
    );
}

#[test]
fn only_out_of_bounds_counts_raise_alerts() {
    let alerts = plan_alerts(Level::Normal, Level::Normal, false, Level::Critical);
    assert_eq!(alerts, vec![alert(AlertKind::TemperatureHigh, Severity::Critical)]);
    let alerts = plan_alerts(Level::Normal, Level::Normal, true, Level::Normal);
    assert_eq!(alerts, vec![alert(AlertKind::CriticalSpeed, Severity::Critical)]);
}

#[test]
fn critical_threshold_decides_first() {
    assert_eq!(Level::from_thresholds(true, true), Level::Critical);
    assert_eq!(Level::from_thresholds(true, false), Level::Critical);
    assert_eq!(Level::from_thresholds(false, true), Level::Warning);
    assert_eq!(Level::from_thresholds(false, false), Level::Normal);
}

#[test]
fn names_of_kinds_and_severities() {
    assert_eq!(AlertKind::VibrationOverload.alert_type(), "vibration_overload");
    assert_eq!(AlertKind::TwistUneven.alert_type(), "twist_uneven");
    assert_eq!(AlertKind::CriticalSpeed.alert_type(), "critical_speed");
    assert_eq!(AlertKind::TemperatureHigh.alert_type(), "temperature_high");
    assert_eq!(Severity::Warning.name(), "warning");
    assert_eq!(Severity::Critical.name(), "critical");
}

#[test]
fn one_alert_per_count_for_every_combination() {
    let levels = [Level::Normal, Level::Warning, Level::Critical];
    for v in levels {
        for t in levels {
            for near in [false, true] {
                for temp in levels {
                    let alerts = plan_alerts(v, t, near, temp);
                    let expected = [v != Level::Normal, t != Level::Normal, near, temp != Level::Normal]
                        .iter()
                        .filter(|b| **b)
                        .count();
                    assert_eq!(alerts.len(), expected);
                    for i in 0..alerts.len() {
                        for j in (i + 1)..alerts.len() {
                            assert_ne!(alerts[i].kind, alerts[j].kind);
                        }
                    }
                }
            }
        }
    }
}
