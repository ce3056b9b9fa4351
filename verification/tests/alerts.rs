use speculare_server::alerts::{
    check_changed_fields, evaluate_threshold, is_evaluable, touches_tested, AlertFields, AlertFieldsUpdate, require_session, require_tested, session_user_uuid, test_thresholds,
};
use speculare_server::errors::ApiError;

#[test]
fn thresholds_valid_with_measure() {
    let r = test_thresholds("$this > 50", "$this > 80", true, "42".to_string());
    assert_eq!(r.unwrap(), "42");
}

#[test]
fn thresholds_use_zero_without_measure() {
    // Without a measure, `$this` is read as 0 and the text is still returned.
    let r = test_thresholds("$this == 0", "$this < 1", false, "empty".to_string());
    assert_eq!(r.unwrap(), "empty");
}

#[test]
fn threshold_errors_are_invalid_requests() {
    let warn_err = evalexpr::eval_boolean("12 >").unwrap_err().to_string();
    match test_thresholds("$this >", "$this > 1", true, "12".to_string()) {
        Err(ApiError::InvalidRequestError(Some(m))) => assert_eq!(m, warn_err),
        other => panic!("unexpected {:?}", other),
    }
    let crit_err = evalexpr::eval_boolean("3 + 4").unwrap_err().to_string();
    match test_thresholds("$this > 1", "$this + 4", true, "3".to_string()) {
        Err(ApiError::InvalidRequestError(Some(m))) => assert_eq!(m, crit_err),
        other => panic!("unexpected {:?}", other),
    }
}

#[test]
fn untested_alerts_are_refused() {
    assert!(require_tested(true).is_ok());
    match require_tested(false) {
        Err(ApiError::InvalidRequestError(Some(m))) => {
            assert_eq!(m, "the alert has not been tested so it can't be trusted")
        }
        other => panic!("unexpected {:?}", other),
    }
}

#[test]
fn session_checks() {
    assert!(require_session(&Some("u".to_string())).is_ok());
    assert!(matches!(require_session(&None), Err(ApiError::AuthorizationError(None))));
    assert_eq!(
        session_user_uuid(Some("550e8400-e29b-41d4-a716-446655440000".to_string())).unwrap(),
        0x550e8400e29b41d4a716446655440000u128
    );
    assert!(matches!(session_user_uuid(Some("bad".to_string())), Err(ApiError::AuthorizationError(None))));
    assert!(matches!(session_user_uuid(None), Err(ApiError::AuthorizationError(None))));
}

const REFUSED: &str = "the threshold is too long or uses a function that cannot be evaluated safely";

#[test]
fn thresholds_are_evaluated_on_the_value() {
    assert_eq!(evaluate_threshold("$this > 50", "42"), Ok(false));
    assert_eq!(evaluate_threshold("$this > 50 && $this < 90", "64.5"), Ok(true));
    assert_eq!(evaluate_threshold("str::substring(\"abc\", 1) == \"bc\"", "0"), Ok(true));
}

#[test]
fn unsafe_thresholds_are_refused_before_evaluation() {
    assert_eq!(evaluate_threshold("str::substring(\"\u{e9}\", 1) == \"\"", "0"), Err(REFUSED.to_string()));
    assert_eq!(evaluate_threshold("shl($this, 70) == 0", "1"), Err(REFUSED.to_string()));
    assert_eq!(evaluate_threshold("math::abs($this) > 1", "-3"), Err(REFUSED.to_string()));
    let long = format!("$this > 1{}", " ".repeat(1100));
    assert_eq!(evaluate_threshold(&long, "2"), Err(REFUSED.to_string()));
    // Non-ASCII text is fine as long as it is not cut by `str::substring`.
    assert!(is_evaluable("\"\u{e9}\" == \"\u{e9}\""));
    assert!(!is_evaluable("str::substring(\"\u{e9}\", 1) == \"\""));
    match test_thresholds("shr($this, 99) == 0", "$this > 1", true, "5".to_string()) {
        Err(ApiError::InvalidRequestError(Some(m))) => assert_eq!(m, REFUSED),
        other => panic!("unexpected {:?}", other),
    }
}

fn whole() -> AlertFields {
    AlertFields {
        crit: "$this > 80".to_string(),
        lookup: "average 10m of a over b".to_string(),
        table: "cputimes".to_string(),
        warn: "$this > 50".to_string(),
        where_clause: None,
    }
}

fn no_change() -> AlertFieldsUpdate {
    AlertFieldsUpdate { crit: None, lookup: None, table: None, warn: None, where_clause: None }
}

#[test]
fn update_of_tested_fields_must_match_whole_alert() {
    assert!(!touches_tested(&no_change()));
    assert!(check_changed_fields(&no_change(), &whole()).is_ok());
    let same = AlertFieldsUpdate { warn: Some("$this > 50".to_string()), where_clause: Some(None), ..no_change() };
    assert!(touches_tested(&same));
    assert!(check_changed_fields(&same, &whole()).is_ok());
    let two = AlertFieldsUpdate {
        table: Some("memory".to_string()),
        warn: Some("$this > 10".to_string()),
        ..no_change()
    };
    match check_changed_fields(&two, &whole()) {
        Err(ApiError::InvalidRequestError(Some(m))) => assert_eq!(m, "the field table does not match the whole alert"),
        other => panic!("unexpected {:?}", other),
    }
    let cond = AlertFieldsUpdate { where_clause: Some(Some("x > 1".to_string())), ..no_change() };
    match check_changed_fields(&cond, &whole()) {
        Err(ApiError::InvalidRequestError(Some(m))) => {
            assert_eq!(m, "the field where_clause does not match the whole alert")
        }
        other => panic!("unexpected {:?}", other),
    }
}

#[test]
fn function_names_inside_words_are_not_refused() {
    assert_eq!(evaluate_threshold("\"absolute shell\" == \"absolute shell\"", "0"), Ok(true));
    assert_eq!(evaluate_threshold("str::to_uppercase(\"shlx\") == \"SHLX\"", "0"), Ok(true));
    assert!(is_evaluable("tables_abs > 1"));
    assert!(!is_evaluable("1 + shl(1, 2)"));
    assert!(!is_evaluable("(math::abs)(1)"));
}
