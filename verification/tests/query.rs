use speculare_server::query::{build_alert_query, QueryError};

const CPU_LOOKUP: &str = "average 10m of cuser,nice,system,irq,softirq,steal over idle,iowait";

#[test]
fn cpu_usage_query() {
    let q = build_alert_query(CPU_LOOKUP, "cputimes", &None).unwrap();
    assert_eq!(
        q,
        "SELECT time_bucket('10m', created_at) as time, avg(cuser)::int8 + avg(nice)::int8 + \
         avg(system)::int8 + avg(irq)::int8 + avg(softirq)::int8 + avg(steal)::int8 as numerator, \
         avg(idle)::int8 + avg(iowait)::int8 as divisor FROM cputimes WHERE host_uuid=$1 AND \
         created_at > now() at time zone 'utc' - INTERVAL '10m'  GROUP BY time ORDER BY time DESC"
    );
}

#[test]
fn extra_condition_is_appended() {
    let q = build_alert_query("average 5m of used over free", "memory", &Some("used > 0".to_string())).unwrap();
    assert_eq!(
        q,
        "SELECT time_bucket('5m', created_at) as time, avg(used)::int8 as numerator, avg(free)::int8 as divisor \
         FROM memory WHERE host_uuid=$1 AND created_at > now() at time zone 'utc' - INTERVAL '5m'  AND used > 0 \
         GROUP BY time ORDER BY time DESC"
    );
}

#[test]
fn lookup_errors_in_order() {
    assert_eq!(build_alert_query("sum 10m of a over b", "t", &None), Err(QueryError::UnhandledAggregation));
    assert_eq!(build_alert_query("", "t", &None), Err(QueryError::UnhandledAggregation));
    assert_eq!(build_alert_query("average", "t", &None), Err(QueryError::NoTimeRange));
    assert_eq!(build_alert_query("average 10m of", "t", &None), Err(QueryError::NoNumerator));
    assert_eq!(build_alert_query("average 10m of a over", "t", &None), Err(QueryError::NoDivisor));
}

#[test]
fn statements_that_write_are_refused() {
    let drop = Some("1=1; DROP TABLE hosts".to_string());
    assert_eq!(build_alert_query(CPU_LOOKUP, "cputimes", &drop), Err(QueryError::ForbiddenStatement));
    assert_eq!(build_alert_query(CPU_LOOKUP, "DELETED", &None), Err(QueryError::ForbiddenStatement));
    assert!(build_alert_query("average 1h of updated over x", "t", &None).is_ok());
}

#[test]
fn doubled_space_shifts_the_words() {
    // Words are split at each single space, so two spaces make an empty word.
    let q = build_alert_query("average  10m of a over b", "t", &None).unwrap();
    assert!(q.starts_with("SELECT time_bucket('', created_at) as time, avg(of)::int8 as numerator, avg(over)::int8 as divisor FROM t"));
}
