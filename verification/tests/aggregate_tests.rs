use cert_monitor::report::{aggregate, domain_status, Report, Status};
use cert_monitor::error::MonitorError;

#[test]
fn test_aggregate_empty() {
    let report = aggregate(vec![]).expect("should succeed");
    assert!(matches!(report, Report::Valid));
}

#[test]
fn test_aggregate_one() {
    let report = aggregate(vec![Status {
        domain: "foobar".into(),
        valid: false,
        error: "oops".into(),
    }])
    .expect("should succeed");
    match report {
        Report::Valid => assert!(false),
        Report::Invalid(s) => assert_eq!(s, "Found 1 issues.\nDomain foobar (oops)"),
    }
}

#[test]
fn test_aggregate_mixed() {
    let report = aggregate(vec![
        Status {
            domain: "foobar".into(),
            valid: false,
            error: "oops".into(),
        },
        Status {
            domain: "baz".into(),
            valid: true,
            error: "".into(),
        },
    ])
    .expect("should succeed");
    match report {
        Report::Valid => assert!(false),
        Report::Invalid(s) => assert_eq!(s, "Found 1 issues.\nDomain foobar (oops)"),
    }
}

#[test]
fn test_aggregate_many_counts_in_decimal() {
    let mut statuses = Vec::new();
    let mut expected = String::from("Found 12 issues.\n");
    for i in 0..12 {
        let domain = format!("host{}", i);
        statuses.push(Status {
            domain: domain.clone(),
            valid: false,
            error: "oops".into(),
        });
        expected.push_str(&format!("Domain {} (oops)", domain));
        if i != 11 {
            expected.push('\n');
        }
    }
    let report = aggregate(statuses).expect("should succeed");
    match report {
        Report::Valid => assert!(false),
        Report::Invalid(s) => assert_eq!(s, expected),
    }
}

#[test]
fn test_aggregate_preserves_input_order() {
    let report = aggregate(vec![
        Status {
            domain: "b".into(),
            valid: false,
            error: "late".into(),
        },
        Status {
            domain: "a".into(),
            valid: false,
            error: "early".into(),
        },
    ])
    .expect("should succeed");
    match report {
        Report::Valid => assert!(false),
        Report::Invalid(s) => assert_eq!(s, "Found 2 issues.\nDomain b (late)\nDomain a (early)"),
    }
}

#[test]
fn test_domain_status_conversion() {
    let ok = domain_status("example.org".into(), Ok(true));
    assert_eq!(ok.domain, "example.org");
    assert!(ok.valid);
    assert_eq!(ok.error, "");

    let soft = domain_status("example.org".into(), Ok(false));
    assert!(!soft.valid);
    assert_eq!(soft.error, "");

    let failed = domain_status(
        "example.org".into(),
        Err(MonitorError::Network("connect refused".into())),
    );
    assert!(!failed.valid);
    assert_eq!(failed.error, "network error: connect refused");
}

#[test]
fn test_render_messages() {
    assert_eq!(
        MonitorError::Network("a".into()).render(),
        "network error: a"
    );
    assert_eq!(MonitorError::Tls("b".into()).render(), "TLS error: b");
    assert_eq!(
        MonitorError::Certificate("c".into()).render(),
        "certificate error: c"
    );
    assert_eq!(MonitorError::Config("d".into()).render(), "config error: d");
    assert_eq!(MonitorError::Expired.render(), "certificate expired");
    assert_eq!(
        MonitorError::General("e".into()).render(),
        "general error: e"
    );
}
