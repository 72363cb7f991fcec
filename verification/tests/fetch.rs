use zappy::api::{
    count_line, failure_message, fetch_failure, fetch_notice, get_requests_call,
    get_requests_report, get_requests_report_at, FetchCall, CREDENTIAL_VARIABLE,
};
use zappy::dates::Timestamp;
use zappy::model::{Failure, RequestLogData, RequestLogEntry, RequestLogQueryResult};

fn entry(ip: &str, created_at: &str) -> RequestLogEntry {
    RequestLogEntry {
        ip: ip.to_string(),
        user_agent: "curl/8".to_string(),
        user_id: "u1".to_string(),
        referer: "-".to_string(),
        created_at: created_at.to_string(),
    }
}

fn found(count: i32, entries: Vec<RequestLogEntry>) -> RequestLogQueryResult {
    RequestLogQueryResult { success: true, error: None, data: Some(RequestLogData { count, entries }) }
}

#[test]
fn credential_variable_is_named() {
    assert_eq!(CREDENTIAL_VARIABLE, "ZAPPY_API_KEY");
}

#[test]
fn fetch_without_credential_sends_nothing() {
    assert_eq!(get_requests_call("docs", &None), Err(Failure::MissingCredential));
}

#[test]
fn fetch_with_credential_gives_endpoint_and_bearer_header() {
    assert_eq!(
        get_requests_call("docs", &Some("s3cr3t".to_string())),
        Ok(FetchCall {
            endpoint: "https://zappy.sh/requests/docs".to_string(),
            authorization: "Bearer s3cr3t".to_string(),
        })
    );
}

#[test]
fn fetch_with_empty_credential_still_sends() {
    assert_eq!(
        get_requests_call("a/b", &Some(String::new())),
        Ok(FetchCall {
            endpoint: "https://zappy.sh/requests/a/b".to_string(),
            authorization: "Bearer ".to_string(),
        })
    );
}

#[test]
fn fetch_notice_names_the_alias() {
    assert_eq!(fetch_notice("docs"), "Fetching requests for alias docs");
}

#[test]
fn fetch_failure_names_alias_and_reason() {
    assert_eq!(
        fetch_failure("docs", "connection refused"),
        "Failed to get requests for alias docs because connection refused"
    );
}

#[test]
fn count_line_reports_the_count() {
    assert_eq!(count_line(0), "Total of 0 requests");
    assert_eq!(count_line(42), "Total of 42 requests");
    assert_eq!(count_line(-1), "Total of -1 requests");
}

#[test]
fn failure_messages() {
    assert_eq!(failure_message("docs", &Failure::MissingCredential), "ZAPPY_API_KEY not set");
    assert_eq!(
        failure_message("docs", &Failure::Refused { reason: "no such alias".to_string() }),
        "Failed to get requests for alias docs because no such alias"
    );
    assert_eq!(failure_message("docs", &Failure::MissingReason), "the service gave no reason");
    assert_eq!(failure_message("docs", &Failure::MissingData), "no requests");
    assert_eq!(failure_message("docs", &Failure::BadDate { row: 3 }), "could not parse date");
}

#[test]
fn refused_fetch_gives_the_reason_and_no_table() {
    let response = RequestLogQueryResult {
        success: false,
        error: Some("no such alias".to_string()),
        data: None,
    };
    let report = get_requests_report(&response);
    assert_eq!(report, Err(Failure::Refused { reason: "no such alias".to_string() }));
    let message = failure_message("docs", &report.unwrap_err());
    assert!(message.contains("docs"));
    assert!(message.contains("no such alias"));
    assert!(!message.contains("IP"));
}

#[test]
fn refused_fetch_ignores_stray_data() {
    let response = RequestLogQueryResult {
        success: false,
        error: Some("denied".to_string()),
        data: Some(RequestLogData { count: 1, entries: vec![entry("1.2.3.4", "not a date")] }),
    };
    assert_eq!(
        get_requests_report(&response),
        Err(Failure::Refused { reason: "denied".to_string() })
    );
}

#[test]
fn refused_fetch_without_reason() {
    let response = RequestLogQueryResult { success: false, error: None, data: None };
    assert_eq!(get_requests_report(&response), Err(Failure::MissingReason));
}

#[test]
fn successful_fetch_without_data() {
    let response = RequestLogQueryResult { success: true, error: None, data: None };
    assert_eq!(get_requests_report(&response), Err(Failure::MissingData));
    assert_eq!(get_requests_report_at(&response, &vec![]), Err(Failure::MissingData));
}

#[test]
fn successful_fetch_without_entries_shows_the_header_alone() {
    let expected = "Total of 0 requests\n\
        +----+------------+---------+---------+------------+\n\
        | IP | User Agent | User ID | Referer | Created At |\n\
        +==================================================+\n\
        +----+------------+---------+---------+------------+";
    assert_eq!(get_requests_report(&found(0, vec![])), Ok(expected.to_string()));
}

#[test]
fn successful_fetch_reports_count_then_table() {
    let response = found(
        2,
        vec![entry("1.2.3.4", "2024-01-05T10:00:00Z"), entry("5.6.7.8", "2024-02-29T23:59:59Z")],
    );
    let expected = "Total of 2 requests\n\
        +---------+------------+---------+---------+-----------------------------+\n\
        | IP      | User Agent | User ID | Referer | Created At                  |\n\
        +========================================================================+\n\
        | 1.2.3.4 | curl/8     | u1      | -       | January 05, 2024, 10:00:00  |\n\
        |---------+------------+---------+---------+-----------------------------|\n\
        | 5.6.7.8 | curl/8     | u1      | -       | February 29, 2024, 23:59:59 |\n\
        +---------+------------+---------+---------+-----------------------------+";
    assert_eq!(get_requests_report(&response), Ok(expected.to_string()));
}

#[test]
fn successful_fetch_reports_the_count_that_the_service_sent() {
    let report = get_requests_report(&found(5, vec![])).unwrap();
    assert!(report.starts_with("Total of 5 requests\n"));
}

#[test]
fn successful_fetch_with_unreadable_date_gives_no_output() {
    let response = found(
        2,
        vec![entry("1.2.3.4", "2024-01-05T10:00:00Z"), entry("5.6.7.8", "the day before")],
    );
    assert_eq!(get_requests_report(&response), Err(Failure::BadDate { row: 1 }));
}

#[test]
fn report_at_given_readings() {
    let response = found(1, vec![entry("::1", "whatever the service wrote")]);
    let stamps = vec![Some(Timestamp { seconds: 0, nanos: 0 })];
    let expected = "Total of 1 requests\n\
        +-----+------------+---------+---------+----------------------------+\n\
        | IP  | User Agent | User ID | Referer | Created At                 |\n\
        +===================================================================+\n\
        | ::1 | curl/8     | u1      | -       | January 01, 1970, 00:00:00 |\n\
        +-----+------------+---------+---------+----------------------------+";
    assert_eq!(get_requests_report_at(&response, &stamps), Ok(expected.to_string()));
}

#[test]
fn report_at_too_few_readings_fails_at_the_first_missing_one() {
    let response = found(2, vec![entry("a", "x"), entry("b", "y")]);
    let stamps = vec![Some(Timestamp { seconds: 0, nanos: 0 })];
    assert_eq!(get_requests_report_at(&response, &stamps), Err(Failure::BadDate { row: 1 }));
}
