use zappy::dates::{created_at_cell, Timestamp, DATE_PATTERN};
use zappy::model::{Failure, RequestLogEntry};
use zappy::table::{
    draw_rows, header_cells, log_row, log_rows, requests_table, read_stamps, requests_table_at,
    TABLE_WIDTH,
};

fn logged(ip: &str, user_agent: &str, user_id: &str, referer: &str, created_at: &str) -> RequestLogEntry {
    RequestLogEntry {
        ip: ip.to_string(),
        user_agent: user_agent.to_string(),
        user_id: user_id.to_string(),
        referer: referer.to_string(),
        created_at: created_at.to_string(),
    }
}

fn texts(cells: &[&str]) -> Vec<String> {
    cells.iter().map(|cell| cell.to_string()).collect()
}

const NOON: Timestamp = Timestamp { seconds: 1704448800, nanos: 0 };

#[test]
fn date_pattern_and_width() {
    assert_eq!(DATE_PATTERN, "%B %d, %Y, %H:%M:%S");
    assert_eq!(TABLE_WIDTH, 120);
}

#[test]
fn created_at_is_written_with_month_name() {
    assert_eq!(created_at_cell(&NOON), Some("January 05, 2024, 10:00:00".to_string()));
}

#[test]
fn created_at_pads_day_and_time_with_zeros() {
    let stamp = Timestamp { seconds: 1688180645, nanos: 999_999_999 };
    assert_eq!(created_at_cell(&stamp), Some("July 01, 2023, 03:04:05".to_string()));
}

#[test]
fn created_at_before_the_epoch() {
    let stamp = Timestamp { seconds: -1, nanos: 0 };
    assert_eq!(created_at_cell(&stamp), Some("December 31, 1969, 23:59:59".to_string()));
}

#[test]
fn created_at_inside_a_leap_second() {
    let stamp = Timestamp { seconds: 1435708799, nanos: 1_500_000_000 };
    assert_eq!(created_at_cell(&stamp), Some("June 30, 2015, 23:59:60".to_string()));
}

#[test]
fn created_at_out_of_range_has_no_text() {
    assert_eq!(created_at_cell(&Timestamp { seconds: i64::MAX, nanos: 0 }), None);
    assert_eq!(created_at_cell(&Timestamp { seconds: i64::MIN, nanos: 0 }), None);
    assert_eq!(created_at_cell(&Timestamp { seconds: 0, nanos: 2_000_000_000 }), None);
}

#[test]
fn header_is_fixed() {
    assert_eq!(header_cells(), texts(&["IP", "User Agent", "User ID", "Referer", "Created At"]));
}

#[test]
fn row_keeps_the_fields_in_column_order() {
    let entry = logged("1.2.3.4", "curl/8", "u1", "-", "ignored here");
    assert_eq!(
        log_row(&entry, &Some(NOON)),
        Some(texts(&["1.2.3.4", "curl/8", "u1", "-", "January 05, 2024, 10:00:00"]))
    );
}

#[test]
fn row_without_a_reading_is_none() {
    let entry = logged("1.2.3.4", "curl/8", "u1", "-", "2024-01-05T10:00:00Z");
    assert_eq!(log_row(&entry, &None), None);
}

#[test]
fn row_with_a_reading_out_of_range_is_none() {
    let entry = logged("1.2.3.4", "curl/8", "u1", "-", "2024-01-05T10:00:00Z");
    assert_eq!(log_row(&entry, &Some(Timestamp { seconds: i64::MIN, nanos: 0 })), None);
}

#[test]
fn rows_follow_the_entries() {
    let entries = vec![logged("b", "2", "y", "r2", ""), logged("a", "1", "x", "r1", "")];
    let stamps = vec![Some(NOON), Some(Timestamp { seconds: 0, nanos: 0 })];
    assert_eq!(
        log_rows(&entries, &stamps),
        Ok(vec![
            texts(&["b", "2", "y", "r2", "January 05, 2024, 10:00:00"]),
            texts(&["a", "1", "x", "r1", "January 01, 1970, 00:00:00"]),
        ])
    );
}

#[test]
fn rows_of_no_entries() {
    assert_eq!(log_rows(&vec![], &vec![]), Ok(vec![]));
    assert_eq!(log_rows(&vec![], &vec![None]), Ok(vec![]));
}

#[test]
fn rows_stop_at_the_first_unreadable_date() {
    let entries = vec![
        logged("a", "", "", "", ""),
        logged("b", "", "", "", ""),
        logged("c", "", "", "", ""),
        logged("d", "", "", "", ""),
    ];
    let stamps = vec![Some(NOON), None, Some(NOON), None];
    assert_eq!(log_rows(&entries, &stamps), Err(Failure::BadDate { row: 1 }));
    assert_eq!(requests_table_at(&entries, &stamps), Err(Failure::BadDate { row: 1 }));
}

#[test]
fn drawing_of_no_rows_is_the_header() {
    let expected = "\
        +----+------------+---------+---------+------------+\n\
        | IP | User Agent | User ID | Referer | Created At |\n\
        +==================================================+\n\
        +----+------------+---------+---------+------------+";
    assert_eq!(draw_rows(&vec![]), expected);
}

#[test]
fn drawing_keeps_the_order_of_the_rows() {
    let rows = vec![texts(&["z", "", "", "", ""]), texts(&["a", "", "", "", ""])];
    let expected = "\
        +----+------------+---------+---------+------------+\n\
        | IP | User Agent | User ID | Referer | Created At |\n\
        +==================================================+\n\
        | z  |            |         |         |            |\n\
        |----+------------+---------+---------+------------|\n\
        | a  |            |         |         |            |\n\
        +----+------------+---------+---------+------------+";
    assert_eq!(draw_rows(&rows), expected);
}

#[test]
fn drawing_is_never_wider_than_the_table_width() {
    let long = "Mozilla/5.0 (X11; Linux x86_64) AppleWebKit/537.36 (KHTML, like Gecko) \
        Chrome/120.0.0.0 Safari/537.36 and then some more words to make the line wrap around";
    let rows = vec![texts(&["2001:db8::8a2e:370:7334", long, "user-0001", long, "January 05, 2024, 10:00:00"])];
    let drawing = draw_rows(&rows);
    assert!(drawing.lines().count() > 5);
    for line in drawing.lines() {
        assert!(line.chars().count() <= 120);
    }
}

#[test]
fn table_of_one_entry() {
    let entries = vec![logged("1.2.3.4", "curl/8", "u1", "-", "unused")];
    let expected = "\
        +---------+------------+---------+---------+----------------------------+\n\
        | IP      | User Agent | User ID | Referer | Created At                 |\n\
        +=======================================================================+\n\
        | 1.2.3.4 | curl/8     | u1      | -       | January 05, 2024, 10:00:00 |\n\
        +---------+------------+---------+---------+----------------------------+";
    assert_eq!(requests_table_at(&entries, &vec![Some(NOON)]), Ok(expected.to_string()));
}

#[test]
fn stamps_are_read_in_order() {
    let entries = vec![
        logged("", "", "", "", "2024-01-05T10:00:00Z"),
        logged("", "", "", "", "no date at all"),
        logged("", "", "", "", "1970-01-01 00:00:01.5 UTC"),
        logged("", "", "", "", "2024-01-05 12:00:00 +0200"),
    ];
    assert_eq!(
        read_stamps(&entries),
        vec![
            Some(NOON),
            None,
            Some(Timestamp { seconds: 1, nanos: 500_000_000 }),
            Some(NOON),
        ]
    );
}

#[test]
fn stamps_of_no_entries() {
    assert_eq!(read_stamps(&vec![]), vec![]);
}

#[test]
fn printed_row_ends_in_the_normalized_date() {
    let entries = vec![logged("1.2.3.4", "curl/8", "u1", "-", "2024-01-05T10:00:00Z")];
    let table = requests_table(&entries).unwrap();
    let lines: Vec<&str> = table.lines().collect();
    assert_eq!(lines.len(), 5);
    assert!(lines[3].starts_with("| 1.2.3.4 | curl/8"));
    assert!(lines[3].ends_with("January 05, 2024, 10:00:00 |"));
}

#[test]
fn printed_table_has_one_row_for_each_entry() {
    let entries = vec![
        logged("10.0.0.1", "a", "u1", "-", "2024-01-05T10:00:00Z"),
        logged("10.0.0.2", "b", "u2", "-", "2024-01-05T10:00:01Z"),
        logged("10.0.0.3", "c", "u3", "-", "2024-01-05T10:00:02Z"),
    ];
    let table = requests_table(&entries).unwrap();
    let rows: Vec<&str> = table.lines().filter(|line| line.starts_with("| 10.")).collect();
    assert_eq!(rows.len(), 3);
    assert!(rows[0].starts_with("| 10.0.0.1 | a "));
    assert!(rows[1].starts_with("| 10.0.0.2 | b "));
    assert!(rows[2].starts_with("| 10.0.0.3 | c "));
}

#[test]
fn printed_table_fails_on_an_unreadable_date() {
    let entries = vec![
        logged("10.0.0.1", "a", "u1", "-", "yesterday-ish"),
        logged("10.0.0.2", "b", "u2", "-", "2024-01-05T10:00:01Z"),
    ];
    assert_eq!(requests_table(&entries), Err(Failure::BadDate { row: 0 }));
}

#[test]
fn printed_table_of_no_entries() {
    assert_eq!(requests_table(&vec![]), Ok(draw_rows(&vec![])));
}
