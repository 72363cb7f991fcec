//! The log table: one row for each logged request, laid out by `comfy_table`.

use crate::dates::{
    created_at_cell, created_at_text, has_overlong_offset, read_created_at, Timestamp,
};
use crate::model::{outcome_view, Failure, FailureView, RequestLogEntry, RequestLogEntryView};
use vstd::prelude::*;

verus! {

/// The widest that the log table may be, in columns of the terminal.
pub const TABLE_WIDTH: u16 = 120;

/// How a table fits its columns into its width: the choices of
/// `comfy_table::ContentArrangement`.
#[derive(Clone, Copy, Debug, PartialEq, Eq)]
pub enum Arrangement {
    /// Every column as wide as its longest line.
    Disabled,
    /// Columns narrowed, and their content wrapped, until the table fits its width.
    Dynamic,
    /// As `Dynamic`, and widened until the table fills its width.
    DynamicFullWidth,
}

/// `comfy_table::Table`, carried as an opaque value: what it holds is spoken of through
/// the names below, and it is touched through the wrappers below only.
#[verifier::external_type_specification]
#[verifier::external_body]
pub struct ExTable(comfy_table::Table);

/// Whether the table is as `Table::new` made it in all but its arrangement, its width, its
/// header and its rows, and each of its cells was made from a text alone: the preset
/// style, no delimiter, no constraint, padding, alignment, colour or attribute set.
pub uninterp spec fn table_is_plain(table: comfy_table::Table) -> bool;

/// The arrangement that the table was given.
pub uninterp spec fn table_arrangement(table: comfy_table::Table) -> Arrangement;

/// The width that the table was given, if it was given one.
pub uninterp spec fn table_width(table: comfy_table::Table) -> Option<u16>;

/// The texts of the header's cells from left to right, if a header was set.
pub uninterp spec fn table_header(table: comfy_table::Table) -> Option<Seq<Seq<char>>>;

/// The rows from top to bottom, each as the texts of its cells from left to right.
pub uninterp spec fn table_rows(table: comfy_table::Table) -> Seq<Seq<Seq<char>>>;

/// What `comfy_table` draws for a plain table of this arrangement, width, header and rows:
/// the lines of the drawing, joined by line feeds.
pub uninterp spec fn table_text(
    arrangement: Arrangement,
    width: int,
    header: Option<Seq<Seq<char>>>,
    rows: Seq<Seq<Seq<char>>>,
) -> Seq<char>;

/// Calls `Table::new`: a plain table without header, rows or width, its arrangement
/// `Disabled`.
#[verifier::external_body]
fn new_table() -> (table: comfy_table::Table)
    ensures
        table_is_plain(table),
        table_arrangement(table) == Arrangement::Disabled,
        table_width(table) is None,
        table_header(table) is None,
        table_rows(table) == Seq::<Seq<Seq<char>>>::empty(),
{
    comfy_table::Table::new()
}

/// Calls `Table::set_content_arrangement`, which stores the arrangement and touches
/// nothing else.
#[verifier::external_body]
fn set_arrangement(table: &mut comfy_table::Table, arrangement: Arrangement)
    ensures
        table_arrangement(*final(table)) == arrangement,
        table_is_plain(*final(table)) == table_is_plain(*old(table)),
        table_width(*final(table)) == table_width(*old(table)),
        table_header(*final(table)) == table_header(*old(table)),
        table_rows(*final(table)) == table_rows(*old(table)),
{
    table.set_content_arrangement(
        match arrangement {
            Arrangement::Disabled => comfy_table::ContentArrangement::Disabled,
            Arrangement::Dynamic => comfy_table::ContentArrangement::Dynamic,
            Arrangement::DynamicFullWidth => comfy_table::ContentArrangement::DynamicFullWidth,
        },
    );
}

/// Calls `Table::set_width`, which stores the width and touches nothing else.
#[verifier::external_body]
fn set_width(table: &mut comfy_table::Table, width: u16)
    ensures
        table_width(*final(table)) == Some(width),
        table_is_plain(*final(table)) == table_is_plain(*old(table)),
        table_arrangement(*final(table)) == table_arrangement(*old(table)),
        table_header(*final(table)) == table_header(*old(table)),
        table_rows(*final(table)) == table_rows(*old(table)),
{
    table.set_width(width);
}

/// Calls `Table::set_header` with one cell for each text. Asked for a table without a
/// header only: a table keeps the columns of a header that was replaced, which the header
/// and the rows that it holds afterwards no longer show.
#[verifier::external_body]
fn set_header(table: &mut comfy_table::Table, cells: &Vec<String>)
    requires
        table_header(*old(table)) is None,
    ensures
        table_header(*final(table)) == Some(cells.deep_view()),
        table_is_plain(*final(table)) == table_is_plain(*old(table)),
        table_arrangement(*final(table)) == table_arrangement(*old(table)),
        table_width(*final(table)) == table_width(*old(table)),
        table_rows(*final(table)) == table_rows(*old(table)),
{
    table.set_header(cells);
}

/// Calls `Table::add_row` with one cell for each text: the row goes below the rows that
/// the table holds.
#[verifier::external_body]
fn add_row(table: &mut comfy_table::Table, cells: &Vec<String>)
    ensures
        table_rows(*final(table)) == table_rows(*old(table)).push(cells.deep_view()),
        table_is_plain(*final(table)) == table_is_plain(*old(table)),
        table_arrangement(*final(table)) == table_arrangement(*old(table)),
        table_width(*final(table)) == table_width(*old(table)),
        table_header(*final(table)) == table_header(*old(table)),
{
    table.add_row(cells);
}

/// Calls `to_string`, that is the table's `Display`. The drawing is named, not spelled
/// out. Asked for a plain table of a given width only: without a width `comfy_table` asks
/// the terminal for one, and a styled cell is drawn differently on a terminal.
#[verifier::external_body]
fn draw_table(table: &comfy_table::Table) -> (text: String)
    requires
        table_is_plain(*table),
        table_width(*table) is Some,
    ensures
        text@ == table_text(
            table_arrangement(*table),
            table_width(*table)->0 as int,
            table_header(*table),
            table_rows(*table),
        ),
{
    table.to_string()
}

/// The column titles of the log table, from left to right.
pub open spec fn header_text() -> Seq<Seq<char>> {
    seq!["IP"@, "User Agent"@, "User ID"@, "Referer"@, "Created At"@]
}

/// The column titles of the log table, from left to right.
pub fn header_cells() -> (cells: Vec<String>)
    ensures
        cells.deep_view() == header_text(),
{
    let mut cells: Vec<String> = Vec::new();
    cells.push(String::from_str("IP"));
    cells.push(String::from_str("User Agent"));
    cells.push(String::from_str("User ID"));
    cells.push(String::from_str("Referer"));
    cells.push(String::from_str("Created At"));
    assert(cells.deep_view() =~= header_text());
    cells
}

/// Draws the log table for rows that are already written: dynamic arrangement, at most
/// [`TABLE_WIDTH`] wide, under the fixed column titles, the rows in the order given.
pub fn draw_rows(rows: &Vec<Vec<String>>) -> (text: String)
    ensures
        text@ == table_text(
            Arrangement::Dynamic,
            TABLE_WIDTH as int,
            Some(header_text()),
            rows.deep_view(),
        ),
{
    let mut table = new_table();
    set_arrangement(&mut table, Arrangement::Dynamic);
    set_width(&mut table, TABLE_WIDTH);
    let header = header_cells();
    set_header(&mut table, &header);
    let mut done: usize = 0;
    while done < rows.len()
        invariant
            done <= rows.len(),
            table_is_plain(table),
            table_arrangement(table) == Arrangement::Dynamic,
            table_width(table) == Some(TABLE_WIDTH),
            table_header(table) == Some(header_text()),
            table_rows(table) == rows.deep_view().take(done as int),
        decreases rows.len() - done,
    {
        add_row(&mut table, &rows[done]);
        assert(rows.deep_view().take(done as int).push(rows[done as int].deep_view())
            =~= rows.deep_view().take(done + 1));
        done += 1;
    }
    assert(rows.deep_view().take(done as int) =~= rows.deep_view());
    draw_table(&table)
}

/// The cells of the row that shows `entry`, whose date was read as `stamp`: address, user
/// agent, user, referer and the date as the table writes it. Meant for a valid stamp.
pub open spec fn row_text(entry: RequestLogEntryView, stamp: Timestamp) -> Seq<Seq<char>> {
    seq![entry.ip, entry.user_agent, entry.user_id, entry.referer, created_at_text(stamp)]
}

/// The reading of the date of the entry at `row`: none where `stamps` is too short.
pub open spec fn stamp_at(stamps: Seq<Option<Timestamp>>, row: int) -> Option<Timestamp> {
    if 0 <= row < stamps.len() {
        stamps[row]
    } else {
        None
    }
}

/// The entry at `row` has a row to show: its date was read, as a valid stamp.
pub open spec fn readable(stamps: Seq<Option<Timestamp>>, row: int) -> bool {
    stamp_at(stamps, row) matches Some(at) && at.is_valid()
}

/// Every entry has a row to show.
pub open spec fn all_readable(
    entries: Seq<RequestLogEntryView>,
    stamps: Seq<Option<Timestamp>>,
) -> bool {
    forall|row: int| 0 <= row < entries.len() ==> readable(stamps, row)
}

/// `row` is the first entry without a row to show.
pub open spec fn first_unreadable(
    entries: Seq<RequestLogEntryView>,
    stamps: Seq<Option<Timestamp>>,
    row: int,
) -> bool {
    &&& 0 <= row < entries.len()
    &&& !readable(stamps, row)
    &&& forall|earlier: int| 0 <= earlier < row ==> readable(stamps, earlier)
}

/// One row for each entry, in the order of the entries. Meant for entries that are all
/// readable.
pub open spec fn rows_text(
    entries: Seq<RequestLogEntryView>,
    stamps: Seq<Option<Timestamp>>,
) -> Seq<Seq<Seq<char>>> {
    Seq::new(entries.len(), |row: int| row_text(entries[row], stamp_at(stamps, row)->0))
}

/// `outcome` is what drawing the log table of `entries` gives, their dates read as
/// `stamps`: the drawing of all rows, or the position of the first date that cannot be
/// shown, and then no drawing.
pub open spec fn is_table_outcome(
    entries: Seq<RequestLogEntryView>,
    stamps: Seq<Option<Timestamp>>,
    outcome: Result<Seq<char>, FailureView>,
) -> bool {
    match outcome {
        Ok(text) => {
            &&& all_readable(entries, stamps)
            &&& text == table_text(
                Arrangement::Dynamic,
                TABLE_WIDTH as int,
                Some(header_text()),
                rows_text(entries, stamps),
            )
        },
        Err(failure) => {
            &&& failure matches FailureView::BadDate { row }
            &&& first_unreadable(entries, stamps, row as int)
        },
    }
}

/// Writes the cells of the row that shows `entry`, whose date was read as `stamp`.
pub fn log_row(
    entry: &RequestLogEntry,
    stamp: &Option<Timestamp>,
) -> (cells: Option<Vec<String>>)
    ensures
        cells is Some <==> (*stamp matches Some(at) && at.is_valid()),
        cells matches Some(written) ==> written.deep_view() == row_text(entry@, stamp->0),
{
    match stamp {
        None => None,
        Some(at) => match created_at_cell(at) {
            None => None,
            Some(created_at) => {
                let mut written: Vec<String> = Vec::new();
                written.push(entry.ip.clone());
                written.push(entry.user_agent.clone());
                written.push(entry.user_id.clone());
                written.push(entry.referer.clone());
                written.push(created_at);
                assert(written.deep_view() =~= row_text(entry@, *at));
                Some(written)
            },
        },
    }
}

/// Writes one row for each entry, in the order of the entries, and stops at the first
/// entry whose date cannot be shown. The date of the entry at a position is read as
/// `stamps` has it at that position, and counts as unread where `stamps` is too short.
pub fn log_rows(
    entries: &Vec<RequestLogEntry>,
    stamps: &Vec<Option<Timestamp>>,
) -> (rows: Result<Vec<Vec<String>>, Failure>)
    ensures
        match rows {
            Ok(written) => {
                &&& all_readable(entries.deep_view(), stamps@)
                &&& written.deep_view() == rows_text(entries.deep_view(), stamps@)
            },
            Err(failure) => {
                &&& failure matches Failure::BadDate { row }
                &&& first_unreadable(entries.deep_view(), stamps@, row as int)
            },
        },
{
    let mut written: Vec<Vec<String>> = Vec::new();
    let mut row: usize = 0;
    while row < entries.len()
        invariant
            row <= entries.len(),
            written.len() == row,
            forall|earlier: int|
                0 <= earlier < row ==> readable(stamps@, earlier),
            forall|earlier: int|
                0 <= earlier < row ==> written.deep_view()[earlier] == row_text(
                    entries.deep_view()[earlier],
                    stamp_at(stamps@, earlier)->0,
                ),
        decreases entries.len() - row,
    {
        let stamp = if row < stamps.len() {
            stamps[row]
        } else {
            None
        };
        assert(stamp == stamp_at(stamps@, row as int));
        assert(entries.deep_view()[row as int] == entries[row as int]@);
        match log_row(&entries[row], &stamp) {
            None => {
                return Err(Failure::BadDate { row });
            },
            Some(cells) => {
                let ghost before = written.deep_view();
                written.push(cells);
                assert(written.deep_view() =~= before.push(cells.deep_view()));
            },
        }
        row += 1;
    }
    assert(written.deep_view() =~= rows_text(entries.deep_view(), stamps@));
    Ok(written)
}

/// Draws the log table of `entries`, their dates read as `stamps`: all rows or none.
pub fn requests_table_at(
    entries: &Vec<RequestLogEntry>,
    stamps: &Vec<Option<Timestamp>>,
) -> (table: Result<String, Failure>)
    ensures
        is_table_outcome(entries.deep_view(), stamps@, outcome_view(table)),
        table is Ok <==> all_readable(entries.deep_view(), stamps@),
{
    match log_rows(entries, stamps) {
        Ok(rows) => Ok(draw_rows(&rows)),
        Err(failure) => Err(failure),
    }
}

/// `stamps` can be the readings of the dates of `entries`: one for each entry, none for a
/// date text that ends in an offset of a day or more, and each one that was read a valid
/// stamp.
pub open spec fn are_readings(
    entries: Seq<RequestLogEntryView>,
    stamps: Seq<Option<Timestamp>>,
) -> bool {
    &&& stamps.len() == entries.len()
    &&& forall|row: int|
        0 <= row < entries.len() ==> {
            &&& has_overlong_offset(entries[row].created_at) ==> (#[trigger] stamps[row])
                is None
            &&& stamps[row] matches Some(at) ==> at.is_valid()
        }
}

/// Reads the date of each entry, in the order of the entries. How a date text is read
/// depends on the machine's time zone and clock, so no more is promised than
/// [`are_readings`] says.
pub fn read_stamps(entries: &Vec<RequestLogEntry>) -> (stamps: Vec<Option<Timestamp>>)
    ensures
        are_readings(entries.deep_view(), stamps@),
{
    let mut stamps: Vec<Option<Timestamp>> = Vec::new();
    let mut row: usize = 0;
    while row < entries.len()
        invariant
            row <= entries.len(),
            stamps.len() == row,
            forall|earlier: int|
                0 <= earlier < row ==> {
                    &&& has_overlong_offset(entries.deep_view()[earlier].created_at) ==> (
                    #[trigger] stamps@[earlier]) is None
                    &&& stamps@[earlier] matches Some(at) ==> at.is_valid()
                },
        decreases entries.len() - row,
    {
        assert(entries.deep_view()[row as int] == entries[row as int]@);
        stamps.push(read_created_at(entries[row].created_at.as_str()));
        row += 1;
    }
    stamps
}

/// Reads the dates of `entries` and draws their log table: all rows or none. Whatever the
/// dates were read as, the outcome is the one that [`requests_table_at`] gives for those
/// readings: the table if every date was read, else the position of the first that was
/// not.
pub fn requests_table(entries: &Vec<RequestLogEntry>) -> (table: Result<String, Failure>)
    ensures
        exists|stamps: Seq<Option<Timestamp>>|
            are_readings(entries.deep_view(), stamps) && #[trigger] is_table_outcome(
                entries.deep_view(),
                stamps,
                outcome_view(table),
            ),
        entries.len() == 0 ==> is_table_outcome(
            entries.deep_view(),
            Seq::empty(),
            outcome_view(table),
        ),
{
    let stamps = read_stamps(entries);
    let table = requests_table_at(entries, &stamps);
    assert(entries.len() == 0 ==> stamps@ =~= Seq::empty());
    table
}

/// The outcome of drawing a log table is settled by the entries and the readings of
/// their dates: no two outcomes fit the same ones.
pub proof fn lemma_table_outcome_is_unique(
    entries: Seq<RequestLogEntryView>,
    stamps: Seq<Option<Timestamp>>,
    one: Result<Seq<char>, FailureView>,
    other: Result<Seq<char>, FailureView>,
)
    requires
        is_table_outcome(entries, stamps, one),
        is_table_outcome(entries, stamps, other),
    ensures
        one == other,
{
    match (one, other) {
        (Err(FailureView::BadDate { row: first }), Err(FailureView::BadDate { row: second })) => {
            assert(first == second) by {
                if first < second {
                    assert(readable(stamps, first as int));
                }
                if second < first {
                    assert(readable(stamps, second as int));
                }
            }
        },
        (Ok(_), Err(FailureView::BadDate { row })) => {
            assert(readable(stamps, row as int));
        },
        (Err(FailureView::BadDate { row }), Ok(_)) => {
            assert(readable(stamps, row as int));
        },
        _ => {},
    }
}

/// Whatever the entries, a log table that is drawn has the columns IP, User Agent, User
/// ID, Referer and Created At, in this order.
pub proof fn lemma_columns_are_fixed(
    entries: Seq<RequestLogEntryView>,
    stamps: Seq<Option<Timestamp>>,
    text: Seq<char>,
)
    requires
        is_table_outcome(entries, stamps, Ok(text)),
    ensures
        text == table_text(
            Arrangement::Dynamic,
            TABLE_WIDTH as int,
            Some(seq!["IP"@, "User Agent"@, "User ID"@, "Referer"@, "Created At"@]),
            rows_text(entries, stamps),
        ),
        header_text().len() == 5,
        header_text()[0] == "IP"@,
        header_text()[1] == "User Agent"@,
        header_text()[2] == "User ID"@,
        header_text()[3] == "Referer"@,
        header_text()[4] == "Created At"@,
{
}

/// A log table that is drawn has exactly one row for each entry, in the order of the
/// entries: the row at a position shows the address, user agent, user and referer of the
/// entry at that position as they were received, and its date as the table writes dates.
pub proof fn lemma_rows_follow_entries(
    entries: Seq<RequestLogEntryView>,
    stamps: Seq<Option<Timestamp>>,
)
    requires
        all_readable(entries, stamps),
    ensures
        rows_text(entries, stamps).len() == entries.len(),
        forall|row: int|
            0 <= row < entries.len() ==> {
                let cells = #[trigger] rows_text(entries, stamps)[row];
                &&& cells.len() == 5
                &&& cells[0] == entries[row].ip
                &&& cells[1] == entries[row].user_agent
                &&& cells[2] == entries[row].user_id
                &&& cells[3] == entries[row].referer
                &&& stamp_at(stamps, row) matches Some(at) && cells[4] == created_at_text(at)
            },
{
    assert forall|row: int| 0 <= row < entries.len() implies {
        let cells = #[trigger] rows_text(entries, stamps)[row];
        &&& cells.len() == 5
        &&& cells[0] == entries[row].ip
        &&& cells[1] == entries[row].user_agent
        &&& cells[2] == entries[row].user_id
        &&& cells[3] == entries[row].referer
        &&& stamp_at(stamps, row) matches Some(at) && cells[4] == created_at_text(at)
    } by {
        assert(readable(stamps, row));
    }
}

/// Where every date can be shown, the log table is drawn, with exactly one row for each
/// entry and no other: for no entries, the header alone.
pub proof fn lemma_table_is_drawn_for_readable_entries(
    entries: Seq<RequestLogEntryView>,
    stamps: Seq<Option<Timestamp>>,
    outcome: Result<Seq<char>, FailureView>,
)
    requires
        all_readable(entries, stamps),
        is_table_outcome(entries, stamps, outcome),
    ensures
        outcome == Ok::<Seq<char>, FailureView>(
            table_text(
                Arrangement::Dynamic,
                TABLE_WIDTH as int,
                Some(header_text()),
                rows_text(entries, stamps),
            ),
        ),
        rows_text(entries, stamps).len() == entries.len(),
        entries.len() == 0 ==> rows_text(entries, stamps) == Seq::<Seq<Seq<char>>>::empty(),
{
    if let Err(failure) = outcome {
        assert(readable(stamps, failure->BadDate_row as int));
    }
    assert(entries.len() == 0 ==> rows_text(entries, stamps) =~= Seq::<Seq<Seq<char>>>::empty());
}

/// Among the readings of the dates of some entries, the dates that can be shown are those
/// that were read: so the log table is drawn whenever every date was read.
pub proof fn lemma_what_was_read_can_be_shown(
    entries: Seq<RequestLogEntryView>,
    stamps: Seq<Option<Timestamp>>,
)
    requires
        are_readings(entries, stamps),
    ensures
        forall|row: int|
            0 <= row < entries.len() ==> (readable(stamps, row) <==> (#[trigger] stamps[row])
                is Some),
        all_readable(entries, stamps) <==> (forall|row: int|
            0 <= row < entries.len() ==> (#[trigger] stamps[row]) is Some),
{
    assert forall|row: int| 0 <= row < entries.len() implies (readable(stamps, row) <==> (
    #[trigger] stamps[row]) is Some) by {}
    if all_readable(entries, stamps) {
        assert forall|row: int| 0 <= row < entries.len() implies (#[trigger] stamps[row])
            is Some by {
            assert(readable(stamps, row));
        }
    }
}

} // verus!
