//! The two operations of the client, each as what it sends and what it reports: creating
//! an alias, and fetching the request log of an alias.

use crate::dates::Timestamp;
use crate::model::{
    outcome_view, AliasCreationRequest, AliasCreationRequestView, AliasCreationResult,
    AliasCreationResultView, Failure, FailureView, RequestLogQueryResult,
    RequestLogQueryResultView,
};
use crate::table::{
    all_readable, are_readings, header_text, is_table_outcome, lemma_rows_follow_entries,
    lemma_table_outcome_is_unique, read_stamps, readable, requests_table_at, rows_text,
    table_text, Arrangement, TABLE_WIDTH,
};
use crate::text::{decimal, decimal_text, lemma_occurs_in_middle, occurs_in};
use vstd::prelude::*;

verus! {

/// The address of the service, without a trailing slash.
pub const API_URL: &'static str = "https://zappy.sh";

/// The environment variable that holds the credential for fetching request logs.
pub const CREDENTIAL_VARIABLE: &'static str = "ZAPPY_API_KEY";

/// The address to which a request to create an alias is posted.
pub open spec fn create_endpoint_text() -> Seq<char> {
    API_URL@ + "/alias/create"@
}

/// The words that name an alias and its target in the messages on its creation.
pub open spec fn alias_phrase(alias_name: Seq<char>, url: Seq<char>) -> Seq<char> {
    "alias "@ + alias_name + " with url "@ + url
}

/// The message for an alias that the service created.
pub open spec fn created_text(alias_name: Seq<char>, url: Seq<char>) -> Seq<char> {
    "Successfully created "@ + alias_phrase(alias_name, url)
}

/// The message for an alias that the service did not create, with the service's reason.
pub open spec fn not_created_text(
    alias_name: Seq<char>,
    url: Seq<char>,
    reason: Seq<char>,
) -> Seq<char> {
    "Failed to create "@ + alias_phrase(alias_name, url) + " because "@ + reason
}

/// What creating an alias reports for the service's answer: a message on success, a
/// message with the service's reason on failure, and no message for a failure that comes
/// without a reason.
pub open spec fn creation_outcome(
    alias_name: Seq<char>,
    url: Seq<char>,
    result: AliasCreationResultView,
) -> Result<Seq<char>, FailureView> {
    if result.created {
        Ok(created_text(alias_name, url))
    } else {
        match result.error {
            Some(reason) => Ok(not_created_text(alias_name, url, reason)),
            None => Err(FailureView::MissingReason),
        }
    }
}

/// The message on a created alias holds the alias name and the URL.
pub proof fn lemma_created_text_names_alias_and_url(alias_name: Seq<char>, url: Seq<char>)
    ensures
        occurs_in(created_text(alias_name, url), alias_name),
        occurs_in(created_text(alias_name, url), url),
{
    let text = created_text(alias_name, url);
    lemma_occurs_in_middle("Successfully created "@ + "alias "@, alias_name, " with url "@ + url);
    assert(text =~= "Successfully created "@ + "alias "@ + alias_name + (" with url "@ + url));
    lemma_occurs_in_middle(
        "Successfully created "@ + "alias "@ + alias_name + " with url "@,
        url,
        Seq::empty(),
    );
    assert(text =~= "Successfully created "@ + "alias "@ + alias_name + " with url "@ + url
        + Seq::empty());
}

/// The message on an alias that was not created holds the alias name, the URL and the
/// service's reason, each character for character.
pub proof fn lemma_not_created_text_gives_reason(
    alias_name: Seq<char>,
    url: Seq<char>,
    reason: Seq<char>,
)
    ensures
        occurs_in(not_created_text(alias_name, url, reason), alias_name),
        occurs_in(not_created_text(alias_name, url, reason), url),
        occurs_in(not_created_text(alias_name, url, reason), reason),
{
    let text = not_created_text(alias_name, url, reason);
    lemma_occurs_in_middle(
        "Failed to create "@ + "alias "@,
        alias_name,
        " with url "@ + url + " because "@ + reason,
    );
    assert(text =~= "Failed to create "@ + "alias "@ + alias_name + (" with url "@ + url
        + " because "@ + reason));
    lemma_occurs_in_middle(
        "Failed to create "@ + "alias "@ + alias_name + " with url "@,
        url,
        " because "@ + reason,
    );
    assert(text =~= "Failed to create "@ + "alias "@ + alias_name + " with url "@ + url
        + (" because "@ + reason));
    lemma_occurs_in_middle(
        "Failed to create "@ + alias_phrase(alias_name, url) + " because "@,
        reason,
        Seq::empty(),
    );
    assert(text =~= "Failed to create "@ + alias_phrase(alias_name, url) + " because "@ + reason
        + Seq::empty());
}

/// The address to which a request to create an alias is posted.
pub fn create_endpoint() -> (endpoint: String)
    ensures
        endpoint@ == create_endpoint_text(),
{
    let mut endpoint = String::from_str(API_URL);
    endpoint.append("/alias/create");
    endpoint
}

/// The body of the request that creates `alias_name` for `url`. Neither is checked here:
/// the service decides what it accepts.
pub fn create_alias_request(alias_name: &str, url: &str) -> (request: AliasCreationRequest)
    ensures
        request@ == (AliasCreationRequestView { name: alias_name@, url: url@ }),
{
    AliasCreationRequest { name: String::from_str(alias_name), url: String::from_str(url) }
}

/// What to print once the service has answered a request to create `alias_name` for `url`.
pub fn create_alias_report(
    alias_name: &str,
    url: &str,
    result: &AliasCreationResult,
) -> (report: Result<String, Failure>)
    ensures
        outcome_view(report) == creation_outcome(alias_name@, url@, result@),
        result.created ==> {
            &&& report matches Ok(text)
            &&& occurs_in(text@, alias_name@)
            &&& occurs_in(text@, url@)
        },
        !result.created ==> (result.error matches Some(reason) ==> {
            &&& report matches Ok(text)
            &&& occurs_in(text@, reason@)
        }),
{
    let mut phrase = String::from_str("alias ");
    phrase.append(alias_name);
    phrase.append(" with url ");
    phrase.append(url);
    if result.created {
        let mut text = String::from_str("Successfully created ");
        text.append(phrase.as_str());
        proof {
            lemma_created_text_names_alias_and_url(alias_name@, url@);
        }
        Ok(text)
    } else {
        match &result.error {
            Some(reason) => {
                let mut text = String::from_str("Failed to create ");
                text.append(phrase.as_str());
                text.append(" because ");
                text.append(reason.as_str());
                proof {
                    lemma_not_created_text_gives_reason(alias_name@, url@, reason@);
                }
                Ok(text)
            },
            None => Err(Failure::MissingReason),
        }
    }
}

/// The answer holds no date to read: it reports a failure, or a log without entries.
pub open spec fn has_no_date(response: RequestLogQueryResultView) -> bool {
    response.success ==> (response.data matches Some(data) ==> data.entries.len() == 0)
}

/// `stamps` can be the readings of the dates in the answer: of its entries where it
/// reports success with a log, and of nothing otherwise.
pub open spec fn are_fetch_readings(
    response: RequestLogQueryResultView,
    stamps: Seq<Option<Timestamp>>,
) -> bool {
    if response.success && response.data is Some {
        are_readings(response.data->0.entries, stamps)
    } else {
        stamps.len() == 0
    }
}

/// The report that a fetch gives where every date can be shown: the count line, then the
/// table with one row for each entry.
pub open spec fn full_report_text(
    response: RequestLogQueryResultView,
    stamps: Seq<Option<Timestamp>>,
) -> Seq<char> {
    report_text(
        response.data->0.count,
        table_text(
            Arrangement::Dynamic,
            TABLE_WIDTH as int,
            Some(header_text()),
            rows_text(response.data->0.entries, stamps),
        ),
    )
}

/// What a request for the log of an alias is sent with.
#[derive(Clone, Debug, PartialEq, Eq)]
pub struct FetchCall {
    /// The address to get.
    pub endpoint: String,
    /// The value of the `Authorization` header.
    pub authorization: String,
}

/// The value of a [`FetchCall`].
pub struct FetchCallView {
    pub endpoint: Seq<char>,
    pub authorization: Seq<char>,
}

impl View for FetchCall {
    type V = FetchCallView;

    open spec fn view(&self) -> FetchCallView {
        FetchCallView { endpoint: self.endpoint@, authorization: self.authorization@ }
    }
}

/// The address of the request log of an alias. The alias name is not escaped.
pub open spec fn fetch_endpoint_text(alias_name: Seq<char>) -> Seq<char> {
    API_URL@ + "/requests/"@ + alias_name
}

/// The `Authorization` header that presents a credential as a bearer token.
pub open spec fn authorization_text(credential: Seq<char>) -> Seq<char> {
    "Bearer "@ + credential
}

/// The line that announces a fetch.
pub open spec fn fetch_notice_text(alias_name: Seq<char>) -> Seq<char> {
    "Fetching requests for alias "@ + alias_name
}

/// The message for a fetch that failed, with the reason.
pub open spec fn fetch_failure_text(alias_name: Seq<char>, reason: Seq<char>) -> Seq<char> {
    "Failed to get requests for alias "@ + alias_name + " because "@ + reason
}

/// The line that reports the total of logged requests.
pub open spec fn count_line_text(count: int) -> Seq<char> {
    "Total of "@ + decimal(count) + " requests"@
}

/// The report of a fetch: the count line, a line feed, and the drawing of the log table.
pub open spec fn report_text(count: int, table: Seq<char>) -> Seq<char> {
    count_line_text(count) + "\n"@ + table
}

/// The message that describes a failure of an operation on `alias_name`.
pub open spec fn failure_text(alias_name: Seq<char>, failure: FailureView) -> Seq<char> {
    match failure {
        FailureView::MissingCredential => CREDENTIAL_VARIABLE@ + " not set"@,
        FailureView::Refused { reason } => fetch_failure_text(alias_name, reason),
        FailureView::MissingReason => "the service gave no reason"@,
        FailureView::MissingData => "no requests"@,
        FailureView::BadDate { row } => "could not parse date"@,
    }
}

/// `outcome` is what fetching a request log reports for the service's answer, the dates of
/// its entries read as `stamps`. On success: the count that the service sent, then the
/// table of all entries; or, where a date cannot be shown, its position and no output. On
/// failure: the service's reason and no output. An answer that lacks the part that its
/// flag announces gives the failure that names the missing part.
pub open spec fn is_fetch_outcome(
    response: RequestLogQueryResultView,
    stamps: Seq<Option<Timestamp>>,
    outcome: Result<Seq<char>, FailureView>,
) -> bool {
    if response.success {
        match response.data {
            Some(data) => match outcome {
                Ok(text) => {
                    &&& all_readable(data.entries, stamps)
                    &&& text == full_report_text(response, stamps)
                },
                Err(failure) => is_table_outcome(data.entries, stamps, Err(failure)),
            },
            None => outcome == Err::<Seq<char>, FailureView>(FailureView::MissingData),
        }
    } else {
        match response.error {
            Some(reason) => outcome == Err::<Seq<char>, FailureView>(
                FailureView::Refused { reason },
            ),
            None => outcome == Err::<Seq<char>, FailureView>(FailureView::MissingReason),
        }
    }
}

/// What to send for the log of `alias_name`, given the credential that was configured, if
/// any. Without a credential there is nothing to send, and the failure says so.
pub fn get_requests_call(
    alias_name: &str,
    credential: &Option<String>,
) -> (call: Result<FetchCall, Failure>)
    ensures
        match call {
            Ok(sent) => {
                &&& credential matches Some(key)
                &&& sent@ == (FetchCallView {
                    endpoint: fetch_endpoint_text(alias_name@),
                    authorization: authorization_text(key@),
                })
            },
            Err(failure) => credential is None && failure@ == FailureView::MissingCredential,
        },
{
    match credential {
        Some(key) => {
            let mut authorization = String::from_str("Bearer ");
            authorization.append(key.as_str());
            let mut endpoint = String::from_str(API_URL);
            endpoint.append("/requests/");
            endpoint.append(alias_name);
            Ok(FetchCall { endpoint, authorization })
        },
        None => Err(Failure::MissingCredential),
    }
}

/// The line that announces a fetch of the log of `alias_name`.
pub fn fetch_notice(alias_name: &str) -> (line: String)
    ensures
        line@ == fetch_notice_text(alias_name@),
{
    let mut line = String::from_str("Fetching requests for alias ");
    line.append(alias_name);
    line
}

/// The message for a fetch of the log of `alias_name` that failed for `reason`.
pub fn fetch_failure(alias_name: &str, reason: &str) -> (message: String)
    ensures
        message@ == fetch_failure_text(alias_name@, reason@),
{
    let mut message = String::from_str("Failed to get requests for alias ");
    message.append(alias_name);
    message.append(" because ");
    message.append(reason);
    message
}

/// The line that reports `count` as the total of logged requests.
pub fn count_line(count: i32) -> (line: String)
    ensures
        line@ == count_line_text(count as int),
{
    let mut line = String::from_str("Total of ");
    let digits = decimal_text(count);
    line.append(digits.as_str());
    line.append(" requests");
    line
}

/// The message that describes `failure` of an operation on `alias_name`.
pub fn failure_message(alias_name: &str, failure: &Failure) -> (message: String)
    ensures
        message@ == failure_text(alias_name@, failure@),
{
    match failure {
        Failure::MissingCredential => {
            let mut message = String::from_str(CREDENTIAL_VARIABLE);
            message.append(" not set");
            message
        },
        Failure::Refused { reason } => fetch_failure(alias_name, reason.as_str()),
        Failure::MissingReason => String::from_str("the service gave no reason"),
        Failure::MissingData => String::from_str("no requests"),
        Failure::BadDate { row } => String::from_str("could not parse date"),
    }
}

/// What to print once the service has answered a request for a log, the dates of the
/// entries read as `stamps`: the count line and the table, or the failure and nothing.
pub fn get_requests_report_at(
    response: &RequestLogQueryResult,
    stamps: &Vec<Option<Timestamp>>,
) -> (report: Result<String, Failure>)
    ensures
        is_fetch_outcome(response@, stamps@, outcome_view(report)),
        report is Ok <==> {
            &&& response.success
            &&& response@.data matches Some(data)
            &&& all_readable(data.entries, stamps@)
        },
{
    if response.success {
        match &response.data {
            Some(data) => match requests_table_at(&data.entries, stamps) {
                Ok(table) => {
                    let mut text = count_line(data.count);
                    text.append("\n");
                    text.append(table.as_str());
                    Ok(text)
                },
                Err(failure) => Err(failure),
            },
            None => Err(Failure::MissingData),
        }
    } else {
        match &response.error {
            Some(reason) => Err(Failure::Refused { reason: reason.clone() }),
            None => Err(Failure::MissingReason),
        }
    }
}

/// What to print once the service has answered a request for a log. The dates of the
/// entries are read here; whatever they were read as, the report is the one that
/// [`get_requests_report_at`] gives for those readings: for a log, the count line and the
/// table if every date was read, else the position of the first that was not.
pub fn get_requests_report(response: &RequestLogQueryResult) -> (report: Result<String, Failure>)
    ensures
        exists|stamps: Seq<Option<Timestamp>>|
            are_fetch_readings(response@, stamps) && #[trigger] is_fetch_outcome(
                response@,
                stamps,
                outcome_view(report),
            ),
        has_no_date(response@) ==> is_fetch_outcome(
            response@,
            Seq::empty(),
            outcome_view(report),
        ),
{
    let stamps = match &response.data {
        Some(data) if response.success => read_stamps(&data.entries),
        _ => Vec::new(),
    };
    let report = get_requests_report_at(response, &stamps);
    assert(has_no_date(response@) ==> stamps@ =~= Seq::empty());
    report
}

/// The report of a fetch is settled by the service's answer and the readings of the
/// dates: no two outcomes fit the same ones.
pub proof fn lemma_fetch_outcome_is_unique(
    response: RequestLogQueryResultView,
    stamps: Seq<Option<Timestamp>>,
    one: Result<Seq<char>, FailureView>,
    other: Result<Seq<char>, FailureView>,
)
    requires
        is_fetch_outcome(response, stamps, one),
        is_fetch_outcome(response, stamps, other),
    ensures
        one == other,
{
    if response.success && response.data is Some {
        let entries = response.data->0.entries;
        let table = table_text(
            Arrangement::Dynamic,
            TABLE_WIDTH as int,
            Some(header_text()),
            rows_text(entries, stamps),
        );
        match (one, other) {
            (Ok(_), Ok(_)) => {},
            (Err(first), Err(second)) => {
                lemma_table_outcome_is_unique(entries, stamps, Err(first), Err(second));
            },
            (Ok(_), Err(failure)) => {
                lemma_table_outcome_is_unique(entries, stamps, Ok(table), Err(failure));
            },
            (Err(failure), Ok(_)) => {
                lemma_table_outcome_is_unique(entries, stamps, Ok(table), Err(failure));
            },
        }
    }
}

/// Where the service reports success with a log and every date can be shown, the fetch
/// gives a report: the count line for the count that the service sent, then the table,
/// which has exactly one row for each entry, in the order in which the entries were
/// received, each row with the address, user agent, user and referer of its entry. Where
/// the count that the service sent is the number of the entries, the count line reports
/// that number.
pub proof fn lemma_report_shows_every_entry(
    response: RequestLogQueryResultView,
    stamps: Seq<Option<Timestamp>>,
    outcome: Result<Seq<char>, FailureView>,
)
    requires
        response.success,
        response.data matches Some(data) && all_readable(data.entries, stamps),
        is_fetch_outcome(response, stamps, outcome),
    ensures
        ({
            let count = response.data->0.count;
            let entries = response.data->0.entries;
            let rows = rows_text(entries, stamps);
            &&& outcome == Ok::<Seq<char>, FailureView>(
                count_line_text(count) + "\n"@ + table_text(
                    Arrangement::Dynamic,
                    TABLE_WIDTH as int,
                    Some(header_text()),
                    rows,
                ),
            )
            &&& outcome->Ok_0.subrange(0, count_line_text(count).len() as int)
                == count_line_text(count)
            &&& count == entries.len() ==> count_line_text(count) == "Total of "@ + decimal(
                entries.len() as int,
            ) + " requests"@
            &&& rows.len() == entries.len()
            &&& forall|row: int|
                0 <= row < entries.len() ==> {
                    let cells = #[trigger] rows[row];
                    &&& cells.len() == 5
                    &&& cells[0] == entries[row].ip
                    &&& cells[1] == entries[row].user_agent
                    &&& cells[2] == entries[row].user_id
                    &&& cells[3] == entries[row].referer
                }
        }),
{
    let entries = response.data->0.entries;
    let line = count_line_text(response.data->0.count);
    lemma_rows_follow_entries(entries, stamps);
    match outcome {
        Ok(text) => {
            assert(text.subrange(0, line.len() as int) =~= line);
        },
        Err(failure) => {
            let row = failure->BadDate_row;
            assert(readable(stamps, row as int));
        },
    }
}

/// Where the service reports a failure and gives its reason, the fetch gives no report,
/// hence no table: it fails with that reason, and the message on the failure holds the
/// alias name and the reason, each character for character.
pub proof fn lemma_refusal_gives_no_table(
    alias_name: Seq<char>,
    response: RequestLogQueryResultView,
    stamps: Seq<Option<Timestamp>>,
    outcome: Result<Seq<char>, FailureView>,
)
    requires
        !response.success,
        response.error is Some,
        is_fetch_outcome(response, stamps, outcome),
    ensures
        outcome == Err::<Seq<char>, FailureView>(
            FailureView::Refused { reason: response.error->0 },
        ),
        occurs_in(failure_text(alias_name, outcome->Err_0), alias_name),
        occurs_in(failure_text(alias_name, outcome->Err_0), response.error->0),
{
    let reason = response.error->0;
    let text = fetch_failure_text(alias_name, reason);
    lemma_occurs_in_middle(
        "Failed to get requests for alias "@,
        alias_name,
        " because "@ + reason,
    );
    assert(text =~= "Failed to get requests for alias "@ + alias_name + (" because "@ + reason));
    lemma_occurs_in_middle(
        "Failed to get requests for alias "@ + alias_name + " because "@,
        reason,
        Seq::empty(),
    );
    assert(text =~= "Failed to get requests for alias "@ + alias_name + " because "@ + reason
        + Seq::empty());
}

} // verus!
