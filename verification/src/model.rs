//! What the client sends to the service and what the service answers, with the
//! mathematical value that each stands for.

use vstd::prelude::*;

verus! {

/// The characters of a text that may be absent.
pub open spec fn optional_text(text: Option<String>) -> Option<Seq<char>> {
    match text {
        Some(written) => Some(written@),
        None => None,
    }
}

/// The body of a request to create an alias.
#[derive(Clone, Debug, PartialEq, Eq)]
pub struct AliasCreationRequest {
    pub name: String,
    pub url: String,
}

/// The value of an [`AliasCreationRequest`].
pub struct AliasCreationRequestView {
    pub name: Seq<char>,
    pub url: Seq<char>,
}

impl View for AliasCreationRequest {
    type V = AliasCreationRequestView;

    open spec fn view(&self) -> AliasCreationRequestView {
        AliasCreationRequestView { name: self.name@, url: self.url@ }
    }
}

/// The service's answer to a request to create an alias.
#[derive(Clone, Debug, PartialEq, Eq)]
pub struct AliasCreationResult {
    pub created: bool,
    /// The service's reason, sent when `created` is false.
    pub error: Option<String>,
}

/// The value of an [`AliasCreationResult`].
pub struct AliasCreationResultView {
    pub created: bool,
    pub error: Option<Seq<char>>,
}

impl View for AliasCreationResult {
    type V = AliasCreationResultView;

    open spec fn view(&self) -> AliasCreationResultView {
        AliasCreationResultView { created: self.created, error: optional_text(self.error) }
    }
}

/// One request that the service has logged for an alias.
#[derive(Clone, Debug, PartialEq, Eq)]
pub struct RequestLogEntry {
    pub ip: String,
    pub user_agent: String,
    pub user_id: String,
    pub referer: String,
    /// When the request came in, as the service writes dates.
    pub created_at: String,
}

/// The value of a [`RequestLogEntry`].
pub struct RequestLogEntryView {
    pub ip: Seq<char>,
    pub user_agent: Seq<char>,
    pub user_id: Seq<char>,
    pub referer: Seq<char>,
    pub created_at: Seq<char>,
}

impl View for RequestLogEntry {
    type V = RequestLogEntryView;

    open spec fn view(&self) -> RequestLogEntryView {
        RequestLogEntryView {
            ip: self.ip@,
            user_agent: self.user_agent@,
            user_id: self.user_id@,
            referer: self.referer@,
            created_at: self.created_at@,
        }
    }
}

impl DeepView for RequestLogEntry {
    type V = RequestLogEntryView;

    open spec fn deep_view(&self) -> RequestLogEntryView {
        self@
    }
}

/// The log of an alias: the total that the service reports, and the entries in the order
/// in which it sent them.
#[derive(Clone, Debug, PartialEq, Eq)]
pub struct RequestLogData {
    pub count: i32,
    pub entries: Vec<RequestLogEntry>,
}

/// The value of a [`RequestLogData`].
pub struct RequestLogDataView {
    pub count: int,
    pub entries: Seq<RequestLogEntryView>,
}

impl View for RequestLogData {
    type V = RequestLogDataView;

    open spec fn view(&self) -> RequestLogDataView {
        RequestLogDataView { count: self.count as int, entries: self.entries.deep_view() }
    }
}

/// The service's answer to a request for the log of an alias.
#[derive(Clone, Debug, PartialEq, Eq)]
pub struct RequestLogQueryResult {
    pub success: bool,
    /// The service's reason, sent when `success` is false.
    pub error: Option<String>,
    /// The log, sent when `success` is true.
    pub data: Option<RequestLogData>,
}

/// The value of a [`RequestLogQueryResult`].
pub struct RequestLogQueryResultView {
    pub success: bool,
    pub error: Option<Seq<char>>,
    pub data: Option<RequestLogDataView>,
}

impl View for RequestLogQueryResult {
    type V = RequestLogQueryResultView;

    open spec fn view(&self) -> RequestLogQueryResultView {
        RequestLogQueryResultView {
            success: self.success,
            error: optional_text(self.error),
            data: match self.data {
                Some(data) => Some(data@),
                None => None,
            },
        }
    }
}

/// Why an operation ends without its output.
#[derive(Clone, Debug, PartialEq, Eq)]
pub enum Failure {
    /// No credential was configured for an operation that needs one.
    MissingCredential,
    /// The service refused the request and gave this reason.
    Refused { reason: String },
    /// The service reported a failure without a reason.
    MissingReason,
    /// The service reported success without a log.
    MissingData,
    /// The date of the log entry at this position, counted from zero, cannot be read.
    BadDate { row: usize },
}

/// The value of a [`Failure`].
pub enum FailureView {
    MissingCredential,
    Refused { reason: Seq<char> },
    MissingReason,
    MissingData,
    BadDate { row: nat },
}

impl View for Failure {
    type V = FailureView;

    open spec fn view(&self) -> FailureView {
        match self {
            Failure::MissingCredential => FailureView::MissingCredential,
            Failure::Refused { reason } => FailureView::Refused { reason: reason@ },
            Failure::MissingReason => FailureView::MissingReason,
            Failure::MissingData => FailureView::MissingData,
            Failure::BadDate { row } => FailureView::BadDate { row: *row as nat },
        }
    }
}

/// The value of a text that an operation gives, or of the reason why it gives none.
pub open spec fn outcome_view(
    outcome: Result<String, Failure>,
) -> Result<Seq<char>, FailureView> {
    match outcome {
        Ok(text) => Ok(text@),
        Err(failure) => Err(failure@),
    }
}

} // verus!
