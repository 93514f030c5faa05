use vstd::prelude::*;

verus! {

/// Execution status the daemon reports for one call: a numeric code (zero on
/// success for the reference daemon), an optional message, and an optional
/// registration identifier. The fields mirror the externally defined call
/// schema, reduced to plain values.
pub struct ExtensionStatus {
    pub code: Option<i32>,
    pub message: Option<String>,
    pub uuid: Option<i64>,
}

/// One result row: an ordered mapping from column name to printed value.
/// The client hands rows through without interpreting their contents.
pub struct Row {
    pub columns: Vec<(String, String)>,
}

/// The decoded reply to one query call: the execution status and the ordered
/// result rows, returned to the caller unmodified.
pub struct ExtensionResponse {
    pub status: Option<ExtensionStatus>,
    pub response: Vec<Row>,
}

} // verus!
