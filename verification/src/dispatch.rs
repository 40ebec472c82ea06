//! The operation dispatcher: turns what the classifier and the storage say
//! into the answer that the caller gets.

use crate::error::{Category, JsonError};
use crate::extractor::{MaybeJson, PayloadReason};
use crate::text::{decimal, decimal_text};
use vstd::prelude::*;
use vstd::string::*;

verus! {

/// A failure that the storage reports.
#[derive(Debug)]
pub enum StorageError {
    /// An operand that the storage cannot work on; the text says which.
    InvalidArgument(String),
    /// Any other failure, in the storage's own words.
    Other(String),
}

/// The category under which a refused body is reported: both overflows as
/// too large a payload, a media type mismatch as such, a body that could not
/// be read or decoded as a bad request, anything else as unknown.
pub open spec fn input_error_category(reason: PayloadReason) -> Category {
    match reason {
        PayloadReason::Overflow { .. } => Category::PayloadTooLarge,
        PayloadReason::OverflowKnownLength { .. } => Category::PayloadTooLarge,
        PayloadReason::ContentType => Category::UnsupportedMediaType,
        PayloadReason::Payload(_) => Category::BadRequest,
        PayloadReason::Deserialize(_) => Category::BadRequest,
        PayloadReason::Other(_) => Category::Unknown,
    }
}

/// The detail with which a refused body is reported.
pub open spec fn input_error_detail(reason: PayloadReason) -> Seq<char> {
    match reason {
        PayloadReason::Overflow { limit } => "You're payload is greater than the limit for "@
            + decimal(limit as nat) + " bytes"@,
        PayloadReason::OverflowKnownLength { length, limit } => "You're payload length of "@
            + decimal(length as nat) + " bytes is greater than the limit for "@ + decimal(
            limit as nat,
        ) + " bytes"@,
        PayloadReason::ContentType =>
            "Unsupported 'Content-Type' header or missing 'Content-Type' header"@,
        PayloadReason::Payload(detail) => "Error processing your payload: "@ + detail@,
        PayloadReason::Deserialize(detail) => "Error deserializing your payload: "@ + detail@,
        PayloadReason::Other(detail) => "Unknown JSON payload error: "@ + detail@,
    }
}

/// Reports a refused body.
pub fn map_input_err(reason: PayloadReason) -> (error: JsonError)
    ensures
        error.says(input_error_category(reason), input_error_detail(reason)),
{
    match reason {
        PayloadReason::Overflow { limit } => {
            let mut text = String::from_str("You're payload is greater than the limit for ");
            text.append(decimal_text(limit).as_str());
            text.append(" bytes");
            JsonError::PayloadTooLarge(text)
        },
        PayloadReason::OverflowKnownLength { length, limit } => {
            let mut text = String::from_str("You're payload length of ");
            text.append(decimal_text(length).as_str());
            text.append(" bytes is greater than the limit for ");
            text.append(decimal_text(limit).as_str());
            text.append(" bytes");
            JsonError::PayloadTooLarge(text)
        },
        PayloadReason::ContentType => JsonError::UnsupportedMediaType(
            String::from_str("Unsupported 'Content-Type' header or missing 'Content-Type' header"),
        ),
        PayloadReason::Payload(detail) => {
            let mut text = String::from_str("Error processing your payload: ");
            text.append(detail.as_str());
            JsonError::BadRequest(text)
        },
        PayloadReason::Deserialize(detail) => {
            let mut text = String::from_str("Error deserializing your payload: ");
            text.append(detail.as_str());
            JsonError::BadRequest(text)
        },
        PayloadReason::Other(detail) => {
            let mut text = String::from_str("Unknown JSON payload error: ");
            text.append(detail.as_str());
            JsonError::Unknown(text)
        },
    }
}

/// The category under which a storage failure is reported.
pub open spec fn query_error_category(err: StorageError) -> Category {
    match err {
        StorageError::InvalidArgument(_) => Category::BadRequest,
        StorageError::Other(_) => Category::ServerError,
    }
}

/// The detail with which a storage failure is reported: it holds the
/// storage's own words.
pub open spec fn query_error_detail(err: StorageError) -> Seq<char> {
    match err {
        StorageError::InvalidArgument(detail) => "Invalid Argument Provided: "@ + detail@,
        StorageError::Other(detail) => "Database Insertion Error: "@ + detail@,
    }
}

/// Reports a storage failure.
pub fn map_query_err(err: StorageError) -> (error: JsonError)
    ensures
        error.says(query_error_category(err), query_error_detail(err)),
{
    match err {
        StorageError::InvalidArgument(detail) => {
            let mut text = String::from_str("Invalid Argument Provided: ");
            text.append(detail.as_str());
            JsonError::BadRequest(text)
        },
        StorageError::Other(detail) => {
            let mut text = String::from_str("Database Insertion Error: ");
            text.append(detail.as_str());
            JsonError::ServerError(text)
        },
    }
}

/// The detail of the error that answers a request without instructions.
pub open spec fn empty_request_detail() -> Seq<char> {
    "empty request not allowed"@
}

/// The error that answers a request without instructions.
pub fn empty_request() -> (error: JsonError)
    ensures
        error.says(Category::BadRequest, empty_request_detail()),
{
    JsonError::BadRequest(String::from_str("empty request not allowed"))
}

/// Whether `answer` reports exactly the given storage outcome: a result is
/// handed on as it is, a failure is mapped into the taxonomy.
pub open spec fn reports<Out>(outcome: Result<Out, StorageError>, answer: Result<Out, JsonError>) -> bool {
    match outcome {
        Ok(rows) => answer == Ok::<Out, JsonError>(rows),
        Err(err) => answer matches Err(error) && error.says(
            query_error_category(err),
            query_error_detail(err),
        ),
    }
}

/// Whether `answer` turns the request away as one without instructions.
pub open spec fn turns_away_empty<Out>(answer: Result<Out, JsonError>) -> bool {
    answer matches Err(error) && error.says(Category::BadRequest, empty_request_detail())
}

/// Whether `answer` turns the request away for the reason its body was
/// refused for.
pub open spec fn turns_away_invalid<Out>(reason: PayloadReason, answer: Result<Out, JsonError>) -> bool {
    answer matches Err(error) && error.says(
        input_error_category(reason),
        input_error_detail(reason),
    )
}

/// Whether `decision` is what the dispatcher decides on a request that
/// changes records: a payload with at least one entry goes to the storage,
/// an absent or empty one and a refused body are turned away.
pub open spec fn gates<In>(req: MaybeJson<Vec<In>>, decision: Result<Vec<In>, JsonError>) -> bool {
    match req {
        MaybeJson::Valid(payload) => if payload@.len() == 0 {
            turns_away_empty(decision)
        } else {
            decision == Ok::<Vec<In>, JsonError>(payload)
        },
        MaybeJson::Empty => turns_away_empty(decision),
        MaybeJson::Invalid(reason) => turns_away_invalid(reason, decision),
    }
}

/// Decides whether a request that changes records reaches the storage, and
/// with which payload.
pub fn gate<In>(req: MaybeJson<Vec<In>>) -> (decision: Result<Vec<In>, JsonError>)
    ensures
        gates(req, decision),
{
    match req {
        MaybeJson::Valid(payload) => {
            if payload.len() == 0 {
                Err(empty_request())
            } else {
                Ok(payload)
            }
        },
        MaybeJson::Empty => Err(empty_request()),
        MaybeJson::Invalid(reason) => Err(map_input_err(reason)),
    }
}

/// Whether `decision` is what the dispatcher decides on a request that
/// reads records: an absent or empty filter asks for everything (`None`), a
/// filter with entries for what it addresses, a refused body is turned away.
pub open spec fn gates_read<In>(
    req: MaybeJson<Vec<In>>,
    decision: Result<Option<Vec<In>>, JsonError>,
) -> bool {
    match req {
        MaybeJson::Valid(filter) => if filter@.len() == 0 {
            decision == Ok::<Option<Vec<In>>, JsonError>(None)
        } else {
            decision == Ok::<Option<Vec<In>>, JsonError>(Some(filter))
        },
        MaybeJson::Empty => decision == Ok::<Option<Vec<In>>, JsonError>(None),
        MaybeJson::Invalid(reason) => turns_away_invalid(reason, decision),
    }
}

/// Decides what a request that reads records asks the storage for.
pub fn gate_read<In>(req: MaybeJson<Vec<In>>) -> (decision: Result<Option<Vec<In>>, JsonError>)
    ensures
        gates_read(req, decision),
{
    match req {
        MaybeJson::Valid(filter) => {
            if filter.len() == 0 {
                Ok(None)
            } else {
                Ok(Some(filter))
            }
        },
        MaybeJson::Empty => Ok(None),
        MaybeJson::Invalid(reason) => Err(map_input_err(reason)),
    }
}

/// Reports what the storage returned.
pub fn conclude<Out>(outcome: Result<Out, StorageError>) -> (answer: Result<Out, JsonError>)
    ensures
        reports(outcome, answer),
{
    match outcome {
        Ok(rows) => Ok(rows),
        Err(err) => Err(map_query_err(err)),
    }
}

/// Whether `answer` is what a request that changes records is answered
/// with, where `query` stands for the storage.
pub open spec fn answers_some<In, Out, Q: FnOnce(Vec<In>) -> Result<Out, StorageError>>(
    req: MaybeJson<Vec<In>>,
    query: Q,
    answer: Result<Out, JsonError>,
) -> bool {
    match req {
        MaybeJson::Valid(payload) => if payload@.len() == 0 {
            turns_away_empty(answer)
        } else {
            exists|outcome: Result<Out, StorageError>|
                #![auto]
                call_ensures(query, (payload,), outcome) && reports(outcome, answer)
        },
        MaybeJson::Empty => turns_away_empty(answer),
        MaybeJson::Invalid(reason) => turns_away_invalid(reason, answer),
    }
}

/// Runs a request that changes records: the storage is called on a payload
/// with at least one entry and on nothing else.
pub fn query_some<In, Out, Q: FnOnce(Vec<In>) -> Result<Out, StorageError>>(
    req: MaybeJson<Vec<In>>,
    query: Q,
) -> (answer: Result<Out, JsonError>)
    requires
        forall|payload: Vec<In>| payload@.len() > 0 ==> call_requires(query, (payload,)),
    ensures
        answers_some(req, query, answer),
{
    match gate(req) {
        Ok(payload) => conclude(query(payload)),
        Err(error) => Err(error),
    }
}

/// Whether `answer` is what a request that reads records is answered with,
/// where `query_all` and `query` stand for the storage.
pub open spec fn answers_all_or_some<
    In,
    Out,
    A: FnOnce() -> Result<Out, StorageError>,
    Q: FnOnce(Vec<In>) -> Result<Out, StorageError>,
>(req: MaybeJson<Vec<In>>, query_all: A, query: Q, answer: Result<Out, JsonError>) -> bool {
    match req {
        MaybeJson::Valid(filter) => if filter@.len() == 0 {
            exists|outcome: Result<Out, StorageError>|
                #![auto]
                call_ensures(query_all, (), outcome) && reports(outcome, answer)
        } else {
            exists|outcome: Result<Out, StorageError>|
                #![auto]
                call_ensures(query, (filter,), outcome) && reports(outcome, answer)
        },
        MaybeJson::Empty => exists|outcome: Result<Out, StorageError>|
            #![auto]
            call_ensures(query_all, (), outcome) && reports(outcome, answer),
        MaybeJson::Invalid(reason) => turns_away_invalid(reason, answer),
    }
}

/// Runs a request that reads records: everything where no filter was sent,
/// else what the filter addresses.
pub fn query_all_or_some<
    In,
    Out,
    A: FnOnce() -> Result<Out, StorageError>,
    Q: FnOnce(Vec<In>) -> Result<Out, StorageError>,
>(req: MaybeJson<Vec<In>>, query_all: A, query: Q) -> (answer: Result<Out, JsonError>)
    requires
        call_requires(query_all, ()),
        forall|filter: Vec<In>| filter@.len() > 0 ==> call_requires(query, (filter,)),
    ensures
        answers_all_or_some(req, query_all, query, answer),
{
    match gate_read(req) {
        Ok(Some(filter)) => conclude(query(filter)),
        Ok(None) => conclude(query_all()),
        Err(error) => Err(error),
    }
}

/// The failure type of `sqlx`, as a value that is carried and not looked
/// into.
#[verifier::external_type_specification]
#[verifier::external_body]
pub struct ExSqlxError(sqlx::Error);

/// The words that a failure of `sqlx` holds if it is the `InvalidArgument`
/// variant of `sqlx::Error`, and nothing if it is any other variant.
pub uninterp spec fn invalid_argument_of(err: sqlx::Error) -> Option<Seq<char>>;

/// Tells the `InvalidArgument` variant of `sqlx::Error` from the others. The
/// contract claims that the first is kept as an invalid argument with the
/// text that the variant holds, and that any other becomes `Other`. The text
/// of `Other` is what the `Display` impl of `sqlx::Error` writes; of that
/// text the contract claims nothing.
#[verifier::external_body]
fn storage_error(err: sqlx::Error) -> (failure: StorageError)
    ensures
        match invalid_argument_of(err) {
            Some(words) => failure matches StorageError::InvalidArgument(detail) && detail@
                == words,
            None => failure is Other,
        },
{
    match err {
        sqlx::Error::InvalidArgument(detail) => StorageError::InvalidArgument(detail),
        other => StorageError::Other(other.to_string()),
    }
}

/// Takes what a query returned into the library: a result is handed on as
/// it is, an invalid argument keeps its words, and any other failure becomes
/// `Other` with the storage's own words.
pub fn storage_outcome<Out>(outcome: Result<Out, sqlx::Error>) -> (taken: Result<Out, StorageError>)
    ensures
        match outcome {
            Ok(rows) => taken == Ok::<Out, StorageError>(rows),
            Err(err) => match invalid_argument_of(err) {
                Some(words) => taken matches Err(StorageError::InvalidArgument(detail)) && detail@
                    == words,
                None => taken matches Err(StorageError::Other(_)),
            },
        },
{
    match outcome {
        Ok(rows) => Ok(rows),
        Err(err) => Err(storage_error(err)),
    }
}

/// Reports what a query returned: a result is handed on as it is, an
/// invalid argument is a bad request that names the argument's words, and
/// any other failure is a server error whose detail ends in the storage's
/// own words.
pub fn conclude_query<Out>(outcome: Result<Out, sqlx::Error>) -> (answer: Result<Out, JsonError>)
    ensures
        match outcome {
            Ok(rows) => answer == Ok::<Out, JsonError>(rows),
            Err(err) => match invalid_argument_of(err) {
                Some(words) => answer matches Err(error) && error.says(
                    Category::BadRequest,
                    "Invalid Argument Provided: "@ + words,
                ),
                None => answer matches Err(error) && error.spec_category()
                    == Category::ServerError && exists|words: Seq<char>|
                    error.detail() == "Database Insertion Error: "@ + words,
            },
        },
{
    conclude(storage_outcome(outcome))
}

} // verus!
