use vstd::prelude::*;
use vstd::string::StringExecFns;

verus! {

#[verifier::external_type_specification]
#[verifier::external_body]
pub struct ExTransportError(reqwest::Error);

/// The body of a response that arrived, as far as it could be read.
#[derive(Debug)]
pub enum Body<P, E> {
    /// The response text could not be fetched.
    Unreadable,
    /// The response text, with the attempt to read it as the payload shape and
    /// the attempt to read it as the error shape. A failed attempt carries its
    /// cause.
    Text { text: String, as_payload: Result<P, String>, as_error: Result<E, String> },
}

/// The outcome of sending one request.
#[derive(Debug)]
pub enum Outcome<P, E> {
    /// The request never got a response.
    Transport(reqwest::Error),
    /// A response arrived, whatever its status.
    Response { status: u16, body: Body<P, E> },
}

/// An error reported by the server.
#[derive(Debug)]
pub struct ServerError<E> {
    pub status_code: u16,
    pub text: Option<String>,
    pub parsed_json: Option<E>,
}

/// A response whose body matched neither expected shape.
#[derive(Debug)]
pub struct ParsingError {
    pub text: String,
    pub err: Option<String>,
}

/// Encapsulates all errors possible when making a request.
#[derive(Debug)]
pub enum ApiError<E> {
    /// When the network fails.
    Network(reqwest::Error),
    /// An error reported by the server.
    Server(ServerError<E>),
    /// A response that could not be interpreted.
    Parsing(ParsingError),
}

pub type ApiResult<P, E> = Result<P, ApiError<E>>;

/// The kind and contents of a classified result.
pub enum Classified<P, E> {
    Success(P),
    Service { status: u16, text: Option<Seq<char>>, parsed: Option<E> },
    Transport,
    Parsing { text: Seq<char>, cause: Option<Seq<char>> },
}

pub open spec fn payload_cause_prefix() -> Seq<char> {
    "Matching the payload shape failed because of "@
}

pub open spec fn error_cause_prefix() -> Seq<char> {
    ". Matching the error shape failed because of "@
}

/// The diagnostic of a body that matched neither shape: both causes, the
/// payload's first.
pub open spec fn combined_cause(payload_cause: Seq<char>, error_cause: Seq<char>) -> Seq<char> {
    payload_cause_prefix() + payload_cause + error_cause_prefix() + error_cause
}

/// How an outcome is classified: a transport failure stays one; a reply with
/// no usable body is a service error; a readable body is tried as the payload
/// first, then as the error shape; a body that matches neither is a parsing
/// error carrying the text and both causes.
pub open spec fn outcome_class<P, E>(o: Outcome<P, E>) -> Classified<P, E> {
    match o {
        Outcome::Transport(_) => Classified::Transport,
        Outcome::Response { status, body } => match body {
            Body::Unreadable => Classified::Service { status, text: None, parsed: None },
            Body::Text { text, as_payload, as_error } => match as_payload {
                Ok(p) => Classified::Success(p),
                Err(payload_cause) => match as_error {
                    Ok(e) => Classified::Service { status, text: None, parsed: Some(e) },
                    Err(error_cause) => Classified::Parsing {
                        text: text@,
                        cause: Some(combined_cause(payload_cause@, error_cause@)),
                    },
                },
            },
        },
    }
}

pub open spec fn opt_text(t: Option<String>) -> Option<Seq<char>> {
    match t {
        Some(s) => Some(s@),
        None => None,
    }
}

/// The kind and contents of a result handed to a caller.
pub open spec fn result_class<P, E>(r: ApiResult<P, E>) -> Classified<P, E> {
    match r {
        Ok(p) => Classified::Success(p),
        Err(ApiError::Network(_)) => Classified::Transport,
        Err(ApiError::Server(s)) => Classified::Service {
            status: s.status_code,
            text: opt_text(s.text),
            parsed: s.parsed_json,
        },
        Err(ApiError::Parsing(p)) => Classified::Parsing { text: p.text@, cause: opt_text(p.err) },
    }
}

fn combine_causes(payload_cause: String, error_cause: String) -> (r: String)
    ensures
        r@ == combined_cause(payload_cause@, error_cause@),
{
    let r = String::from_str("Matching the payload shape failed because of ");
    let r = r.concat(payload_cause.as_str());
    let r = r.concat(". Matching the error shape failed because of ");
    r.concat(error_cause.as_str())
}

/// Turns the outcome of one request into the single result handed to the
/// caller.
///
/// Every body is read the same way whatever the status: as the payload
/// first, then as the error shape. A reply whose body could not be fetched is
/// a service error with no text, under any status.
pub fn classify<P, E>(outcome: Outcome<P, E>) -> (r: ApiResult<P, E>)
    ensures
        result_class(r) == outcome_class(outcome),
        outcome matches Outcome::Transport(e) ==> r == Err::<P, ApiError<E>>(ApiError::Network(e)),
{
    match outcome {
        Outcome::Transport(e) => Err(ApiError::Network(e)),
        Outcome::Response { status, body } => match body {
            Body::Unreadable => Err(
                ApiError::Server(ServerError { status_code: status, text: None, parsed_json: None }),
            ),
            Body::Text { text, as_payload, as_error } => match as_payload {
                Ok(p) => Ok(p),
                Err(payload_cause) => match as_error {
                    Ok(e) => Err(
                        ApiError::Server(ServerError { status_code: status, text: None, parsed_json: Some(e) }),
                    ),
                    Err(error_cause) => Err(
                        ApiError::Parsing(
                            ParsingError { text, err: Some(combine_causes(payload_cause, error_cause)) },
                        ),
                    ),
                },
            },
        },
    }
}

/// A transport failure is classified as a transport error, whatever the
/// shapes expected: there is no body to look at.
pub proof fn transport_failure_is_transport_error<P, E>(failure: reqwest::Error)
    ensures
        outcome_class(Outcome::<P, E>::Transport(failure)) == Classified::<P, E>::Transport,
{
}

/// The outcome of a response whose text could be read.
pub open spec fn text_outcome<P, E>(
    status: u16,
    text: String,
    as_payload: Result<P, String>,
    as_error: Result<E, String>,
) -> Outcome<P, E> {
    Outcome::Response { status, body: Body::Text { text, as_payload, as_error } }
}

/// A body that reads as the payload shape is a success carrying that value,
/// whatever the status and whether or not it also reads as the error shape.
pub proof fn payload_takes_precedence<P, E>(
    status: u16,
    text: String,
    payload: P,
    as_error: Result<E, String>,
)
    ensures
        outcome_class(text_outcome(status, text, Ok(payload), as_error)) == (Classified::<
            P,
            E,
        >::Success(payload)),
{
}

/// A body that reads as the error shape but not as the payload shape is a
/// service error carrying the parsed error.
pub proof fn error_shape_is_service_error<P, E>(
    status: u16,
    text: String,
    payload_cause: String,
    error: E,
)
    ensures
        outcome_class(text_outcome::<P, E>(status, text, Err(payload_cause), Ok(error))) == (
        Classified::<P, E>::Service { status, text: None, parsed: Some(error) }),
{
}

/// A body that reads as neither shape is a parsing error that keeps the raw
/// text, and its diagnostic holds the payload's cause and then the error
/// shape's cause, each whole.
pub proof fn unmatched_body_reports_both_causes<P, E>(
    status: u16,
    text: String,
    payload_cause: String,
    error_cause: String,
)
    ensures
        outcome_class(text_outcome::<P, E>(status, text, Err(payload_cause), Err(error_cause)))
            == (Classified::<P, E>::Parsing {
            text: text@,
            cause: Some(combined_cause(payload_cause@, error_cause@)),
        }),
        cause_holds(combined_cause(payload_cause@, error_cause@), payload_cause@, error_cause@),
{
    let d = combined_cause(payload_cause@, error_cause@);
    let a = payload_cause_prefix();
    assert(d.subrange(a.len() as int, (a.len() + payload_cause@.len()) as int) =~= payload_cause@);
    assert(d.subrange(d.len() - error_cause@.len(), d.len() as int) =~= error_cause@);
}

/// A diagnostic holds the payload's cause right after its fixed opening, and
/// ends with the error shape's cause.
pub open spec fn cause_holds(d: Seq<char>, payload_cause: Seq<char>, error_cause: Seq<char>) -> bool {
    let start = payload_cause_prefix().len();
    &&& start + payload_cause.len() + error_cause.len() <= d.len()
    &&& d.subrange(start as int, (start + payload_cause.len()) as int) == payload_cause
    &&& d.subrange(d.len() - error_cause.len(), d.len() as int) == error_cause
}

/// Classification has no hidden state: two results of classifying one outcome
/// are of the same kind with the same contents.
pub proof fn classification_is_deterministic<P, E>(
    outcome: Outcome<P, E>,
    first: ApiResult<P, E>,
    second: ApiResult<P, E>,
)
    requires
        result_class(first) == outcome_class(outcome),
        result_class(second) == outcome_class(outcome),
    ensures
        result_class(first) == result_class(second),
        outcome matches Outcome::Transport(_) ==> first is Err && second is Err,
{
}

} // verus!
