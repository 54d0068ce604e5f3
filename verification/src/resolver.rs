//! From the registry's answer to the outcome of a query.
//!
//! The registry answers a request for a package that it does not have as it
//! answers one for a package that it has: with success, and a body. Only the
//! body's shape tells the two apart, and among the bodies that report a
//! failure only one says that the package is absent.

use crate::error::{ErrorDetail, GetCrateError, GetCrateErrorResponse, TransportError};
use crate::schema::FullCrateDetails;
use vstd::prelude::*;

verus! {

const API_STEM: &'static str = "https://crates.io/api/v1";

const CRATES_ROUTE: &'static str = "crates";

/// The two shapes of the registry's answer.
#[derive(Debug, Clone, PartialEq, Eq)]
pub enum GetCrateApiResponse {
    Found(FullCrateDetails),
    Error(GetCrateErrorResponse),
}

/// The address that is asked for the package `name`: the registry's root,
/// the route of packages, and the name as it was given.
pub open spec fn crate_url_of(name: Seq<char>) -> Seq<char> {
    "https://crates.io/api/v1"@ + "/"@ + "crates"@ + "/"@ + name
}

/// The address to ask for the package `name`. The name is not looked at:
/// whether it can name a package is the registry's to say.
pub fn crate_url(name: &str) -> (result: String)
    ensures
        result@ == crate_url_of(name@),
{
    let mut url = String::from_str(API_STEM);
    url.append("/");
    url.append(CRATES_ROUTE);
    url.append("/");
    url.append(name);
    url
}

/// The registry's way of saying that it has no such package: one message,
/// and that message is `Not Found`.
pub open spec fn is_absence_signal(errors: Seq<ErrorDetail>) -> bool {
    errors.len() == 1 && errors[0].detail@ == "Not Found"@
}

impl GetCrateErrorResponse {
    /// Whether this answer says that the package is absent.
    pub fn is_not_found(&self) -> (result: bool)
        ensures
            result == is_absence_signal(self.errors@),
    {
        if self.errors.len() != 1 {
            return false;
        }
        let wording = String::from_str("Not Found");
        self.errors[0].detail == wording
    }
}

/// What is made of the two attempts to read one body, once as a package and
/// once as a list of messages. A body that reads as exactly one of them has
/// that shape. One that reads as both, or as neither, has none: that is a
/// failure of the transfer, whose text holds the causes it was given.
pub open spec fn envelope_of(
    found: Result<FullCrateDetails, TransportError>,
    error: Result<GetCrateErrorResponse, TransportError>,
) -> Result<GetCrateApiResponse, Seq<char>> {
    match (found, error) {
        (Ok(details), Err(_)) => Ok(GetCrateApiResponse::Found(details)),
        (Err(_), Ok(response)) => Ok(GetCrateApiResponse::Error(response)),
        (Ok(_), Ok(_)) => Err("response has the shape of a package and of an error"@),
        (Err(a), Err(b)) => Err("response has no known shape: "@ + a.message@ + "; "@ + b.message@),
    }
}

/// Decides the shape of a body from the two attempts to read it. Neither
/// attempt comes first: a body has a shape only if exactly one succeeded.
pub fn resolve_envelope(
    found: Result<FullCrateDetails, TransportError>,
    error: Result<GetCrateErrorResponse, TransportError>,
) -> (result: Result<GetCrateApiResponse, TransportError>)
    ensures
        match envelope_of(found, error) {
            Ok(shape) => result == Ok::<GetCrateApiResponse, TransportError>(shape),
            Err(text) => result is Err && result->Err_0.message@ == text,
        },
{
    match (found, error) {
        (Ok(details), Err(_)) => Ok(GetCrateApiResponse::Found(details)),
        (Err(_), Ok(response)) => Ok(GetCrateApiResponse::Error(response)),
        (Ok(_), Ok(_)) => Err(
            TransportError {
                message: String::from_str("response has the shape of a package and of an error"),
            },
        ),
        (Err(a), Err(b)) => {
            let mut message = String::from_str("response has no known shape: ");
            message.append(a.message.as_str());
            message.append("; ");
            message.append(b.message.as_str());
            Err(TransportError { message })
        },
    }
}

/// The outcome of a query, from what the transfer gave: a package that was
/// found; no package, where the registry said so in its one way of saying
/// it; else a failure that keeps all that was reported.
pub open spec fn outcome_of(response: Result<GetCrateApiResponse, TransportError>) -> Result<
    Option<FullCrateDetails>,
    GetCrateError,
> {
    match response {
        Ok(GetCrateApiResponse::Found(details)) => Ok(Some(details)),
        Ok(GetCrateApiResponse::Error(refusal)) => if is_absence_signal(refusal.errors@) {
            Ok(None)
        } else {
            Err(GetCrateError::Api(refusal))
        },
        Err(cause) => Err(GetCrateError::Reqwest(cause)),
    }
}

/// Turns what the transfer gave into the outcome of the query.
pub fn get_crate(response: Result<GetCrateApiResponse, TransportError>) -> (result: Result<
    Option<FullCrateDetails>,
    GetCrateError,
>)
    ensures
        result == outcome_of(response),
{
    match response {
        Ok(GetCrateApiResponse::Found(details)) => Ok(Some(details)),
        Ok(GetCrateApiResponse::Error(refusal)) => {
            if refusal.is_not_found() {
                Ok(None)
            } else {
                Err(GetCrateError::Api(refusal))
            }
        },
        Err(cause) => Err(GetCrateError::Reqwest(cause)),
    }
}

/// A body has at most one shape. It has the shape of a package exactly when
/// it read as a package and not as a list of messages, and the shape of an
/// error exactly when it read as a list of messages and not as a package;
/// the package or the list is then the one that was read.
pub proof fn lemma_envelope_has_one_shape(
    found: Result<FullCrateDetails, TransportError>,
    error: Result<GetCrateErrorResponse, TransportError>,
)
    ensures
        envelope_of(found, error) is Ok <==> (found is Ok) != (error is Ok),
        forall|details: FullCrateDetails|
            envelope_of(found, error) == Ok::<GetCrateApiResponse, Seq<char>>(
                GetCrateApiResponse::Found(details),
            ) <==> found == Ok::<FullCrateDetails, TransportError>(details) && error is Err,
        forall|response: GetCrateErrorResponse|
            envelope_of(found, error) == Ok::<GetCrateApiResponse, Seq<char>>(
                GetCrateApiResponse::Error(response),
            ) <==> error == Ok::<GetCrateErrorResponse, TransportError>(response) && found is Err,
{
}

/// A query reports that the package is absent on one answer only: a list of
/// messages that is the registry's way of saying so. It then reports no
/// failure.
pub proof fn lemma_absent_iff_absence_signal(response: Result<GetCrateApiResponse, TransportError>)
    ensures
        outcome_of(response) == Ok::<Option<FullCrateDetails>, GetCrateError>(None) <==> (
        response matches Ok(GetCrateApiResponse::Error(refusal)) && is_absence_signal(
            refusal.errors@,
        )),
{
}

/// A list of messages that is not the registry's way of saying that the
/// package is absent is a failure that carries the whole list as it came.
/// Such is every list of no message or of two and more, and every list of
/// one message that reads otherwise than `Not Found`.
pub proof fn lemma_other_refusals_are_failures(refusal: GetCrateErrorResponse)
    requires
        refusal.errors@.len() != 1 || refusal.errors@[0].detail@ != "Not Found"@,
    ensures
        outcome_of(Ok(GetCrateApiResponse::Error(refusal))) == Err::<
            Option<FullCrateDetails>,
            GetCrateError,
        >(GetCrateError::Api(refusal)),
{
}

/// A transfer that failed is a failure that carries its cause as it came.
pub proof fn lemma_transport_failure_is_kept(cause: TransportError)
    ensures
        outcome_of(Err(cause)) == Err::<Option<FullCrateDetails>, GetCrateError>(
            GetCrateError::Reqwest(cause),
        ),
{
}

} // verus!
