//! The typed replies of the three operations.
//!
//! Each operation has a reply type of its own with exactly two variants: one
//! that carries the transformed document and one that carries the engine's
//! failure. The view of a reply is the outcome it was made from, so nothing
//! is lost or added on the way from the engine to the wire.

use crate::outcome::engine_view;
use crate::outcome::outcome_of;
use crate::outcome::reply_status;
use crate::outcome::ErrorResponse;
use crate::outcome::OperationKind;
use crate::outcome::Outcome;
use crate::outcome::OutcomeView;
use vstd::prelude::*;

verus! {

/// Reply to a decryption request.
#[derive(Debug)]
pub enum DecryptResponse {
    /// Status 200: the document with its fields decrypted.
    DecryptionFinishedSuccessfully(String),
    /// Status 403: at least one field could not be decrypted.
    OneOrMoreFieldsAreIncorrect(ErrorResponse),
}

/// Reply to an encryption request.
#[derive(Debug)]
pub enum EncryptResponse {
    /// Status 200: the document with its fields encrypted or hashed.
    EncryptionFinishedSuccessfully(String),
    /// Status 503: the engine could not encrypt the document.
    InternalServerError(ErrorResponse),
}

/// Reply to a query rewriting request.
#[derive(Debug)]
pub enum QueryResponse {
    /// Status 200: the rewritten query.
    DecryptionFinishedSuccessfully(String),
    /// Status 403: the query could not be rewritten.
    OneOrMoreFieldsAreIncorrect(ErrorResponse),
}

impl View for DecryptResponse {
    type V = OutcomeView;

    open spec fn view(&self) -> OutcomeView {
        match self {
            DecryptResponse::DecryptionFinishedSuccessfully(document) => OutcomeView::Success(
                document@,
            ),
            DecryptResponse::OneOrMoreFieldsAreIncorrect(error) => OutcomeView::DomainFailure(
                error@,
            ),
        }
    }
}

impl View for EncryptResponse {
    type V = OutcomeView;

    open spec fn view(&self) -> OutcomeView {
        match self {
            EncryptResponse::EncryptionFinishedSuccessfully(document) => OutcomeView::Success(
                document@,
            ),
            EncryptResponse::InternalServerError(error) => OutcomeView::DomainFailure(error@),
        }
    }
}

impl View for QueryResponse {
    type V = OutcomeView;

    open spec fn view(&self) -> OutcomeView {
        match self {
            QueryResponse::DecryptionFinishedSuccessfully(document) => OutcomeView::Success(
                document@,
            ),
            QueryResponse::OneOrMoreFieldsAreIncorrect(error) => OutcomeView::DomainFailure(error@),
        }
    }
}

impl DecryptResponse {
    /// Wraps an outcome in the variant that stands for it.
    pub fn from_outcome(outcome: Outcome) -> (response: Self)
        ensures
            response@ == outcome@,
        no_unwind
    {
        match outcome {
            Outcome::Success(document) => DecryptResponse::DecryptionFinishedSuccessfully(document),
            Outcome::DomainFailure(error) => DecryptResponse::OneOrMoreFieldsAreIncorrect(error),
        }
    }

    /// HTTP status of this reply: 200 or 403.
    pub fn status(&self) -> (status: u16)
        ensures
            status == reply_status(OperationKind::Decrypt, self@),
        no_unwind
    {
        match self {
            DecryptResponse::DecryptionFinishedSuccessfully(_) => 200,
            DecryptResponse::OneOrMoreFieldsAreIncorrect(_) => 403,
        }
    }
}

impl EncryptResponse {
    /// Wraps an outcome in the variant that stands for it.
    pub fn from_outcome(outcome: Outcome) -> (response: Self)
        ensures
            response@ == outcome@,
        no_unwind
    {
        match outcome {
            Outcome::Success(document) => EncryptResponse::EncryptionFinishedSuccessfully(document),
            Outcome::DomainFailure(error) => EncryptResponse::InternalServerError(error),
        }
    }

    /// HTTP status of this reply: 200 or 503.
    pub fn status(&self) -> (status: u16)
        ensures
            status == reply_status(OperationKind::Encrypt, self@),
        no_unwind
    {
        match self {
            EncryptResponse::EncryptionFinishedSuccessfully(_) => 200,
            EncryptResponse::InternalServerError(_) => 503,
        }
    }
}

impl QueryResponse {
    /// Wraps an outcome in the variant that stands for it.
    pub fn from_outcome(outcome: Outcome) -> (response: Self)
        ensures
            response@ == outcome@,
        no_unwind
    {
        match outcome {
            Outcome::Success(document) => QueryResponse::DecryptionFinishedSuccessfully(document),
            Outcome::DomainFailure(error) => QueryResponse::OneOrMoreFieldsAreIncorrect(error),
        }
    }

    /// HTTP status of this reply: 200 or 403.
    pub fn status(&self) -> (status: u16)
        ensures
            status == reply_status(OperationKind::RewriteQuery, self@),
        no_unwind
    {
        match self {
            QueryResponse::DecryptionFinishedSuccessfully(_) => 200,
            QueryResponse::OneOrMoreFieldsAreIncorrect(_) => 403,
        }
    }
}

/// Reply to a request of any of the three kinds.
#[derive(Debug)]
pub enum Response {
    Encrypt(EncryptResponse),
    Decrypt(DecryptResponse),
    Query(QueryResponse),
}

impl Response {
    /// The operation this reply answers, in specifications.
    pub open spec fn spec_kind(&self) -> OperationKind {
        match self {
            Response::Encrypt(_) => OperationKind::Encrypt,
            Response::Decrypt(_) => OperationKind::Decrypt,
            Response::Query(_) => OperationKind::RewriteQuery,
        }
    }

    /// The outcome this reply reports.
    pub open spec fn outcome(&self) -> OutcomeView {
        match self {
            Response::Encrypt(response) => response@,
            Response::Decrypt(response) => response@,
            Response::Query(response) => response@,
        }
    }

    /// Wraps an outcome in the reply type of the given operation.
    pub fn of(kind: OperationKind, outcome: Outcome) -> (response: Self)
        ensures
            response.kind() == kind,
            response.outcome() == outcome@,
        no_unwind
    {
        match kind {
            OperationKind::Encrypt => Response::Encrypt(EncryptResponse::from_outcome(outcome)),
            OperationKind::Decrypt => Response::Decrypt(DecryptResponse::from_outcome(outcome)),
            OperationKind::RewriteQuery => Response::Query(QueryResponse::from_outcome(outcome)),
        }
    }

    /// The operation this reply answers.
    #[verifier::when_used_as_spec(spec_kind)]
    pub fn kind(&self) -> (kind: OperationKind)
        ensures
            kind == self.kind(),
        no_unwind
    {
        match self {
            Response::Encrypt(_) => OperationKind::Encrypt,
            Response::Decrypt(_) => OperationKind::Decrypt,
            Response::Query(_) => OperationKind::RewriteQuery,
        }
    }

    /// HTTP status of this reply.
    pub fn status(&self) -> (status: u16)
        ensures
            status == reply_status(self.kind(), self.outcome()),
        no_unwind
    {
        match self {
            Response::Encrypt(response) => response.status(),
            Response::Decrypt(response) => response.status(),
            Response::Query(response) => response.status(),
        }
    }
}

/// The reply to a request of the given kind for which the engine answered
/// `result`.
///
/// On `Ok` the reply is the success variant of the operation, with status 200
/// and the engine's document unchanged. On `Err` it is the failure variant,
/// whose status and code are 503 for encryption and 403 otherwise, and whose
/// message is the engine's.
pub fn respond(kind: OperationKind, result: Result<String, String>) -> (response: Response)
    ensures
        response.kind() == kind,
        response.outcome() == outcome_of(kind, engine_view(result)),
    no_unwind
{
    Response::of(kind, Outcome::from_engine(kind, result))
}

} // verus!
