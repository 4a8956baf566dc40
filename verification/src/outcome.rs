//! What a request asks for and what the transformation engine answers.

use vstd::prelude::*;

verus! {

/// The transformation a request asks the engine to perform.
#[derive(Clone, Copy, Debug, PartialEq, Eq, Structural)]
pub enum OperationKind {
    /// Encrypt or hash the configured fields of a document.
    Encrypt,
    /// Decrypt the encrypted fields of a document.
    Decrypt,
    /// Rewrite a query so that it matches stored, already transformed fields.
    RewriteQuery,
}

impl OperationKind {
    /// HTTP status of a reply that carries a transformed document.
    pub open spec fn success_status(self) -> int {
        200
    }

    /// HTTP status of a reply that carries an engine failure.
    ///
    /// Encryption reports 503 where the other two operations report 403.
    /// Clients rely on the difference, so it is part of the interface.
    pub open spec fn failure_status(self) -> int {
        match self {
            OperationKind::Encrypt => 503,
            OperationKind::Decrypt => 403,
            OperationKind::RewriteQuery => 403,
        }
    }

    /// Executable form of [`OperationKind::success_status`].
    pub fn success_code(self) -> (status: u16)
        ensures
            status == self.success_status(),
        no_unwind
    {
        200
    }

    /// Executable form of [`OperationKind::failure_status`].
    pub fn failure_code(self) -> (status: u16)
        ensures
            status == self.failure_status(),
        no_unwind
    {
        match self {
            OperationKind::Encrypt => 503,
            OperationKind::Decrypt => 403,
            OperationKind::RewriteQuery => 403,
        }
    }
}

/// Mathematical content of an [`ErrorResponse`].
pub struct ErrorPayload {
    pub code: int,
    pub message: Seq<char>,
}

/// Body of a reply that reports an engine failure.
#[derive(Debug)]
pub struct ErrorResponse {
    /// Repeats the HTTP status of the reply.
    pub code: i32,
    /// The engine's own description of what went wrong.
    pub message: String,
}

impl View for ErrorResponse {
    type V = ErrorPayload;

    open spec fn view(&self) -> ErrorPayload {
        ErrorPayload { code: self.code as int, message: self.message@ }
    }
}

/// Mathematical content of an [`Outcome`].
pub enum OutcomeView {
    Success(Seq<char>),
    DomainFailure(ErrorPayload),
}

/// Result of one request: the transformed document, or the failure the
/// engine reported for it.
#[derive(Debug)]
pub enum Outcome {
    Success(String),
    DomainFailure(ErrorResponse),
}

impl View for Outcome {
    type V = OutcomeView;

    open spec fn view(&self) -> OutcomeView {
        match self {
            Outcome::Success(document) => OutcomeView::Success(document@),
            Outcome::DomainFailure(error) => OutcomeView::DomainFailure(error@),
        }
    }
}

/// What the engine handed back, as text: the document, or its error message.
pub open spec fn engine_view(result: Result<String, String>) -> Result<Seq<char>, Seq<char>> {
    match result {
        Ok(document) => Ok(document@),
        Err(message) => Err(message@),
    }
}

/// The outcome of a request of the given kind for which the engine answered
/// `result`.
///
/// A document is passed on as it is. A failure keeps the engine's message and
/// gets the failure status of the operation as its code.
pub open spec fn outcome_of(kind: OperationKind, result: Result<Seq<char>, Seq<char>>) -> OutcomeView {
    match result {
        Ok(document) => OutcomeView::Success(document),
        Err(message) => OutcomeView::DomainFailure(
            ErrorPayload { code: kind.failure_status(), message },
        ),
    }
}

/// HTTP status that goes with an outcome of a request of the given kind.
pub open spec fn reply_status(kind: OperationKind, outcome: OutcomeView) -> int {
    match outcome {
        OutcomeView::Success(_) => kind.success_status(),
        OutcomeView::DomainFailure(_) => kind.failure_status(),
    }
}

impl Outcome {
    /// Turns the engine's answer to a request of the given kind into the
    /// outcome of that request.
    pub fn from_engine(kind: OperationKind, result: Result<String, String>) -> (outcome: Outcome)
        ensures
            outcome@ == outcome_of(kind, engine_view(result)),
        no_unwind
    {
        match result {
            Ok(document) => Outcome::Success(document),
            Err(message) => {
                let code = kind.failure_code() as i32;
                Outcome::DomainFailure(ErrorResponse { code, message })
            },
        }
    }

    /// Whether the request ended with a transformed document.
    pub fn is_success(&self) -> (success: bool)
        ensures
            success == (self@ is Success),
        no_unwind
    {
        match self {
            Outcome::Success(_) => true,
            Outcome::DomainFailure(_) => false,
        }
    }
}

/// A transformation that succeeds is answered with status 200 and with the
/// very document the engine returned, whatever the operation.
pub proof fn law_success_is_verbatim(kind: OperationKind, document: Seq<char>)
    ensures
        outcome_of(kind, Ok(document)) == OutcomeView::Success(document),
        reply_status(kind, outcome_of(kind, Ok(document))) == 200,
{
}

/// A transformation that the engine refuses is answered with the engine's
/// message and with a code equal to the status of the reply: 503 for
/// encryption, 403 for decryption and for query rewriting.
pub proof fn law_failure_is_typed(kind: OperationKind, message: Seq<char>)
    ensures
        outcome_of(kind, Err(message)) == OutcomeView::DomainFailure(
            ErrorPayload { code: reply_status(kind, outcome_of(kind, Err(message))), message },
        ),
        kind == OperationKind::Encrypt ==> reply_status(kind, outcome_of(kind, Err(message))) == 503,
        kind != OperationKind::Encrypt ==> reply_status(kind, outcome_of(kind, Err(message))) == 403,
{
}

} // verus!
