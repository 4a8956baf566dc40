//! Binding to the `crypt-config` crate, which owns the configuration and
//! performs the transformations.
//!
//! The library never runs a transformation itself. The engine does not
//! return on every combination of configuration and document, and which
//! combinations those are cannot be told from the document alone. So the
//! library names the call to make, as an [`EngineCall`], and takes the
//! engine's answer back as a value: whoever performs the call decides what
//! becomes of a request during which the engine gives up. What the library
//! calls of the crate are the provider's accessor and the texts of an error,
//! which always return.

use crate::outcome::ErrorPayload;
use crate::outcome::OperationKind;
use crate::outcome::OutcomeView;
use std::sync::Arc;
use std::sync::RwLock;
use vstd::prelude::*;

verus! {

/// `crypt_config::config::SyncedConfig`: the provider of the configuration.
/// It reloads the configuration in the background; the gateway only reads
/// from it.
#[verifier::external_type_specification]
#[verifier::external_body]
pub struct ExSyncedConfig(crypt_config::config::SyncedConfig);

/// `crypt_config::config::Config`: the hashers and ciphers configured for
/// each field. Opaque to the gateway.
#[verifier::external_type_specification]
#[verifier::external_body]
pub struct ExConfig(crypt_config::config::Config);

/// `crypt_config::error::CryptError`: why a transformation failed.
#[verifier::external_type_specification]
#[verifier::external_body]
pub struct ExCryptError(crypt_config::error::CryptError);

/// `std::sync::RwLock`: the lock behind which the provider keeps the
/// configuration. The gateway never locks it itself.
#[verifier::external_type_specification]
#[verifier::external_body]
#[verifier::reject_recursive_types(T)]
pub struct ExRwLock<T: ?Sized>(std::sync::RwLock<T>);

/// The configuration cell of a provider: the shared, locked place in which
/// the provider keeps the configuration of the moment. A provider has one
/// cell for all its life; what the cell holds changes, the cell does not.
pub uninterp spec fn configuration_cell(
    provider: crypt_config::config::SyncedConfig,
) -> Arc<RwLock<Box<crypt_config::config::Config>>>;

/// The category of an error: the short text that says what kind of failure
/// it is, without its details.
pub uninterp spec fn category_text(fault: crypt_config::error::CryptError) -> Seq<char>;

/// `SyncedConfig::get_config` hands out a handle on the provider's
/// configuration cell. Nothing is claimed of what the cell holds: the
/// provider replaces its content whenever the configuration file changes.
pub assume_specification[ crypt_config::config::SyncedConfig::get_config ](
    provider: &crypt_config::config::SyncedConfig,
) -> (cell: Arc<RwLock<Box<crypt_config::config::Config>>>)
    ensures
        cell == configuration_cell(*provider),
;

/// `Arc::clone`: a second handle on the provider that `provider` points
/// to. Both handles are equal as values.
#[verifier::external_body]
pub(crate) fn share(provider: &Arc<crypt_config::config::SyncedConfig>) -> (shared: Arc<
    crypt_config::config::SyncedConfig,
>)
    ensures
        shared == *provider,
{
    Arc::clone(provider)
}

/// `std::error::Error::description` of a `CryptError`: the category of the
/// failure, which the error alone determines.
#[verifier::external_body]
#[allow(deprecated)]
pub(crate) fn category_of(fault: &crypt_config::error::CryptError) -> (text: String)
    ensures
        text@ == category_text(*fault),
{
    std::error::Error::description(fault).to_owned()
}

/// Whether `text` is the full message of `fault`: what the error displays
/// as.
pub open spec fn is_message_of(fault: crypt_config::error::CryptError, text: Seq<char>) -> bool {
    exists|message: String|
        message@ == text && #[trigger] vstd::string::to_string_from_display_ensures::<
            crypt_config::error::CryptError,
        >(&fault, message)
}

/// One call of the engine, to be made by whoever holds this value: the
/// transformation to run, the configuration cell to run it with, and the
/// document to run it on.
pub struct EngineCall {
    pub operation: OperationKind,
    pub cell: Arc<RwLock<Box<crypt_config::config::Config>>>,
    pub document: String,
}

/// Whether `call` is the call that a request of the given kind on `document`
/// asks of the engine behind `provider`: that transformation, on the
/// provider's cell, with the document unchanged.
pub open spec fn asks(
    call: EngineCall,
    kind: OperationKind,
    provider: crypt_config::config::SyncedConfig,
    document: Seq<char>,
) -> bool {
    &&& call.operation == kind
    &&& call.cell == configuration_cell(provider)
    &&& call.document@ == document
}

/// Whether `outcome` is what the engine's `answer` to a request of the given
/// kind comes to when a failure is reported by its full message: a document
/// is passed on as it is, a failure gets the failure status of the operation
/// as its code.
pub open spec fn outcome_with_message(
    kind: OperationKind,
    answer: Result<String, crypt_config::error::CryptError>,
    outcome: OutcomeView,
) -> bool {
    match answer {
        Ok(document) => outcome == OutcomeView::Success(document@),
        Err(fault) => {
            &&& outcome matches OutcomeView::DomainFailure(error)
            &&& error.code == kind.failure_status()
            &&& is_message_of(fault, error.message)
        },
    }
}

/// What the engine's `answer` to a request of the given kind comes to when a
/// failure is reported by its category.
pub open spec fn outcome_with_category(
    kind: OperationKind,
    answer: Result<String, crypt_config::error::CryptError>,
) -> OutcomeView {
    match answer {
        Ok(document) => OutcomeView::Success(document@),
        Err(fault) => OutcomeView::DomainFailure(
            ErrorPayload { code: kind.failure_status(), message: category_text(fault) },
        ),
    }
}

/// The call that a request of the given kind asks for: the provider's cell
/// as it is handed out at this moment, and the document as it came.
pub fn transform(
    kind: OperationKind,
    provider: &crypt_config::config::SyncedConfig,
    document: &str,
) -> (call: EngineCall)
    ensures
        asks(call, kind, *provider, document@),
{
    EngineCall { operation: kind, cell: provider.get_config(), document: document.to_owned() }
}

/// The engine's answer with a failure replaced by its full message.
pub fn with_message(answer: Result<String, crypt_config::error::CryptError>) -> (result: Result<
    String,
    String,
>)
    ensures
        answer matches Ok(document) ==> result == Ok::<String, String>(document),
        answer matches Err(fault) ==> result matches Err(message) && is_message_of(fault, message@),
{
    match answer {
        Ok(document) => Ok(document),
        Err(fault) => Err(fault.to_string()),
    }
}

/// The engine's answer with a failure replaced by its category.
pub fn with_category(answer: Result<String, crypt_config::error::CryptError>) -> (result: Result<
    String,
    String,
>)
    ensures
        answer matches Ok(document) ==> result == Ok::<String, String>(document),
        answer matches Err(fault) ==> result matches Err(text) && text@ == category_text(fault),
{
    match answer {
        Ok(document) => Ok(document),
        Err(fault) => Err(category_of(&fault)),
    }
}

} // verus!
