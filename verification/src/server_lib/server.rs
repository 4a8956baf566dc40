//! The handler of the first generation of the service interface.

use crate::engine::asks;
use crate::engine::outcome_with_category;
use crate::engine::share;
use crate::engine::transform;
use crate::engine::with_category;
use crate::engine::EngineCall;
use crate::outcome::OperationKind;
use crate::outcome::Outcome;
use crate::request::RequestEnvelope;
use crate::response::DecryptResponse;
use crate::response::EncryptResponse;
use crate::response::QueryResponse;
use crypt_config::config::SyncedConfig;
use crypt_config::error::CryptError;
use std::sync::Arc;
use vstd::prelude::*;

verus! {

/// Handler of the three operations.
///
/// It works as [`crate::server::Server`] does, except that the message of a
/// failure is the category of the engine's error, without the details.
pub struct Server {
    config: Arc<SyncedConfig>,
}

impl Clone for Server {
    /// A second handler on the same provider.
    fn clone(&self) -> (server: Self)
        ensures
            server.provider() == self.provider(),
    {
        Server { config: share(&self.config) }
    }
}

impl Server {
    /// The provider this handler reads the configuration from.
    pub closed spec fn provider(&self) -> Arc<SyncedConfig> {
        self.config
    }

    /// A handler that reads the configuration from `config`.
    pub fn new(config: Arc<SyncedConfig>) -> (server: Self)
        ensures
            server.provider() == config,
        no_unwind
    {
        Server { config }
    }

    /// The engine call that a decryption request asks for: decryption, on
    /// the provider's cell as it is handed out now, of the body as it came.
    pub fn decrypt(&self, request: &RequestEnvelope) -> (call: EngineCall)
        ensures
            asks(call, OperationKind::Decrypt, *self.provider(), request.body@),
    {
        transform(OperationKind::Decrypt, &self.config, request.body.as_str())
    }

    /// The engine call that an encryption request asks for: encryption, on
    /// the provider's cell as it is handed out now, of the body as it came.
    pub fn encrypt(&self, request: &RequestEnvelope) -> (call: EngineCall)
        ensures
            asks(call, OperationKind::Encrypt, *self.provider(), request.body@),
    {
        transform(OperationKind::Encrypt, &self.config, request.body.as_str())
    }

    /// The engine call that a query rewriting request asks for: rewriting,
    /// on the provider's cell as it is handed out now, of the body as it
    /// came.
    pub fn query(&self, request: &RequestEnvelope) -> (call: EngineCall)
        ensures
            asks(call, OperationKind::RewriteQuery, *self.provider(), request.body@),
    {
        transform(OperationKind::RewriteQuery, &self.config, request.body.as_str())
    }

    /// The reply to a decryption request for which the engine answered
    /// `answer`: the decrypted document, or code 403 and the category of
    /// the engine's error.
    pub fn decrypt_reply(answer: Result<String, CryptError>) -> (response: DecryptResponse)
        ensures
            response@ == outcome_with_category(OperationKind::Decrypt, answer),
    {
        DecryptResponse::from_outcome(
            Outcome::from_engine(OperationKind::Decrypt, with_category(answer)),
        )
    }

    /// The reply to an encryption request for which the engine answered
    /// `answer`: the transformed document, or code 503 and the category of
    /// the engine's error.
    pub fn encrypt_reply(answer: Result<String, CryptError>) -> (response: EncryptResponse)
        ensures
            response@ == outcome_with_category(OperationKind::Encrypt, answer),
    {
        EncryptResponse::from_outcome(
            Outcome::from_engine(OperationKind::Encrypt, with_category(answer)),
        )
    }

    /// The reply to a query rewriting request for which the engine answered
    /// `answer`: the rewritten query, or code 403 and the category of the
    /// engine's error.
    pub fn query_reply(answer: Result<String, CryptError>) -> (response: QueryResponse)
        ensures
            response@ == outcome_with_category(OperationKind::RewriteQuery, answer),
    {
        QueryResponse::from_outcome(
            Outcome::from_engine(OperationKind::RewriteQuery, with_category(answer)),
        )
    }
}

} // verus!
