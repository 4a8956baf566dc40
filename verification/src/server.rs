//! The request handler, one operation per route, and the gateway that is
//! built around it at start-up.
//!
//! An operation has two halves. The first says which call of the engine the
//! request asks for; the second makes the reply from the engine's answer.
//! Between the two the caller performs the call.

use crate::acceptor::opening_phase;
use crate::acceptor::Acceptor;
use crate::acceptor::TransportMode;
use crate::connection::connection_opening;
use crate::connection::Connection;
use crate::engine::asks;
use crate::engine::configuration_cell;
use crate::engine::is_message_of;
use crate::engine::outcome_with_message;
use crate::engine::share;
use crate::engine::transform;
use crate::engine::with_message;
use crate::engine::EngineCall;
use crate::outcome::reply_status;
use crate::outcome::OperationKind;
use crate::outcome::Outcome;
use crate::outcome::OutcomeView;
use crate::request::RequestEnvelope;
use crate::response::respond;
use crate::response::DecryptResponse;
use crate::response::EncryptResponse;
use crate::response::QueryResponse;
use crate::response::Response;
use crate::service::MakeService;
use crypt_config::config::SyncedConfig;
use crypt_config::error::CryptError;
use std::sync::Arc;
use vstd::prelude::*;

verus! {

/// Handler of the three operations.
///
/// It holds the handle on the configuration provider and nothing else: no
/// configuration, no document and no reply outlives the request it belongs
/// to.
pub struct Server {
    config: Arc<SyncedConfig>,
}

impl Clone for Server {
    /// A second handler on the same provider.
    fn clone(&self) -> (server: Self)
        ensures
            server.provider() == self.provider(),
    {
        Server { config: share(&self.config) }
    }
}

impl Server {
    /// The provider this handler reads the configuration from.
    pub closed spec fn provider(&self) -> Arc<SyncedConfig> {
        self.config
    }

    /// A handler that reads the configuration from `config`.
    pub fn new(config: Arc<SyncedConfig>) -> (server: Self)
        ensures
            server.provider() == config,
        no_unwind
    {
        Server { config }
    }

    /// A handler is its provider: it holds no configuration, no document
    /// and no reply that a later request could meet again. Two handlers on
    /// one provider are the same handler, and each request is handed the
    /// provider's cell anew.
    pub proof fn law_handler_keeps_nothing(self, other: Server)
        requires
            self.provider() == other.provider(),
        ensures
            self == other,
    {
    }

    /// The engine call that a decryption request asks for: decryption, on
    /// the provider's cell as it is handed out now, of the body as it came.
    pub fn decrypt(&self, request: &RequestEnvelope) -> (call: EngineCall)
        ensures
            asks(call, OperationKind::Decrypt, *self.provider(), request.body@),
    {
        transform(OperationKind::Decrypt, &self.config, request.body.as_str())
    }

    /// The engine call that an encryption request asks for: encryption, on
    /// the provider's cell as it is handed out now, of the body as it came.
    pub fn encrypt(&self, request: &RequestEnvelope) -> (call: EngineCall)
        ensures
            asks(call, OperationKind::Encrypt, *self.provider(), request.body@),
    {
        transform(OperationKind::Encrypt, &self.config, request.body.as_str())
    }

    /// The engine call that a query rewriting request asks for: rewriting,
    /// on the provider's cell as it is handed out now, of the body as it
    /// came.
    pub fn query(&self, request: &RequestEnvelope) -> (call: EngineCall)
        ensures
            asks(call, OperationKind::RewriteQuery, *self.provider(), request.body@),
    {
        transform(OperationKind::RewriteQuery, &self.config, request.body.as_str())
    }

    /// The engine call that a request of the given kind asks for.
    pub fn handle(&self, kind: OperationKind, request: &RequestEnvelope) -> (call: EngineCall)
        ensures
            asks(call, kind, *self.provider(), request.body@),
    {
        match kind {
            OperationKind::Encrypt => self.encrypt(request),
            OperationKind::Decrypt => self.decrypt(request),
            OperationKind::RewriteQuery => self.query(request),
        }
    }

    /// The reply to a decryption request for which the engine answered
    /// `answer`: the decrypted document, or code 403 and the engine's
    /// message.
    pub fn decrypt_reply(answer: Result<String, CryptError>) -> (response: DecryptResponse)
        ensures
            outcome_with_message(OperationKind::Decrypt, answer, response@),
    {
        DecryptResponse::from_outcome(
            Outcome::from_engine(OperationKind::Decrypt, with_message(answer)),
        )
    }

    /// The reply to an encryption request for which the engine answered
    /// `answer`: the transformed document, or code 503 and the engine's
    /// message.
    pub fn encrypt_reply(answer: Result<String, CryptError>) -> (response: EncryptResponse)
        ensures
            outcome_with_message(OperationKind::Encrypt, answer, response@),
    {
        EncryptResponse::from_outcome(
            Outcome::from_engine(OperationKind::Encrypt, with_message(answer)),
        )
    }

    /// The reply to a query rewriting request for which the engine answered
    /// `answer`: the rewritten query, or code 403 and the engine's message.
    pub fn query_reply(answer: Result<String, CryptError>) -> (response: QueryResponse)
        ensures
            outcome_with_message(OperationKind::RewriteQuery, answer, response@),
    {
        QueryResponse::from_outcome(
            Outcome::from_engine(OperationKind::RewriteQuery, with_message(answer)),
        )
    }

    /// The reply to a request of the given kind for which the engine
    /// answered `answer`.
    pub fn reply(kind: OperationKind, answer: Result<String, CryptError>) -> (response: Response)
        ensures
            response.kind() == kind,
            outcome_with_message(kind, answer, response.outcome()),
    {
        respond(kind, with_message(answer))
    }
}

/// Whatever the operation, an answer of the engine that carries a document
/// comes to a reply with status 200 and that very document; an answer that
/// carries an error comes to a reply whose status and code are 503 for
/// encryption and 403 otherwise, and whose message is the error's.
pub proof fn law_replies_follow_the_engine(
    kind: OperationKind,
    answer: Result<String, CryptError>,
    outcome: OutcomeView,
)
    requires
        outcome_with_message(kind, answer, outcome),
    ensures
        answer matches Ok(document) ==> outcome == OutcomeView::Success(document@) && reply_status(
            kind,
            outcome,
        ) == 200,
        answer matches Err(fault) ==> outcome matches OutcomeView::DomainFailure(error)
            && error.code == reply_status(kind, outcome) && is_message_of(fault, error.message),
        answer is Err && kind == OperationKind::Encrypt ==> reply_status(kind, outcome) == 503,
        answer is Err && kind != OperationKind::Encrypt ==> reply_status(kind, outcome) == 403,
{
}

/// Two requests on one provider are handed the same configuration cell,
/// whatever was asked before and whichever handler took them: no request
/// meets a configuration that was set aside for it earlier.
pub proof fn law_requests_share_the_cell_only(
    first: EngineCall,
    second: EngineCall,
    provider: SyncedConfig,
)
    requires
        asks(first, first.operation, provider, first.document@),
        asks(second, second.operation, provider, second.document@),
    ensures
        first.cell == second.cell,
        first.cell == configuration_cell(provider),
{
}

/// The subject that the gateway admits requests for.
pub const SUBJECT: &'static str = "cosmo";

/// A gateway ready to start: the acceptor before its first step and the
/// factory of the services for the connections to come.
pub struct Gateway {
    pub acceptor: Acceptor,
    pub services: MakeService,
}

impl Gateway {
    /// The connection for a transport that the listener just handed over
    /// from `peer`, with a service of its own.
    pub fn connect<T>(&self, peer: T) -> (connection: Connection)
        ensures
            connection.phase() == connection_opening(self.acceptor.mode()),
            connection.provider() == self.services.provider(),
    {
        Connection::open(self.acceptor.mode(), self.services.make_service(peer))
    }
}

/// Builds the gateway on the configuration provider `config`: a handler
/// behind the context stage and the allow-all authentication stage, and an
/// acceptor for TLS if `https` is set, for plain transport otherwise.
///
/// Nothing is bound or loaded yet: the acceptor's first action says where
/// start-up begins.
pub fn create(config: Arc<SyncedConfig>, https: bool) -> (gateway: Gateway)
    ensures
        gateway.acceptor.mode() == TransportMode::of(https),
        gateway.acceptor.phase() == opening_phase(TransportMode::of(https)),
        gateway.services.provider() == config,
        gateway.services.subject() == SUBJECT@,
{
    let handler = Server::new(config);
    let services = MakeService::new(handler, SUBJECT.to_owned());
    Gateway { acceptor: Acceptor::new(TransportMode::from_flag(https)), services }
}

} // verus!
