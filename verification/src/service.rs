//! The service of one connection: authentication, then context, then the
//! request handler, in this order for every request.
//!
//! A service takes a request as far as the call of the engine. The request
//! then waits, as a [`Pending`], until the caller brings the engine's answer.

use crate::engine::asks;
use crate::engine::outcome_with_message;
use crate::engine::EngineCall;
use crate::request::Request;
use crate::request::RequestEnvelope;
use crate::response::Response;
use crate::server::Server;
use crypt_config::config::SyncedConfig;
use crypt_config::error::CryptError;
use std::sync::Arc;
use vstd::prelude::*;

verus! {

/// Whom a request was admitted for.
#[derive(Debug)]
pub struct Authorization {
    pub subject: String,
}

/// Verdict of the authentication stage on one request.
#[derive(Debug)]
pub enum AuthDecision {
    /// The request goes on to the inner stages.
    Admit(Authorization),
    /// The request is answered at once, without reaching the inner stages.
    Reject,
}

/// The authentication policy in force: every request is admitted, for one
/// fixed subject.
#[derive(Debug)]
pub struct AllowAllAuthenticator {
    subject: String,
}

impl AllowAllAuthenticator {
    /// The subject that requests are admitted for.
    pub closed spec fn subject(&self) -> Seq<char> {
        self.subject@
    }

    /// A policy that admits every request for `subject`.
    pub fn new(subject: String) -> (authenticator: Self)
        ensures
            authenticator.subject() == subject@,
        no_unwind
    {
        AllowAllAuthenticator { subject }
    }

    /// Admits the request, whatever it asks for.
    pub fn authenticate(&self, _request: &Request) -> (decision: AuthDecision)
        ensures
            decision matches AuthDecision::Admit(authorization) && authorization.subject@
                == self.subject(),
    {
        AuthDecision::Admit(Authorization { subject: self.subject.clone() })
    }
}

/// What a service answers to one request.
#[derive(Debug)]
pub enum Reply {
    /// The handler answered. The trace identifier is the one the request
    /// came with.
    Completed { response: Response, trace_id: String },
    /// The authentication stage turned the request away.
    Unauthorized,
}

/// A request that passed authentication and waits for the engine: the call
/// to make, and the trace identifier to answer under.
pub struct Pending {
    pub call: EngineCall,
    pub trace_id: String,
}

/// What becomes of a request at the door of a service.
pub enum Admission {
    /// The request was admitted. The engine is to be asked, and
    /// [`Pending::complete`] makes the reply from its answer.
    Admitted(Pending),
    /// The request was answered at the door, without reaching the handler.
    Answered(Reply),
}

/// Whether `pending` is `request`, traced as `trace_id`, on its way to the
/// engine behind `provider`: the call is the one the route selects, on the
/// provider's cell, with the body unchanged, and the trace identifier is
/// the request's.
pub open spec fn awaits(
    pending: Pending,
    request: Request,
    trace_id: Seq<char>,
    provider: SyncedConfig,
) -> bool {
    &&& asks(pending.call, request.operation, provider, request.body@)
    &&& pending.trace_id@ == trace_id
}

/// Whether `admission` is what becomes of `request`, traced as `trace_id`,
/// after the authentication stage decided `decision`: a rejected request is
/// answered `Unauthorized` at once, an admitted one waits for the engine.
pub open spec fn admits(
    decision: AuthDecision,
    request: Request,
    trace_id: Seq<char>,
    provider: SyncedConfig,
    admission: Admission,
) -> bool {
    match decision {
        AuthDecision::Reject => admission matches Admission::Answered(reply) && reply
            is Unauthorized,
        AuthDecision::Admit(_) => admission matches Admission::Admitted(pending) && awaits(
            pending,
            request,
            trace_id,
            provider,
        ),
    }
}

impl Pending {
    /// The reply to this request, now that the engine answered `answer`.
    ///
    /// The reply carries the trace identifier of the request. A document is
    /// passed on as it is, with status 200. A failure is reported with the
    /// engine's message, under the failure status of the operation.
    pub fn complete(self, answer: Result<String, CryptError>) -> (reply: Reply)
        ensures
            reply matches Reply::Completed { response, trace_id } && response.kind()
                == self.call.operation && outcome_with_message(
                self.call.operation,
                answer,
                response.outcome(),
            ) && trace_id@ == self.trace_id@,
    {
        Reply::Completed {
            response: Server::reply(self.call.operation, answer),
            trace_id: self.trace_id,
        }
    }
}

/// The composed service of one connection.
pub struct Service {
    authenticator: AllowAllAuthenticator,
    handler: Server,
}

impl Service {
    /// The provider the handler of this service reads the configuration from.
    pub closed spec fn provider(&self) -> Arc<SyncedConfig> {
        self.handler.provider()
    }

    /// The subject this service admits requests for.
    pub closed spec fn subject(&self) -> Seq<char> {
        self.authenticator.subject()
    }

    /// Puts the authentication stage in front of the handler.
    pub fn new(authenticator: AllowAllAuthenticator, handler: Server) -> (service: Self)
        ensures
            service.provider() == handler.provider(),
            service.subject() == authenticator.subject(),
        no_unwind
    {
        Service { authenticator, handler }
    }

    /// The stages behind authentication, for a request on which the
    /// authentication stage has decided.
    ///
    /// On `Reject` no inner stage runs. On `Admit` the trace identifier is
    /// attached to the body and the handler says which call of the engine
    /// the request asks for.
    pub fn dispatch(&self, decision: AuthDecision, request: Request, trace_id: String) -> (admission:
        Admission)
        ensures
            admits(decision, request, trace_id@, *self.provider(), admission),
    {
        match decision {
            AuthDecision::Reject => Admission::Answered(Reply::Unauthorized),
            AuthDecision::Admit(_) => {
                let envelope = RequestEnvelope::new(request.body, trace_id);
                let call = self.handler.handle(request.operation, &envelope);
                Admission::Admitted(Pending { call, trace_id: envelope.trace_id })
            },
        }
    }

    /// Takes one request through all stages, up to the call of the engine.
    ///
    /// `trace_id` is the identifier the caller derived for this request. As
    /// the policy in force admits every request, every request reaches the
    /// handler.
    pub fn call(&self, request: Request, trace_id: String) -> (pending: Pending)
        ensures
            awaits(pending, request, trace_id@, *self.provider()),
    {
        let envelope = RequestEnvelope::new(request.body, trace_id);
        let call = self.handler.handle(request.operation, &envelope);
        Pending { call, trace_id: envelope.trace_id }
    }
}

/// Factory of services: one per accepted connection, all on the same
/// provider and under the same policy.
pub struct MakeService {
    subject: String,
    handler: Server,
}

impl MakeService {
    /// The provider that every service of this factory reads from.
    pub closed spec fn provider(&self) -> Arc<SyncedConfig> {
        self.handler.provider()
    }

    /// The subject that every service of this factory admits requests for.
    pub closed spec fn subject(&self) -> Seq<char> {
        self.subject@
    }

    /// A factory of services around `handler` that admit every request for
    /// `subject`.
    pub fn new(handler: Server, subject: String) -> (factory: Self)
        ensures
            factory.provider() == handler.provider(),
            factory.subject() == subject@,
        no_unwind
    {
        MakeService { subject, handler }
    }

    /// The service for the connection accepted from the given peer.
    ///
    /// The peer's address does not influence the service.
    pub fn make_service<T>(&self, _peer: T) -> (service: Service)
        ensures
            service.provider() == self.provider(),
            service.subject() == self.subject(),
    {
        Service::new(AllowAllAuthenticator::new(self.subject.clone()), self.handler.clone())
    }
}

} // verus!
