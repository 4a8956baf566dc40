use crypt_config::convert::decrypt_document;
use crypt_config::convert::encrypt_document;
use crypt_config::convert::modify_find_query;
use crypt_config::config::SyncedConfig;
use enigma::acceptor::TransportMode;
use enigma::connection::CloseReason;
use enigma::connection::Connection;
use enigma::connection::ConnectionAction;
use enigma::connection::ConnectionEvent;
use enigma::connection::ConnectionPhase;
use enigma::outcome::OperationKind;
use enigma::request::Request;
use enigma::response::EncryptResponse;
use enigma::response::Response;
use enigma::server::Server;
use enigma::service::MakeService;
use enigma::service::Pending;
use enigma::service::Reply;
use std::path::PathBuf;
use std::sync::Arc;

const BODY: &str = "{\"field\":\"value\"}";

const EVERY_REPORT: [ConnectionEvent; 4] = [
    ConnectionEvent::HandshakeCompleted,
    ConnectionEvent::HandshakeFailed,
    ConnectionEvent::ServeFinished,
    ConnectionEvent::TransportFailed,
];

fn connection_provider() -> Arc<SyncedConfig> {
    SyncedConfig::new(PathBuf::from("/nonexistent/enigma/connection.json"))
}

fn services() -> MakeService {
    MakeService::new(Server::new(connection_provider()), "cosmo".to_string())
}

fn answer(pending: Pending) -> Reply {
    let answer = match pending.call.operation {
        OperationKind::Encrypt => encrypt_document(&pending.call.cell, &pending.call.document),
        OperationKind::Decrypt => decrypt_document(&pending.call.cell, &pending.call.document),
        OperationKind::RewriteQuery => modify_find_query(&pending.call.cell, &pending.call.document),
    };
    pending.complete(answer)
}

fn encrypt_request() -> Request {
    Request { operation: OperationKind::Encrypt, body: BODY.to_string() }
}

fn assert_served(connection: &Connection, span: &str) {
    match connection.handle(encrypt_request(), span.to_string()).map(answer) {
        Some(Reply::Completed {
            response: Response::Encrypt(EncryptResponse::EncryptionFinishedSuccessfully(document)),
            trace_id,
        }) => {
            assert_eq!(document, BODY);
            assert_eq!(trace_id, span);
        }
        other => panic!("unexpected reply {:?}", other),
    }
}

#[test]
fn plain_connection_is_served_at_once() {
    let connection = Connection::open(TransportMode::Plain, services().make_service(1u8));
    assert_eq!(connection.phase(), ConnectionPhase::Serving);
    assert_eq!(connection.pending(), ConnectionAction::Serve);
    assert_served(&connection, "plain");
}

#[test]
fn tls_connection_is_served_after_the_handshake() {
    let mut connection = Connection::open(TransportMode::Tls, services().make_service(1u8));
    assert_eq!(connection.phase(), ConnectionPhase::Handshaking);
    assert_eq!(connection.pending(), ConnectionAction::Handshake);
    assert!(connection.handle(encrypt_request(), "early".to_string()).is_none());

    assert_eq!(connection.on_event(ConnectionEvent::HandshakeCompleted), ConnectionAction::Serve);
    assert_eq!(connection.phase(), ConnectionPhase::Serving);
    assert_served(&connection, "tls");
}

#[test]
fn both_modes_return_the_engine_output_for_an_encrypt_request() {
    for mode in [TransportMode::Plain, TransportMode::Tls] {
        let mut connection = Connection::open(mode, services().make_service(mode));
        if connection.pending() == ConnectionAction::Handshake {
            connection.on_event(ConnectionEvent::HandshakeCompleted);
        }
        assert_eq!(connection.pending(), ConnectionAction::Serve);
        match connection.handle(encrypt_request(), "span".to_string()).map(answer) {
            Some(Reply::Completed { response, .. }) => {
                assert_eq!(response.kind(), OperationKind::Encrypt);
                assert_eq!(response.status(), 200);
                match response {
                    Response::Encrypt(EncryptResponse::EncryptionFinishedSuccessfully(document)) => {
                        assert_eq!(document, "{\"field\":\"value\"}");
                    }
                    other => panic!("unexpected response {:?}", other),
                }
            }
            other => panic!("unexpected reply {:?}", other),
        }
    }
}

#[test]
fn failed_handshake_closes_the_connection() {
    let mut connection = Connection::open(TransportMode::Tls, services().make_service(1u8));
    assert_eq!(
        connection.on_event(ConnectionEvent::HandshakeFailed),
        ConnectionAction::Close(CloseReason::HandshakeFailed)
    );
    assert_eq!(connection.phase(), ConnectionPhase::Closed(CloseReason::HandshakeFailed));
    assert!(connection.handle(encrypt_request(), "late".to_string()).is_none());
}

#[test]
fn garbage_during_the_handshake_closes_the_connection() {
    let mut connection = Connection::open(TransportMode::Tls, services().make_service(1u8));
    assert_eq!(
        connection.on_event(ConnectionEvent::TransportFailed),
        ConnectionAction::Close(CloseReason::TransportError)
    );
    assert_eq!(connection.phase(), ConnectionPhase::Closed(CloseReason::TransportError));
}

#[test]
fn served_connection_ends_in_good_order_or_by_a_fault() {
    let mut finished = Connection::open(TransportMode::Plain, services().make_service(1u8));
    assert_eq!(
        finished.on_event(ConnectionEvent::ServeFinished),
        ConnectionAction::Close(CloseReason::Finished)
    );
    assert_eq!(finished.phase(), ConnectionPhase::Closed(CloseReason::Finished));

    let mut broken = Connection::open(TransportMode::Plain, services().make_service(1u8));
    assert_eq!(
        broken.on_event(ConnectionEvent::TransportFailed),
        ConnectionAction::Close(CloseReason::TransportError)
    );
    assert_eq!(broken.phase(), ConnectionPhase::Closed(CloseReason::TransportError));
    assert!(broken.handle(encrypt_request(), "late".to_string()).is_none());
}

#[test]
fn report_out_of_order_closes_the_connection() {
    let mut early = Connection::open(TransportMode::Tls, services().make_service(1u8));
    assert_eq!(
        early.on_event(ConnectionEvent::ServeFinished),
        ConnectionAction::Close(CloseReason::TransportError)
    );
    for report in [ConnectionEvent::HandshakeCompleted, ConnectionEvent::HandshakeFailed] {
        let mut late = Connection::open(TransportMode::Plain, services().make_service(1u8));
        assert_eq!(late.on_event(report), ConnectionAction::Close(CloseReason::TransportError));
    }
}

#[test]
fn closed_connection_stays_closed() {
    for first in EVERY_REPORT {
        let mut connection = Connection::open(TransportMode::Tls, services().make_service(1u8));
        connection.on_event(ConnectionEvent::HandshakeFailed);
        let closed = connection.phase();
        assert_eq!(connection.on_event(first), ConnectionAction::Close(CloseReason::HandshakeFailed));
        for second in EVERY_REPORT {
            connection.on_event(second);
            assert_eq!(connection.phase(), closed);
        }
    }
}

#[test]
fn fault_on_one_connection_leaves_the_others_alone() {
    let factory = services();
    let mut failing = Connection::open(TransportMode::Tls, factory.make_service("a"));
    let mut waiting = Connection::open(TransportMode::Tls, factory.make_service("b"));
    let mut serving = Connection::open(TransportMode::Tls, factory.make_service("c"));
    serving.on_event(ConnectionEvent::HandshakeCompleted);

    failing.on_event(ConnectionEvent::HandshakeFailed);

    assert_eq!(failing.phase(), ConnectionPhase::Closed(CloseReason::HandshakeFailed));
    assert_eq!(waiting.phase(), ConnectionPhase::Handshaking);
    assert_eq!(serving.phase(), ConnectionPhase::Serving);
    assert_served(&serving, "c-1");

    assert_eq!(waiting.on_event(ConnectionEvent::HandshakeCompleted), ConnectionAction::Serve);
    assert_served(&waiting, "b-1");
    assert_served(&serving, "c-2");
}

#[test]
fn connection_serves_many_requests_in_turn() {
    let connection = Connection::open(TransportMode::Plain, services().make_service(1u8));
    for span in ["one", "two", "three"] {
        assert_served(&connection, span);
        assert_eq!(connection.phase(), ConnectionPhase::Serving);
    }
}

#[test]
fn no_report_stands_for_a_timeout() {
    // The library sets no deadline of its own: a connection on which nothing
    // is reported stays in its phase, and every report that closes one names
    // a handshake, the end of the exchange or a transport fault.
    let idle = Connection::open(TransportMode::Tls, services().make_service(1u8));
    assert_eq!(idle.phase(), ConnectionPhase::Handshaking);
    assert_eq!(idle.pending(), ConnectionAction::Handshake);
    for report in EVERY_REPORT {
        let mut connection = Connection::open(TransportMode::Plain, services().make_service(1u8));
        match connection.on_event(report) {
            ConnectionAction::Close(CloseReason::Finished) => {
                assert_eq!(report, ConnectionEvent::ServeFinished)
            }
            ConnectionAction::Close(CloseReason::TransportError) => {
                assert_ne!(report, ConnectionEvent::ServeFinished)
            }
            other => panic!("unexpected action {:?}", other),
        }
    }
}
