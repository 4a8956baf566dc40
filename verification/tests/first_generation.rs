use crypt_config::config::Config;
use crypt_config::config::HasherConfig;
use crypt_config::config::HasherData;
use crypt_config::config::SyncedConfig;
use crypt_config::convert::decrypt_document;
use crypt_config::convert::encrypt_document;
use crypt_config::convert::modify_find_query;
use crypt_config::error::CryptError;
use enigma::engine::EngineCall;
use enigma::outcome::OperationKind;
use enigma::request::RequestEnvelope;
use enigma::response::DecryptResponse;
use enigma::response::EncryptResponse;
use enigma::response::QueryResponse;
use enigma::server_lib::server::Server;
use enigma::server_lib::NewService;
use std::path::PathBuf;
use std::sync::Arc;

const NAME: &str = "{\"name\":\"John\"}";

fn first_provider() -> Arc<SyncedConfig> {
    SyncedConfig::new(PathBuf::from("/nonexistent/enigma/first.json"))
}

fn first_perform(call: &EngineCall) -> Result<String, CryptError> {
    match call.operation {
        OperationKind::Encrypt => encrypt_document(&call.cell, &call.document),
        OperationKind::Decrypt => decrypt_document(&call.cell, &call.document),
        OperationKind::RewriteQuery => modify_find_query(&call.cell, &call.document),
    }
}

fn first_encrypt(server: &Server, body: &str) -> EncryptResponse {
    let call = server.encrypt(&first_envelope(body));
    assert_eq!(call.operation, OperationKind::Encrypt);
    assert_eq!(call.document, body);
    Server::encrypt_reply(first_perform(&call))
}

fn first_decrypt(server: &Server, body: &str) -> DecryptResponse {
    let call = server.decrypt(&first_envelope(body));
    assert_eq!(call.operation, OperationKind::Decrypt);
    assert_eq!(call.document, body);
    Server::decrypt_reply(first_perform(&call))
}

fn first_query(server: &Server, body: &str) -> QueryResponse {
    let call = server.query(&first_envelope(body));
    assert_eq!(call.operation, OperationKind::RewriteQuery);
    assert_eq!(call.document, body);
    Server::query_reply(first_perform(&call))
}

fn first_envelope(body: &str) -> RequestEnvelope {
    RequestEnvelope::new(body.to_string(), "trace-2".to_string())
}

fn name_hasher() -> Config {
    let mut config = Config::new();
    let mut hasher = Box::new(HasherData::new());
    hasher.insert_configuration(
        "1",
        Box::new(HasherConfig::new("pbkdf2".to_string(), 7, [15u8; 16].to_vec())),
    );
    config.insert_hasher("name".to_string(), hasher);
    config
}

#[test]
fn first_generation_returns_what_the_engine_returns() {
    let server = Server::new(first_provider());
    match first_encrypt(&server, " { \"name\" : \"John\" } ") {
        EncryptResponse::EncryptionFinishedSuccessfully(document) => assert_eq!(document, NAME),
        other => panic!("unexpected reply {:?}", other),
    }
    match first_decrypt(&server, NAME) {
        DecryptResponse::DecryptionFinishedSuccessfully(document) => assert_eq!(document, NAME),
        other => panic!("unexpected reply {:?}", other),
    }
    match first_query(&server, NAME) {
        QueryResponse::DecryptionFinishedSuccessfully(document) => assert_eq!(document, NAME),
        other => panic!("unexpected reply {:?}", other),
    }
}

#[test]
fn first_generation_reports_the_category_of_a_failure() {
    let server = Server::new(first_provider());
    let encrypt = first_encrypt(&server, "[]");
    assert_eq!(encrypt.status(), 503);
    match encrypt {
        EncryptResponse::InternalServerError(error) => {
            assert_eq!(error.code, 503);
            assert_eq!(error.message, "Invalid document");
        }
        other => panic!("unexpected reply {:?}", other),
    }
    let decrypt = first_decrypt(&server, "[]");
    assert_eq!(decrypt.status(), 403);
    match decrypt {
        DecryptResponse::OneOrMoreFieldsAreIncorrect(error) => {
            assert_eq!(error.code, 403);
            assert_eq!(error.message, "Invalid document");
        }
        other => panic!("unexpected reply {:?}", other),
    }
    let query = first_query(&server, "[]");
    assert_eq!(query.status(), 403);
    match query {
        QueryResponse::OneOrMoreFieldsAreIncorrect(error) => {
            assert_eq!(error.code, 403);
            assert_eq!(error.message, "Invalid document");
        }
        other => panic!("unexpected reply {:?}", other),
    }
}

#[test]
fn first_generation_query_failure_names_its_category() {
    let provider = first_provider();
    {
        let cell = provider.get_config();
        let mut guard = cell.write().unwrap();
        *guard = Box::new(name_hasher());
    }
    let server = Server::new(provider);
    match first_query(&server, "{\"name\":{\"$in\":7}}") {
        QueryResponse::OneOrMoreFieldsAreIncorrect(error) => {
            assert_eq!(error.code, 403);
            assert_eq!(error.message, "Invalid query");
        }
        other => panic!("unexpected reply {:?}", other),
    }
}

#[test]
fn new_service_makes_handlers_on_the_same_provider() {
    let provider = first_provider();
    let factory = NewService::new(provider.clone());
    let first = factory.new_service();
    let second = factory.new_service();
    {
        let cell = provider.get_config();
        let mut guard = cell.write().unwrap();
        *guard = Box::new(name_hasher());
    }
    let mut documents = Vec::new();
    for server in [first, second.clone(), second] {
        match first_encrypt(&server, NAME) {
            EncryptResponse::EncryptionFinishedSuccessfully(document) => documents.push(document),
            other => panic!("unexpected reply {:?}", other),
        }
    }
    assert_ne!(documents[0], NAME);
    assert!(documents[0].contains("hashed_field"));
    assert_eq!(documents[0], documents[1]);
    assert_eq!(documents[1], documents[2]);
}
