//! The core of a gateway that encrypts, decrypts and rewrites JSON documents
//! field by field: the request handler with its typed replies, the service
//! that is composed around it for every connection, and the decisions of the
//! acceptor and of each connection.
//!
//! The library decides and its caller performs. Sockets, TLS and HTTP belong
//! to the program around this library, and so does the call of the engine
//! that transforms the documents, the `crypt-config` crate: the library says
//! which call a request asks for and makes the reply from the answer.
//!
//! The decisions of the acceptor and of the connections, and the making of
//! a reply from an outcome, are proved never to unwind.

pub mod acceptor;
pub mod connection;
pub mod engine;
pub mod gateway;
pub mod outcome;
pub mod request;
pub mod response;
pub mod server;
pub mod server_lib;
pub mod service;
