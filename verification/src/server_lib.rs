//! The first generation of the service interface: a factory that makes one
//! handler per connection, and a handler whose failure messages name the
//! category of the failure only.

pub mod server;

use crate::engine::share;
use crypt_config::config::SyncedConfig;
use std::sync::Arc;
use vstd::prelude::*;

verus! {

/// Factory of handlers that all read the configuration from one provider.
pub struct NewService {
    config: Arc<SyncedConfig>,
}

impl NewService {
    /// The provider that the handlers of this factory read from.
    pub closed spec fn provider(&self) -> Arc<SyncedConfig> {
        self.config
    }

    /// A factory of handlers that read the configuration from `config`.
    pub fn new(config: Arc<SyncedConfig>) -> (factory: Self)
        ensures
            factory.provider() == config,
        no_unwind
    {
        NewService { config }
    }

    /// A new handler on the provider of this factory.
    pub fn new_service(&self) -> (handler: server::Server)
        ensures
            handler.provider() == self.provider(),
    {
        server::Server::new(share(&self.config))
    }
}

} // verus!
