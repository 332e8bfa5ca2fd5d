use vstd::prelude::*;

use crate::handler::HandlerRegistry;

verus! {

/// An IP address to listen on.
#[derive(Debug, Clone, Copy, PartialEq, Eq)]
pub enum BindAddr {
    V4([u8; 4]),
    V6([u16; 8]),
}

/// Why a server configuration could not be built.
#[derive(Debug, Clone, Copy, PartialEq, Eq)]
pub enum BuildError {
    /// No private key was given for the certificate chain.
    MissingPrivateKey,
    /// No handler registry was given.
    MissingHandlers,
}

/// Everything a server needs before it can listen: where, with which
/// certificate chain and key (DER), and which handlers.
pub struct ServerConfig {
    pub bind_port: u16,
    pub bind_addr: BindAddr,
    pub certs: Vec<Vec<u8>>,
    pub private_key: Vec<u8>,
    pub handlers: HandlerRegistry,
}

/// Collects a server configuration; listens on 127.0.0.1:8080 unless told
/// otherwise.
pub struct ArkeServerBuilder {
    pub bind_port: u16,
    pub bind_addr: BindAddr,
    pub certs: Vec<Vec<u8>>,
    pub private_key: Option<Vec<u8>>,
    pub handlers: Option<HandlerRegistry>,
}

impl ArkeServerBuilder {
    /// A builder with the defaults: 127.0.0.1, port 8080, no certificates,
    /// no key, no handlers.
    pub fn new() -> (r: ArkeServerBuilder)
        ensures
            r.bind_port == 8080,
            r.bind_addr == BindAddr::V4([127u8, 0u8, 0u8, 1u8]),
            r.certs@.len() == 0,
            r.private_key is None,
            r.handlers is None,
    {
        ArkeServerBuilder {
            bind_port: 8080,
            bind_addr: BindAddr::V4([127, 0, 0, 1]),
            certs: Vec::new(),
            private_key: None,
            handlers: None,
        }
    }

    /// Sets the certificate chain (DER, leaf first).
    pub fn with_certs(self, certs: Vec<Vec<u8>>) -> (r: ArkeServerBuilder)
        ensures
            r == (ArkeServerBuilder { certs, ..self }),
    {
        ArkeServerBuilder { certs, ..self }
    }

    /// Sets the private key (DER) matching the certificate.
    pub fn with_private_key(self, private_key: Vec<u8>) -> (r: ArkeServerBuilder)
        ensures
            r == (ArkeServerBuilder { private_key: Some(private_key), ..self }),
    {
        ArkeServerBuilder { private_key: Some(private_key), ..self }
    }

    /// Sets the address to listen on.
    pub fn with_bind_addr(self, bind_addr: BindAddr) -> (r: ArkeServerBuilder)
        ensures
            r == (ArkeServerBuilder { bind_addr, ..self }),
    {
        ArkeServerBuilder { bind_addr, ..self }
    }

    /// Sets the port to listen on.
    pub fn with_bind_port(self, bind_port: u16) -> (r: ArkeServerBuilder)
        ensures
            r == (ArkeServerBuilder { bind_port, ..self }),
    {
        ArkeServerBuilder { bind_port, ..self }
    }

    /// Sets the handler registry.
    pub fn handlers(self, handlers: HandlerRegistry) -> (r: ArkeServerBuilder)
        ensures
            r == (ArkeServerBuilder { handlers: Some(handlers), ..self }),
    {
        ArkeServerBuilder { handlers: Some(handlers), ..self }
    }

    /// The finished configuration; the private key and the handlers must
    /// have been given.
    pub fn build(self) -> (r: Result<ServerConfig, BuildError>)
        ensures
            self.private_key is None ==> r == Err::<ServerConfig, BuildError>(
                BuildError::MissingPrivateKey,
            ),
            self.private_key is Some && self.handlers is None ==> r == Err::<
                ServerConfig,
                BuildError,
            >(BuildError::MissingHandlers),
            self.private_key is Some && self.handlers is Some ==> r == Ok::<ServerConfig, BuildError>(
                ServerConfig {
                    bind_port: self.bind_port,
                    bind_addr: self.bind_addr,
                    certs: self.certs,
                    private_key: self.private_key->0,
                    handlers: self.handlers->0,
                },
            ),
    {
        let private_key = match self.private_key {
            Some(key) => key,
            None => return Err(BuildError::MissingPrivateKey),
        };
        let handlers = match self.handlers {
            Some(handlers) => handlers,
            None => return Err(BuildError::MissingHandlers),
        };
        Ok(ServerConfig {
            bind_port: self.bind_port,
            bind_addr: self.bind_addr,
            certs: self.certs,
            private_key,
            handlers,
        })
    }
}

} // verus!
