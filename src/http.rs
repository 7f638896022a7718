//! Settings of the HTTP uplink: where it listens, and who may ask.

use vstd::prelude::*;

verus! {

/// The port listened on where none is configured.
pub const DEFAULT_BIND_PORT: u16 = 4242;

/// How the HTTP uplink is configured.
#[derive(Clone, Debug, PartialEq, Eq, Default)]
pub struct Options {
    /// The address to listen on; the loopback address `::1` where none is given.
    pub bind_host: Option<String>,
    /// The port to listen on; 4242 where none is given.
    pub bind_port: Option<u16>,
    /// The token that a client must present.
    pub token: Option<String>,
    /// Allow running without a token.
    pub disable_authentication: bool,
    /// The file of the TLS key.
    pub tls_key: Option<String>,
    /// The file of the TLS certificate.
    pub tls_certificate: Option<String>,
}

/// Who may ask.
#[derive(Clone, Debug, PartialEq, Eq)]
pub enum Access {
    /// Only clients that present this token.
    Token(String),
    /// Anyone.
    Open,
}

/// How to listen.
#[derive(Clone, Debug, PartialEq, Eq)]
pub enum Listener {
    Plain,
    Tls { key: String, certificate: String },
}

/// A configuration that the uplink refuses.
#[derive(Clone, Copy, Debug, PartialEq, Eq, Structural)]
pub enum Error {
    /// No token, and running without one was not allowed.
    NoToken,
    /// Only one of the TLS key and certificate was given.
    IncompleteTls,
}

impl Error {
    /// What went wrong, in words.
    pub fn message(&self) -> (r: &'static str)
        ensures
            match self {
                Error::NoToken => r@ == "Running without access token. This is discouraged as it may compromise your system. If you really want to do it, use --disable-authentication"@,
                Error::IncompleteTls => r@ == "Enabling TLS requires both --tls-key and --tls-certificate"@,
            },
    {
        match self {
            Error::NoToken => "Running without access token. This is discouraged as it may compromise your system. If you really want to do it, use --disable-authentication",
            Error::IncompleteTls => "Enabling TLS requires both --tls-key and --tls-certificate",
        }
    }
}

impl Access {
    /// Whether a client that presents `token` may ask.
    pub fn permits(&self, token: &str) -> (r: bool)
        ensures
            r == match self {
                Access::Token(t) => t@ == token@,
                Access::Open => true,
            },
    {
        match self {
            Access::Token(t) => *t == String::from_str(token),
            Access::Open => true,
        }
    }
}

impl Options {
    /// The address to listen on.
    pub fn bind_host(&self) -> (r: String)
        ensures
            r@ == match self.bind_host {
                Some(h) => h@,
                None => "::1"@,
            },
    {
        match &self.bind_host {
            Some(h) => h.clone(),
            None => String::from_str("::1"),
        }
    }

    /// The port to listen on.
    pub fn bind_port(&self) -> (r: u16)
        ensures
            r == match self.bind_port {
                Some(p) => p,
                None => DEFAULT_BIND_PORT,
            },
    {
        match self.bind_port {
            Some(p) => p,
            None => DEFAULT_BIND_PORT,
        }
    }

    /// Who may ask: the holders of the configured token; anyone where there
    /// is none and that is allowed; otherwise the configuration is refused.
    pub fn access(&self) -> (r: Result<Access, Error>)
        ensures
            match self.token {
                Some(t) => r matches Ok(Access::Token(u)) && u@ == t@,
                None => if self.disable_authentication {
                    r == Ok::<Access, Error>(Access::Open)
                } else {
                    r == Err::<Access, Error>(Error::NoToken)
                },
            },
    {
        match &self.token {
            Some(t) => Ok(Access::Token(t.clone())),
            None => if self.disable_authentication {
                Ok(Access::Open)
            } else {
                Err(Error::NoToken)
            },
        }
    }

    /// How to listen: with TLS when both key and certificate are given,
    /// plainly when neither is; refused when only one of them is.
    pub fn listener(&self) -> (r: Result<Listener, Error>)
        ensures
            match (self.tls_key, self.tls_certificate) {
                (Some(k), Some(c)) => r matches Ok(Listener::Tls { key, certificate }) && key@ == k@ && certificate@ == c@,
                (None, None) => r == Ok::<Listener, Error>(Listener::Plain),
                _ => r == Err::<Listener, Error>(Error::IncompleteTls),
            },
    {
        match (&self.tls_key, &self.tls_certificate) {
            (Some(k), Some(c)) => Ok(Listener::Tls { key: k.clone(), certificate: c.clone() }),
            (None, None) => Ok(Listener::Plain),
            _ => Err(Error::IncompleteTls),
        }
    }
}

} // verus!
