use vstd::prelude::*;

verus! {

/// A version of the TLS protocol.
#[derive(Debug, Clone, Copy, PartialEq, Eq, Structural)]
pub enum TlsVersion {
    Tls1_0,
    Tls1_1,
    Tls1_2,
    Tls1_3,
}

/// Whether the certificate of the peer is checked.
#[derive(Debug, Clone, Copy, PartialEq, Eq, Structural)]
pub enum VerifyMode {
    /// The peer is taken as it comes: trust rests on the cable.
    NoVerification,
    Peer,
}

/// Which side of the handshake the head unit plays.
#[derive(Debug, Clone, Copy, PartialEq, Eq, Structural)]
pub enum TlsRole {
    /// The head unit opens the handshake.
    Connect,
    Accept,
}

/// How the TLS engine of a session is set up.
#[derive(Debug)]
pub struct TlsConfig {
    /// The certificate of the head unit, as PEM.
    pub certificate_pem: Vec<u8>,
    /// The private key that belongs to the certificate, as PEM.
    pub private_key_pem: Vec<u8>,
    pub verify: VerifyMode,
    pub min_version: TlsVersion,
    pub max_version: TlsVersion,
    pub role: TlsRole,
}

impl TlsConfig {
    /// Whether the setup is the one that the protocol asks for: the peer is
    /// not verified, the version is pinned to 1.2, and the head unit opens
    /// the handshake.
    pub open spec fn is_projection_setup(&self) -> bool {
        &&& self.verify == VerifyMode::NoVerification
        &&& self.min_version == TlsVersion::Tls1_2
        &&& self.max_version == TlsVersion::Tls1_2
        &&& self.role == TlsRole::Connect
    }

    /// The setup for a session with the given certificate and key.
    pub fn new(certificate_pem: Vec<u8>, private_key_pem: Vec<u8>) -> (config: Self)
        ensures
            config.is_projection_setup(),
            config.certificate_pem == certificate_pem,
            config.private_key_pem == private_key_pem,
    {
        TlsConfig {
            certificate_pem,
            private_key_pem,
            verify: VerifyMode::NoVerification,
            min_version: TlsVersion::Tls1_2,
            max_version: TlsVersion::Tls1_2,
            role: TlsRole::Connect,
        }
    }
}

} // verus!
