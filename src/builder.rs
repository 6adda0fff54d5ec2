//! Configuration of a session, checked when it is built: a server and an RSA
//! key size are required, everything else has a default.

use core::time::Duration;
use rand::Rng;
use vstd::prelude::*;

use crate::correlation::CorrelationConfig;
use crate::crypto_error::CryptoError;
use crate::ip_address::IpAddress;
use crate::pkey::{PrivateKey, RustCryptoPrivateKey, DEFAULT_RSA_BITS};
use crate::server_comm::{AuthToken, ClientStatus, ServerComm};

verus! {

/// Number of servers in the default pool.
pub const DEFAULT_SERVER_COUNT: usize = 5;

/// Request timeout, in seconds, when none is set.
pub const DEFAULT_TIMEOUT_SECS: u64 = 15;

/// The default pool of public interaction servers.
pub open spec fn default_servers() -> Seq<Seq<char>> {
    seq!["oast.pro"@, "oast.live"@, "oast.site"@, "oast.online"@, "oast.fun"@]
}

/// The server of the default pool at `choice`, counted round the pool.
pub fn pick_default_server(choice: usize) -> (r: String)
    ensures
        r@ == default_servers()[(choice % DEFAULT_SERVER_COUNT) as int],
{
    let i = choice % DEFAULT_SERVER_COUNT;
    if i == 0 {
        String::from_str("oast.pro")
    } else if i == 1 {
        String::from_str("oast.live")
    } else if i == 2 {
        String::from_str("oast.site")
    } else if i == 3 {
        String::from_str("oast.online")
    } else {
        String::from_str("oast.fun")
    }
}

/// Relies on rand's `Rng::gen_range` over `0..bound` with the thread-local
/// generator: a number below `bound`.
#[verifier::external_body]
fn random_below(bound: usize) -> (r: usize)
    requires
        bound > 0,
    ensures
        r < bound,
{
    rand::thread_rng().gen_range(0..bound)
}

/// Relies on uuid's `Uuid::new_v4` and its `to_string`: a random version-4
/// UUID in hyphenated form.
#[verifier::external_body]
fn random_secret() -> (r: String)
    ensures
        r@.len() == 36,
{
    uuid::Uuid::new_v4().to_string()
}

/// Relies on `Duration::from_secs`.
#[verifier::external_body]
fn seconds(secs: u64) -> Duration {
    Duration::from_secs(secs)
}

/// The TLS backend of the HTTP transport.
#[derive(Debug, Clone, Copy, PartialEq, Eq, Structural)]
pub enum TlsOption {
    Rustls,
    Native,
}

/// Why a session could not be built.
#[derive(Debug, Clone, Copy, PartialEq, Eq, Structural)]
pub enum ClientBuildError {
    RsaGen(CryptoError),
    MissingRsaKeyOption,
    MissingServer,
    PubKeyEncode(CryptoError),
    ReqwestBuildFailed,
}

/// Settings of a session, gathered before it is built.
pub struct ClientBuilder {
    pub rsa_key_size: Option<usize>,
    pub server: Option<String>,
    pub auth_token: Option<AuthToken>,
    pub correlation_config: Option<CorrelationConfig>,
    pub tls_option: TlsOption,
    pub timeout: Option<Duration>,
    pub ssl_verify: bool,
    pub parse_logs: bool,
    pub dns_override: Option<IpAddress>,
}

/// What building a session yields: its key, its protocol state, and the
/// settings of the transport that carries its calls.
pub struct ClientParts {
    pub rsa_key: RustCryptoPrivateKey,
    pub server_comm: ServerComm,
    pub parse_logs: bool,
    pub tls_option: TlsOption,
    pub timeout: Duration,
    pub ssl_verify: bool,
    pub dns_override: Option<IpAddress>,
}

impl ClientBuilder {
    /// A builder with nothing set.
    pub fn new() -> (r: ClientBuilder)
        ensures
            r.rsa_key_size is None,
            r.server is None,
            r.auth_token is None,
            r.correlation_config is None,
            r.tls_option == TlsOption::Rustls,
            r.timeout is None,
            !r.ssl_verify,
            r.parse_logs,
            r.dns_override is None,
    {
        ClientBuilder {
            rsa_key_size: None,
            server: None,
            auth_token: None,
            correlation_config: None,
            tls_option: TlsOption::Rustls,
            timeout: None,
            ssl_verify: false,
            parse_logs: true,
            dns_override: None,
        }
    }

    /// A builder with a 2048-bit key, a server drawn from the default pool,
    /// a 15 second timeout, no certificate checks and log parsing on.
    pub fn default_settings() -> (r: ClientBuilder)
        ensures
            r.rsa_key_size == Some(DEFAULT_RSA_BITS),
            r.server matches Some(s) && default_servers().contains(s@),
            r.auth_token is None,
            r.correlation_config is None,
            r.timeout is Some,
            !r.ssl_verify,
            r.parse_logs,
            r.dns_override is None,
    {
        let choice = random_below(DEFAULT_SERVER_COUNT);
        let server = pick_default_server(choice);
        assert(default_servers().contains(server@)) by {
            assert(default_servers()[(choice % DEFAULT_SERVER_COUNT) as int] == server@);
        }
        ClientBuilder {
            rsa_key_size: Some(DEFAULT_RSA_BITS),
            server: Some(server),
            auth_token: None,
            correlation_config: None,
            tls_option: TlsOption::Rustls,
            timeout: Some(seconds(DEFAULT_TIMEOUT_SECS)),
            ssl_verify: false,
            parse_logs: true,
            dns_override: None,
        }
    }

    /// Sets the size of the RSA key the builder generates.
    pub fn with_rsa_key_size(self, num_bits: usize) -> (r: ClientBuilder)
        ensures
            r == (ClientBuilder { rsa_key_size: Some(num_bits), ..self }),
    {
        ClientBuilder { rsa_key_size: Some(num_bits), ..self }
    }

    /// Sets the interaction server.
    pub fn with_server(self, server: String) -> (r: ClientBuilder)
        ensures
            r == (ClientBuilder { server: Some(server), ..self }),
    {
        ClientBuilder { server: Some(server), ..self }
    }

    /// Sets a token to send as it is in the `Authorization` header of each
    /// call.
    pub fn with_auth_token(self, auth_token: String) -> (r: ClientBuilder)
        ensures
            r == (ClientBuilder { auth_token: Some(AuthToken::SimpleAuth(auth_token)), ..self }),
    {
        ClientBuilder { auth_token: Some(AuthToken::SimpleAuth(auth_token)), ..self }
    }

    /// Sets the token of the `Authorization` header, plain or bearer.
    pub fn with_auth(self, auth_token: AuthToken) -> (r: ClientBuilder)
        ensures
            r == (ClientBuilder { auth_token: Some(auth_token), ..self }),
    {
        ClientBuilder { auth_token: Some(auth_token), ..self }
    }

    /// Sets the lengths of the identities drawn at registration; they must
    /// match what the server expects.
    pub fn with_correlation_config(self, config: CorrelationConfig) -> (r: ClientBuilder)
        ensures
            r == (ClientBuilder { correlation_config: Some(config), ..self }),
    {
        ClientBuilder { correlation_config: Some(config), ..self }
    }

    /// Uses the platform's native TLS.
    pub fn use_native_tls(self) -> (r: ClientBuilder)
        ensures
            r == (ClientBuilder { tls_option: TlsOption::Native, ..self }),
    {
        ClientBuilder { tls_option: TlsOption::Native, ..self }
    }

    /// Uses rustls.
    pub fn use_rustls_tls(self) -> (r: ClientBuilder)
        ensures
            r == (ClientBuilder { tls_option: TlsOption::Rustls, ..self }),
    {
        ClientBuilder { tls_option: TlsOption::Rustls, ..self }
    }

    /// Sets the timeout of each call.
    pub fn with_timeout(self, timeout: Duration) -> (r: ClientBuilder)
        ensures
            r == (ClientBuilder { timeout: Some(timeout), ..self }),
    {
        ClientBuilder { timeout: Some(timeout), ..self }
    }

    /// Sets whether the server's certificate is checked.
    pub fn verify_ssl(self, ssl_verify: bool) -> (r: ClientBuilder)
        ensures
            r == (ClientBuilder { ssl_verify, ..self }),
    {
        ClientBuilder { ssl_verify, ..self }
    }

    /// Sets whether logs are read as records or kept raw.
    pub fn parse_logs(self, parse_logs: bool) -> (r: ClientBuilder)
        ensures
            r == (ClientBuilder { parse_logs, ..self }),
    {
        ClientBuilder { parse_logs, ..self }
    }

    /// Resolves the server to this address instead of asking DNS.
    pub fn set_dns_override(self, server_ip_address: IpAddress) -> (r: ClientBuilder)
        ensures
            r == (ClientBuilder { dns_override: Some(server_ip_address), ..self }),
    {
        ClientBuilder { dns_override: Some(server_ip_address), ..self }
    }

    /// Builds the session: `MissingServer` without a server, else
    /// `MissingRsaKeyOption` without a key size, else the key is generated
    /// (`RsaGen` on failure, always for sizes outside the allowed range) and
    /// its public half encoded (`PubKeyEncode` on failure). The session starts
    /// unregistered, with a fresh random secret.
    pub fn build(self) -> (r: Result<ClientParts, ClientBuildError>)
        ensures
            self.server is None ==> r == Err::<ClientParts, _>(ClientBuildError::MissingServer),
            self.server is Some && self.rsa_key_size is None ==> r == Err::<ClientParts, _>(
                ClientBuildError::MissingRsaKeyOption,
            ),
            (self.server is Some && (self.rsa_key_size matches Some(bits)
                && !crate::pkey::rsa_bits_allowed(bits))) ==> r == Err::<ClientParts, _>(
                ClientBuildError::RsaGen(CryptoError::PkeyGen),
            ),
            r matches Err(ClientBuildError::MissingServer) ==> self.server is None,
            r matches Err(ClientBuildError::MissingRsaKeyOption) ==> (self.server is Some
                && self.rsa_key_size is None),
            (r matches Err(ClientBuildError::RsaGen(_)) || r matches Err(
                ClientBuildError::PubKeyEncode(_),
            )) ==> (self.server is Some && self.rsa_key_size is Some),
            r matches Err(e) ==> e == ClientBuildError::MissingServer || e
                == ClientBuildError::MissingRsaKeyOption || e == ClientBuildError::RsaGen(
                CryptoError::PkeyGen,
            ) || e == ClientBuildError::PubKeyEncode(CryptoError::PkeyPubEncode),
            r matches Ok(parts) ==> {
                &&& self.server == Some(parts.server_comm.server_name)
                &&& parts.server_comm.auth_token == self.auth_token
                &&& parts.server_comm.correlation_config == self.correlation_config
                &&& parts.server_comm.status == ClientStatus::Unregistered
                &&& parts.server_comm.secret_key@.len() == 36
                &&& parts.parse_logs == self.parse_logs
                &&& parts.tls_option == self.tls_option
                &&& parts.ssl_verify == self.ssl_verify
                &&& parts.dns_override == self.dns_override
                &&& (self.timeout matches Some(t) ==> parts.timeout == t)
            },
    {
        let server = match self.server {
            Some(s) => s,
            None => return Err(ClientBuildError::MissingServer),
        };
        let bits = match self.rsa_key_size {
            Some(b) => b,
            None => return Err(ClientBuildError::MissingRsaKeyOption),
        };
        let rsa_key = match RustCryptoPrivateKey::generate(bits) {
            Ok(k) => k,
            Err(e) => return Err(ClientBuildError::RsaGen(e)),
        };
        let encoded_pub_key = match rsa_key.get_encoded_pub_key() {
            Ok(k) => k,
            Err(e) => return Err(ClientBuildError::PubKeyEncode(e)),
        };
        let secret = random_secret();
        let timeout = match self.timeout {
            Some(t) => t,
            None => seconds(DEFAULT_TIMEOUT_SECS),
        };
        let server_comm = ServerComm::new(
            server,
            self.auth_token,
            secret,
            encoded_pub_key,
            self.correlation_config,
        );
        Ok(
            ClientParts {
                rsa_key,
                server_comm,
                parse_logs: self.parse_logs,
                tls_option: self.tls_option,
                timeout,
                ssl_verify: self.ssl_verify,
                dns_override: self.dns_override,
            },
        )
    }
}

impl Default for ClientBuilder {
    fn default() -> (r: ClientBuilder)
        ensures
            r.rsa_key_size == Some(DEFAULT_RSA_BITS),
            r.server matches Some(s) && default_servers().contains(s@),
    {
        ClientBuilder::default_settings()
    }
}

} // verus!
