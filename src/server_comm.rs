//! The registration protocol and the session's state: `Unregistered` or
//! `Registered` with a subdomain and correlation id. Each server call is split
//! in two verified steps around the network round trip that the caller makes:
//! one that checks the state and builds the request, one that takes the
//! outcome and moves the state. A failed call never changes the state.

use std::sync::Arc;
use vstd::prelude::*;

use crate::correlation::{is_lower_alnum, CorrelationConfig, CorrelationData};

verus! {

/// The `https://{server}/{action}` address of a server endpoint.
pub open spec fn endpoint_url(server: Seq<char>, action: Seq<char>) -> Seq<char> {
    "https://"@ + server + "/"@ + action
}

/// The interaction FQDN: the subdomain under the server's name.
pub open spec fn fqdn_of(subdomain: Seq<char>, server: Seq<char>) -> Seq<char> {
    subdomain + "."@ + server
}

fn endpoint(server: &str, action: &str) -> (r: String)
    ensures
        r@ == endpoint_url(server@, action@),
{
    let r = String::from_str("https://").concat(server).concat("/").concat(action);
    assert(r@ =~= endpoint_url(server@, action@));
    r
}

/// A token sent in the `Authorization` header: as it is, or after `Bearer `.
#[derive(Debug, Clone, PartialEq, Eq)]
pub enum AuthToken {
    SimpleAuth(String),
    BearerAuth(String),
}

/// The `Authorization` header value for a token.
pub open spec fn auth_header_text(t: AuthToken) -> Seq<char> {
    match t {
        AuthToken::SimpleAuth(s) => s@,
        AuthToken::BearerAuth(s) => "Bearer "@ + s@,
    }
}

impl AuthToken {
    /// The `Authorization` header value.
    pub fn header_value(&self) -> (r: String)
        ensures
            r@ == auth_header_text(*self),
    {
        match self {
            AuthToken::SimpleAuth(s) => s.clone(),
            AuthToken::BearerAuth(s) => String::from_str("Bearer ").concat(s.as_str()),
        }
    }
}

/// The session's registration state.
#[derive(Debug, Clone, PartialEq, Eq)]
pub enum ClientStatus {
    Unregistered,
    Registered { subdomain: String, correlation_id: String },
}

/// A subdomain together with the server it lives under.
#[derive(Debug, Clone, PartialEq, Eq)]
pub struct InteractionFqdn {
    pub subdomain: String,
    pub server: String,
}

impl InteractionFqdn {
    /// `subdomain.server`.
    pub fn to_fqdn_string(&self) -> (r: String)
        ensures
            r@ == fqdn_of(self.subdomain@, self.server@),
    {
        let r = self.subdomain.clone().concat(".").concat(self.server.as_str());
        assert(r@ =~= fqdn_of(self.subdomain@, self.server@));
        r
    }
}

impl CorrelationData {
    /// The registered state for this identity, and the identity's FQDN under
    /// `server`.
    pub fn into_client_status(self, server: String) -> (r: (ClientStatus, Arc<InteractionFqdn>))
        ensures
            r.0 == (ClientStatus::Registered {
                subdomain: self.subdomain,
                correlation_id: self.correlation_id,
            }),
            r.1.subdomain@ == self.subdomain@,
            r.1.server@ == server@,
    {
        let fqdn = Arc::new(InteractionFqdn { subdomain: self.subdomain.clone(), server });
        let status = ClientStatus::Registered {
            subdomain: self.subdomain,
            correlation_id: self.correlation_id,
        };
        (status, fqdn)
    }
}

/// Body of a register call.
#[derive(Debug, Clone, PartialEq, Eq)]
pub struct RegisterData {
    pub public_key: String,
    pub secret_key: String,
    pub correlation_id: String,
}

/// Body of a deregister call.
#[derive(Debug, Clone, PartialEq, Eq)]
pub struct DeregisterData {
    pub correlation_id: String,
    pub secret_key: String,
}

/// A poll call: its address and the credentials of its query.
#[derive(Debug, Clone, PartialEq, Eq)]
pub struct PollRequest {
    pub url: String,
    pub correlation_id: String,
    pub secret_key: String,
}

/// The two calls that change the registration.
#[derive(Debug, Clone, Copy, PartialEq, Eq, Structural)]
pub enum RegistrationAction {
    Register,
    Deregister,
}

impl RegistrationAction {
    pub open spec fn spec_name(self) -> Seq<char> {
        match self {
            RegistrationAction::Register => "register"@,
            RegistrationAction::Deregister => "deregister"@,
        }
    }

    /// The endpoint of this action on `server_name`.
    pub fn into_action_url(self, server_name: &str) -> (r: String)
        ensures
            r@ == endpoint_url(server_name@, self.spec_name()),
    {
        let action = match self {
            RegistrationAction::Register => "register",
            RegistrationAction::Deregister => "deregister",
        };
        endpoint(server_name, action)
    }
}

/// What came back from one server call.
#[derive(Debug, Clone, PartialEq, Eq)]
pub enum HttpOutcome {
    /// The request could not be sent or no response arrived.
    SendFailed,
    /// The server answered with this status and body.
    Response { status_code: u16, body: String },
}

/// Failures of register and deregister.
#[derive(Debug, Clone, PartialEq, Eq)]
pub enum RegistrationError {
    RequestSendFailure,
    Unauthorized,
    RegistrationFailure { server_msg: String, status_code: u16 },
    AlreadyRegistered,
    NotCurrentlyRegistered,
}

/// Failures of a poll.
#[derive(Debug, Clone, PartialEq, Eq)]
pub enum PollError {
    PollFailure,
    PollErrorStatus { server_msg: String, status_code: u16 },
    ResponseJsonParseFailed,
    AesKeyDecryptFailed,
    DataDecryptFailed,
    AesBase64DecodeFailed,
    DataBase64DecodeFailed,
    NotCurrentlyRegistered,
}

pub open spec fn is_success(status_code: u16) -> bool {
    200 <= status_code <= 299
}

/// How a register or deregister reply is read: any 2xx is success, 401 is
/// `Unauthorized`, any other status a failure carrying the body.
pub open spec fn registration_reply(o: HttpOutcome) -> Result<(), RegistrationError> {
    match o {
        HttpOutcome::SendFailed => Err(RegistrationError::RequestSendFailure),
        HttpOutcome::Response { status_code, body } => if is_success(status_code) {
            Ok(())
        } else if status_code == 401 {
            Err(RegistrationError::Unauthorized)
        } else {
            Err(RegistrationError::RegistrationFailure { server_msg: body, status_code })
        },
    }
}

/// How a poll reply is read: a 2xx hands on its body, any other status is a
/// failure carrying the body.
pub open spec fn poll_reply(o: HttpOutcome) -> Result<String, PollError> {
    match o {
        HttpOutcome::SendFailed => Err(PollError::PollFailure),
        HttpOutcome::Response { status_code, body } => if is_success(status_code) {
            Ok(body)
        } else {
            Err(PollError::PollErrorStatus { server_msg: body, status_code })
        },
    }
}

/// Reads a register or deregister reply.
pub fn check_registration_reply(outcome: HttpOutcome) -> (r: Result<(), RegistrationError>)
    ensures
        r == registration_reply(outcome),
{
    match outcome {
        HttpOutcome::SendFailed => Err(RegistrationError::RequestSendFailure),
        HttpOutcome::Response { status_code, body } => {
            if 200 <= status_code && status_code <= 299 {
                Ok(())
            } else if status_code == 401 {
                Err(RegistrationError::Unauthorized)
            } else {
                Err(RegistrationError::RegistrationFailure { server_msg: body, status_code })
            }
        },
    }
}

/// Reads a poll reply, handing on the body of a success.
pub fn check_poll_reply(outcome: HttpOutcome) -> (r: Result<String, PollError>)
    ensures
        r == poll_reply(outcome),
{
    match outcome {
        HttpOutcome::SendFailed => Err(PollError::PollFailure),
        HttpOutcome::Response { status_code, body } => {
            if 200 <= status_code && status_code <= 299 {
                Ok(body)
            } else {
                Err(PollError::PollErrorStatus { server_msg: body, status_code })
            }
        },
    }
}

/// The session's side of the protocol: where it talks to, its credentials,
/// and its registration state.
#[derive(Debug)]
pub struct ServerComm {
    pub server_name: String,
    pub auth_token: Option<AuthToken>,
    pub secret_key: String,
    pub encoded_pub_key: String,
    pub correlation_config: Option<CorrelationConfig>,
    pub status: ClientStatus,
}

/// The credentials a poll would use in this state, if it may poll at all.
pub open spec fn poll_credentials(s: ServerComm) -> Option<(Seq<char>, Seq<char>)> {
    match s.status {
        ClientStatus::Unregistered => None,
        ClientStatus::Registered { correlation_id, .. } => Some((correlation_id@, s.secret_key@)),
    }
}

/// The state after a deregistration with this outcome.
pub open spec fn after_deregister(s: ServerComm, outcome: HttpOutcome) -> ServerComm {
    match s.status {
        ClientStatus::Unregistered => s,
        ClientStatus::Registered { .. } => if registration_reply(outcome) is Ok {
            ServerComm { status: ClientStatus::Unregistered, ..s }
        } else {
            s
        },
    }
}

/// The state after a registration of `identity` with this outcome.
pub open spec fn after_register(s: ServerComm, identity: CorrelationData, outcome: HttpOutcome) -> ServerComm {
    match s.status {
        ClientStatus::Registered { .. } => s,
        ClientStatus::Unregistered => if registration_reply(outcome) is Ok {
            ServerComm {
                status: ClientStatus::Registered {
                    subdomain: identity.subdomain,
                    correlation_id: identity.correlation_id,
                },
                ..s
            }
        } else {
            s
        },
    }
}

impl ServerComm {
    /// A session that is not registered yet.
    pub fn new(
        server_name: String,
        auth_token: Option<AuthToken>,
        secret_key: String,
        encoded_pub_key: String,
        correlation_config: Option<CorrelationConfig>,
    ) -> (r: ServerComm)
        ensures
            r.server_name == server_name,
            r.auth_token == auth_token,
            r.secret_key == secret_key,
            r.encoded_pub_key == encoded_pub_key,
            r.correlation_config == correlation_config,
            r.status == ClientStatus::Unregistered,
    {
        ServerComm {
            server_name,
            auth_token,
            secret_key,
            encoded_pub_key,
            correlation_config,
            status: ClientStatus::Unregistered,
        }
    }

    /// The `Authorization` header to send with each call, if any.
    pub fn authorization(&self) -> (r: Option<String>)
        ensures
            match self.auth_token {
                None => r is None,
                Some(t) => r matches Some(h) && h@ == auth_header_text(t),
            },
    {
        match &self.auth_token {
            None => None,
            Some(t) => Some(t.header_value()),
        }
    }

    /// The interaction FQDN while registered.
    pub fn get_interaction_fqdn(&self) -> (r: Option<String>)
        ensures
            match self.status {
                ClientStatus::Unregistered => r is None,
                ClientStatus::Registered { subdomain, .. } => r matches Some(f) && f@ == fqdn_of(
                    subdomain@,
                    self.server_name@,
                ),
            },
    {
        match &self.status {
            ClientStatus::Unregistered => None,
            ClientStatus::Registered { subdomain, .. } => {
                let f = InteractionFqdn { subdomain: subdomain.clone(), server: self.server_name.clone() };
                Some(f.to_fqdn_string())
            },
        }
    }

    pub open spec fn spec_identity_config(&self) -> CorrelationConfig {
        match self.correlation_config {
            Some(c) => c,
            None => CorrelationConfig { subdomain_length: 33, correlation_id_length: 20 },
        }
    }

    /// The lengths of the identities this session draws.
    pub fn identity_config(&self) -> (r: CorrelationConfig)
        ensures
            r == self.spec_identity_config(),
    {
        match self.correlation_config {
            Some(c) => c,
            None => CorrelationConfig::default_lengths(),
        }
    }

    /// First step of a registration: refuses with `AlreadyRegistered` while
    /// registered; otherwise draws a fresh identity and builds the request
    /// body around it.
    pub fn register_request(&self) -> (r: Result<(CorrelationData, RegisterData), RegistrationError>)
        ensures
            self.status is Registered ==> r == Err::<(CorrelationData, RegisterData), _>(
                RegistrationError::AlreadyRegistered,
            ),
            self.status is Unregistered ==> (r matches Ok((id, data)) && data.public_key
                == self.encoded_pub_key && data.secret_key == self.secret_key
                && data.correlation_id@ == id.correlation_id@ && id.subdomain@.len()
                == self.spec_identity_config().subdomain_length && id.correlation_id@.len()
                == self.spec_identity_config().correlation_id_length
                && (self.spec_identity_config().correlation_id_length
                <= self.spec_identity_config().subdomain_length ==> id.correlation_id@.is_prefix_of(
                id.subdomain@)) && (self.spec_identity_config().subdomain_length
                <= self.spec_identity_config().correlation_id_length ==> id.subdomain@.is_prefix_of(
                id.correlation_id@)) && (forall|i: int|
                0 <= i < id.subdomain@.len() ==> is_lower_alnum(#[trigger] id.subdomain@[i]))
                && (forall|i: int|
                0 <= i < id.correlation_id@.len() ==> is_lower_alnum(
                #[trigger] id.correlation_id@[i],
            ))),
    {
        if let ClientStatus::Registered { .. } = self.status {
            return Err(RegistrationError::AlreadyRegistered);
        }
        let config = self.identity_config();
        let identity = CorrelationData::generate_data(&config);
        let data = RegisterData {
            public_key: self.encoded_pub_key.clone(),
            secret_key: self.secret_key.clone(),
            correlation_id: identity.correlation_id.clone(),
        };
        Ok((identity, data))
    }

    /// The register endpoint.
    pub fn register_url(&self) -> (r: String)
        ensures
            r@ == endpoint_url(self.server_name@, "register"@),
    {
        RegistrationAction::Register.into_action_url(self.server_name.as_str())
    }

    /// Second step of a registration: on success the session becomes
    /// registered under `identity` and its FQDN is returned; on any failure
    /// the state is left as it was.
    pub fn complete_register(&mut self, identity: CorrelationData, outcome: HttpOutcome) -> (r: Result<String, RegistrationError>)
        ensures
            *final(self) == after_register(*old(self), identity, outcome),
            old(self).status is Registered ==> r == Err::<String, _>(
                RegistrationError::AlreadyRegistered,
            ),
            old(self).status is Unregistered ==> match registration_reply(outcome) {
                Ok(_) => r matches Ok(f) && f@ == fqdn_of(identity.subdomain@, old(self).server_name@),
                Err(e) => r == Err::<String, _>(e),
            },
    {
        if let ClientStatus::Registered { .. } = self.status {
            return Err(RegistrationError::AlreadyRegistered);
        }
        match check_registration_reply(outcome) {
            Ok(()) => {
                let (status, fqdn) = identity.into_client_status(self.server_name.clone());
                self.status = status;
                Ok(fqdn.to_fqdn_string())
            },
            Err(e) => Err(e),
        }
    }

    /// First step of a deregistration: refuses with `NotCurrentlyRegistered`
    /// while unregistered; otherwise builds the request body.
    pub fn deregister_request(&self) -> (r: Result<DeregisterData, RegistrationError>)
        ensures
            match self.status {
                ClientStatus::Unregistered => r == Err::<DeregisterData, _>(
                    RegistrationError::NotCurrentlyRegistered,
                ),
                ClientStatus::Registered { correlation_id, .. } => r == Ok::<_, RegistrationError>(
                    DeregisterData { correlation_id, secret_key: self.secret_key },
                ),
            },
    {
        match &self.status {
            ClientStatus::Unregistered => Err(RegistrationError::NotCurrentlyRegistered),
            ClientStatus::Registered { correlation_id, .. } => Ok(
                DeregisterData {
                    correlation_id: correlation_id.clone(),
                    secret_key: self.secret_key.clone(),
                },
            ),
        }
    }

    /// The deregister endpoint.
    pub fn deregister_url(&self) -> (r: String)
        ensures
            r@ == endpoint_url(self.server_name@, "deregister"@),
    {
        RegistrationAction::Deregister.into_action_url(self.server_name.as_str())
    }

    /// Second step of a deregistration: on success the session becomes
    /// unregistered; on any failure the state is left as it was, so the
    /// session can still poll.
    pub fn complete_deregister(&mut self, outcome: HttpOutcome) -> (r: Result<(), RegistrationError>)
        ensures
            *final(self) == after_deregister(*old(self), outcome),
            old(self).status is Unregistered ==> r == Err::<(), _>(
                RegistrationError::NotCurrentlyRegistered,
            ),
            old(self).status is Registered ==> r == registration_reply(outcome),
    {
        if let ClientStatus::Unregistered = self.status {
            return Err(RegistrationError::NotCurrentlyRegistered);
        }
        match check_registration_reply(outcome) {
            Ok(()) => {
                self.status = ClientStatus::Unregistered;
                Ok(())
            },
            Err(e) => Err(e),
        }
    }

    /// Ends the registration whatever the server said: the session is
    /// unregistered afterwards and nothing else changes.
    pub fn force_deregister(&mut self)
        ensures
            *final(self) == (ServerComm { status: ClientStatus::Unregistered, ..*old(self) }),
    {
        self.status = ClientStatus::Unregistered;
    }

    /// First step of a poll: refuses with `NotCurrentlyRegistered` while
    /// unregistered; otherwise captures the current credentials.
    pub fn poll_request(&self) -> (r: Result<PollRequest, PollError>)
        ensures
            match poll_credentials(*self) {
                None => r == Err::<PollRequest, _>(PollError::NotCurrentlyRegistered),
                Some(c) => r matches Ok(req) && (req.correlation_id@, req.secret_key@) == c
                    && req.url@ == endpoint_url(self.server_name@, "poll"@),
            },
    {
        match &self.status {
            ClientStatus::Unregistered => Err(PollError::NotCurrentlyRegistered),
            ClientStatus::Registered { correlation_id, .. } => Ok(
                PollRequest {
                    url: endpoint(self.server_name.as_str(), "poll"),
                    correlation_id: correlation_id.clone(),
                    secret_key: self.secret_key.clone(),
                },
            ),
        }
    }
}

/// Registering while registered is refused and changes nothing.
pub proof fn lemma_register_when_registered(s: ServerComm, identity: CorrelationData, outcome: HttpOutcome)
    requires
        s.status is Registered,
    ensures
        after_register(s, identity, outcome) == s,
{
}

/// Deregistering while unregistered is refused and changes nothing.
pub proof fn lemma_deregister_when_unregistered(s: ServerComm, outcome: HttpOutcome)
    requires
        s.status is Unregistered,
    ensures
        after_deregister(s, outcome) == s,
{
}

/// A poll keeps the credentials it captured: after a deregistration, whatever
/// its outcome, a later poll either is refused or captures exactly the same
/// credentials, never a mix of old and new.
pub proof fn lemma_poll_credentials_across_deregister(s: ServerComm, outcome: HttpOutcome)
    requires
        s.status is Registered,
    ensures
        poll_credentials(s) is Some,
        poll_credentials(after_deregister(s, outcome)) is None || poll_credentials(
            after_deregister(s, outcome),
        ) == poll_credentials(s),
        registration_reply(outcome) is Ok ==> poll_credentials(after_deregister(s, outcome)) is None,
        registration_reply(outcome) is Err ==> poll_credentials(after_deregister(s, outcome))
            == poll_credentials(s),
{
}

} // verus!
