use aes::cipher::{AsyncStreamCipher, KeyIvInit};
use base64::Engine;
use interactsh_rs::builder::{pick_default_server, ClientBuildError, ClientBuilder};
use interactsh_rs::correlation::{CorrelationConfig, CorrelationData};
use interactsh_rs::crypto_error::CryptoError;
use interactsh_rs::interaction_log::{LogEntry, ParsedLogEntry, RawLog};
use interactsh_rs::log_decrypt::{decrypt_logs, decrypt_payload, PollResponse};
use interactsh_rs::pkey::{PrivateKey, RustCryptoPrivateKey, RustCryptoPrivateKeySize};
use interactsh_rs::server_comm::{
    check_poll_reply, check_registration_reply, AuthToken, ClientStatus, HttpOutcome, PollError, RegistrationAction,
    RegistrationError, ServerComm,
};
use rsa::pkcs8::DecodePublicKey;

fn b64(bytes: &[u8]) -> String {
    base64::engine::general_purpose::STANDARD.encode(bytes)
}

fn registered_comm() -> ServerComm {
    let mut comm = ServerComm::new(
        "oast.pro".to_string(),
        None,
        "secret".to_string(),
        "cHVi".to_string(),
        None,
    );
    let (identity, data) = comm.register_request().unwrap();
    assert_eq!(data.public_key, "cHVi");
    assert_eq!(data.secret_key, "secret");
    assert_eq!(data.correlation_id, identity.correlation_id);
    let fqdn = comm
        .complete_register(identity.clone(), HttpOutcome::Response { status_code: 200, body: String::new() })
        .unwrap();
    assert_eq!(fqdn, format!("{}.oast.pro", identity.subdomain));
    assert_eq!(comm.get_interaction_fqdn(), Some(fqdn));
    comm
}

#[test]
fn identities_are_prefixes_and_lowercase() {
    for (sub, corr) in [(33usize, 20usize), (20, 20), (5, 1), (1, 1), (12, 30)] {
        let config = CorrelationConfig { subdomain_length: sub, correlation_id_length: corr };
        let id = CorrelationData::generate_data(&config);
        assert_eq!(id.subdomain.chars().count(), sub);
        assert_eq!(id.correlation_id.chars().count(), corr);
        let (short, long) = if corr <= sub { (&id.correlation_id, &id.subdomain) } else { (&id.subdomain, &id.correlation_id) };
        assert!(long.starts_with(short.as_str()));
        assert!(id.subdomain.chars().all(|c| c.is_ascii_lowercase() || c.is_ascii_digit()));
        assert!(id.correlation_id.chars().all(|c| c.is_ascii_lowercase() || c.is_ascii_digit()));
    }
    assert_eq!(CorrelationConfig::default(), CorrelationConfig { subdomain_length: 33, correlation_id_length: 20 });
}

#[test]
fn identity_cut_from_a_sample() {
    let config = CorrelationConfig { subdomain_length: 6, correlation_id_length: 3 };
    let id = CorrelationData::from_sample("AbC9xYz", &config);
    assert_eq!(id.subdomain, "abc9xy");
    assert_eq!(id.correlation_id, "abc");
}

#[test]
fn register_while_registered_is_refused_and_changes_nothing() {
    let mut comm = registered_comm();
    let before = comm.status.clone();
    assert_eq!(comm.register_request().unwrap_err(), RegistrationError::AlreadyRegistered);
    let other = CorrelationData { subdomain: "x".to_string(), correlation_id: "y".to_string() };
    let r = comm.complete_register(other, HttpOutcome::Response { status_code: 200, body: String::new() });
    assert_eq!(r, Err(RegistrationError::AlreadyRegistered));
    assert_eq!(comm.status, before);
}

#[test]
fn deregister_while_unregistered_is_refused() {
    let mut comm = ServerComm::new("oast.pro".into(), None, "s".into(), "k".into(), None);
    assert_eq!(comm.deregister_request().unwrap_err(), RegistrationError::NotCurrentlyRegistered);
    assert_eq!(
        comm.complete_deregister(HttpOutcome::Response { status_code: 200, body: String::new() }),
        Err(RegistrationError::NotCurrentlyRegistered)
    );
    assert_eq!(comm.poll_request().unwrap_err(), PollError::NotCurrentlyRegistered);
    assert_eq!(comm.get_interaction_fqdn(), None);
}

#[test]
fn failed_calls_leave_the_state_alone() {
    let mut comm = ServerComm::new("oast.pro".into(), None, "s".into(), "k".into(), None);
    let (identity, _) = comm.register_request().unwrap();
    assert_eq!(
        comm.complete_register(identity.clone(), HttpOutcome::Response { status_code: 401, body: "no".into() }),
        Err(RegistrationError::Unauthorized)
    );
    assert_eq!(comm.status, ClientStatus::Unregistered);
    assert_eq!(
        comm.complete_register(identity.clone(), HttpOutcome::Response { status_code: 500, body: "boom".into() }),
        Err(RegistrationError::RegistrationFailure { server_msg: "boom".into(), status_code: 500 })
    );
    assert_eq!(comm.complete_register(identity, HttpOutcome::SendFailed), Err(RegistrationError::RequestSendFailure));
    assert_eq!(comm.status, ClientStatus::Unregistered);

    let mut comm = registered_comm();
    let before = comm.status.clone();
    assert_eq!(
        comm.complete_deregister(HttpOutcome::Response { status_code: 503, body: "later".into() }),
        Err(RegistrationError::RegistrationFailure { server_msg: "later".into(), status_code: 503 })
    );
    assert_eq!(comm.status, before);
    assert!(comm.poll_request().is_ok());
    assert_eq!(comm.complete_deregister(HttpOutcome::Response { status_code: 204, body: String::new() }), Ok(()));
    assert_eq!(comm.status, ClientStatus::Unregistered);
}

#[test]
fn force_deregister_always_ends_the_registration() {
    let mut comm = registered_comm();
    comm.force_deregister();
    assert_eq!(comm.status, ClientStatus::Unregistered);
}

#[test]
fn polls_keep_the_credentials_they_captured() {
    let mut comm = registered_comm();
    let first = comm.poll_request().unwrap();
    let correlation_id = match &comm.status {
        ClientStatus::Registered { correlation_id, .. } => correlation_id.clone(),
        ClientStatus::Unregistered => unreachable!(),
    };
    assert_eq!(first.url, "https://oast.pro/poll");
    assert_eq!(first.correlation_id, correlation_id);
    assert_eq!(first.secret_key, "secret");
    let _ = comm.deregister_request().unwrap();
    comm.complete_deregister(HttpOutcome::SendFailed).unwrap_err();
    let second = comm.poll_request().unwrap();
    assert_eq!(second, first);
    comm.complete_deregister(HttpOutcome::Response { status_code: 200, body: String::new() }).unwrap();
    assert_eq!(comm.poll_request().unwrap_err(), PollError::NotCurrentlyRegistered);
    assert_eq!(first.correlation_id, correlation_id);
}

#[test]
fn replies_are_classified() {
    assert_eq!(check_registration_reply(HttpOutcome::Response { status_code: 200, body: "".into() }), Ok(()));
    assert_eq!(
        check_registration_reply(HttpOutcome::Response { status_code: 401, body: "".into() }),
        Err(RegistrationError::Unauthorized)
    );
    assert_eq!(
        check_registration_reply(HttpOutcome::Response { status_code: 404, body: "nope".into() }),
        Err(RegistrationError::RegistrationFailure { server_msg: "nope".into(), status_code: 404 })
    );
    assert_eq!(check_poll_reply(HttpOutcome::Response { status_code: 200, body: "{}".into() }), Ok("{}".into()));
    assert_eq!(
        check_poll_reply(HttpOutcome::Response { status_code: 401, body: "who".into() }),
        Err(PollError::PollErrorStatus { server_msg: "who".into(), status_code: 401 })
    );
    assert_eq!(check_poll_reply(HttpOutcome::SendFailed), Err(PollError::PollFailure));
    assert_eq!(RegistrationAction::Register.into_action_url("oast.fun"), "https://oast.fun/register");
    assert_eq!(RegistrationAction::Deregister.into_action_url("oast.fun"), "https://oast.fun/deregister");
}

#[test]
fn into_client_status_registers_the_identity() {
    let id = CorrelationData { subdomain: "abcdef".into(), correlation_id: "abc".into() };
    let (status, fqdn) = id.into_client_status("oast.site".into());
    assert_eq!(status, ClientStatus::Registered { subdomain: "abcdef".into(), correlation_id: "abc".into() });
    assert_eq!(fqdn.to_fqdn_string(), "abcdef.oast.site");
}

#[test]
fn empty_polls_bring_no_data_without_touching_the_key() {
    let key = RustCryptoPrivateKey::new_with_settings(RustCryptoPrivateKeySize(1024)).unwrap();
    let absent = PollResponse { aes_key: "not base64 at all!".into(), data_list: None };
    assert_eq!(decrypt_logs(absent, &key, true), Ok(None));
    let empty = PollResponse { aes_key: "not base64 at all!".into(), data_list: Some(vec![]) };
    assert_eq!(decrypt_logs(empty, &key, true), Ok(None));
}

const HTTP_PAYLOAD: &str = "{\"protocol\":\"http\",\"unique-id\":\"abc\",\"full-id\":\"abc123\",\"raw-request\":\"GET / HTTP/1.1\",\"raw-response\":\"HTTP/1.1 200 OK\",\"remote-address\":\"203.0.113.5\",\"timestamp\":\"2024-01-01T00:00:00Z\"}";

fn wrapped_poll(key: &RustCryptoPrivateKey, texts: &[&str]) -> PollResponse {
    let encoded = key.get_encoded_pub_key().unwrap();
    let pem = base64::engine::general_purpose::STANDARD.decode(encoded).unwrap();
    let public = rsa::RsaPublicKey::from_public_key_pem(std::str::from_utf8(&pem).unwrap()).unwrap();
    let aes_key = [7u8; 32];
    let wrapped = public.encrypt(&mut rand::thread_rng(), rsa::Oaep::new::<sha2::Sha256>(), &aes_key).unwrap();
    let data = texts
        .iter()
        .enumerate()
        .map(|(i, t)| {
            let iv = [i as u8; 16];
            let mut buf = t.as_bytes().to_vec();
            cfb_mode::Encryptor::<aes::Aes256>::new((&aes_key).into(), (&iv).into()).encrypt(&mut buf);
            let mut payload = iv.to_vec();
            payload.extend_from_slice(&buf);
            b64(&payload)
        })
        .collect();
    PollResponse { aes_key: b64(&wrapped), data_list: Some(data) }
}

#[test]
fn full_pipeline_yields_records_or_raw_text() {
    let key = RustCryptoPrivateKey::new_with_settings(RustCryptoPrivateKeySize(1024)).unwrap();
    let response = wrapped_poll(&key, &[HTTP_PAYLOAD, "not json"]);
    let logs = decrypt_logs(response.clone(), &key, true).unwrap().unwrap();
    assert_eq!(logs.len(), 2);
    match &logs[0] {
        LogEntry::ParsedLog(ParsedLogEntry::Http { unique_id, full_id, raw_request, .. }) => {
            assert_eq!(unique_id, "abc");
            assert_eq!(full_id, "abc123");
            assert_eq!(raw_request, "GET / HTTP/1.1");
        }
        other => panic!("expected an HTTP record, got {:?}", other),
    }
    assert_eq!(logs[1], LogEntry::RawLog(RawLog { log_entry: "not json".into() }));

    let raw = decrypt_logs(response, &key, false).unwrap().unwrap();
    assert_eq!(raw[0], LogEntry::RawLog(RawLog { log_entry: HTTP_PAYLOAD.into() }));
}

#[test]
fn pipeline_errors() {
    let key = RustCryptoPrivateKey::new_with_settings(RustCryptoPrivateKeySize(1024)).unwrap();
    let bad_key_text = PollResponse { aes_key: "%%%".into(), data_list: Some(vec!["AAAA".into()]) };
    assert_eq!(decrypt_logs(bad_key_text, &key, true), Err(PollError::AesBase64DecodeFailed));
    let unwrappable = PollResponse { aes_key: b64(b"garbage"), data_list: Some(vec!["AAAA".into()]) };
    assert_eq!(decrypt_logs(unwrappable, &key, true), Err(PollError::AesKeyDecryptFailed));
    let mut bad_payload = wrapped_poll(&key, &["x"]);
    bad_payload.data_list = Some(vec!["***".into()]);
    assert_eq!(decrypt_logs(bad_payload, &key, true), Err(PollError::DataBase64DecodeFailed));
    let mut short_payload = wrapped_poll(&key, &["x"]);
    short_payload.data_list = Some(vec![b64(&[1, 2, 3])]);
    assert_eq!(decrypt_logs(short_payload, &key, true), Err(PollError::DataDecryptFailed));
    assert_eq!(decrypt_payload(&[1u8; 20], &b64(&[0u8; 20]), true), Err(PollError::DataDecryptFailed));
}

#[test]
fn payload_decrypts_under_a_short_key() {
    let key = [3u8; 16];
    let iv = [5u8; 16];
    let mut buf = b"plain words".to_vec();
    cfb_mode::Encryptor::<aes::Aes128>::new((&key).into(), (&iv).into()).encrypt(&mut buf);
    let mut payload = iv.to_vec();
    payload.extend_from_slice(&buf);
    assert_eq!(
        decrypt_payload(&key, &b64(&payload), false),
        Ok(LogEntry::RawLog(RawLog { log_entry: "plain words".into() }))
    );
    let mut invalid = iv.to_vec();
    let mut bytes = vec![0xffu8, b'a'];
    cfb_mode::Encryptor::<aes::Aes128>::new((&key).into(), (&iv).into()).encrypt(&mut bytes);
    invalid.extend_from_slice(&bytes);
    assert_eq!(
        decrypt_payload(&key, &b64(&invalid), false),
        Ok(LogEntry::RawLog(RawLog { log_entry: "\u{fffd}a".into() }))
    );
}

#[test]
fn builder_default_build_succeeds() {
    let _builder = ClientBuilder::default().build().expect("Default build failed");
}

#[test]
fn builder_empty_builder_fails() {
    let _builder = ClientBuilder::new().build().err().expect("Empty builder did not fail as expected");
}

#[test]
fn builder_build_with_server_and_rsa_only_succeeds() {
    let _builder = ClientBuilder::new()
        .with_server("oast.pro".into())
        .with_rsa_key_size(2048)
        .build()
        .expect("Build with only server and rsa failed");
}

#[test]
fn builder_build_with_all_options_succeeds() {
    let token: String = (0..32).map(|i| format!("{:02x}", i * 7 % 256)).collect();
    let parts = ClientBuilder::new()
        .with_server("oast.pro".into())
        .with_rsa_key_size(2048)
        .with_auth_token(token.clone())
        .with_timeout(std::time::Duration::from_secs(30))
        .verify_ssl(true)
        .parse_logs(false)
        .build()
        .expect("Build with all options failed");
    assert_eq!(parts.server_comm.auth_token, Some(AuthToken::SimpleAuth(token.clone())));
    assert_eq!(parts.server_comm.authorization(), Some(token));
    assert_eq!(parts.timeout, std::time::Duration::from_secs(30));
    assert!(parts.ssl_verify);
    assert!(!parts.parse_logs);
    assert_eq!(parts.server_comm.status, ClientStatus::Unregistered);
    assert_eq!(parts.server_comm.secret_key.len(), 36);
}

#[test]
fn builder_build_with_only_server_fails() {
    let e = ClientBuilder::new()
        .with_server("oast.pro".into())
        .build()
        .err()
        .expect("Server-only build did not fail as expected");
    assert_eq!(e, ClientBuildError::MissingRsaKeyOption);
}

#[test]
fn builder_build_with_only_rsa_fails() {
    let e = ClientBuilder::new()
        .with_rsa_key_size(2048)
        .build()
        .err()
        .expect("RSA-only build did not fail as expected");
    assert_eq!(e, ClientBuildError::MissingServer);
}

#[test]
fn builder_refuses_small_keys() {
    let e = ClientBuilder::new().with_server("oast.pro".into()).with_rsa_key_size(256).build().err().unwrap();
    assert_eq!(e, ClientBuildError::RsaGen(CryptoError::PkeyGen));
}

#[test]
fn default_servers_are_picked_round_the_pool() {
    assert_eq!(pick_default_server(0), "oast.pro");
    assert_eq!(pick_default_server(4), "oast.fun");
    assert_eq!(pick_default_server(7), "oast.site");
}

#[test]
fn authorization_header_forms() {
    assert_eq!(AuthToken::SimpleAuth("tok".into()).header_value(), "tok");
    assert_eq!(AuthToken::BearerAuth("tok".into()).header_value(), "Bearer tok");
    let comm = ServerComm::new("s".into(), Some(AuthToken::BearerAuth("abc".into())), "k".into(), "p".into(), None);
    assert_eq!(comm.authorization(), Some("Bearer abc".to_string()));
    let builder = ClientBuilder::new().with_auth(AuthToken::BearerAuth("x".into()));
    assert_eq!(builder.auth_token, Some(AuthToken::BearerAuth("x".into())));
}
